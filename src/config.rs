use vstd::prelude::*;

verus! {

/// Settings of a run.
#[derive(Clone, Debug, PartialEq, Eq)]
pub struct Config {
    /// Per-request timeout, in seconds.
    pub timeout: u32,
    pub retries: u32,
    /// Most probes in flight at once.
    pub concurrent: u32,
    pub verbosity: String,
    pub techniques: Vec<String>,
    pub strategy: String,
}

impl Default for Config {
    fn default() -> (r: Config)
        ensures
            r.timeout == 10,
            r.retries == 3,
            r.concurrent == 10,
            r.verbosity@ == "info"@,
            r.techniques@.len() == 2,
            r.techniques@[0]@ == "path_bypass"@,
            r.techniques@[1]@ == "header_forge"@,
            r.strategy@ == "balanced"@,
    {
        let mut techniques: Vec<String> = Vec::new();
        techniques.push("path_bypass".to_owned());
        techniques.push("header_forge".to_owned());
        Config {
            timeout: 10,
            retries: 3,
            concurrent: 10,
            verbosity: "info".to_owned(),
            techniques,
            strategy: "balanced".to_owned(),
        }
    }
}

} // verus!
