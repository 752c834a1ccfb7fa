use vstd::prelude::*;

verus! {

/// What can go wrong in the engine.
#[derive(Clone, Debug, PartialEq, Eq)]
pub enum BypsError {
    /// The target is not an absolute http or https URL.
    InvalidUrl(String),
    /// A requested technique is not in the catalog.
    UnknownTechnique(String),
    /// The technique selection names no technique.
    EmptyTechniqueSet,
    /// The strategy name is not one of fast, balanced, thorough, stealth.
    UnknownStrategy(String),
    /// The reference request to the unmodified target failed.
    BaselineUnreachable(String),
    /// A transport failure while probing.
    NetworkError(String),
    /// A probe did not complete in time.
    Timeout,
    /// A probe made to fingerprint the WAF failed.
    FingerprintProbeError(String),
    /// A report could not be read or written.
    ParseError(String),
    /// The command line is not one this program takes.
    Usage(String),
}

} // verus!
