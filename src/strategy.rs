use vstd::prelude::*;
use crate::text::str_equals;

verus! {

/// A breadth and pacing profile for a run.
#[derive(Clone, Copy, Debug, PartialEq, Eq, Structural)]
pub enum Strategy {
    Fast,
    Balanced,
    Thorough,
    Stealth,
}

/// Most probes in flight at once under any strategy.
pub const MAX_WORKERS: usize = 20;

/// Pause between two probes under the stealth strategy, in milliseconds.
pub const STEALTH_DELAY_MS: u64 = 500;

/// Largest number of variations one technique may emit under `s`.
pub open spec fn breadth_of(s: Strategy) -> nat {
    match s {
        Strategy::Fast => 8,
        Strategy::Balanced => 16,
        Strategy::Thorough => 32,
        Strategy::Stealth => 8,
    }
}

/// Largest number of variations a run over `n` techniques may produce.
pub open spec fn breadth_ceiling(s: Strategy, n: nat) -> nat {
    breadth_of(s) * n
}

/// Most probes in flight at once under `s`.
pub open spec fn workers_of(s: Strategy) -> nat {
    match s {
        Strategy::Stealth => 1,
        _ => if breadth_of(s) < MAX_WORKERS { breadth_of(s) } else { MAX_WORKERS as nat },
    }
}

/// The name by which a strategy is selected.
pub open spec fn strategy_name(s: Strategy) -> Seq<char> {
    match s {
        Strategy::Fast => "fast"@,
        Strategy::Balanced => "balanced"@,
        Strategy::Thorough => "thorough"@,
        Strategy::Stealth => "stealth"@,
    }
}

/// Wider strategies never allow fewer variations than narrower ones.
pub proof fn lemma_breadth_ordered(n: nat)
    ensures
        breadth_ceiling(Strategy::Thorough, n) >= breadth_ceiling(Strategy::Balanced, n),
        breadth_ceiling(Strategy::Balanced, n) >= breadth_ceiling(Strategy::Fast, n),
        breadth_of(Strategy::Thorough) >= breadth_of(Strategy::Balanced),
        breadth_of(Strategy::Balanced) >= breadth_of(Strategy::Fast),
{
    assert(32 * n >= 16 * n >= 8 * n) by (nonlinear_arith);
}

impl Strategy {
    /// The strategy called `name`, if any.
    pub fn from_name(name: &str) -> (r: Option<Strategy>)
        ensures
            r matches Some(s) ==> strategy_name(s) == name@,
            r is None ==> forall|s: Strategy| strategy_name(s) != name@,
    {
        if str_equals(name, "fast") {
            Some(Strategy::Fast)
        } else if str_equals(name, "balanced") {
            Some(Strategy::Balanced)
        } else if str_equals(name, "thorough") {
            Some(Strategy::Thorough)
        } else if str_equals(name, "stealth") {
            Some(Strategy::Stealth)
        } else {
            None
        }
    }

    /// The name by which this strategy is selected.
    pub fn name(&self) -> (r: &'static str)
        ensures
            r@ == strategy_name(*self),
    {
        match self {
            Strategy::Fast => "fast",
            Strategy::Balanced => "balanced",
            Strategy::Thorough => "thorough",
            Strategy::Stealth => "stealth",
        }
    }

    /// Largest number of variations one technique may emit.
    pub fn breadth(&self) -> (r: usize)
        ensures
            r == breadth_of(*self),
    {
        match self {
            Strategy::Fast => 8,
            Strategy::Balanced => 16,
            Strategy::Thorough => 32,
            Strategy::Stealth => 8,
        }
    }

    /// Most probes in flight at once.
    pub fn max_workers(&self) -> (r: usize)
        ensures
            r == workers_of(*self),
            1 <= r <= MAX_WORKERS,
    {
        match self {
            Strategy::Stealth => 1,
            _ => {
                let b = self.breadth();
                if b < MAX_WORKERS { b } else { MAX_WORKERS }
            },
        }
    }

    /// Pause between two probes, in milliseconds.
    pub fn delay_ms(&self) -> (r: u64)
        ensures
            r == (if *self == Strategy::Stealth { STEALTH_DELAY_MS } else { 0 }),
    {
        match self {
            Strategy::Stealth => STEALTH_DELAY_MS,
            _ => 0,
        }
    }
}

} // verus!
