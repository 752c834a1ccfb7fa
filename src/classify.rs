use vstd::prelude::*;
use crate::request::Header;

verus! {

/// What was observed of one HTTP exchange.
#[derive(Clone, Debug)]
pub struct ResponseSignature {
    pub status_code: u16,
    pub body_size: u64,
    pub headers: Vec<Header>,
    pub elapsed_ms: u64,
}

/// The three-way outcome of comparing a response with the baseline.
#[derive(Clone, Copy, Debug, PartialEq, Eq, Structural)]
pub enum Classification {
    Bypass,
    NoBypass,
    Inconclusive,
}

/// Why a probe was classified as it was.
#[derive(Clone, Copy, Debug, PartialEq, Eq, Structural)]
pub enum Reason {
    /// Denied at baseline, allowed for the variation.
    StatusChange,
    /// Denied at baseline with the same status, but a different body.
    ContentChange,
    /// Status and body size as at baseline.
    MatchesBaseline,
    /// Neither a bypass nor a match.
    AmbiguousSignal,
    /// No response was obtained.
    TransportError,
}

/// How far a body size may stray from the baseline's and still count as the
/// same: `absolute` bytes, or `percent` of the baseline size, whichever is
/// larger.
#[derive(Clone, Copy, Debug, PartialEq, Eq, Structural)]
pub struct Tolerance {
    pub absolute: u64,
    pub percent: u64,
}

/// Default absolute body-size tolerance, in bytes.
pub const DEFAULT_TOLERANCE_BYTES: u64 = 16;

/// Default relative body-size tolerance, in percent of the baseline size.
pub const DEFAULT_TOLERANCE_PERCENT: u64 = 5;

/// A status that denies access: 401, 403 or 404.
pub open spec fn is_denial(status: u16) -> bool {
    status == 401 || status == 403 || status == 404
}

/// A status that grants access or redirects: 2xx or 3xx.
pub open spec fn is_allowed(status: u16) -> bool {
    200 <= status && status < 400
}

/// The allowed deviation from a baseline body of `base` bytes.
pub open spec fn allowed_deviation(tol: Tolerance, base: u64) -> int {
    let rel = (base as int) * (tol.percent as int) / 100;
    if rel > tol.absolute as int { rel } else { tol.absolute as int }
}

/// `size` is within tolerance of `base`.
pub open spec fn within_tolerance(tol: Tolerance, base: u64, size: u64) -> bool {
    let d = if size >= base { size - base } else { base - size };
    d <= allowed_deviation(tol, base)
}

/// The classification of a response against the baseline.
pub open spec fn classify_spec(
    tol: Tolerance,
    base_status: u16,
    base_size: u64,
    status: u16,
    size: u64,
) -> (Classification, Reason) {
    if status != base_status && is_allowed(status) && is_denial(base_status) {
        (Classification::Bypass, Reason::StatusChange)
    } else if status == base_status && !within_tolerance(tol, base_size, size) && is_denial(
        base_status,
    ) {
        (Classification::Bypass, Reason::ContentChange)
    } else if status == base_status && within_tolerance(tol, base_size, size) {
        (Classification::NoBypass, Reason::MatchesBaseline)
    } else {
        (Classification::Inconclusive, Reason::AmbiguousSignal)
    }
}

impl Tolerance {
    /// The tolerance used when none is configured.
    pub fn standard() -> (r: Tolerance)
        ensures
            r.absolute == DEFAULT_TOLERANCE_BYTES,
            r.percent == DEFAULT_TOLERANCE_PERCENT,
    {
        Tolerance { absolute: DEFAULT_TOLERANCE_BYTES, percent: DEFAULT_TOLERANCE_PERCENT }
    }

    /// Whether `size` is within tolerance of `base`.
    pub fn accepts(&self, base: u64, size: u64) -> (r: bool)
        ensures
            r == within_tolerance(*self, base, size),
    {
        let d: u64 = if size >= base { size - base } else { base - size };
        let b: u128 = base as u128;
        let pc: u128 = self.percent as u128;
        assert(b * pc <= 0xffff_ffff_ffff_ffffu128 * 0xffff_ffff_ffff_ffffu128) by (nonlinear_arith)
            requires
                b <= 0xffff_ffff_ffff_ffffu128,
                pc <= 0xffff_ffff_ffff_ffffu128,
        ;
        let prod: u128 = b * pc;
        let rel: u128 = prod / 100;
        let allowed: u128 = if rel > self.absolute as u128 { rel } else { self.absolute as u128 };
        (d as u128) <= allowed
    }
}

impl Reason {
    /// The reason as it appears in reports.
    pub fn as_str(&self) -> (r: &'static str)
        ensures
            r@ == reason_text(*self),
    {
        match self {
            Reason::StatusChange => "status_change",
            Reason::ContentChange => "content_change",
            Reason::MatchesBaseline => "matches_baseline",
            Reason::AmbiguousSignal => "ambiguous_signal",
            Reason::TransportError => "transport_error",
        }
    }
}

/// The text of a reason in reports.
pub open spec fn reason_text(r: Reason) -> Seq<char> {
    match r {
        Reason::StatusChange => "status_change"@,
        Reason::ContentChange => "content_change"@,
        Reason::MatchesBaseline => "matches_baseline"@,
        Reason::AmbiguousSignal => "ambiguous_signal"@,
        Reason::TransportError => "transport_error"@,
    }
}

/// Classifies a response of `status` and `size` bytes against a baseline of
/// `base_status` and `base_size` bytes.
pub fn classify(
    tol: &Tolerance,
    base_status: u16,
    base_size: u64,
    status: u16,
    size: u64,
) -> (r: (Classification, Reason))
    ensures
        r == classify_spec(*tol, base_status, base_size, status, size),
{
    let denied = base_status == 401 || base_status == 403 || base_status == 404;
    let allowed = 200 <= status && status < 400;
    let close = tol.accepts(base_size, size);
    if status != base_status && allowed && denied {
        (Classification::Bypass, Reason::StatusChange)
    } else if status == base_status && !close && denied {
        (Classification::Bypass, Reason::ContentChange)
    } else if status == base_status && close {
        (Classification::NoBypass, Reason::MatchesBaseline)
    } else {
        (Classification::Inconclusive, Reason::AmbiguousSignal)
    }
}

/// Classifies the response to a variation against the baseline response.
pub fn classify_response(
    tol: &Tolerance,
    baseline: &ResponseSignature,
    response: &ResponseSignature,
) -> (r: (Classification, Reason))
    ensures
        r == classify_spec(
            *tol,
            baseline.status_code,
            baseline.body_size,
            response.status_code,
            response.body_size,
        ),
{
    classify(tol, baseline.status_code, baseline.body_size, response.status_code, response.body_size)
}

} // verus!
