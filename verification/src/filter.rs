use vstd::prelude::*;

verus! {

/// Lower bound (inclusive) of the default excluded category range.
pub const EXCLUDED_LO: u16 = 20000;
/// Upper bound (exclusive) of the default excluded category range.
pub const EXCLUDED_HI: u16 = 30000;

/// A configured half-open range `[lo, hi)` of event categories that are
/// excluded from notarization (ephemeral, non-durable event classes).
#[derive(Clone, Copy, PartialEq, Eq, Structural)]
pub struct FilterConfig {
    pub lo: u16,
    pub hi: u16,
}

/// An event category is eligible for notarization exactly when it lies
/// outside the configured exclusion range.
pub open spec fn eligible(cfg: FilterConfig, category: u16) -> bool {
    !(cfg.lo <= category < cfg.hi)
}

impl FilterConfig {
    /// The default configuration: excludes the ephemeral category range.
    pub fn ephemeral() -> (r: FilterConfig)
        ensures
            r.lo == EXCLUDED_LO,
            r.hi == EXCLUDED_HI,
    {
        FilterConfig { lo: EXCLUDED_LO, hi: EXCLUDED_HI }
    }
}

/// The event filter: a pure, deterministic predicate deciding whether an
/// event of the given category may be notarized.
pub fn is_eligible(cfg: &FilterConfig, category: u16) -> (r: bool)
    ensures
        r == eligible(*cfg, category),
{
    !(cfg.lo <= category && category < cfg.hi)
}

} // verus!
