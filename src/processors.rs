//! Whole-string converters for each convention.
use vstd::prelude::*;

verus! {

/// Whole-string Telex conversion. It converts nothing: Telex text is
/// produced keystroke by keystroke by `UnikeyEngine`.
pub struct TelexProcessor {}

impl TelexProcessor {
    pub fn new() -> (r: Self) {
        Self {  }
    }

    /// Never yields a conversion.
    pub fn process(&self, _input: &str) -> (r: Option<String>)
        ensures
            r is None,
    {
        None
    }

    /// No input is convertible here.
    pub fn can_transform(&self, _input: &str) -> (r: bool)
        ensures
            !r,
    {
        false
    }
}

/// Whole-string VNI conversion. It converts nothing: VNI text is produced
/// keystroke by keystroke by `UnikeyEngine`.
pub struct VniProcessor {}

impl VniProcessor {
    pub fn new() -> (r: Self) {
        Self {  }
    }

    /// Never yields a conversion.
    pub fn process(&self, _input: &str) -> (r: Option<String>)
        ensures
            r is None,
    {
        None
    }

    /// No input is convertible here.
    pub fn can_transform(&self, _input: &str) -> (r: bool)
        ensures
            !r,
    {
        false
    }
}

} // verus!
