//! The adapter's error type.
use vstd::prelude::*;

verus! {

broadcast use vstd::string::to_string_from_display_ensures_for_str;

/// An error from a draw call on the plotting surface.
///
/// The adapter models drawing as infallible: every draw call's contract
/// promises `Ok`, so no code path ever produces a value of this type. The
/// one variant exists only so the type is well-formed; a host-canvas
/// failure is not observable through this contract.
#[derive(Clone, Copy, Debug, PartialEq, Eq, Structural)]
pub enum PlotErr {
    Drawing,
}

impl PlotErr {
    /// The human-readable description of a plotting error.
    pub fn message(&self) -> (s: String)
        ensures
            s@ == "Plotting Error"@,
    {
        "Plotting Error".to_string()
    }
}

} // verus!
