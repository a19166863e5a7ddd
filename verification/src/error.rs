use vstd::prelude::*;

verus! {

broadcast use vstd::string::to_string_from_display_ensures_for_str;

/// The single error a facade can report: the paired module never finished
/// loading successfully, either because no load has resolved yet or because
/// the external loader reported failure.
#[non_exhaustive]
#[derive(Debug, Clone, PartialEq, Eq)]
pub enum SplitLoaderError {
    FailedToLoad,
}

impl SplitLoaderError {
    /// Human-readable description of the error.
    pub fn message(&self) -> (s: String)
        ensures
            s@ == "Failed to load wasm-split module"@,
    {
        "Failed to load wasm-split module".to_string()
    }
}

} // verus!
