//! The example plugin function: it plans to run, and running it changes
//! nothing.
use vstd::prelude::*;

verus! {

/// The `example` function of the example plugin.
#[derive(Debug, PartialEq, Eq)]
pub struct Example;

impl Example {
    /// Planning always finds that the function should run.
    pub fn plan(&self, arguments: &Vec<String>) -> (r: Result<bool, String>)
        ensures
            r == Ok::<bool, String>(true),
    {
        Ok(true)
    }

    /// Running always succeeds.
    pub fn run(&self, arguments: &Vec<String>) -> (r: Result<(), String>)
        ensures
            r is Ok,
    {
        Ok(())
    }
}

} // verus!
