//! Defining runnable tests over resolved artifacts.

use vstd::prelude::*;

verus! {

/// The kind of disk image a test harness builds for the guest agent.
#[derive(Debug, Clone, Copy, PartialEq, Eq, Structural)]
pub enum ImageType {
    /// A raw disk image.
    Raw,
    /// A virtual hard disk.
    Vhd,
}

/// A test defined by a fixed name, a set of required artifacts, and a run
/// function.
pub struct SimpleTest<F> {
    /// The leaf name of the test; the harness prefixes it with the module
    /// where the test is defined.
    pub leaf_name: String,
    /// Names of the artifacts the test requires.
    pub requirements: Vec<String>,
    /// The function that runs the test.
    pub run: F,
}

impl<F> SimpleTest<F> {
    /// A new test with the given `leaf_name`, `requirements`, and `run`
    /// functions.
    pub fn new(leaf_name: String, requirements: Vec<String>, run: F) -> (r: SimpleTest<F>)
        ensures
            r.leaf_name@ == leaf_name@,
            r.requirements@ == requirements@,
            r.run == run,
    {
        SimpleTest { leaf_name, requirements, run }
    }

    /// The leaf name of the test.
    pub fn leaf_name(&self) -> (r: &str)
        ensures
            r@ == self.leaf_name@,
    {
        self.leaf_name.as_str()
    }
}

} // verus!
