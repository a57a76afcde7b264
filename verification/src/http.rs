//! The answer of a worker of the test server.
use vstd::prelude::*;

verus! {

/// A worker of the test server, known by its name.
#[derive(Debug, Clone, PartialEq, Eq)]
pub struct Worker {
    pub name: String,
}

impl Worker {
    /// The body a worker answers every request with: `Hello from worker `
    /// followed by its name.
    pub fn response_text(&self) -> (res: String)
        ensures
            res@ == "Hello from worker "@ + self.name@,
    {
        let mut res = "Hello from worker ".to_owned();
        res.append(self.name.as_str());
        res
    }
}

} // verus!
