//! A service with one call that does nothing: a caller that gets an answer
//! from it has passed the authenticator.

use crate::request::Request;
use crate::status::Status;
use vstd::prelude::*;

verus! {

#[derive(Debug)]
pub struct AuthenticationTester {}

impl AuthenticationTester {
    pub fn new() -> (tester: AuthenticationTester) {
        AuthenticationTester {  }
    }

    /// Answers every call that reaches it.
    pub fn test_authentication(&self, request: Request<()>) -> (answer: Result<(), Status>)
        ensures
            answer is Ok,
    {
        Ok(())
    }
}

impl Default for AuthenticationTester {
    fn default() -> (tester: AuthenticationTester) {
        AuthenticationTester::new()
    }
}

} // verus!
