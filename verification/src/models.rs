//! Records handed back to the command front-end.

use vstd::prelude::*;
use vstd::string::*;

pub mod housekeeping;
pub mod last_error;

verus! {

/// Generic mutation response struct
#[derive(Clone, Debug)]
pub struct MutationResponse {
    /// Any errors which occurred during the mutation
    pub errors: String,
    /// Success or fail status of the mutation
    pub success: bool,
}

/// Common response fields structure for requests
/// which don't return any specific data
#[derive(Clone, Debug)]
pub struct GenericResponse {
    /// Any errors encountered by the request
    pub errors: String,
    /// Request completion success or failure
    pub success: bool,
}

impl MutationResponse {
    /// The response of a mutation that went through: no error text.
    pub fn succeeded() -> (response: MutationResponse)
        ensures
            response.success,
            response.errors@ == Seq::<char>::empty(),
    {
        MutationResponse { errors: String::new(), success: true }
    }

    /// The response of a mutation that failed with the given error text.
    pub fn failed(errors: String) -> (response: MutationResponse)
        ensures
            !response.success,
            response.errors@ == errors@,
    {
        MutationResponse { errors, success: false }
    }
}

impl GenericResponse {
    /// The response of a request that went through: no error text.
    pub fn new() -> (response: GenericResponse)
        ensures
            response.success,
            response.errors@ == Seq::<char>::empty(),
    {
        GenericResponse { errors: String::new(), success: true }
    }

    /// The response of a request that failed with the given error text.
    pub fn failed(errors: String) -> (response: GenericResponse)
        ensures
            !response.success,
            response.errors@ == errors@,
    {
        GenericResponse { errors, success: false }
    }
}

} // verus!
