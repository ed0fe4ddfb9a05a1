//! Registration requests for workflow states.
//!
//! A state is a named node of a diagram's workflow, referenced by its code
//! alone; a code must be non-empty to be usable as a node identifier.

use vstd::prelude::*;

use crate::errors::Error;

verus! {

/// A request to register a workflow state.
#[derive(Debug)]
pub struct StateCreateRequest {
    /// The state code; unique within a diagram and non-empty.
    pub code: String,
}

/// Shape validation for a state registration: the code must be non-empty.
pub fn validate(req: &StateCreateRequest) -> (r: Result<(), Error>)
    ensures
        r is Ok <==> req.code@.len() > 0,
        r matches Err(e) ==> e is Validation,
        r matches Err(Error::Validation(m)) ==> m@ == "Code is empty"@,
{
    if req.code.as_str().is_empty() {
        return Err(Error::Validation("Code is empty".to_owned()));
    }
    Ok(())
}

} // verus!
