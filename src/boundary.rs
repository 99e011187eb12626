//! What the caller-facing entry point does with each outcome of a dispatch:
//! it retries while the runtime is not up yet and otherwise always answers
//! with some string.
use vstd::prelude::*;
use crate::error::DispatchError;

verus! {

/// The next move of the caller-facing entry point.
#[derive(Debug, PartialEq, Eq)]
pub enum BoundaryAction {
    /// Yield, then dispatch the same message again.
    Retry,
    /// Hand this string back to the caller.
    Respond(String),
}

/// The documented error body for a failed dispatch.
pub open spec fn error_body(e: DispatchError) -> Seq<char> {
    match e {
        DispatchError::NotInitialized => "{ \"type\": \"error\", \"payload\": \"runtime not initialized\" }"@,
        DispatchError::AlreadyRegistered => "{ \"type\": \"error\", \"payload\": \"actor already registered\" }"@,
        DispatchError::QueueClosed => "{ \"type\": \"error\", \"payload\": \"actor inbox closed\" }"@,
        DispatchError::ReplyPathClosed => "{ \"type\": \"error\", \"payload\": \"reply path closed\" }"@,
        DispatchError::ConfigurationError => "{ \"type\": \"error\", \"payload\": \"configuration error\" }"@,
    }
}

impl DispatchError {
    /// The error body sent back across the boundary for this error.
    pub fn to_body(&self) -> (r: String)
        ensures
            r@ == error_body(*self),
    {
        match self {
            DispatchError::NotInitialized => "{ \"type\": \"error\", \"payload\": \"runtime not initialized\" }".to_owned(),
            DispatchError::AlreadyRegistered => "{ \"type\": \"error\", \"payload\": \"actor already registered\" }".to_owned(),
            DispatchError::QueueClosed => "{ \"type\": \"error\", \"payload\": \"actor inbox closed\" }".to_owned(),
            DispatchError::ReplyPathClosed => "{ \"type\": \"error\", \"payload\": \"reply path closed\" }".to_owned(),
            DispatchError::ConfigurationError => "{ \"type\": \"error\", \"payload\": \"configuration error\" }".to_owned(),
        }
    }
}

/// The caller is told to retry exactly when no actor is registered yet; a
/// reply is handed back unchanged, a closed reply path becomes the empty
/// string, and any other failure becomes its error body.
pub fn boundary_action(outcome: Result<Option<String>, DispatchError>) -> (r: BoundaryAction)
    ensures
        r is Retry <==> outcome == Err::<Option<String>, DispatchError>(DispatchError::NotInitialized),
        outcome matches Ok(Some(s)) ==> r == BoundaryAction::Respond(s),
        outcome matches Ok(None) ==> (r matches BoundaryAction::Respond(s) && s@.len() == 0),
        outcome matches Err(e) ==> (e != DispatchError::NotInitialized
            ==> (r matches BoundaryAction::Respond(s) && s@ == error_body(e))),
{
    match outcome {
        Ok(Some(s)) => BoundaryAction::Respond(s),
        Ok(None) => BoundaryAction::Respond(String::new()),
        Err(DispatchError::NotInitialized) => BoundaryAction::Retry,
        Err(e) => BoundaryAction::Respond(e.to_body()),
    }
}

} // verus!
