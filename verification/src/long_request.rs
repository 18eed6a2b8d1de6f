//! The side channel of a request that takes long: a single call, by which the caller takes the
//! request back.

use vstd::prelude::*;

verus! {

/// The calls of the side channel.
#[derive(Debug, Clone, Copy, PartialEq, Eq, Structural)]
pub enum LongRequestMethod {
    Cancel,
}

/// The replies of the side channel.
#[derive(Debug, Clone, Copy, PartialEq, Eq, Structural)]
pub enum LongRequestReply {
    Cancel {},
}

/// The errors of the side channel.
#[derive(Debug, Clone, Copy, PartialEq, Eq, Structural)]
pub enum LongRequestError {
    Other,
}

/// The reply to a call.
pub fn handle(method: &LongRequestMethod) -> (r: Result<LongRequestReply, LongRequestError>)
    ensures
        r == match *method {
            LongRequestMethod::Cancel => Ok::<LongRequestReply, LongRequestError>(
                LongRequestReply::Cancel {  },
            ),
        },
{
    match method {
        LongRequestMethod::Cancel => Ok(LongRequestReply::Cancel {  }),
    }
}

/// Whether the request is taken back once a reply is sent: any reply but an error answers a call
/// to Cancel.
pub fn cancels(reply: &Result<LongRequestReply, LongRequestError>) -> (r: bool)
    ensures
        r == (*reply is Ok),
{
    match reply {
        Ok(_) => true,
        Err(_) => false,
    }
}

/// Cancel is answered, never refused, and a request is taken back if and only if its call was not
/// refused.
pub proof fn law_cancel(
    method: LongRequestMethod,
    reply: Result<LongRequestReply, LongRequestError>,
    taken_back: bool,
    refused_taken_back: bool,
)
    requires
        call_ensures(handle, (&method,), reply),
        call_ensures(cancels, (&reply,), taken_back),
        call_ensures(
            cancels,
            (&Err::<LongRequestReply, LongRequestError>(LongRequestError::Other),),
            refused_taken_back,
        ),
    ensures
        reply is Ok,
        taken_back,
        !refused_taken_back,
{
}

} // verus!
