//! The ways in which a call to the service fails.
use crate::trusted::{error_timed_out, timed_out};
use vstd::prelude::*;

verus! {

/// A failed call. Nothing is retried or passed over: each failure reaches
/// the caller as one of these.
#[derive(Debug)]
pub enum SendflareError {
    /// The transport could not be set up when the client was made.
    Construction(reqwest::Error),
    /// The time allowed for the request ran out before the answer was
    /// complete.
    Timeout(reqwest::Error),
    /// The request got no answer for another reason: the network failed or
    /// the connection broke.
    Transport(reqwest::Error),
    /// The service answered with a status outside 200 to 299, which is
    /// carried. The body of such an answer is not read.
    Status(u16),
    /// The service answered with a body that is no JSON document or not of
    /// the expected shape. The body is carried as it came.
    Decode(String),
}

impl SendflareError {
    /// The failure of a request that got no answer, given whether its time
    /// ran out.
    pub fn transport_failure(out_of_time: bool, cause: reqwest::Error) -> (error: SendflareError)
        ensures
            error == if out_of_time {
                SendflareError::Timeout(cause)
            } else {
                SendflareError::Transport(cause)
            },
    {
        if out_of_time {
            SendflareError::Timeout(cause)
        } else {
            SendflareError::Transport(cause)
        }
    }

    /// The failure that stands for an error of the transport: a timeout
    /// where the transport says that time ran out, a transport failure
    /// otherwise. Either carries the error.
    pub fn from_transport_error(cause: reqwest::Error) -> (error: SendflareError)
        ensures
            error == if error_timed_out(cause) {
                SendflareError::Timeout(cause)
            } else {
                SendflareError::Transport(cause)
            },
    {
        let out_of_time = timed_out(&cause);
        SendflareError::transport_failure(out_of_time, cause)
    }
}

} // verus!
