//! The client's side of an exchange with the child: what an answer must
//! look like to be taken.

use crate::error::{TransportError, TransportErrorView};
use crate::wire::EmbedRequest;
use vstd::prelude::*;
use vstd::string::*;

verus! {

/// The text of the protocol violation that an answer with the wrong number
/// of vectors is.
pub open spec fn count_mismatch() -> Seq<char> {
    "the response does not hold one vector for each sequence of the request"@
}

/// What the client makes of the channel's answer to a request for
/// `expected` sequences: a channel failure stays what it is, an answer of
/// `expected` vectors is taken as it is, and any other answer is a protocol
/// violation.
pub open spec fn checked_reply<T>(
    expected: nat,
    reply: Result<Vec<Vec<T>>, TransportError>,
) -> Result<Seq<Vec<T>>, TransportErrorView> {
    match reply {
        Err(failure) => Err(failure@),
        Ok(vectors) => if vectors@.len() == expected {
            Ok(vectors@)
        } else {
            Err(TransportErrorView::Protocol(count_mismatch()))
        },
    }
}

/// Holds the channel's answer against the request it answers.
///
/// The answer is taken only if it holds exactly one vector for each
/// sequence of the request; the vectors then come back in the order in which
/// they came. Nothing is retried and nothing is kept.
pub fn check_reply<T>(request: &EmbedRequest, reply: Result<Vec<Vec<T>>, TransportError>) -> (outcome:
    Result<Vec<Vec<T>>, TransportError>)
    ensures
        match checked_reply(request@.sequence_count(), reply) {
            Ok(vectors) => outcome matches Ok(taken) && taken@ == vectors,
            Err(failure) => outcome matches Err(reported) && reported@ == failure,
        },
{
    match reply {
        Err(failure) => Err(failure),
        Ok(vectors) => {
            if vectors.len() == request.sequence_count() {
                Ok(vectors)
            } else {
                Err(
                    TransportError::Protocol(
                        String::from_str(
                            "the response does not hold one vector for each sequence of the request",
                        ),
                    ),
                )
            }
        },
    }
}

} // verus!
