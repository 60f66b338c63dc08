use vstd::prelude::*;

verus! {

use crate::control::{attitude_spec, decode_attitude, A8MiniAtittude, A8MiniError};
use vstd::slice::slice_subrange;

/// The outcome of a send, from the number of bytes the transport took: sending
/// nothing is a transport error.
pub fn check_sent(send_len: usize) -> (r: Result<(), A8MiniError>)
    ensures
        send_len == 0 ==> r == Err::<(), A8MiniError>(A8MiniError::TransportError),
        send_len > 0 ==> r == Ok::<(), A8MiniError>(()),
{
    if send_len == 0 {
        Err(A8MiniError::TransportError)
    } else {
        Ok(())
    }
}

/// The outcome of waiting for a reply: `None` when the wait timed out, else the number
/// of bytes received. A timeout stays distinct from receiving nothing.
pub fn check_received(received: Option<usize>) -> (r: Result<usize, A8MiniError>)
    ensures
        received is None ==> r == Err::<usize, A8MiniError>(A8MiniError::Timeout),
        received == Some(0usize) ==> r == Err::<usize, A8MiniError>(A8MiniError::TransportError),
        received matches Some(n) ==> (n > 0 ==> r == Ok::<usize, A8MiniError>(n)),
{
    match received {
        None => Err(A8MiniError::Timeout),
        Some(recv_len) => {
            if recv_len == 0 {
                Err(A8MiniError::TransportError)
            } else {
                Ok(recv_len)
            }
        },
    }
}

/// The attitude carried by the reply to an attitude request, from how the wait for
/// the reply ended and the buffer it was received into.
pub fn attitude_from_reply(received: Option<usize>, buffer: &[u8]) -> (r: Result<
    A8MiniAtittude,
    A8MiniError,
>)
    requires
        received matches Some(n) ==> n <= buffer@.len(),
    ensures
        received is None ==> r == Err::<A8MiniAtittude, A8MiniError>(A8MiniError::Timeout),
        received == Some(0usize) ==> r == Err::<A8MiniAtittude, A8MiniError>(
            A8MiniError::TransportError,
        ),
        received matches Some(n) ==> (0 < n < 12 ==> r == Err::<A8MiniAtittude, A8MiniError>(
            A8MiniError::MalformedReply,
        )),
        received matches Some(n) ==> (n >= 12 ==> r == Ok::<A8MiniAtittude, A8MiniError>(
            attitude_spec(buffer@),
        )),
{
    match check_received(received) {
        Err(e) => Err(e),
        Ok(recv_len) => {
            let reply = slice_subrange(buffer, 0, recv_len);
            let r = decode_attitude(reply);
            assert(recv_len >= 12 ==> attitude_spec(reply@) == attitude_spec(buffer@));
            r
        },
    }
}

} // verus!
