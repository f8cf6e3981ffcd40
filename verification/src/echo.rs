use vstd::prelude::*;
use vstd::string::StringExecFns;
use vstd::utf8::{decode_utf8, valid_utf8};
use crate::text::{lossy_text, utf8_lossy};

verus! {

/// The answer of the test echo service: its configured response, a space,
/// then the received datagram read as text.
pub fn echo_reply(response: &str, received: &[u8]) -> (reply: String)
    ensures
        reply@ == response@ + seq![' '] + lossy_text(received@),
        valid_utf8(received@) ==> reply@ == response@ + seq![' '] + decode_utf8(received@),
{
    let text = utf8_lossy(received);
    let mut reply = String::from_str(response);
    reply.append(" ");
    reply.append(text.as_str());
    proof {
        reveal_strlit(" ");
    }
    reply
}

/// The text the test client prints of the answer it received.
pub fn reply_text(received: &[u8]) -> (text: String)
    ensures
        text@ == lossy_text(received@),
        valid_utf8(received@) ==> text@ == decode_utf8(received@),
{
    utf8_lossy(received)
}

} // verus!
