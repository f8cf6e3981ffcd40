use vstd::prelude::*;
use vstd::utf8::{encode_utf8, valid_utf8};
use crate::reader::ReadEvent;
use crate::text::{lemma_text_bytes_decode, lossy_text, utf8_lossy};

verus! {

/// Whether the bytes a tunnel client sent when it connected, read as text,
/// are the relay's key.
pub fn key_accepted(received: &[u8], key: &String) -> (accepted: bool)
    ensures
        accepted == (lossy_text(received@) == key@),
        valid_utf8(received@) ==> (accepted <==> received@ == encode_utf8(key@)),
{
    let text = utf8_lossy(received);
    proof {
        lemma_text_bytes_decode(key@);
        if valid_utf8(received@) {
            vstd::utf8::decode_utf8_encode_utf8(received@);
        }
    }
    text == *key
}

/// Whether a heartbeat read on the control connection shows the tunnel
/// client still there: the read completed and was not empty.
pub fn heartbeat_alive(ev: ReadEvent) -> (alive: bool)
    ensures
        alive == (ev matches ReadEvent::Read(n) && n != 0),
{
    match ev {
        ReadEvent::Read(n) => n != 0,
        _ => false,
    }
}

} // verus!
