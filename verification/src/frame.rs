use vstd::prelude::*;
use vstd::string::StringSliceAdditionalSpecFns;

verus! {

/// The four bytes that announce a body of `len` bytes: the low 32 bits of
/// `len`, most significant byte first (the big-endian form of `len as i32`).
pub open spec fn size_header(len: nat) -> Seq<u8> {
    seq![
        ((len / 0x100_0000) % 0x100) as u8,
        ((len / 0x1_0000) % 0x100) as u8,
        ((len / 0x100) % 0x100) as u8,
        (len % 0x100) as u8,
    ]
}

/// Encodes the size header of a body of `len` bytes.
pub fn encode_size(len: usize) -> (header: [u8; 4])
    ensures
        header@ == size_header(len as nat),
{
    let b0 = (len >> 24) as u8;
    let b1 = (len >> 16) as u8;
    let b2 = (len >> 8) as u8;
    let b3 = len as u8;
    assert(b0 == ((len / 0x100_0000) % 0x100) as u8) by (bit_vector)
        requires b0 == (len >> 24) as u8;
    assert(b1 == ((len / 0x1_0000) % 0x100) as u8) by (bit_vector)
        requires b1 == (len >> 16) as u8;
    assert(b2 == ((len / 0x100) % 0x100) as u8) by (bit_vector)
        requires b2 == (len >> 8) as u8;
    assert(b3 == (len % 0x100) as u8) by (bit_vector)
        requires b3 == len as u8;
    let header = [b0, b1, b2, b3];
    assert(header@ =~= size_header(len as nat));
    header
}

/// The unsigned big-endian value of four header bytes.
pub open spec fn header_word(h: Seq<u8>) -> int {
    h[0] * 0x100_0000 + h[1] * 0x1_0000 + h[2] * 0x100 + h[3]
}

/// The signed size that four header bytes announce (`i32::from_be_bytes`).
pub open spec fn header_size(h: Seq<u8>) -> int {
    if header_word(h) < 0x8000_0000 {
        header_word(h)
    } else {
        header_word(h) - 0x1_0000_0000
    }
}

/// Decodes the signed size a header announces.
pub fn decode_size(header: [u8; 4]) -> (size: i32)
    ensures
        size as int == header_size(header@),
{
    let w: u32 = ((header[0] as u32) << 24) | ((header[1] as u32) << 16) | ((header[2] as u32) << 8)
        | (header[3] as u32);
    let h0 = header[0];
    let h1 = header[1];
    let h2 = header[2];
    let h3 = header[3];
    assert(w == h0 * 0x100_0000 + h1 * 0x1_0000 + h2 * 0x100 + h3) by (bit_vector)
        requires w == ((h0 as u32) << 24) | ((h1 as u32) << 16) | ((h2 as u32) << 8) | (h3 as u32);
    let size = w as i32;
    assert(size == if w < 0x8000_0000 { w as int } else { w - 0x1_0000_0000 }) by (bit_vector)
        requires size == w as i32;
    size
}

/// A length-prefixed frame: the size header of `body`, then `body`.
pub open spec fn frame_bytes(body: Seq<u8>) -> Seq<u8> {
    size_header(body.len()) + body
}

/// A relayed datagram on the wire: the frame of the peer's address text,
/// then the frame of the datagram's payload.
pub open spec fn package_bytes(dest: Seq<u8>, payload: Seq<u8>) -> Seq<u8> {
    frame_bytes(dest) + frame_bytes(payload)
}

fn append_bytes(out: &mut Vec<u8>, bytes: &[u8])
    ensures
        final(out)@ == old(out)@ + bytes@,
{
    out.extend_from_slice(bytes);
    assert(final(out)@ =~= old(out)@ + bytes@);
}

/// Frames `payload` for the peer whose address reads `dest`:
/// `len(dest) dest len(payload) payload`, each length a big-endian `i32`.
pub fn build_package(payload: Vec<u8>, dest: &str) -> (command: Vec<u8>)
    ensures
        command@ == package_bytes(dest.spec_bytes(), payload@),
{
    let mut command: Vec<u8> = Vec::new();
    let bytes = dest.as_bytes();
    let size = encode_size(bytes.len());
    append_bytes(&mut command, &size);
    append_bytes(&mut command, bytes);
    let size = encode_size(payload.len());
    append_bytes(&mut command, &size);
    append_bytes(&mut command, payload.as_slice());
    assert(command@ =~= package_bytes(dest.spec_bytes(), payload@));
    command
}

proof fn lemma_word_of_header(x: u32)
    ensures
        ((x / 0x100_0000) % 0x100) * 0x100_0000 + ((x / 0x1_0000) % 0x100) * 0x1_0000
            + ((x / 0x100) % 0x100) * 0x100 + (x % 0x100) == x,
{
    assert(((x / 0x100_0000) % 0x100) * 0x100_0000 + ((x / 0x1_0000) % 0x100) * 0x1_0000
        + ((x / 0x100) % 0x100) * 0x100 + (x % 0x100) == x) by (bit_vector);
}

/// A size header read back gives the length it was written for, for every
/// length that fits a non-negative `i32`.
pub proof fn lemma_size_header_roundtrip(len: nat)
    requires
        len < 0x8000_0000,
    ensures
        size_header(len).len() == 4,
        header_word(size_header(len)) == len,
        header_size(size_header(len)) == len,
{
    let x = len as u32;
    lemma_word_of_header(x);
}

/// The heartbeat both ends send: the header of an empty frame.
pub fn keepalive_frame() -> (header: [u8; 4])
    ensures
        header@ == size_header(0),
{
    encode_size(0)
}

/// Headers are big-endian: a length below 256 is written as three zero
/// bytes and then the length, and a header announces a negative size
/// exactly when its first byte has the top bit set.
pub proof fn law_size_header_big_endian(len: nat, h: Seq<u8>)
    requires
        h.len() == 4,
    ensures
        len < 0x100 ==> size_header(len) == seq![0u8, 0u8, 0u8, len as u8],
        size_header(len).len() == 4,
        (header_size(h) < 0) <==> h[0] >= 0x80,
        0 <= header_word(h) < 0x1_0000_0000,
{
    if len < 0x100 {
        assert(size_header(len) =~= seq![0u8, 0u8, 0u8, len as u8]);
    }
}

} // verus!
