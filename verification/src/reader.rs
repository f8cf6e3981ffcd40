use vstd::prelude::*;
use vstd::string::StringSliceAdditionalSpecFns;
use crate::frame::{
    decode_size, frame_bytes, header_size, lemma_size_header_roundtrip, package_bytes, size_header,
};
use crate::text::law_str_bytes_read_back;

verus! {

/// How one exact read of a fixed number of bytes came out.
#[derive(PartialEq, Eq, Structural, Clone, Copy, Debug)]
pub enum ReadEvent {
    /// The read completed; the count is what the stream reported.
    Read(usize),
    /// The stream reported an error.
    Failed,
    /// The deadline for the read passed first.
    Elapsed,
}

/// Why reading a frame failed.
#[derive(PartialEq, Eq, Structural, Clone, Copy, Debug)]
pub enum ReadError {
    /// The header read reported zero bytes: the peer is gone.
    NotConnected,
    /// The header could not be read.
    Header,
    /// The body of `size` bytes could not be read.
    Body { size: i32 },
}

/// What to do once a frame header has been read.
#[derive(PartialEq, Eq, Structural, Debug)]
pub enum FrameStep {
    /// Read a body of this many bytes next.
    ReadBody(usize),
    /// The header announced an empty command: a heartbeat.
    KeepAlive,
    /// Stop with this error.
    Fail(ReadError),
}

/// A command read from the control connection.
#[derive(Debug)]
pub enum Command {
    /// Open a data channel for the user whose address text this is.
    Ctrl(Vec<u8>),
    /// Heartbeat.
    KeepAlive,
}

/// The step after the header of a data package.
pub open spec fn package_step(ev: ReadEvent, header: Seq<u8>) -> FrameStep {
    match ev {
        ReadEvent::Read(n) => if n == 0 {
            FrameStep::Fail(ReadError::NotConnected)
        } else {
            FrameStep::ReadBody(header_size(header) as usize)
        },
        _ => FrameStep::Fail(ReadError::Header),
    }
}

/// The step after the header of a control command: an empty one is a
/// heartbeat.
pub open spec fn command_step(ev: ReadEvent, header: Seq<u8>) -> FrameStep {
    match ev {
        ReadEvent::Read(n) => if n == 0 {
            FrameStep::Fail(ReadError::NotConnected)
        } else if header_size(header) == 0 {
            FrameStep::KeepAlive
        } else {
            FrameStep::ReadBody(header_size(header) as usize)
        },
        _ => FrameStep::Fail(ReadError::Header),
    }
}

/// Whether a header read this way leads to a body read that cannot be
/// allocated: a negative size.
pub open spec fn announces_negative_size(ev: ReadEvent, header: Seq<u8>) -> bool {
    ev matches ReadEvent::Read(n) && n != 0 && header_size(header) < 0
}

/// Decides what follows the header of a data package.
pub fn after_package_header(ev: ReadEvent, header: [u8; 4]) -> (step: FrameStep)
    requires
        !announces_negative_size(ev, header@),
    ensures
        step == package_step(ev, header@),
        step matches FrameStep::ReadBody(n) ==> n == header_size(header@),
        !(ev is Read) ==> step == FrameStep::Fail(ReadError::Header),
        ev == ReadEvent::Read(0) ==> step == FrameStep::Fail(ReadError::NotConnected),
        step is ReadBody ==> (ev matches ReadEvent::Read(n) && n != 0),
        !(step is KeepAlive),
{
    match ev {
        ReadEvent::Read(n) => {
            if n == 0 {
                FrameStep::Fail(ReadError::NotConnected)
            } else {
                let size = decode_size(header);
                FrameStep::ReadBody(size as usize)
            }
        },
        _ => FrameStep::Fail(ReadError::Header),
    }
}

/// Decides what follows the header of a control command.
pub fn after_command_header(ev: ReadEvent, header: [u8; 4]) -> (step: FrameStep)
    requires
        !announces_negative_size(ev, header@),
    ensures
        step == command_step(ev, header@),
        step matches FrameStep::ReadBody(n) ==> n > 0 && n == header_size(header@),
        !(ev is Read) ==> step == FrameStep::Fail(ReadError::Header),
        ev == ReadEvent::Read(0) ==> step == FrameStep::Fail(ReadError::NotConnected),
        step is KeepAlive <==> (ev matches ReadEvent::Read(n) && n != 0 && header_size(header@) == 0),
        step is ReadBody ==> (ev matches ReadEvent::Read(n) && n != 0),
{
    match ev {
        ReadEvent::Read(n) => {
            if n == 0 {
                FrameStep::Fail(ReadError::NotConnected)
            } else {
                let size = decode_size(header);
                if size == 0 {
                    FrameStep::KeepAlive
                } else {
                    FrameStep::ReadBody(size as usize)
                }
            }
        },
        _ => FrameStep::Fail(ReadError::Header),
    }
}

/// Completes a data package once its body read is over; `body` is the
/// buffer of the announced `size` that the read filled.
pub fn after_package_body(ev: ReadEvent, size: i32, body: Vec<u8>) -> (r: Result<Vec<u8>, ReadError>)
    requires
        size >= 0,
        body@.len() == size,
    ensures
        ev is Read ==> (r matches Ok(b) && b@ == body@ && b@.len() == size),
        !(ev is Read) ==> r == Err::<Vec<u8>, ReadError>((ReadError::Body { size })),
{
    match ev {
        ReadEvent::Read(_) => Ok(body),
        _ => Err(ReadError::Body { size }),
    }
}

/// Completes a control command once its body read is over; `body` is the
/// buffer of the announced `size` that the read filled. Only a positive size
/// leads to a body read: a zero size is a heartbeat.
pub fn after_command_body(ev: ReadEvent, size: i32, body: Vec<u8>) -> (r: Result<Command, ReadError>)
    requires
        size > 0,
        body@.len() == size,
    ensures
        ev is Read ==> (r matches Ok(Command::Ctrl(b)) && b@ == body@ && b@.len() == size && b@.len() > 0),
        !(ev is Read) ==> (r matches Err(e) && e == (ReadError::Body { size })),
{
    match ev {
        ReadEvent::Read(_) => Ok(Command::Ctrl(body)),
        _ => Err(ReadError::Body { size }),
    }
}

/// The heartbeat frame is read as a heartbeat command.
pub proof fn law_keepalive_read_back()
    ensures
        command_step(ReadEvent::Read(4), size_header(0)) == FrameStep::KeepAlive,
{
    lemma_size_header_roundtrip(0);
}

/// A header read that did not complete (it failed or its deadline passed)
/// is a header error whatever the buffer holds: it is never taken for a
/// heartbeat, and no body is read after it.
pub proof fn law_incomplete_header_fails(ev: ReadEvent, header: Seq<u8>)
    requires
        !(ev is Read),
    ensures
        command_step(ev, header) == FrameStep::Fail(ReadError::Header),
        package_step(ev, header) == FrameStep::Fail(ReadError::Header),
{
}

/// What a control command's header leads to, for every read outcome and
/// every header: a heartbeat exactly when a non-empty read completed with a
/// zero size; "not connected" exactly when the read reported zero bytes; a
/// header error exactly when the read did not complete; otherwise a body of
/// the announced, non-zero size.
pub proof fn law_command_step_cases(ev: ReadEvent, header: Seq<u8>)
    ensures
        (command_step(ev, header) == FrameStep::KeepAlive) <==> (ev matches ReadEvent::Read(n) && n
            != 0 && header_size(header) == 0),
        (command_step(ev, header) == FrameStep::Fail(ReadError::NotConnected)) <==> (ev
            == ReadEvent::Read(0)),
        (command_step(ev, header) == FrameStep::Fail(ReadError::Header)) <==> !(ev is Read),
        command_step(ev, header) matches FrameStep::ReadBody(k) ==> (ev matches ReadEvent::Read(n)
            && n != 0 && header_size(header) != 0 && k == header_size(header) as usize),
        !(command_step(ev, header) matches FrameStep::Fail(ReadError::Body { .. })),
{
}

/// What a data package's header leads to, for every read outcome and every
/// header: never a heartbeat; "not connected" exactly when the read reported
/// zero bytes; a header error exactly when the read did not complete;
/// otherwise a body of the announced size, which may be empty.
pub proof fn law_package_step_cases(ev: ReadEvent, header: Seq<u8>)
    ensures
        package_step(ev, header) != FrameStep::KeepAlive,
        (package_step(ev, header) == FrameStep::Fail(ReadError::NotConnected)) <==> (ev
            == ReadEvent::Read(0)),
        (package_step(ev, header) == FrameStep::Fail(ReadError::Header)) <==> !(ev is Read),
        package_step(ev, header) matches FrameStep::ReadBody(k) ==> (ev matches ReadEvent::Read(n)
            && n != 0 && k == header_size(header) as usize),
        (ev matches ReadEvent::Read(n) && n != 0) ==> package_step(ev, header) == FrameStep::ReadBody(
            header_size(header) as usize,
        ),
{
}

/// A data package announces an empty body exactly when the same header,
/// read as a control command, is a heartbeat.
pub proof fn law_empty_package_is_heartbeat_command(n: usize, header: Seq<u8>)
    requires
        n != 0,
        header_size(header) >= 0,
    ensures
        (package_step(ReadEvent::Read(n), header) == FrameStep::ReadBody(0)) <==> (command_step(
            ReadEvent::Read(n),
            header,
        ) == FrameStep::KeepAlive),
{
}

/// A datagram's package, followed on the stream by any `rest`, read frame by
/// frame as a data channel reads it: the first header asks for exactly the
/// address bytes, the second for exactly the payload, and what is left
/// unread afterwards is `rest`.
pub proof fn law_package_read_back(dest: Seq<u8>, payload: Seq<u8>, rest: Seq<u8>)
    requires
        dest.len() < 0x8000_0000,
        payload.len() < 0x8000_0000,
    ensures
        !announces_negative_size(
            ReadEvent::Read(4),
            (package_bytes(dest, payload) + rest).subrange(0, 4),
        ),
        package_step(ReadEvent::Read(4), (package_bytes(dest, payload) + rest).subrange(0, 4))
            == FrameStep::ReadBody(dest.len() as usize),
        (package_bytes(dest, payload) + rest).subrange(4, 4 + dest.len() as int) == dest,
        !announces_negative_size(
            ReadEvent::Read(4),
            (package_bytes(dest, payload) + rest).subrange(
                4 + dest.len() as int,
                8 + dest.len() as int,
            ),
        ),
        package_step(
            ReadEvent::Read(4),
            (package_bytes(dest, payload) + rest).subrange(4 + dest.len() as int, 8 + dest.len() as int),
        ) == FrameStep::ReadBody(payload.len() as usize),
        (package_bytes(dest, payload) + rest).subrange(
            8 + dest.len() as int,
            8 + dest.len() as int + payload.len() as int,
        ) == payload,
        (package_bytes(dest, payload) + rest).subrange(
            8 + dest.len() as int + payload.len() as int,
            (package_bytes(dest, payload) + rest).len() as int,
        ) == rest,
{
    lemma_wire_layout(dest, payload, rest);
}

/// The command a relay sends for a new user, followed on the control
/// connection by any `rest`, is read by the tunnel client as an open-channel
/// command whose body is exactly the user's address text, and what is left
/// unread is the frame of the user's first datagram followed by `rest`. The
/// address text must not be empty, or its frame reads as a heartbeat.
pub proof fn law_announce_read_back(dest: Seq<u8>, payload: Seq<u8>, rest: Seq<u8>)
    requires
        0 < dest.len() < 0x8000_0000,
        payload.len() < 0x8000_0000,
    ensures
        !announces_negative_size(
            ReadEvent::Read(4),
            (package_bytes(dest, payload) + rest).subrange(0, 4),
        ),
        command_step(ReadEvent::Read(4), (package_bytes(dest, payload) + rest).subrange(0, 4))
            == FrameStep::ReadBody(dest.len() as usize),
        (package_bytes(dest, payload) + rest).subrange(4, 4 + dest.len() as int) == dest,
        (package_bytes(dest, payload) + rest).subrange(
            4 + dest.len() as int,
            (package_bytes(dest, payload) + rest).len() as int,
        ) == frame_bytes(payload) + rest,
{
    lemma_wire_layout(dest, payload, rest);
    let w = package_bytes(dest, payload) + rest;
    let d = dest.len() as int;
    assert(w.subrange(4 + d, w.len() as int) =~= frame_bytes(payload) + rest);
}

/// Packages are unambiguous: two packages are the same bytes exactly when
/// they carry the same address bytes and the same payload.
pub proof fn law_package_unambiguous(d1: Seq<u8>, p1: Seq<u8>, d2: Seq<u8>, p2: Seq<u8>)
    requires
        d1.len() < 0x8000_0000,
        p1.len() < 0x8000_0000,
        d2.len() < 0x8000_0000,
        p2.len() < 0x8000_0000,
    ensures
        package_bytes(d1, p1) == package_bytes(d2, p2) <==> (d1 == d2 && p1 == p2),
{
    if package_bytes(d1, p1) == package_bytes(d2, p2) {
        let w = package_bytes(d1, p1);
        let empty = Seq::<u8>::empty();
        lemma_wire_layout(d1, p1, empty);
        lemma_wire_layout(d2, p2, empty);
        assert(package_bytes(d1, p1) + empty =~= w);
        assert(package_bytes(d2, p2) + empty =~= w);
        assert(header_size(w.subrange(0, 4)) == d1.len());
        assert(header_size(w.subrange(0, 4)) == d2.len());
        let d = d1.len() as int;
        assert(header_size(w.subrange(4 + d, 8 + d)) == p1.len());
        assert(header_size(w.subrange(4 + d, 8 + d)) == p2.len());
    }
}

/// Built packages of address texts are unambiguous: two packages are the
/// same bytes exactly when their address texts and payloads are the same.
pub proof fn law_build_package_unambiguous(d1: &str, p1: Seq<u8>, d2: &str, p2: Seq<u8>)
    requires
        d1.spec_bytes().len() < 0x8000_0000,
        p1.len() < 0x8000_0000,
        d2.spec_bytes().len() < 0x8000_0000,
        p2.len() < 0x8000_0000,
    ensures
        package_bytes(d1.spec_bytes(), p1) == package_bytes(d2.spec_bytes(), p2) <==> (d1@ == d2@
            && p1 == p2),
{
    law_package_unambiguous(d1.spec_bytes(), p1, d2.spec_bytes(), p2);
    law_str_bytes_read_back(d1);
    law_str_bytes_read_back(d2);
}

proof fn lemma_wire_layout(dest: Seq<u8>, payload: Seq<u8>, rest: Seq<u8>)
    requires
        dest.len() < 0x8000_0000,
        payload.len() < 0x8000_0000,
    ensures
        (package_bytes(dest, payload) + rest).len() == 8 + dest.len() + payload.len() + rest.len(),
        (package_bytes(dest, payload) + rest).subrange(0, 4) == size_header(dest.len()),
        (package_bytes(dest, payload) + rest).subrange(4, 4 + dest.len() as int) == dest,
        (package_bytes(dest, payload) + rest).subrange(4 + dest.len() as int, 8 + dest.len() as int)
            == size_header(payload.len()),
        (package_bytes(dest, payload) + rest).subrange(
            8 + dest.len() as int,
            8 + dest.len() as int + payload.len() as int,
        ) == payload,
        (package_bytes(dest, payload) + rest).subrange(
            8 + dest.len() as int + payload.len() as int,
            (package_bytes(dest, payload) + rest).len() as int,
        ) == rest,
        header_size(size_header(dest.len())) == dest.len(),
        header_size(size_header(payload.len())) == payload.len(),
{
    lemma_size_header_roundtrip(dest.len());
    lemma_size_header_roundtrip(payload.len());
    let w = package_bytes(dest, payload) + rest;
    let d = dest.len() as int;
    let p = payload.len() as int;
    assert(w.subrange(0, 4) =~= size_header(dest.len()));
    assert(w.subrange(4, 4 + d) =~= dest);
    assert(w.subrange(4 + d, 8 + d) =~= size_header(payload.len()));
    assert(w.subrange(8 + d, 8 + d + p) =~= payload);
    assert(w.subrange(8 + d + p, w.len() as int) =~= rest);
}

} // verus!
