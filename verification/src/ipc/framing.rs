//! Length-prefixed frames.
use crate::endian::{
    be_bytes, big_endian, big_endian_value, lemma_big_endian_round_trip, lemma_fits,
};
use crate::text::{decimal, decimal_digits};
use vstd::prelude::*;

verus! {

/// Hard cap on the length of a JSON body, in bytes: 1 MiB.
pub const MAX_FRAME_BYTES: usize = 1048576;

/// Why a frame is refused.
#[derive(Debug, Clone, Copy, PartialEq, Eq, Structural)]
pub enum FrameError {
    /// The body has, or is announced to have, `len` bytes, over the cap.
    TooLarge { len: u64 },
}

/// The text of a frame error.
pub open spec fn frame_error_text(error: FrameError) -> Seq<char> {
    match error {
        FrameError::TooLarge { len } => "frame too large: "@ + decimal_digits(len as nat)
            + " bytes (cap "@ + decimal_digits(MAX_FRAME_BYTES as nat) + ")"@,
    }
}

impl FrameError {
    /// The text of the error.
    pub fn message(&self) -> (r: String)
        ensures
            r@ == frame_error_text(*self),
    {
        match self {
            FrameError::TooLarge { len } => {
                let mut r: String = "frame too large: ".to_owned();
                r.append(decimal(*len).as_str());
                r.append(" bytes (cap ");
                r.append(decimal(MAX_FRAME_BYTES as u64).as_str());
                r.append(")");
                r
            },
        }
    }
}

/// A frame: the length of the body in four big-endian bytes, then the body.
pub open spec fn frame(body: Seq<u8>) -> Seq<u8> {
    big_endian(body.len(), 4) + body
}

/// The bytes to send for `body`, all at once.
pub fn write_frame(body: &[u8]) -> (r: Result<Vec<u8>, FrameError>)
    ensures
        r is Ok <==> body@.len() <= MAX_FRAME_BYTES,
        r matches Ok(bytes) ==> bytes@ == frame(body@),
        r matches Err(e) ==> e == (FrameError::TooLarge { len: body@.len() as u64 }),
{
    if body.len() > MAX_FRAME_BYTES {
        return Err(FrameError::TooLarge { len: body.len() as u64 });
    }
    let mut bytes: Vec<u8> = be_bytes(body.len() as u64, 4);
    bytes.extend_from_slice(body);
    assert(bytes@ =~= frame(body@));
    Ok(bytes)
}

/// What to do next while a frame comes in.
#[derive(Debug)]
pub enum FrameStep {
    /// Read exactly this many more bytes, at least one.
    More(usize),
    /// The frame is complete; this is its body.
    Body(Vec<u8>),
    /// The frame is refused: close the connection.
    Refused(FrameError),
}

/// What to do next while a frame comes in, with the body as a sequence.
pub enum FrameStepView {
    More(nat),
    Body(Seq<u8>),
    Refused(FrameError),
}

impl View for FrameStep {
    type V = FrameStepView;

    open spec fn view(&self) -> FrameStepView {
        match self {
            FrameStep::More(n) => FrameStepView::More(*n as nat),
            FrameStep::Body(body) => FrameStepView::Body(body@),
            FrameStep::Refused(e) => FrameStepView::Refused(*e),
        }
    }
}

/// What the bytes received so far call for: the rest of the length first, then
/// the rest of the body, and no body over the cap.
pub open spec fn frame_step(received: Seq<u8>) -> FrameStepView {
    let len = big_endian_value(received.take(4));
    if received.len() < 4 {
        FrameStepView::More((4 - received.len()) as nat)
    } else if len > MAX_FRAME_BYTES {
        FrameStepView::Refused(FrameError::TooLarge { len: len as u64 })
    } else if received.len() < 4 + len {
        FrameStepView::More((4 + len - received.len()) as nat)
    } else {
        FrameStepView::Body(received.subrange(4, 4 + len as int))
    }
}

/// Decides, on the bytes of a frame received so far, how to go on.
pub fn read_frame(received: &[u8]) -> (r: FrameStep)
    ensures
        r@ == frame_step(received@),
{
    if received.len() < 4 {
        return FrameStep::More(4 - received.len());
    }
    let b0: u64 = received[0] as u64;
    let b1: u64 = received[1] as u64;
    let b2: u64 = received[2] as u64;
    let b3: u64 = received[3] as u64;
    let len: u64 = ((b0 * 256 + b1) * 256 + b2) * 256 + b3;
    proof {
        reveal_with_fuel(big_endian_value, 5);
        let head = received@.take(4);
        assert(head.drop_last().last() == received@[2]);
        assert(head.drop_last().drop_last().last() == received@[1]);
        assert(head.drop_last().drop_last().drop_last().last() == received@[0]);
        assert(big_endian_value(head) == len);
    }
    if len > MAX_FRAME_BYTES as u64 {
        return FrameStep::Refused(FrameError::TooLarge { len });
    }
    let want: usize = 4 + len as usize;
    if received.len() < want {
        return FrameStep::More(want - received.len());
    }
    let mut body: Vec<u8> = Vec::new();
    body.extend_from_slice(&received[4..want]);
    assert(body@ =~= received@.subrange(4, want as int));
    FrameStep::Body(body)
}

/// A frame that was written is read back: after every proper prefix the reader
/// asks for bytes that are still to come and never for one more than the frame
/// has, and at the end it gives the body that was written.
pub proof fn law_frame_round_trip(body: Seq<u8>, received: int)
    requires
        body.len() <= MAX_FRAME_BYTES,
        0 <= received <= frame(body).len(),
    ensures
        frame(body).len() == 4 + body.len(),
        received < 4 ==> frame_step(frame(body).take(received)) == FrameStepView::More(
            (4 - received) as nat,
        ),
        4 <= received < frame(body).len() ==> frame_step(frame(body).take(received))
            == FrameStepView::More((frame(body).len() - received) as nat),
        received == frame(body).len() ==> frame_step(frame(body).take(received))
            == FrameStepView::Body(body),
{
    lemma_fits(body.len());
    lemma_big_endian_round_trip(body.len(), 4);
    if received >= 4 {
        assert(frame(body).take(received).take(4) == big_endian(body.len(), 4));
        if received == frame(body).len() {
            assert(frame(body).take(received).subrange(4, 4 + body.len() as int) == body);
        }
    }
}

/// Whatever comes in, no more than the length and a body at the cap is ever
/// asked for.
pub proof fn law_reader_is_bounded(received: Seq<u8>)
    ensures
        frame_step(received) matches FrameStepView::More(n) ==> 0 < n && received.len() + n <= 4
            + MAX_FRAME_BYTES,
        frame_step(received) matches FrameStepView::Body(body) ==> body.len() <= MAX_FRAME_BYTES,
{
}

} // verus!
