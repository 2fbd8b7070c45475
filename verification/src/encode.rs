//! An encoder in software, a source of packets where there is no device.

use crate::decode::{error_text, wording};
use crate::media::{EncodedPacket, StreamError, StreamProblem};
use crate::text::cat2;
use vstd::prelude::*;

verus! {

/// The encoder of the `openh264` crate.
#[verifier::external_type_specification]
#[verifier::external_body]
pub struct ExEncoder(openh264::encoder::Encoder);

/// The pictures that an encoder has been handed, in order: the bytes, the width
/// and the height of each.
pub uninterp spec fn handed(encoder: openh264::encoder::Encoder) -> Seq<(Seq<u8>, int, int)>;

/// What an encoder has made of the pictures that it has been handed, in order:
/// the bytes of a frame, or the text of an error.
pub uninterp spec fn made(encoder: openh264::encoder::Encoder) -> Seq<Result<Seq<u8>, Seq<char>>>;

/// What the outside encoder made, with the text of an error in its place.
pub open spec fn outcome(r: Result<Vec<u8>, openh264::Error>) -> Result<Seq<u8>, Seq<char>> {
    match r {
        Ok(data) => Ok(data@),
        Err(e) => Err(wording(e)),
    }
}

/// `Encoder::new` makes an encoder that has been handed nothing and has made
/// nothing, or says why it cannot. Which of the two it does rests on the machine, and is left open.
#[verifier::external_body]
fn open_encoder() -> (r: Result<openh264::encoder::Encoder, openh264::Error>)
    ensures
        r matches Ok(e) ==> handed(e) == Seq::<(Seq<u8>, int, int)>::empty(),
        r matches Ok(e) ==> made(e).len() == 0,
{
    openh264::encoder::Encoder::new()
}

/// `Encoder::encode` is handed a picture with four bytes for each pixel and an
/// even number of them in each direction, and makes the bytes of a frame, which
/// are the last that it has made then. What
/// the bytes are and when there is an error is left open: the encoder's own
/// documentation does not tell, and its choices rest on the machine.
#[verifier::external_body]
fn encode_picture(encoder: &mut openh264::encoder::Encoder, rgba: &Vec<u8>, w: u32, h: u32) -> (r:
    Result<Vec<u8>, openh264::Error>)
    requires
        w % 2 == 0,
        h % 2 == 0,
        rgba@.len() == w * h * 4,
    ensures
        handed(*final(encoder)) == handed(*old(encoder)).push((rgba@, w as int, h as int)),
        made(*final(encoder)) == made(*old(encoder)).push(outcome(r)),
{
    let size = (w as usize, h as usize);
    let source = openh264::formats::RgbaSliceU8::new(rgba, size);
    let yuv = openh264::formats::YUVBuffer::from_rgb_source(source);
    Ok(encoder.encode(&yuv)?.to_vec())
}

/// What is said of an encoder that could not be made.
pub open spec fn init_problem(text: Seq<char>) -> StreamProblem {
    StreamProblem::Protocol("openh264 enc init: "@ + text)
}

/// What is said of a picture that could not be encoded.
pub open spec fn encode_problem(text: Seq<char>) -> StreamProblem {
    StreamProblem::Protocol("openh264 encode: "@ + text)
}

/// The packet number `number`, counted from one: the first is a key frame.
pub fn packet_of(number: u64, outcome: Result<Vec<u8>, String>) -> (r: Result<
    EncodedPacket,
    StreamError,
>)
    ensures
        match outcome {
            Ok(data) => {
                &&& r matches Ok(p)
                &&& p.pts == number
                &&& !p.is_config
                &&& p.is_keyframe == (number == 1)
                &&& p.data@ == data@
            },
            Err(text) => r matches Err(e) && e@ == encode_problem(text@),
        },
{
    match outcome {
        Ok(data) => Ok(
            EncodedPacket { pts: number, is_config: false, is_keyframe: number == 1, data },
        ),
        Err(text) => Err(StreamError::Protocol(cat2("openh264 encode: ", text.as_str()))),
    }
}

/// The encoder, and how many pictures it has encoded.
pub struct TestEncoder {
    inner: openh264::encoder::Encoder,
    frame: u64,
}

impl TestEncoder {
    /// How many pictures were encoded.
    pub closed spec fn frames(&self) -> int {
        self.frame as int
    }

    /// The pictures that the encoder has been handed, in order: the bytes, the
    /// width and the height of each.
    pub closed spec fn pictures(&self) -> Seq<(Seq<u8>, int, int)> {
        handed(self.inner)
    }

    /// What the outside encoder has made of the pictures, in order.
    pub closed spec fn outcomes(&self) -> Seq<Result<Seq<u8>, Seq<char>>> {
        made(self.inner)
    }

    /// An encoder that has been handed nothing.
    pub fn new() -> (r: Result<TestEncoder, StreamError>)
        ensures
            match r {
                Ok(t) => t.frames() == 0 && t.pictures() == Seq::<(Seq<u8>, int, int)>::empty()
                    && t.outcomes().len() == 0,
                Err(e) => exists|why: openh264::Error| e@ == init_problem(#[trigger] wording(why)),
            },
    {
        match open_encoder() {
            Ok(inner) => Ok(TestEncoder { inner, frame: 0 }),
            Err(e) => {
                let text = error_text(&e);
                let problem = StreamError::Protocol(cat2("openh264 enc init: ", text.as_str()));
                assert(problem@ == init_problem(wording(e)));
                Err(problem)
            },
        }
    }

    /// Encodes one picture. The packets are numbered from one; the first is a
    /// key frame. A picture that cannot be encoded does not count.
    pub fn encode_rgba(&mut self, rgba: &Vec<u8>, w: u32, h: u32) -> (r: Result<
        EncodedPacket,
        StreamError,
    >)
        requires
            w % 2 == 0,
            h % 2 == 0,
            rgba@.len() == w * h * 4,
            old(self).frames() < u64::MAX,
        ensures
            final(self).pictures() == old(self).pictures().push((rgba@, w as int, h as int)),
            final(self).outcomes().len() == old(self).outcomes().len() + 1,
            final(self).outcomes().drop_last() == old(self).outcomes(),
            match final(self).outcomes().last() {
                Ok(data) => r matches Ok(p) && p.data@ == data,
                Err(text) => r matches Err(e) && e@ == encode_problem(text),
            },
            match r {
                Ok(p) => {
                    &&& p.pts == old(self).frames() + 1
                    &&& !p.is_config
                    &&& p.is_keyframe == (old(self).frames() == 0)
                    &&& final(self).frames() == old(self).frames() + 1
                },
                Err(e) => {
                    &&& exists|why: openh264::Error| e@ == encode_problem(#[trigger] wording(why))
                    &&& final(self).frames() == old(self).frames()
                },
            },
    {
        let got = encode_picture(&mut self.inner, rgba, w, h);
        assert(self.outcomes().drop_last() =~= old(self).outcomes());
        match got {
            Ok(data) => {
                self.frame = self.frame + 1;
                packet_of(self.frame, Ok(data))
            },
            Err(e) => {
                let text = error_text(&e);
                let r = packet_of(self.frame, Err(text));
                assert(r matches Err(p) && p@ == encode_problem(wording(e)));
                r
            },
        }
    }
}

} // verus!
