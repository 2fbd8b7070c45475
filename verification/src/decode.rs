//! Decoders: packets of a stream in, pictures out.

use crate::hardware::VideoToolboxDecoder;
use crate::host::Host;
use crate::media::{DecodedFrame, EncodedPacket, StreamError, StreamProblem};
use crate::text::{cat2, same};
use vstd::prelude::*;

verus! {

/// A decoder. It may hold packets back, and needs what a stream begins with
/// before its first picture.
pub trait VideoDecoder {
    /// What the decoder is called.
    spec fn label(&self) -> Seq<char>;

    /// The decoder can take one packet more.
    spec fn can_take(&self) -> bool;

    /// The decoder can give `r` for the packet, and is `next` then.
    spec fn can_give(
        &self,
        packet: &EncodedPacket,
        next: &Self,
        r: Result<Option<DecodedFrame>, StreamError>,
    ) -> bool;

    fn decode(&mut self, packet: &EncodedPacket) -> (r: Result<Option<DecodedFrame>, StreamError>)
        requires
            old(self).can_take(),
        ensures
            final(self).label() == old(self).label(),
            old(self).can_give(packet, final(self), r),
    ;

    fn name(&self) -> (r: &'static str)
        ensures
            r@ == self.label(),
    ;
}

/// Which decoder is used.
#[derive(Debug, Clone, Copy, PartialEq, Eq, Structural)]
pub enum DecoderKind {
    /// The decoder in software, for each host.
    Openh264,
    /// The decoder in hardware, for hosts that have it.
    VideoToolbox,
}

impl DecoderKind {
    /// What the decoder is called.
    pub open spec fn name(self) -> Seq<char> {
        match self {
            DecoderKind::Openh264 => "openh264 (software)"@,
            DecoderKind::VideoToolbox => "videotoolbox (hardware)"@,
        }
    }

    /// The decoder that the environment asks for under `ANDROLON_DECODER`: the
    /// one in hardware by either of its names, the one in software otherwise.
    pub fn from_env(value: Option<&str>) -> (r: DecoderKind)
        ensures
            r == (if value matches Some(v) && (v@ == "videotoolbox"@ || v@ == "vt"@) {
                DecoderKind::VideoToolbox
            } else {
                DecoderKind::Openh264
            }),
    {
        match value {
            Some(v) => if same(v, "videotoolbox") || same(v, "vt") {
                DecoderKind::VideoToolbox
            } else {
                DecoderKind::Openh264
            },
            None => DecoderKind::Openh264,
        }
    }

    pub fn label(self) -> (r: &'static str)
        ensures
            r@ == self.name(),
    {
        match self {
            DecoderKind::Openh264 => "openh264 (software)",
            DecoderKind::VideoToolbox => "videotoolbox (hardware)",
        }
    }
}

/// A decoder that was selected.
pub enum Selected {
    Software(Openh264Decoder),
    Hardware(VideoToolboxDecoder),
}

/// The decoder of the kind `kind`. The one in hardware is there on one host
/// alone; the one in software is there unless it cannot be made.
pub fn make_decoder(kind: DecoderKind, host: Host) -> (r: Result<Selected, StreamError>)
    ensures
        match kind {
            DecoderKind::VideoToolbox => if host == Host::Mac {
                r matches Ok(Selected::Hardware(d)) && !d.ready
            } else {
                r matches Err(e) && e@ == StreamProblem::Protocol(
                    "videotoolbox decoder is macOS-only"@,
                )
            },
            DecoderKind::Openh264 => match r {
                Ok(d) => d matches Selected::Software(s) && s.packets() == Seq::<Seq<u8>>::empty()
                    && s.outcomes().len() == 0,
                Err(e) => exists|why: openh264::Error| e@ == init_problem(#[trigger] wording(why)),
            },
        },
{
    match kind {
        DecoderKind::Openh264 => match Openh264Decoder::new() {
            Ok(d) => Ok(Selected::Software(d)),
            Err(e) => Err(e),
        },
        DecoderKind::VideoToolbox => if host == Host::Mac {
            Ok(Selected::Hardware(VideoToolboxDecoder::new()))
        } else {
            Err(StreamError::Protocol("videotoolbox decoder is macOS-only".to_owned()))
        },
    }
}

/// Counts packets and gives no pictures.
#[derive(Debug)]
pub struct NullDecoder {
    pub packets: u64,
    pub config_packets: u64,
}

impl Default for NullDecoder {
    fn default() -> (r: NullDecoder)
        ensures
            r.packets == 0,
            r.config_packets == 0,
    {
        NullDecoder { packets: 0, config_packets: 0 }
    }
}

impl VideoDecoder for NullDecoder {
    open spec fn label(&self) -> Seq<char> {
        "null (no decode)"@
    }

    open spec fn can_take(&self) -> bool {
        self.packets < u64::MAX && self.config_packets < u64::MAX
    }

    /// One packet more is counted, and nothing comes of it.
    open spec fn can_give(
        &self,
        packet: &EncodedPacket,
        next: &NullDecoder,
        r: Result<Option<DecodedFrame>, StreamError>,
    ) -> bool {
        &&& r matches Ok(f)
        &&& f is None
        &&& next.packets == self.packets + 1
        &&& next.config_packets == self.config_packets + (if packet.is_config {
            1int
        } else {
            0
        })
    }

    fn decode(&mut self, packet: &EncodedPacket) -> (r: Result<Option<DecodedFrame>, StreamError>) {
        self.packets = self.packets + 1;
        if packet.is_config {
            self.config_packets = self.config_packets + 1;
        }
        Ok(None)
    }

    fn name(&self) -> (r: &'static str) {
        "null (no decode)"
    }
}

/// The decoder of the `openh264` crate.
#[verifier::external_type_specification]
#[verifier::external_body]
pub struct ExDecoder(openh264::decoder::Decoder);

/// The error of the `openh264` crate.
#[verifier::external_type_specification]
#[verifier::external_body]
pub struct ExError(openh264::Error);

/// The packets that a decoder has been handed, in order.
pub uninterp spec fn handed(decoder: openh264::decoder::Decoder) -> Seq<Seq<u8>>;

/// What a decoder has given for the packets that it has been handed, in order: a
/// picture, with its width, its height and its bytes, no picture, or the text of
/// an error.
pub uninterp spec fn given(decoder: openh264::decoder::Decoder) -> Seq<
    Result<Option<(i32, i32, Seq<u8>)>, Seq<char>>,
>;

/// The text of an error.
pub uninterp spec fn wording(e: openh264::Error) -> Seq<char>;

/// `Decoder::new` makes a decoder that has been handed nothing and has given
/// nothing, or says why it cannot. Which of the two it does rests on the machine, and is left open.
#[verifier::external_body]
fn open_decoder() -> (r: Result<openh264::decoder::Decoder, openh264::Error>)
    ensures
        r matches Ok(d) ==> handed(d) == Seq::<Seq<u8>>::empty(),
        r matches Ok(d) ==> given(d).len() == 0,
{
    openh264::decoder::Decoder::new()
}

/// `Error::to_string` gives the text of an error.
#[verifier::external_body]
pub(crate) fn error_text(e: &openh264::Error) -> (r: String)
    ensures
        r@ == wording(*e),
{
    e.to_string()
}

/// What the outside decoder gave, with the text of an error in its place.
pub open spec fn outcome(r: Result<Option<(i32, i32, Vec<u8>)>, openh264::Error>) -> Result<
    Option<(i32, i32, Seq<u8>)>,
    Seq<char>,
> {
    match r {
        Ok(Some((w, h, rgba))) => Ok(Some((w, h, rgba@))),
        Ok(None) => Ok(None),
        Err(e) => Err(wording(e)),
    }
}

/// `Decoder::decode` is handed a packet and gives a picture where one is there,
/// which `write_rgba8` writes out: as many pixels as its dimensions say, with
/// four bytes each. That is the last that it has given then. When there is one,
/// how large it is and its colours are left open: the decoder may run out of
/// memory, and the colours are computed with whatever instructions the machine
/// has. Of a damaged packet the crate promises an error; nothing more is said of
/// one here.
#[verifier::external_body]
fn decode_packet(decoder: &mut openh264::decoder::Decoder, data: &Vec<u8>) -> (r: Result<
    Option<(i32, i32, Vec<u8>)>,
    openh264::Error,
>)
    ensures
        handed(*final(decoder)) == handed(*old(decoder)).push(data@),
        given(*final(decoder)) == given(*old(decoder)).push(outcome(r)),
        r matches Ok(Some((w, h, rgba))) ==> (w >= 0 && h >= 0 && w * h * 4 <= usize::MAX
            ==> rgba@.len() == w * h * 4),
{
    match decoder.decode(data)? {
        None => Ok(None),
        Some(p) => {
            let (w, h) = openh264::formats::YUVSource::dimensions_i32(&p);
            let mut rgba = vec![0u8; openh264::formats::YUVSource::rgba8_len(&p)];
            p.write_rgba8(&mut rgba);
            Ok(Some((w, h, rgba)))
        },
    }
}

/// What is said of a decoder that could not be made.
pub open spec fn init_problem(text: Seq<char>) -> StreamProblem {
    StreamProblem::Protocol("openh264 init: "@ + text)
}

/// What is said of a packet that could not be decoded.
pub open spec fn decode_problem(text: Seq<char>) -> StreamProblem {
    StreamProblem::Protocol("openh264 decode: "@ + text)
}

/// `r` is what the decoder gives for what the outside decoder gave: a picture of
/// the same size and bytes, nothing, or an error with the same text.
pub open spec fn is_frame(
    got: Result<Option<(i32, i32, Seq<u8>)>, Seq<char>>,
    r: Result<Option<DecodedFrame>, StreamError>,
) -> bool {
    match got {
        Ok(Some((w, h, rgba))) => r matches Ok(Some(f)) && f.width == w as u32 && f.height
            == h as u32 && f.rgba@ == rgba,
        Ok(None) => r matches Ok(f) && f is None,
        Err(text) => r matches Err(e) && e@ == decode_problem(text),
    }
}

/// What the decoder gives for what the outside decoder gave.
pub fn frame_of(got: Result<Option<(i32, i32, Vec<u8>)>, String>) -> (r: Result<
    Option<DecodedFrame>,
    StreamError,
>)
    ensures
        is_frame(
            match got {
                Ok(Some((w, h, rgba))) => Ok(Some((w, h, rgba@))),
                Ok(None) => Ok(None),
                Err(text) => Err(text@),
            },
            r,
        ),
{
    match got {
        Ok(Some((w, h, rgba))) => Ok(
            Some(DecodedFrame { width: w as u32, height: h as u32, rgba }),
        ),
        Ok(None) => Ok(None),
        Err(text) => Err(StreamError::Protocol(cat2("openh264 decode: ", text.as_str()))),
    }
}

proof fn negative_is_large()
    ensures
        forall|n: i32| n < 0 ==> #[trigger] (n as u32) > i32::MAX,
{
    assert forall|n: i32| n < 0 implies #[trigger] (n as u32) > i32::MAX by {
        assert(n < 0 ==> (n as u32) > 0x7fff_ffff) by (bit_vector);
    }
}

/// The decoder in software.
pub struct Openh264Decoder {
    inner: openh264::decoder::Decoder,
}

impl Openh264Decoder {
    /// The packets that the decoder has been handed, in order.
    pub closed spec fn packets(&self) -> Seq<Seq<u8>> {
        handed(self.inner)
    }

    /// What the outside decoder has given for the packets, in order.
    pub closed spec fn outcomes(&self) -> Seq<Result<Option<(i32, i32, Seq<u8>)>, Seq<char>>> {
        given(self.inner)
    }

    /// A decoder that has been handed nothing.
    pub fn new() -> (r: Result<Openh264Decoder, StreamError>)
        ensures
            match r {
                Ok(d) => d.packets() == Seq::<Seq<u8>>::empty() && d.outcomes().len() == 0,
                Err(e) => exists|why: openh264::Error| e@ == init_problem(#[trigger] wording(why)),
            },
    {
        match open_decoder() {
            Ok(inner) => Ok(Openh264Decoder { inner }),
            Err(e) => {
                let text = error_text(&e);
                let problem = StreamError::Protocol(cat2("openh264 init: ", text.as_str()));
                assert(problem@ == init_problem(wording(e)));
                Err(problem)
            },
        }
    }
}

impl VideoDecoder for Openh264Decoder {
    open spec fn label(&self) -> Seq<char> {
        "openh264 (software)"@
    }

    open spec fn can_take(&self) -> bool {
        true
    }

    /// The bytes of the packet are handed on, whatever the packet is, and what
    /// the outside decoder gives for them is given. A picture has four bytes for
    /// each pixel.
    open spec fn can_give(
        &self,
        packet: &EncodedPacket,
        next: &Openh264Decoder,
        r: Result<Option<DecodedFrame>, StreamError>,
    ) -> bool {
        &&& next.packets() == self.packets().push(packet.data@)
        &&& next.outcomes().len() == self.outcomes().len() + 1
        &&& next.outcomes().drop_last() == self.outcomes()
        &&& is_frame(next.outcomes().last(), r)
        &&& r matches Ok(Some(f)) ==> (f.width <= i32::MAX && f.height <= i32::MAX && f.width
            * f.height * 4 <= usize::MAX ==> f.wf())
        &&& r matches Err(e) ==> exists|why: openh264::Error|
            e@ == decode_problem(#[trigger] wording(why))
    }

    fn decode(&mut self, packet: &EncodedPacket) -> (r: Result<Option<DecodedFrame>, StreamError>) {
        let got = decode_packet(&mut self.inner, &packet.data);
        assert(self.outcomes().drop_last() =~= old(self).outcomes());
        match got {
            Ok(picture) => {
                proof {
                    negative_is_large();
                }
                frame_of(Ok(picture))
            },
            Err(e) => {
                let text = error_text(&e);
                let r = frame_of(Err(text));
                assert(r matches Err(p) && p@ == decode_problem(wording(e)));
                r
            },
        }
    }

    fn name(&self) -> (r: &'static str) {
        "openh264 (software)"
    }
}

} // verus!
