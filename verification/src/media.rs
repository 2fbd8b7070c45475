//! What a video stream is made of, and what can go wrong with it.

use crate::number::{hex, hexadecimal};
use crate::text::{cat2, cat3};
use vstd::prelude::*;

verus! {

/// An error of the video stream.
#[derive(Debug)]
pub enum StreamError {
    /// The system could not read or write; what it said.
    Io(String),
    Engine(String),
    Protocol(String),
    ServerNotFound(String),
}

/// What a `StreamError` stands for.
pub enum StreamProblem {
    Io(Seq<char>),
    Engine(Seq<char>),
    Protocol(Seq<char>),
    ServerNotFound(Seq<char>),
}

impl View for StreamError {
    type V = StreamProblem;

    open spec fn view(&self) -> StreamProblem {
        match self {
            StreamError::Io(s) => StreamProblem::Io(s@),
            StreamError::Engine(s) => StreamProblem::Engine(s@),
            StreamError::Protocol(s) => StreamProblem::Protocol(s@),
            StreamError::ServerNotFound(s) => StreamProblem::ServerNotFound(s@),
        }
    }
}

/// What a user reads of an error.
pub open spec fn stream_problem_text(p: StreamProblem) -> Seq<char> {
    match p {
        StreamProblem::Io(e) => "io: "@ + e,
        StreamProblem::Engine(e) => "adb/engine: "@ + e,
        StreamProblem::Protocol(e) => "scrcpy protocol: "@ + e,
        StreamProblem::ServerNotFound(p) => "scrcpy-server not found at "@ + p
            + " (bundle it or set path)"@,
    }
}

impl StreamError {
    /// What a user reads of the error.
    pub fn message(&self) -> (r: String)
        ensures
            r@ == stream_problem_text(self@),
    {
        match self {
            StreamError::Io(e) => cat2("io: ", e.as_str()),
            StreamError::Engine(e) => cat2("adb/engine: ", e.as_str()),
            StreamError::Protocol(e) => cat2("scrcpy protocol: ", e.as_str()),
            StreamError::ServerNotFound(p) => cat3(
                "scrcpy-server not found at ",
                p.as_str(),
                " (bundle it or set path)",
            ),
        }
    }
}

/// The codec of a stream, which its first bytes name.
#[derive(Debug, Clone, Copy, PartialEq, Eq, Structural)]
pub enum Codec {
    H264,
    H265,
    Av1,
    Unknown(u32),
}

impl Codec {
    /// The codec with the number `id`.
    pub open spec fn of(id: u32) -> Codec {
        if id == 0x6832_3634 {
            Codec::H264
        } else if id == 0x6832_3635 {
            Codec::H265
        } else if id == 0x0061_7631 {
            Codec::Av1
        } else {
            Codec::Unknown(id)
        }
    }

    /// What the codec is called.
    pub open spec fn name(self) -> Seq<char> {
        match self {
            Codec::H264 => "h264"@,
            Codec::H265 => "h265"@,
            Codec::Av1 => "av1"@,
            Codec::Unknown(id) => "unknown(0x"@ + hex(id as nat, 8) + ")"@,
        }
    }

    pub fn from_id(id: u32) -> (r: Codec)
        ensures
            r == Codec::of(id),
    {
        if id == 0x6832_3634 {
            Codec::H264
        } else if id == 0x6832_3635 {
            Codec::H265
        } else if id == 0x0061_7631 {
            Codec::Av1
        } else {
            Codec::Unknown(id)
        }
    }

    pub fn label(self) -> (r: String)
        ensures
            r@ == self.name(),
    {
        match self {
            Codec::H264 => "h264".to_owned(),
            Codec::H265 => "h265".to_owned(),
            Codec::Av1 => "av1".to_owned(),
            Codec::Unknown(id) => cat3("unknown(0x", hexadecimal(id, 8).as_str(), ")"),
        }
    }
}

/// What a stream says of itself at its start.
#[derive(Debug)]
pub struct StreamMeta {
    pub device_name: String,
    pub codec: Codec,
    pub width: u32,
    pub height: u32,
}

/// One packet of a stream: a frame, or what the codec needs to begin.
#[derive(Debug)]
pub struct EncodedPacket {
    pub pts: u64,
    pub is_config: bool,
    pub is_keyframe: bool,
    pub data: Vec<u8>,
}

/// A picture.
#[derive(Debug)]
pub struct DecodedFrame {
    pub width: u32,
    pub height: u32,
    /// Four bytes for each pixel, row by row.
    pub rgba: Vec<u8>,
}

impl DecodedFrame {
    /// There are four bytes for each pixel.
    pub open spec fn wf(&self) -> bool {
        self.rgba@.len() == self.width * self.height * 4
    }
}

/// A codec is told by the four bytes of its name, and an unknown one keeps its
/// number.
pub proof fn codecs_are_told_by_their_names(id: u32)
    ensures
        Codec::of(0x6832_3634) is H264,
        Codec::of(0x6832_3635) is H265,
        Codec::of(0x0061_7631) is Av1,
        crate::wire::from_be(seq![0x68u8, 0x32u8, 0x36u8, 0x34u8]) == 0x6832_3634,
        crate::wire::from_be(seq![0x68u8, 0x32u8, 0x36u8, 0x35u8]) == 0x6832_3635,
        crate::wire::from_be(seq![0x00u8, 0x61u8, 0x76u8, 0x31u8]) == 0x0061_7631,
        Codec::of(id) matches Codec::Unknown(n) ==> n == id,
        Codec::of(id) is H264 ==> id == 0x6832_3634,
        Codec::of(id) is H265 ==> id == 0x6832_3635,
        Codec::of(id) is Av1 ==> id == 0x0061_7631,
        Codec::of(id).name() != Codec::Unknown(id).name() ==> !(Codec::of(id) is Unknown),
{
    reveal_with_fuel(crate::wire::from_be, 5);
    let a = seq![0x68u8, 0x32u8, 0x36u8, 0x34u8];
    assert(a.drop_last() =~= seq![0x68u8, 0x32u8, 0x36u8]);
    assert(a.drop_last().drop_last() =~= seq![0x68u8, 0x32u8]);
    assert(a.drop_last().drop_last().drop_last() =~= seq![0x68u8]);
    let b = seq![0x68u8, 0x32u8, 0x36u8, 0x35u8];
    assert(b.drop_last() =~= seq![0x68u8, 0x32u8, 0x36u8]);
    let c = seq![0x00u8, 0x61u8, 0x76u8, 0x31u8];
    assert(c.drop_last() =~= seq![0x00u8, 0x61u8, 0x76u8]);
    assert(c.drop_last().drop_last() =~= seq![0x00u8, 0x61u8]);
    assert(c.drop_last().drop_last().drop_last() =~= seq![0x00u8]);
}

} // verus!
