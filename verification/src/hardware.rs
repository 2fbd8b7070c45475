//! The hardware path of decoding: what is handed to the system's decoder, and
//! what is made of its answers.

use crate::media::{DecodedFrame, EncodedPacket, StreamError, StreamProblem};
use crate::nal::{annexb_to_avcc, framed, parameter_sets, sets_of, units};
use crate::number::{dec, decimal_signed};
use crate::text::{cat2, cat4};
use vstd::arithmetic::div_mod::lemma_fundamental_div_mod_converse;
use vstd::prelude::*;

verus! {

/// One of the calls into the system.
#[derive(Debug, Clone, Copy, PartialEq, Eq, Structural)]
pub enum Stage {
    Format,
    Session,
    Block,
    Fill,
    Sample,
    Frame,
}

impl Stage {
    /// What the call is for.
    pub open spec fn name(self) -> Seq<char> {
        match self {
            Stage::Format => "format desc create"@,
            Stage::Session => "VT session create"@,
            Stage::Block => "block buffer create"@,
            Stage::Fill => "block buffer fill"@,
            Stage::Sample => "sample buffer create"@,
            Stage::Frame => "decode frame"@,
        }
    }

    pub fn label(self) -> (r: &'static str)
        ensures
            r@ == self.name(),
    {
        match self {
            Stage::Format => "format desc create",
            Stage::Session => "VT session create",
            Stage::Block => "block buffer create",
            Stage::Fill => "block buffer fill",
            Stage::Sample => "sample buffer create",
            Stage::Frame => "decode frame",
        }
    }
}

/// What came of a call: its status, and whether what it should have made is
/// missing.
#[derive(Debug, Clone, Copy)]
pub struct StageResult {
    pub stage: Stage,
    pub status: i32,
    pub missing: bool,
}

impl StageResult {
    pub open spec fn failed(self) -> bool {
        self.status != 0 || self.missing
    }

    /// What is said of a call that failed.
    pub open spec fn problem(self) -> StreamProblem {
        StreamProblem::Protocol(self.stage.name() + " failed ("@ + dec(self.status as int) + ")"@)
    }
}

/// The first call that failed.
pub open spec fn first_failure(rs: Seq<StageResult>) -> Option<StageResult>
    decreases rs.len(),
{
    if rs.len() == 0 {
        None
    } else if rs[0].failed() {
        Some(rs[0])
    } else {
        first_failure(rs.skip(1))
    }
}

/// The calls went well, or what is said of the first that failed.
pub fn settle(results: &Vec<StageResult>) -> (r: Result<(), StreamError>)
    ensures
        match r {
            Ok(_) => first_failure(results@) is None,
            Err(e) => first_failure(results@) matches Some(f) && e@ == f.problem(),
        },
{
    let mut i: usize = 0;
    assert(results@.skip(0) =~= results@);
    while i < results.len()
        invariant
            i <= results.len(),
            first_failure(results@) == first_failure(results@.skip(i as int)),
        decreases results.len() - i,
    {
        let f = results[i];
        assert(results@.skip(i as int)[0] == f);
        if f.status != 0 || f.missing {
            return Err(
                StreamError::Protocol(
                    cat4(
                        f.stage.label(),
                        " failed (",
                        decimal_signed(f.status as i64).as_str(),
                        ")",
                    ),
                ),
            );
        }
        assert(results@.skip(i as int).skip(1) =~= results@.skip(i + 1));
        i = i + 1;
    }
    Ok(())
}

/// What is to be done with a packet.
#[derive(Debug)]
pub enum Work {
    /// Nothing: there is no picture in it, or the decoder cannot begin yet.
    Nothing,
    /// Set the decoder up with these two sets.
    SetUp { sps: Vec<u8>, pps: Vec<u8> },
    /// Hand these units to the decoder.
    Decode { units: Vec<u8> },
}

/// What a `Work` stands for.
pub enum Job {
    Nothing,
    SetUp { sps: Seq<u8>, pps: Seq<u8> },
    Decode { units: Seq<u8> },
}

impl View for Work {
    type V = Job;

    open spec fn view(&self) -> Job {
        match self {
            Work::Nothing => Job::Nothing,
            Work::SetUp { sps, pps } => Job::SetUp { sps: sps@, pps: pps@ },
            Work::Decode { units } => Job::Decode { units: units@ },
        }
    }
}

/// Setting up with what a packet holds.
pub open spec fn set_up_job(d: Seq<u8>) -> Result<Job, StreamProblem> {
    match sets_of(d) {
        Ok((sps, pps)) => Ok(Job::SetUp { sps, pps }),
        Err(e) => Err(e),
    }
}

/// Decoding what a packet holds: a packet without units is left out.
pub open spec fn decode_job(d: Seq<u8>) -> Job {
    if framed(units(d)).len() == 0 {
        Job::Nothing
    } else {
        Job::Decode { units: framed(units(d)) }
    }
}

/// `r` is what `w` says.
pub open spec fn is_job(r: Result<Work, StreamError>, w: Result<Job, StreamProblem>) -> bool {
    match (r, w) {
        (Ok(a), Ok(b)) => a@ == b,
        (Err(a), Err(b)) => a@ == b,
        _ => false,
    }
}

fn set_up_work(data: &Vec<u8>) -> (r: Result<Work, StreamError>)
    ensures
        is_job(r, set_up_job(data@)),
{
    match parameter_sets(data) {
        Ok((sps, pps)) => Ok(Work::SetUp { sps, pps }),
        Err(e) => Err(e),
    }
}

fn decode_work(data: &Vec<u8>) -> (r: Work)
    ensures
        r@ == decode_job(data@),
{
    let units = annexb_to_avcc(data);
    if units.len() == 0 {
        Work::Nothing
    } else {
        Work::Decode { units }
    }
}

/// A decoder of the system that hands back pictures. It is set up once.
#[derive(Debug)]
pub struct VideoToolboxDecoder {
    /// The decoder was set up.
    pub ready: bool,
}

impl VideoToolboxDecoder {
    pub fn new() -> (r: VideoToolboxDecoder)
        ensures
            !r.ready,
    {
        VideoToolboxDecoder { ready: false }
    }

    /// What is to be done with a packet.
    pub open spec fn job(&self, packet: EncodedPacket) -> Result<Job, StreamProblem> {
        if packet.is_config {
            if self.ready {
                Ok(Job::Nothing)
            } else {
                set_up_job(packet.data@)
            }
        } else if !self.ready {
            Ok(Job::Nothing)
        } else {
            Ok(decode_job(packet.data@))
        }
    }

    /// What is to be done with a packet.
    pub fn decode(&self, packet: &EncodedPacket) -> (r: Result<Work, StreamError>)
        ensures
            is_job(r, self.job(*packet)),
    {
        if packet.is_config {
            if self.ready {
                Ok(Work::Nothing)
            } else {
                set_up_work(&packet.data)
            }
        } else if !self.ready {
            Ok(Work::Nothing)
        } else {
            Ok(decode_work(&packet.data))
        }
    }

    /// The calls that set the decoder up were made. It is ready where all went
    /// well, and as it was otherwise.
    pub fn setup(&mut self, results: &Vec<StageResult>) -> (r: Result<(), StreamError>)
        ensures
            match r {
                Ok(_) => first_failure(results@) is None && final(self).ready,
                Err(e) => first_failure(results@) matches Some(f) && e@ == f.problem()
                    && final(self).ready == old(self).ready,
            },
    {
        match settle(results) {
            Ok(_) => {
                self.ready = true;
                Ok(())
            },
            Err(e) => Err(e),
        }
    }

    /// The calls that decode a frame were made, and the decoder left `sink`.
    pub fn decode_frame(results: &Vec<StageResult>, sink: Sink) -> (r: Result<
        Option<DecodedFrame>,
        StreamError,
    >)
        ensures
            match first_failure(results@) {
                Some(f) => r matches Err(e) && e@ == f.problem(),
                None => match sink.error {
                    Some(text) => r matches Err(e) && e@ == StreamProblem::Protocol(text@),
                    None => r == Ok::<_, StreamError>(sink.frame),
                },
            },
    {
        match settle(results) {
            Err(e) => Err(e),
            Ok(_) => match sink.error {
                Some(text) => Err(StreamError::Protocol(text)),
                None => Ok(sink.frame),
            },
        }
    }

    pub fn name(&self) -> (r: &'static str)
        ensures
            r@ == "videotoolbox (hardware)"@,
    {
        "videotoolbox (hardware)"
    }
}

/// What makes samples of packets, for a layer of the system that decodes and
/// shows them itself. Each packet with sets replaces those before it.
#[derive(Debug)]
pub struct SampleAssembler {
    /// A format is known.
    pub has_format: bool,
}

impl SampleAssembler {
    pub fn new() -> (r: SampleAssembler)
        ensures
            !r.has_format,
    {
        SampleAssembler { has_format: false }
    }

    /// What is to be done with a packet.
    pub open spec fn job(&self, packet: EncodedPacket) -> Result<Job, StreamProblem> {
        if packet.is_config {
            set_up_job(packet.data@)
        } else if !self.has_format {
            Ok(Job::Nothing)
        } else {
            Ok(decode_job(packet.data@))
        }
    }

    /// What is to be done with a packet: where it holds a picture, a sample is
    /// to be made of its units.
    pub fn push(&self, packet: &EncodedPacket) -> (r: Result<Work, StreamError>)
        ensures
            is_job(r, self.job(*packet)),
    {
        if packet.is_config {
            set_up_work(&packet.data)
        } else if !self.has_format {
            Ok(Work::Nothing)
        } else {
            Ok(decode_work(&packet.data))
        }
    }

    /// The call that makes a format was made.
    pub fn set_format(&mut self, results: &Vec<StageResult>) -> (r: Result<(), StreamError>)
        ensures
            match r {
                Ok(_) => first_failure(results@) is None && final(self).has_format,
                Err(e) => first_failure(results@) matches Some(f) && e@ == f.problem()
                    && final(self).has_format == old(self).has_format,
            },
    {
        match settle(results) {
            Ok(_) => {
                self.has_format = true;
                Ok(())
            },
            Err(e) => Err(e),
        }
    }
}

/// What the system's decoder left: a picture, what went wrong, or neither.
#[derive(Debug)]
pub struct Sink {
    pub frame: Option<DecodedFrame>,
    pub error: Option<String>,
}

/// A picture of the system: rows of `stride` bytes, each pixel as blue, green,
/// red and alpha. The bytes are missing where they cannot be reached.
#[derive(Debug)]
pub struct PixelBuffer {
    pub locked: bool,
    pub width: usize,
    pub height: usize,
    pub stride: usize,
    pub bytes: Option<Vec<u8>>,
}

impl PixelBuffer {
    /// The rows lie within the bytes, and the picture is not too large to be
    /// copied.
    pub open spec fn wf(&self) -> bool {
        &&& self.width <= u32::MAX
        &&& self.height <= u32::MAX
        &&& self.width * self.height * 4 <= usize::MAX
        &&& self.width * 4 <= self.stride
        &&& self.bytes matches Some(b) ==> self.height * self.stride <= b@.len()
    }
}

/// Where the byte `k` of a picture stands in rows of `stride` bytes with the
/// colours the other way round.
pub open spec fn source(k: int, width: int, stride: int) -> int {
    let p = k / 4;
    let c = k % 4;
    (p / width) * stride + (p % width) * 4 + if c == 0 {
        2int
    } else if c == 2 {
        0
    } else {
        c
    }
}

/// `rgba` is the picture in rows of `stride` bytes, with the colours the other
/// way round.
pub open spec fn is_picture(
    rgba: Seq<u8>,
    bytes: Seq<u8>,
    width: int,
    height: int,
    stride: int,
) -> bool {
    &&& rgba.len() == width * height * 4
    &&& forall|k: int| 0 <= k < rgba.len() ==> #[trigger] rgba[k] == bytes[source(k, width, stride)]
}

proof fn source_of_pixel(x: int, y: int, c: int, width: int, stride: int)
    requires
        0 <= x < width,
        0 <= y,
        0 <= c < 4,
    ensures
        source((y * width + x) * 4 + c, width, stride) == y * stride + x * 4 + if c == 0 {
            2int
        } else if c == 2 {
            0
        } else {
            c
        },
{
    let p = y * width + x;
    assert((p * 4 + c) / 4 == p && (p * 4 + c) % 4 == c);
    lemma_fundamental_div_mod_converse(p, width, y, x);
}

/// The picture in rows of `stride` bytes, with the colours the other way round.
pub fn bgra_to_rgba(bytes: &Vec<u8>, width: usize, height: usize, stride: usize) -> (rgba: Vec<u8>)
    requires
        width * height * 4 <= usize::MAX,
        width * 4 <= stride,
        height * stride <= bytes.len(),
    ensures
        is_picture(rgba@, bytes@, width as int, height as int, stride as int),
{
    let mut rgba: Vec<u8> = Vec::new();
    let mut y: usize = 0;
    assert(0 * width == 0) by (nonlinear_arith);
    while y < height
        invariant
            y <= height,
            width * 4 <= stride,
            height * stride <= bytes.len(),
            rgba@.len() == y * width * 4,
            forall|k: int|
                0 <= k < rgba@.len() ==> #[trigger] rgba@[k] == bytes@[source(
                    k,
                    width as int,
                    stride as int,
                )],
        decreases height - y,
    {
        assert(y * stride + stride <= height * stride) by (nonlinear_arith)
            requires
                y < height,
        ;
        assert(y * stride >= 0) by (nonlinear_arith);
        let row: usize = y * stride;
        let mut x: usize = 0;
        while x < width
            invariant
                x <= width,
                y < height,
                width * 4 <= stride,
                row == y * stride,
                row + stride <= bytes.len(),
                rgba@.len() == (y * width + x) * 4,
                forall|k: int|
                    0 <= k < rgba@.len() ==> #[trigger] rgba@[k] == bytes@[source(
                        k,
                        width as int,
                        stride as int,
                    )],
            decreases width - x,
        {
            proof {
                source_of_pixel(x as int, y as int, 0, width as int, stride as int);
                source_of_pixel(x as int, y as int, 1, width as int, stride as int);
                source_of_pixel(x as int, y as int, 2, width as int, stride as int);
                source_of_pixel(x as int, y as int, 3, width as int, stride as int);
            }
            let at: usize = row + x * 4;
            rgba.push(bytes[at + 2]);
            rgba.push(bytes[at + 1]);
            rgba.push(bytes[at]);
            rgba.push(bytes[at + 3]);
            x = x + 1;
        }
        assert((y + 1) * width == y * width + width) by (nonlinear_arith);
        y = y + 1;
    }
    assert(height * width == width * height) by (nonlinear_arith);
    rgba
}

/// The decoder left nothing but what went wrong.
pub open spec fn only_error(r: Sink, text: Seq<char>) -> bool {
    &&& r.frame is None
    &&& r.error matches Some(e)
    &&& e@ == text
}

/// The decoder left nothing but the picture in `bytes`.
pub open spec fn only_picture(r: Sink, b: PixelBuffer, bytes: Seq<u8>) -> bool {
    &&& r.error is None
    &&& r.frame matches Some(f)
    &&& f.width == b.width
    &&& f.height == b.height
    &&& f.wf()
    &&& is_picture(f.rgba@, bytes, b.width as int, b.height as int, b.stride as int)
}

/// `r` is what the decoder leaves when it calls back with `status` and `image`.
pub open spec fn is_sink(status: i32, image: Option<PixelBuffer>, r: Sink) -> bool {
    if status != 0 {
        only_error(r, "decode status "@ + dec(status as int))
    } else {
        match image {
            None => r.frame is None && r.error is None,
            Some(b) => if !b.locked {
                only_error(r, "CVPixelBufferLockBaseAddress failed"@)
            } else if b.bytes is Some && b.width > 0 && b.height > 0 {
                only_picture(r, b, b.bytes->0@)
            } else {
                r.frame is None && r.error is None
            },
        }
    }
}

/// What the decoder leaves when it calls back with `status` and `image`.
pub fn output_callback(status: i32, image: Option<PixelBuffer>) -> (r: Sink)
    requires
        image matches Some(b) ==> b.wf(),
    ensures
        is_sink(status, image, r),
{
    if status != 0 {
        return Sink {
            frame: None,
            error: Some(cat2("decode status ", decimal_signed(status as i64).as_str())),
        };
    }
    match image {
        None => Sink { frame: None, error: None },
        Some(b) => {
            if !b.locked {
                return Sink {
                    frame: None,
                    error: Some("CVPixelBufferLockBaseAddress failed".to_owned()),
                };
            }
            match b.bytes {
                Some(bytes) => if b.width > 0 && b.height > 0 {
                    let rgba = bgra_to_rgba(&bytes, b.width, b.height, b.stride);
                    Sink {
                        frame: Some(
                            DecodedFrame { width: b.width as u32, height: b.height as u32, rgba },
                        ),
                        error: None,
                    }
                } else {
                    Sink { frame: None, error: None }
                },
                None => Sink { frame: None, error: None },
            }
        },
    }
}

/// A frame is decoded only after a set-up that went well: before it, no packet
/// leads to one.
pub proof fn no_frame_before_set_up(d: VideoToolboxDecoder, packet: EncodedPacket)
    requires
        !d.ready,
    ensures
        !(d.job(packet) matches Ok(j) && j is Decode),
{
}

/// The pixels of a picture stay where they are, and keep their colours: of the
/// pixel in column `x` and row `y`, the first byte is the red that stood third,
/// the third the blue that stood first, and green and alpha stay.
pub proof fn pixels_keep_their_colours(
    rgba: Seq<u8>,
    bytes: Seq<u8>,
    width: int,
    height: int,
    stride: int,
    x: int,
    y: int,
)
    requires
        is_picture(rgba, bytes, width, height, stride),
        0 <= x < width,
        0 <= y < height,
    ensures
        ({
            let at = (y * width + x) * 4;
            let from = y * stride + x * 4;
            &&& 0 <= at
            &&& at + 3 < rgba.len()
            &&& rgba[at] == bytes[from + 2]
            &&& rgba[at + 1] == bytes[from + 1]
            &&& rgba[at + 2] == bytes[from]
            &&& rgba[at + 3] == bytes[from + 3]
        }),
{
    let p = y * width + x;
    assert(0 <= p && p + 1 <= width * height) by (nonlinear_arith)
        requires
            p == y * width + x,
            0 <= x < width,
            0 <= y < height,
    ;
    vstd::arithmetic::div_mod::lemma_fundamental_div_mod_converse(p, width, y, x);
    assert(width * height * 4 == (width * height) * 4) by (nonlinear_arith);
    let at = p * 4;
    assert(at / 4 == p && at % 4 == 0);
    assert((at + 1) / 4 == p && (at + 1) % 4 == 1);
    assert((at + 2) / 4 == p && (at + 2) % 4 == 2);
    assert((at + 3) / 4 == p && (at + 3) % 4 == 3);
    assert(source(at, width, stride) == y * stride + x * 4 + 2);
    assert(source(at + 1, width, stride) == y * stride + x * 4 + 1);
    assert(source(at + 2, width, stride) == y * stride + x * 4);
    assert(source(at + 3, width, stride) == y * stride + x * 4 + 3);
}

/// What is said of calls is said of the first that failed: all before it went
/// well, and it ended with a status other than zero or without what it should
/// have made. Nothing is said where all went well.
pub proof fn the_first_failure_is_told(rs: Seq<StageResult>)
    ensures
        first_failure(rs) is None <==> forall|i: int|
            0 <= i < rs.len() ==> (#[trigger] rs[i]).status == 0 && !rs[i].missing,
        first_failure(rs) matches Some(f) ==> exists|i: int|
            0 <= i < rs.len() && #[trigger] rs[i] == f && (f.status != 0 || f.missing) && forall|
                j: int,
            |
                0 <= j < i ==> (#[trigger] rs[j]).status == 0 && !rs[j].missing,
    decreases rs.len(),
{
    if rs.len() > 0 {
        let rest = rs.skip(1);
        the_first_failure_is_told(rest);
        assert(forall|i: int| 0 <= i < rest.len() ==> rest[i] == rs[i + 1]);
        if rs[0].failed() {
            assert(rs[0] == first_failure(rs)->0);
        } else {
            match first_failure(rest) {
                None => {
                    assert forall|i: int| 0 <= i < rs.len() implies (#[trigger] rs[i]).status == 0
                        && !rs[i].missing by {
                        if i > 0 {
                            assert(rest[i - 1].status == 0);
                        }
                    }
                },
                Some(f) => {
                    let i = choose|i: int|
                        0 <= i < rest.len() && #[trigger] rest[i] == f && forall|j: int|
                            0 <= j < i ==> (#[trigger] rest[j]).status == 0 && !rest[j].missing;
                    assert(rs[i + 1] == f);
                    assert forall|j: int| 0 <= j < i + 1 implies (#[trigger] rs[j]).status == 0
                        && !rs[j].missing by {
                        if j > 0 {
                            assert(rest[j - 1].status == 0);
                        }
                    }
                },
            }
        }
    }
}

/// A packet is for what it holds: one with sets sets the decoder up while it is
/// not, and is left out once it is; one with a picture is decoded once it is set
/// up. The assembler takes every packet with sets anew.
pub proof fn packets_are_for_what_they_hold(
    d: VideoToolboxDecoder,
    a: SampleAssembler,
    packet: EncodedPacket,
)
    ensures
        d.job(packet) matches Ok(Job::SetUp { sps, pps }) ==> packet.is_config && !d.ready
            && sets_of(packet.data@) == Ok::<(Seq<u8>, Seq<u8>), StreamProblem>((sps, pps)),
        d.job(packet) matches Ok(Job::Decode { units: u }) ==> !packet.is_config && d.ready && u
            == framed(units(packet.data@)) && u.len() > 0,
        a.job(packet) matches Ok(Job::SetUp { sps, pps }) ==> packet.is_config && sets_of(
            packet.data@,
        ) == Ok::<(Seq<u8>, Seq<u8>), StreamProblem>((sps, pps)),
        a.job(packet) matches Ok(Job::Decode { units: u }) ==> !packet.is_config && a.has_format
            && u == framed(units(packet.data@)) && u.len() > 0,
        packet.is_config && !d.ready && sets_of(packet.data@) is Ok ==> (d.job(packet) matches Ok(
            Job::SetUp { .. },
        )),
        packet.is_config && sets_of(packet.data@) is Ok ==> (a.job(packet) matches Ok(
            Job::SetUp { .. },
        )),
        !packet.is_config && d.ready && framed(units(packet.data@)).len() > 0 ==> (d.job(packet)
            matches Ok(Job::Decode { .. })),
        !packet.is_config && a.has_format && framed(units(packet.data@)).len() > 0 ==> (a.job(packet)
            matches Ok(Job::Decode { .. })),
        d.job(packet) is Err ==> packet.is_config && !d.ready && sets_of(packet.data@) is Err,
        a.job(packet) is Err ==> packet.is_config && sets_of(packet.data@) is Err,
{
}

/// The system's decoder leaves a picture exactly where it ended well and handed
/// over an image that could be locked and has bytes and pixels; what went wrong is
/// left exactly where its status was another or the image could not be locked.
/// It never leaves both.
pub proof fn the_decoder_leaves_one_thing(status: i32, image: Option<PixelBuffer>, r: Sink)
    requires
        is_sink(status, image, r),
    ensures
        r.frame is Some <==> status == 0 && (image matches Some(b) && b.locked && b.bytes is Some
            && b.width >= 1 && b.height >= 1),
        r.error is Some <==> status != 0 || (image matches Some(b) && !b.locked),
        !(r.frame is Some && r.error is Some),
        status != 0 ==> (r.error matches Some(e) && e@ == "decode status "@ + dec(status as int)),
        r.frame matches Some(f) ==> (image matches Some(b) && f.width == b.width && f.height
            == b.height && is_picture(
            f.rgba@,
            (b.bytes->0)@,
            b.width as int,
            b.height as int,
            b.stride as int,
        )),
{
}

} // verus!
