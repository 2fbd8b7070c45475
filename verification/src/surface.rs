//! The surfaces that apps are shown on: pictures, sizes, titles, and what a
//! stream is asked for.

use crate::decode::{wording, Openh264Decoder, VideoDecoder};
use crate::encode::TestEncoder;
use crate::host::Host;
use crate::media::{DecodedFrame, EncodedPacket, StreamError, StreamMeta};
use crate::number::{dec, decimal, parse_u32, unsigned};
use crate::scrcpy::ScrcpyOptions;
use crate::text::{after, before, cat2, cat3, cat4, cat5, same, text_after, text_before};
use vstd::prelude::*;

verus! {

/// The four bytes of the pixel at `x`, `y` of the picture number `t`.
pub open spec fn demo_byte(t: int, x: int, y: int, c: int) -> int {
    if c == 0 {
        (x + t) % 256
    } else if c == 1 {
        (y + t / 2) % 256
    } else if c == 2 {
        128
    } else {
        255
    }
}

/// The picture number `t` can be made: no sum leaves 32 bits.
pub open spec fn demo_fits(t: u32, w: u32, h: u32) -> bool {
    &&& w * h * 4 <= usize::MAX
    &&& w > 0 && h > 0 ==> (w * h - 1) * 4 <= u32::MAX && (w - 1) + t <= u32::MAX && (h - 1) + t / 2
        <= u32::MAX
}

/// The bytes are those of the picture number `t`.
pub open spec fn is_demo(rgba: Seq<u8>, t: u32, w: u32, h: u32) -> bool {
    &&& rgba.len() == w * h * 4
    &&& forall|x: int, y: int, c: int|
        0 <= x < w && 0 <= y < h && 0 <= c < 4 ==> #[trigger] pixel(rgba, w as int, x, y, c)
            == demo_byte(t as int, x, y, c)
}

/// A picture that moves with its number.
pub fn demo_frame(t: u32, w: u32, h: u32) -> (r: DecodedFrame)
    requires
        demo_fits(t, w, h),
    ensures
        r.width == w,
        r.height == h,
        r.wf(),
        is_demo(r.rgba@, t, w, h),
{
    let mut rgba: Vec<u8> = Vec::new();
    let mut y: u32 = 0;
    assert(0 * w == 0) by (nonlinear_arith);
    while y < h
        invariant
            y <= h,
            demo_fits(t, w, h),
            rgba@.len() == y * w * 4,
            forall|i: int, j: int, c: int|
                0 <= i < w && 0 <= j < y && 0 <= c < 4 ==> #[trigger] pixel(
                    rgba@,
                    w as int,
                    i,
                    j,
                    c,
                ) == demo_byte(t as int, i, j, c),
        decreases h - y,
    {
        let mut x: u32 = 0;
        while x < w
            invariant
                x <= w,
                y < h,
                demo_fits(t, w, h),
                rgba@.len() == (y * w + x) * 4,
                forall|i: int, j: int, c: int|
                    0 <= i < w && 0 <= j < y && 0 <= c < 4 ==> #[trigger] pixel(
                        rgba@,
                        w as int,
                        i,
                        j,
                        c,
                    ) == demo_byte(t as int, i, j, c),
                forall|i: int, c: int|
                    0 <= i < x && 0 <= c < 4 ==> #[trigger] pixel(rgba@, w as int, i, y as int, c)
                        == demo_byte(t as int, i, y as int, c),
            decreases w - x,
        {
            let ghost was = rgba@;
            rgba.push(((x + t) % 256) as u8);
            rgba.push(((y + t / 2) % 256) as u8);
            rgba.push(128);
            rgba.push(255);
            proof {
                assert forall|i: int, j: int, c: int|
                    0 <= i < w && 0 <= j < y && 0 <= c < 4 implies #[trigger] pixel(
                    rgba@,
                    w as int,
                    i,
                    j,
                    c,
                ) == demo_byte(t as int, i, j, c) by {
                    earlier_row(w as int, i, j, y as int, x as int);
                    assert(pixel(was, w as int, i, j, c) == demo_byte(t as int, i, j, c));
                }
                assert forall|i: int, c: int| 0 <= i < x + 1 && 0 <= c < 4 implies #[trigger] pixel(
                    rgba@,
                    w as int,
                    i,
                    y as int,
                    c,
                ) == demo_byte(t as int, i, y as int, c) by {
                    if i < x {
                        assert(pixel(was, w as int, i, y as int, c) == demo_byte(
                            t as int,
                            i,
                            y as int,
                            c,
                        ));
                    }
                }
            }
            x = x + 1;
        }
        assert((y + 1) * w == y * w + w) by (nonlinear_arith);
        y = y + 1;
    }
    assert(h * w * 4 == w * h * 4) by (nonlinear_arith);
    DecodedFrame { width: w, height: h, rgba }
}

/// A byte of a pixel in a picture whose rows are `w` pixels long.
pub open spec fn pixel(rgba: Seq<u8>, w: int, x: int, y: int, c: int) -> int {
    rgba[(y * w + x) * 4 + c] as int
}

proof fn earlier_row(w: int, i: int, j: int, y: int, x: int)
    requires
        0 <= i < w,
        0 <= j < y,
        0 <= x,
    ensures
        0 <= j * w + i < y * w + x,
{
    assert(j * w + w <= y * w) by (nonlinear_arith)
        requires
            0 <= j < y,
            0 <= w,
    ;
    assert(0 <= j * w) by (nonlinear_arith)
        requires
            0 <= j,
            0 <= w,
    ;
}

/// What is said of a picture that does not have four bytes for each pixel.
pub open spec fn size_complaint(got: int, expected: int) -> Seq<char> {
    "frame is "@ + dec(got) + " bytes, expected "@ + dec(expected)
}

/// How many bytes are to be shown of a picture, or what is said where it does
/// not have four for each pixel.
pub fn check_frame(frame: &DecodedFrame) -> (r: Result<usize, String>)
    requires
        frame.width * frame.height * 4 <= usize::MAX,
    ensures
        match r {
            Ok(n) => frame.wf() && n == frame.rgba@.len(),
            Err(e) => !frame.wf() && e@ == size_complaint(
                frame.rgba@.len() as int,
                frame.width * frame.height * 4,
            ),
        },
{
    let pixels: usize = product(frame.width, frame.height);
    assert(frame.width * frame.height * 4 == 4 * (frame.width * frame.height));
    let expected: usize = pixels * 4;
    if frame.rgba.len() != expected {
        let got = decimal(frame.rgba.len() as u64);
        let wanted = decimal(expected as u64);
        return Err(cat4("frame is ", got.as_str(), " bytes, expected ", wanted.as_str()));
    }
    Ok(expected)
}

fn product(w: u32, h: u32) -> (r: usize)
    requires
        w * h <= usize::MAX,
    ensures
        r == w * h,
{
    assert(0 <= w * h <= 0xffff_ffff * 0xffff_ffff) by (nonlinear_arith)
        requires
            0 <= w <= 0xffff_ffff,
            0 <= h <= 0xffff_ffff,
    ;
    let n: u64 = w as u64 * h as u64;
    n as usize
}

/// Whether the texture that is there has to be made anew for a picture.
pub fn is_stale(texture: Option<(u32, u32)>, w: u32, h: u32) -> (r: bool)
    ensures
        r == (texture != Some((w, h))),
{
    match texture {
        Some((tw, th)) => tw != w || th != h,
        None => true,
    }
}

/// The size of a surface for a picture whose longer side is at most `cap`. None
/// where the picture has to be scaled down.
pub fn fits(w: u32, h: u32, cap: u32) -> (r: Option<(u32, u32)>)
    ensures
        match r {
            Some((a, b)) => {
                &&& longest(w, h) <= cap
                &&& a == at_least_one(w)
                &&& b == at_least_one(h)
            },
            None => longest(w, h) > cap,
        },
{
    let mut side: u32 = 1;
    if w > side {
        side = w;
    }
    if h > side {
        side = h;
    }
    if side <= cap {
        Some(
            (
                if w == 0 {
                    1
                } else {
                    w
                },
                if h == 0 {
                    1
                } else {
                    h
                },
            ),
        )
    } else {
        None
    }
}

/// The longer side, which is at least one.
pub open spec fn longest(w: u32, h: u32) -> int {
    if w >= h && w >= 1 {
        w as int
    } else if h >= 1 {
        h as int
    } else {
        1
    }
}

/// `n`, or one where it is zero.
pub open spec fn at_least_one(n: u32) -> int {
    if n == 0 {
        1
    } else {
        n as int
    }
}

/// Two sizes in one number.
pub open spec fn packed(w: u32, h: u32) -> int {
    w * 0x1_0000_0000 + h
}

/// Two sizes in one number.
pub fn pack_size(w: u32, h: u32) -> (r: u64)
    ensures
        r == packed(w, h),
{
    w as u64 * 0x1_0000_0000 + h as u64
}

/// The two sizes in a number.
pub fn unpack_size(n: u64) -> (r: (u32, u32))
    ensures
        r.0 == n / 0x1_0000_0000,
        r.1 == n % 0x1_0000_0000,
{
    ((n / 0x1_0000_0000) as u32, (n % 0x1_0000_0000) as u32)
}

/// Two sizes that were packed are found again.
pub proof fn packing_reads_back(w: u32, h: u32)
    ensures
        packed(w, h) / 0x1_0000_0000 == w,
        packed(w, h) % 0x1_0000_0000 == h,
{
}

/// The number in a setting, or `default` where it holds none.
pub open spec fn setting(value: Option<&str>, default: u32) -> int {
    match value {
        Some(v) => match unsigned(v@, u32::MAX as int) {
            Some(n) => n,
            None => default as int,
        },
        None => default as int,
    }
}

/// The number in a setting, or `default` where it holds none.
pub fn env_u32(value: Option<&str>, default: u32) -> (r: u32)
    ensures
        r == setting(value, default),
{
    match value {
        Some(v) => match parse_u32(v) {
            Some(n) => n,
            None => default,
        },
        None => default,
    }
}

/// The two numbers around the first `x` of a text.
pub open spec fn size_in(s: Seq<char>) -> Option<(int, int)> {
    match after(s, "x"@) {
        None => None,
        Some(rest) => match (
            unsigned(before(s, "x"@), u32::MAX as int),
            unsigned(rest, u32::MAX as int),
        ) {
            (Some(w), Some(h)) => Some((w, h)),
            _ => None,
        },
    }
}

/// The size of an app's window, from what the environment holds under
/// `ANDROLON_COHERENCE_SIZE`.
pub fn coherence_size(value: Option<&str>) -> (r: (u32, u32))
    ensures
        (r.0 as int, r.1 as int) == (match value {
            Some(v) => match size_in(v@) {
                Some(size) => size,
                None => (800int, 500int),
            },
            None => (800int, 500int),
        }),
{
    match value {
        None => (800, 500),
        Some(v) => match text_after(v, "x") {
            None => (800, 500),
            Some(rest) => match (
                parse_u32(text_before(v, "x").as_str()),
                parse_u32(rest.as_str()),
            ) {
                (Some(w), Some(h)) => (w, h),
                _ => (800, 500),
            },
        },
    }
}

/// The server's file is the one that the environment names, where it names one.
pub open spec fn jar_of(o: ScrcpyOptions, named: Option<&str>) -> Seq<char> {
    match named {
        Some(path) => path@,
        None => o.server_jar@,
    }
}

/// What the stream of an app is asked for: a display of its own, with two pixels
/// in each direction for each point of the window, and the app on it. `named` is
/// the server that the environment names.
pub fn coherence_options(
    base: ScrcpyOptions,
    size: (u32, u32),
    dpi: u32,
    package: &str,
    decorations: bool,
    max_fps: u32,
    bit_rate: u32,
    named: Option<&str>,
) -> (r: ScrcpyOptions)
    requires
        size.0 <= 0x7fff_ffff,
        size.1 <= 0x7fff_ffff,
    ensures
        r.new_display == Some(((size.0 * 2) as u32, (size.1 * 2) as u32)),
        r.new_display_dpi == Some(dpi),
        r.start_app matches Some(name) && name@ == package@,
        r.vd_system_decorations == decorations,
        r.max_fps == max_fps,
        r.video_bit_rate == bit_rate,
        r.server_jar@ == jar_of(base, named),
        r.server_version == base.server_version,
        r.scid == base.scid,
        r.port == base.port,
        r.max_size == base.max_size,
        r.display_id == base.display_id,
        r.control == base.control,
{
    let mut r = base;
    r.new_display = Some((size.0 * 2, size.1 * 2));
    r.new_display_dpi = Some(dpi);
    r.start_app = Some(package.to_owned());
    r.vd_system_decorations = decorations;
    r.max_fps = max_fps;
    r.video_bit_rate = bit_rate;
    if let Some(path) = named {
        r.server_jar = path.to_owned();
    }
    r
}

/// What the stream of the whole device is asked for: a picture whose longer side
/// has at most 1024 pixels.
pub fn mirror_options(base: ScrcpyOptions, named: Option<&str>) -> (r: ScrcpyOptions)
    ensures
        r.max_size == 1024,
        r.server_jar@ == jar_of(base, named),
        r.server_version == base.server_version,
        r.scid == base.scid,
        r.port == base.port,
        r.max_fps == base.max_fps,
        r.video_bit_rate == base.video_bit_rate,
        r.display_id == base.display_id,
        r.control == base.control,
        r.new_display == base.new_display,
        r.new_display_dpi == base.new_display_dpi,
        r.start_app == base.start_app,
        r.vd_system_decorations == base.vd_system_decorations,
{
    let mut r = base;
    r.max_size = 1024;
    if let Some(path) = named {
        r.server_jar = path.to_owned();
    }
    r
}

/// Whether pictures are handed to the system without being decoded: on one host,
/// unless the environment says otherwise under `ANDROLON_PRESENT`.
pub fn use_avlayer(host: Host, present: Option<&str>) -> (r: bool)
    ensures
        r == (host == Host::Mac && !(present matches Some(v) && v@ == "gpu"@)),
{
    host == Host::Mac && match present {
        Some(v) => !same(v, "gpu"),
        None => true,
    }
}

/// The title of a window: an app's name where it shows one app, and the device
/// and the codec otherwise.
pub open spec fn title_text(app: Option<&str>, device: Seq<char>, codec: Seq<char>) -> Seq<char> {
    match app {
        Some(package) => package@ + " — Androlon"@,
        None => "Androlon — "@ + device + " ["@ + codec + "]"@,
    }
}

/// The title of a window.
pub fn pane_title(app: Option<&str>, device: &str, codec: &str) -> (r: String)
    ensures
        r@ == title_text(app, device@, codec@),
{
    match app {
        Some(package) => cat2(package, " — Androlon"),
        None => cat5("Androlon — ", device, " [", codec, "]"),
    }
}

/// What a surface for a stream is opened with.
#[derive(Debug)]
pub struct PaneSetup {
    pub title: String,
    /// The size of the window in points.
    pub window: (u32, u32),
    /// The size of the stream in pixels, in which touches are counted.
    pub stream: (u32, u32),
    /// Pictures are handed to the system without being decoded.
    pub layer: bool,
    /// The package whose key bindings count.
    pub keys_of: Option<String>,
}

/// The size of the window: what was chosen for an app, and the size that
/// `fitted` gives for the whole device.
pub open spec fn window_size(app: Option<(&str, (u32, u32))>, fitted: (u32, u32)) -> (u32, u32) {
    match app {
        Some((_, size)) => size,
        None => fitted,
    }
}

/// Says what a surface for the stream `meta` is opened with. `app` is the app
/// that it shows, with the size of its window; without one it shows the whole
/// device, in the size `fitted`.
pub fn pane_setup(
    app: Option<(&str, (u32, u32))>,
    meta: &StreamMeta,
    fitted: (u32, u32),
    host: Host,
    present: Option<&str>,
) -> (r: PaneSetup)
    ensures
        r.title@ == title_text(
            match app {
                Some((package, _)) => Some(package),
                None => None,
            },
            meta.device_name@,
            meta.codec.name(),
        ),
        r.window == window_size(app, fitted),
        r.stream == (meta.width, meta.height),
        r.layer == (host == Host::Mac && !(present matches Some(v) && v@ == "gpu"@)),
        match app {
            Some((package, _)) => r.keys_of matches Some(p) && p@ == package@,
            None => r.keys_of is None,
        },
{
    let codec = meta.codec.label();
    let (title, window, keys_of) = match app {
        Some((package, size)) => (
            pane_title(Some(package), meta.device_name.as_str(), codec.as_str()),
            size,
            Some(package.to_owned()),
        ),
        None => (pane_title(None, meta.device_name.as_str(), codec.as_str()), fitted, None),
    };
    PaneSetup {
        title,
        window,
        stream: (meta.width, meta.height),
        layer: use_avlayer(host, present),
        keys_of,
    }
}

/// The title of a window with the frames in the last second.
pub fn hud_title(title: &str, fps: u32) -> (r: String)
    ensures
        r@ == title@ + " — "@ + dec(fps as int) + " fps"@,
{
    cat4(title, " — ", decimal(fps as u64).as_str(), " fps")
}

/// What is said of a pane that could not be opened.
#[derive(Debug, Clone, Copy, PartialEq, Eq, Structural)]
pub enum PaneStage {
    Deploy,
    Start,
    Window,
    LayerWindow,
}

impl PaneStage {
    /// What could not be done.
    pub open spec fn name(self) -> Seq<char> {
        match self {
            PaneStage::Deploy => "deploy server"@,
            PaneStage::Start => "start stream"@,
            PaneStage::Window => "video window"@,
            PaneStage::LayerWindow => "layer window"@,
        }
    }

    /// What is said of a pane that could not be opened.
    pub fn failure(self, e: &str) -> (r: String)
        ensures
            r@ == self.name() + ": "@ + e@,
    {
        let what = match self {
            PaneStage::Deploy => "deploy server",
            PaneStage::Start => "start stream",
            PaneStage::Window => "video window",
            PaneStage::LayerWindow => "layer window",
        };
        cat3(what, ": ", e)
    }
}

/// The picture that is shown for what the decoder gave.
pub open spec fn shown(decoded: Result<Option<DecodedFrame>, StreamError>) -> Option<DecodedFrame> {
    match decoded {
        Ok(frame) => frame,
        Err(_) => None,
    }
}

/// `made` can come of making an encoder and a decoder: both have been handed
/// nothing, or the error says which of them could not be made, and why.
pub open spec fn can_come(made: Result<(TestEncoder, Openh264Decoder), StreamError>) -> bool {
    match made {
        Ok((enc, dec)) => {
            &&& enc.frames() == 0
            &&& enc.pictures() == Seq::<(Seq<u8>, int, int)>::empty()
            &&& enc.outcomes().len() == 0
            &&& dec.packets() == Seq::<Seq<u8>>::empty()
            &&& dec.outcomes().len() == 0
        },
        Err(e) => exists|why: openh264::Error|
            e@ == crate::encode::init_problem(#[trigger] wording(why)) || e@
                == crate::decode::init_problem(wording(why)),
    }
}

/// Makes an encoder and, where that can be made, a decoder.
fn make_codecs() -> (r: Result<(TestEncoder, Openh264Decoder), StreamError>)
    ensures
        can_come(r),
{
    match TestEncoder::new() {
        Err(e) => Err(e),
        Ok(enc) => match Openh264Decoder::new() {
            Err(e) => Err(e),
            Ok(dec) => Ok((enc, dec)),
        },
    }
}

/// Pictures that are encoded and decoded again, where there is no device.
pub struct DecodeDemo {
    pub enc: TestEncoder,
    pub dec: Openh264Decoder,
    pub t: u32,
    pub w: u32,
    pub h: u32,
}

impl DecodeDemo {
    /// The next picture can be made.
    pub open spec fn can_step(&self) -> bool {
        &&& demo_fits(self.t, self.w, self.h)
        &&& self.w % 2 == 0
        &&& self.h % 2 == 0
        &&& self.encoded() < u64::MAX
    }

    /// How many pictures were encoded.
    pub open spec fn encoded(&self) -> int {
        self.enc.frames()
    }

    /// The pictures that were handed to the encoder, in order.
    pub open spec fn pictures(&self) -> Seq<(Seq<u8>, int, int)> {
        self.enc.pictures()
    }

    /// The packets that were handed to the decoder, in order.
    pub open spec fn packets(&self) -> Seq<Seq<u8>> {
        self.dec.packets()
    }

    /// The demo of the size `w` by `h` that begins with the codecs `made`; none
    /// where they could not be made.
    pub open spec fn beginning(
        made: Result<(TestEncoder, Openh264Decoder), StreamError>,
        w: u32,
        h: u32,
    ) -> Option<DecodeDemo> {
        match made {
            Ok((enc, dec)) => Some(DecodeDemo { enc, dec, t: 0, w, h }),
            Err(_) => None,
        }
    }

    /// Begins with the codecs that were made; none where they could not be made.
    pub fn with_codecs(
        made: Result<(TestEncoder, Openh264Decoder), StreamError>,
        w: u32,
        h: u32,
    ) -> (r: Option<DecodeDemo>)
        ensures
            r == DecodeDemo::beginning(made, w, h),
    {
        match made {
            Ok((enc, dec)) => Some(DecodeDemo { enc, dec, t: 0, w, h }),
            Err(_) => None,
        }
    }

    /// None where the encoder or the decoder cannot be made.
    pub fn new(w: u32, h: u32) -> (r: Option<DecodeDemo>)
        ensures
            exists|made: Result<(TestEncoder, Openh264Decoder), StreamError>| #[trigger]
                can_come(made) && r == DecodeDemo::beginning(made, w, h),
            r matches Some(d) ==> {
                &&& d.t == 0
                &&& d.w == w
                &&& d.h == h
                &&& d.encoded() == 0
                &&& d.pictures() == Seq::<(Seq<u8>, int, int)>::empty()
                &&& d.packets() == Seq::<Seq<u8>>::empty()
                &&& d.enc.outcomes().len() == 0
                &&& d.dec.outcomes().len() == 0
            },
    {
        let made = make_codecs();
        assert(can_come(made));
        DecodeDemo::with_codecs(made, w, h)
    }

    /// The picture that comes of what the encoder made: the packet goes to the
    /// decoder, and its picture is shown. An error of either shows nothing.
    pub fn show(&mut self, encoded: Result<EncodedPacket, StreamError>) -> (r: Option<DecodedFrame>)
        ensures
            final(self).enc == old(self).enc,
            final(self).t == old(self).t,
            final(self).w == old(self).w,
            final(self).h == old(self).h,
            match encoded {
                Err(_) => r is None && final(self).dec == old(self).dec,
                Ok(p) => exists|decoded: Result<Option<DecodedFrame>, StreamError>|
                    #[trigger] old(self).dec.can_give(&p, &final(self).dec, decoded) && r == shown(
                        decoded,
                    ),
            },
    {
        match encoded {
            Err(_) => None,
            Ok(packet) => {
                let decoded = self.dec.decode(&packet);
                assert(old(self).dec.can_give(&packet, &self.dec, decoded));
                match decoded {
                    Ok(frame) => frame,
                    Err(_) => None,
                }
            },
        }
    }

    /// The next picture, where there is one. Each call counts two further, and
    /// hands the encoder the picture of its number; what the encoder makes of it
    /// goes to the decoder, and what the decoder gives for that is the picture.
    pub fn next_frame(&mut self) -> (r: Option<DecodedFrame>)
        requires
            old(self).can_step(),
        ensures
            final(self).t == (if old(self).t > u32::MAX - 2 {
                old(self).t - (u32::MAX - 1)
            } else {
                old(self).t + 2
            }),
            final(self).w == old(self).w,
            final(self).h == old(self).h,
            exists|rgba: Seq<u8>|
                #[trigger] is_demo(rgba, old(self).t, old(self).w, old(self).h)
                    && final(self).pictures() == old(self).pictures().push(
                    (rgba, old(self).w as int, old(self).h as int),
                ),
            final(self).enc.outcomes().len() == old(self).enc.outcomes().len() + 1,
            final(self).enc.outcomes().drop_last() == old(self).enc.outcomes(),
            match final(self).enc.outcomes().last() {
                Err(_) => {
                    &&& r is None
                    &&& final(self).encoded() == old(self).encoded()
                    &&& final(self).dec == old(self).dec
                },
                Ok(data) => {
                    &&& final(self).encoded() == old(self).encoded() + 1
                    &&& final(self).packets() == old(self).packets().push(data)
                    &&& final(self).dec.outcomes().len() == old(self).dec.outcomes().len() + 1
                    &&& final(self).dec.outcomes().drop_last() == old(self).dec.outcomes()
                    &&& match final(self).dec.outcomes().last() {
                        Ok(Some((w, h, rgba))) => r matches Some(f) && f.width == w as u32
                            && f.height == h as u32 && f.rgba@ == rgba,
                        _ => r is None,
                    }
                },
            },
    {
        let src = demo_frame(self.t, self.w, self.h);
        self.t = self.t.wrapping_add(2);
        let encoded = self.enc.encode_rgba(&src.rgba, self.w, self.h);
        self.show(encoded)
    }
}

/// The picture moves by one pixel to the left with each number, and up by one with
/// every second.
pub proof fn the_demo_moves(t: int, x: int, y: int, c: int)
    requires
        0 <= t,
        0 <= x,
        0 <= y,
        0 <= c < 4,
    ensures
        demo_byte(t + 1, x, y, 0) == demo_byte(t, x + 1, y, 0),
        demo_byte(t + 2, x, y, 1) == demo_byte(t, x, y + 1, 1),
        demo_byte(t, x, y, 2) == 128,
        demo_byte(t, x, y, 3) == 255,
        demo_byte(0, x, y, 0) == x % 256,
        demo_byte(0, x, y, 1) == y % 256,
        0 <= demo_byte(t, x, y, c) <= 255,
{
}

/// A size that is written with a cross between its two numbers is read as those.
pub proof fn sizes_read_back(w: int, h: int)
    requires
        0 <= w <= u32::MAX,
        0 <= h <= u32::MAX,
    ensures
        size_in(dec(w) + "x"@ + dec(h)) == Some((w, h)),
{
    crate::number::dec_unsigned_reads_back(w, u32::MAX as int);
    crate::number::dec_unsigned_reads_back(h, u32::MAX as int);
    digits_hold_no_cross(w);
    parts_around_the_cross(dec(w), dec(h));
}

proof fn digits_hold_no_cross(w: int)
    requires
        0 <= w,
    ensures
        forall|i: int| 0 <= i < dec(w).len() ==> #[trigger] dec(w)[i] != 'x',
{
    crate::number::dec_nat_reads_back(w as nat);
    assert forall|i: int| 0 <= i < dec(w).len() implies #[trigger] dec(w)[i] != 'x' by {
        assert(crate::number::is_digit(dec(w)[i]));
    }
}

proof fn parts_around_the_cross(a: Seq<char>, b: Seq<char>)
    requires
        forall|i: int| 0 <= i < a.len() ==> #[trigger] a[i] != 'x',
    ensures
        before(a + "x"@ + b, "x"@) == a,
        after(a + "x"@ + b, "x"@) == Some(b),
{
    let p = "x"@;
    let s = a + p + b;
    reveal_strlit("x");
    crate::text::find_from_is_first(s, p, 0);
    let at = a.len() as int;
    assert(s.subrange(at, at + 1) =~= p);
    assert(crate::text::occurs_at(s, p, at));
    if let Some(k) = crate::text::find(s, p) {
        if k < at {
            assert(s.subrange(k, k + 1)[0] == a[k]);
        }
    }
    assert(s.take(at) =~= a);
    assert(s.skip(at + 1) =~= b);
}

/// A setting that holds a number is that number; one that is not there is the
/// default.
pub proof fn settings_read_back(n: int, v: &str, default: u32)
    requires
        0 <= n <= u32::MAX,
        v@ == dec(n),
    ensures
        setting(Some(v), default) == n,
        setting(None, default) == default,
{
    crate::number::dec_unsigned_reads_back(n, u32::MAX as int);
}

/// The longer side of a picture is at least each of its sides and is one of them,
/// unless both are zero.
pub proof fn the_longer_side_is_a_side(w: u32, h: u32)
    ensures
        longest(w, h) >= w,
        longest(w, h) >= h,
        longest(w, h) >= 1,
        w > 0 || h > 0 ==> longest(w, h) == w || longest(w, h) == h,
        longest(w, h) == longest(h, w),
        at_least_one(w) >= 1,
        w > 0 ==> at_least_one(w) == w,
{
}

/// The title of a window names what it shows: the app alone, or the device and how
/// its stream is coded. The window of an app has the size that was chosen for it.
pub proof fn titles_name_what_is_shown(
    package: &str,
    size: (u32, u32),
    fitted: (u32, u32),
    device: Seq<char>,
    codec: Seq<char>,
)
    ensures
        title_text(Some(package), device, codec) == package@ + " — Androlon"@,
        title_text(None, device, codec) == "Androlon — "@ + device + " ["@ + codec + "]"@,
        window_size(Some((package, size)), fitted) == size,
        window_size(None, fitted) == fitted,
{
}

} // verus!
