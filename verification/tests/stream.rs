use androlon::config::SdkConfig;
use androlon::decode::{
    frame_of, make_decoder, DecoderKind, NullDecoder, Openh264Decoder, Selected, VideoDecoder,
};
use androlon::encode::{packet_of as encoded_of, TestEncoder};
use androlon::hardware::{
    bgra_to_rgba, output_callback, settle, PixelBuffer, SampleAssembler, Sink, Stage, StageResult,
    VideoToolboxDecoder, Work,
};
use androlon::host::Host;
use androlon::media::{Codec, DecodedFrame, EncodedPacket, StreamError};
use androlon::nal::{annexb_to_avcc, nal_units, parameter_sets};
use androlon::scrcpy::{
    packet_of, read_header, read_meta, server_args, Header, MediaHeader, ScrcpyClient,
    ScrcpyOptions, StartAction, StartReply, PORTS, TRIES,
};
use androlon::session::{turn, turn_of, turn_on, PacketSource, Turn};
use androlon::step::{Action, Reply, Step};
use androlon::subprocess::RawOutput;
use androlon::surface::{
    check_frame, coherence_options, coherence_size, demo_frame, env_u32, fits, hud_title, is_stale,
    mirror_options, pack_size, pane_setup, pane_title, unpack_size, use_avlayer, DecodeDemo,
    PaneStage,
};

fn config() -> SdkConfig {
    SdkConfig::from_env(Host::Linux, None, Some("/sdk"), None, None, None)
}

fn ran(code: i32, out: &str) -> Reply {
    Reply::Ran(Ok(RawOutput {
        code: Some(code),
        stdout: out.as_bytes().to_vec(),
        stderr: Vec::new(),
    }))
}

fn packet(is_config: bool, data: &[u8]) -> EncodedPacket {
    EncodedPacket { pts: 0, is_config, is_keyframe: false, data: data.to_vec() }
}

fn greeting(session: u8) -> Vec<u8> {
    let mut b = vec![0u8; 80];
    b[0] = b'P';
    b[1] = b'x';
    b[64..68].copy_from_slice(b"h264");
    b[68] = session;
    b[72..76].copy_from_slice(&1600u32.to_be_bytes());
    b[76..80].copy_from_slice(&1000u32.to_be_bytes());
    b
}

#[test]
fn codecs_are_named() {
    assert_eq!(Codec::from_id(0x68323634), Codec::H264);
    assert_eq!(Codec::from_id(0x68323635).label(), "h265");
    assert_eq!(Codec::from_id(0x00617631), Codec::Av1);
    assert_eq!(Codec::from_id(7).label(), "unknown(0x00000007)");
}

#[test]
fn errors_of_a_stream_say_what_a_user_reads() {
    assert_eq!(StreamError::Io("x".into()).message(), "io: x");
    assert_eq!(StreamError::Engine("x".into()).message(), "adb/engine: x");
    assert_eq!(StreamError::Protocol("x".into()).message(), "scrcpy protocol: x");
    assert_eq!(
        StreamError::ServerNotFound("/j".into()).message(),
        "scrcpy-server not found at /j (bundle it or set path)"
    );
}

#[test]
fn the_server_is_asked_for_what_the_options_say() {
    let o = ScrcpyOptions::numbered(0x1_2345, 3);
    assert_eq!((o.port, o.scid.as_str()), (27186, "23450003"));
    let args = server_args(&o);
    assert_eq!(args[0], "shell");
    assert!(args.iter().any(|a| a == "CLASSPATH=/data/local/tmp/scrcpy-server.jar"));
    assert!(args.iter().any(|a| a == "scid=23450003"));
    assert!(args.iter().any(|a| a == "tunnel_forward=true"));
    assert!(args.iter().any(|a| a == "display_id=0"));
    assert!(args.iter().any(|a| a == "max_size=0"));
    assert!(!args.iter().any(|a| a.starts_with("max_fps")));
    let o = coherence_options(o, (800, 500), 320, "com.a", false, 60, 16_000_000, Some("/jar"));
    assert_eq!(o.server_jar, "/jar");
    let args = server_args(&o);
    assert!(args.iter().any(|a| a == "new_display=1600x1000/320"));
    assert!(args.iter().any(|a| a == "max_fps=60"));
    assert!(args.iter().any(|a| a == "video_bit_rate=16000000"));
    let o = mirror_options(ScrcpyOptions::numbered(1, 0), None);
    assert!(server_args(&o).iter().any(|a| a == "max_size=1024"));
}

#[test]
fn the_server_is_pushed_where_its_file_is_there() {
    let c = ScrcpyClient::new(config(), ScrcpyOptions::numbered(1, 0));
    assert!(matches!(c.deploy_server(&vec![]), Step::Do(Action::Exists(_))));
    assert!(matches!(
        c.deploy_server(&vec![Reply::Answer(false)]),
        Step::Done(Err(StreamError::ServerNotFound(_)))
    ));
    match c.deploy_server(&vec![Reply::Answer(true)]) {
        Step::Do(Action::Run(c)) => assert_eq!(
            c.args,
            vec!["push", "vendor/scrcpy-server", "/data/local/tmp/scrcpy-server.jar"]
        ),
        other => panic!("{other:?}"),
    }
    assert!(matches!(
        c.deploy_server(&vec![Reply::Answer(true), ran(0, "")]),
        Step::Done(Ok(()))
    ));
    assert!(matches!(
        c.deploy_server(&vec![Reply::Answer(true), ran(1, "offline")]),
        Step::Done(Err(StreamError::Engine(_)))
    ));
}

/// Starts a stream; `busy` ports are taken, and the server answers at the try
/// with the number `alive`.
fn start(mut c: ScrcpyClient, busy: u16, alive: u32, session: u8) -> Result<ScrcpyClient, StreamError> {
    let mut probes = 0;
    let mut tries = 0;
    loop {
        let reply = match c.start() {
            StartAction::Finished => return Ok(c),
            StartAction::Probe(_) => {
                probes += 1;
                StartReply::Free(probes > busy)
            }
            StartAction::Run(_) => StartReply::Process(ran(0, "")),
            StartAction::Spawn { log, .. } => {
                assert_eq!(log, "/sdk/.scrcpy-server.log");
                StartReply::Process(Reply::Did(Ok(())))
            }
            StartAction::Connect(_) => {
                tries += 1;
                StartReply::Did(if tries > alive { Ok(()) } else { Err("refused".into()) })
            }
            StartAction::Wait(ms) => {
                assert_eq!(ms, 100);
                StartReply::Did(Ok(()))
            }
            StartAction::ConnectControl(_) => StartReply::Did(Ok(())),
            StartAction::Read(n) => {
                assert_eq!(n, 80);
                StartReply::Bytes(Ok(greeting(session)))
            }
            StartAction::Send(m) => {
                assert_eq!(m[0], 16);
                StartReply::Did(Ok(()))
            }
        };
        c.on_reply(reply)?;
    }
}

#[test]
fn a_stream_is_started() {
    let c = ScrcpyClient::new(config(), ScrcpyOptions::numbered(1, 0));
    let c = start(c, 2, 5, 0x80).unwrap();
    assert_eq!(c.opts.port, 27185);
    let m = c.meta.as_ref().unwrap();
    assert_eq!((m.device_name.as_str(), m.width, m.height), ("Px", 1600, 1000));
    assert_eq!(m.codec, Codec::H264);
    assert_eq!(c.stop().args, vec!["forward", "--remove", "tcp:27185"]);
}

#[test]
fn a_stream_that_does_not_begin_is_given_up() {
    let c = ScrcpyClient::new(config(), ScrcpyOptions::numbered(1, 0));
    assert!(matches!(start(c, 0, TRIES, 0x80), Err(StreamError::Io(_))));
    let c = ScrcpyClient::new(config(), ScrcpyOptions::numbered(1, 0));
    assert!(matches!(start(c, 0, 0, 0), Err(StreamError::Protocol(_))));
    let c = ScrcpyClient::new(config(), ScrcpyOptions::numbered(1, 0));
    // Where no port is free the first one is tried.
    assert_eq!(start(c, PORTS, 0, 0x80).unwrap().opts.port, 27183);
    let mut o = ScrcpyOptions::numbered(1, 0);
    o.start_app = Some("com.a".into());
    o.control = false;
    let c = ScrcpyClient::new(config(), o);
    assert!(matches!(start(c, 0, 0, 0x80), Err(StreamError::Protocol(_))));
}

#[test]
fn a_stream_is_started_anew() {
    let mut c = ScrcpyClient::new(config(), ScrcpyOptions::numbered(1, 0));
    // The first port is taken, and the tunnel cannot be made.
    assert!(c.on_reply(StartReply::Free(false)).is_ok());
    assert!(c.on_reply(StartReply::Free(true)).is_ok());
    assert!(matches!(c.start(), StartAction::Run(_)));
    assert!(c.on_reply(StartReply::Process(ran(1, "no device"))).is_err());
    assert_eq!((c.opts.port, c.first_port), (27184, 27184));
    assert_eq!(c.stop().args, vec!["forward", "--remove", "tcp:27184"]);
    // It begins with the port that it holds.
    assert!(matches!(c.start(), StartAction::Probe(27184)));
    let mut c = start(c, 1, 0, 0x80).unwrap();
    assert_eq!(c.opts.port, 27185);
    assert!(matches!(c.start(), StartAction::Finished));
    c.restart();
    assert!(matches!(c.start(), StartAction::Probe(27185)));
    assert_eq!(start(c, 0, 0, 0x80).unwrap().opts.port, 27185);
}

#[test]
fn a_greeting_without_a_session_is_refused() {
    assert!(read_meta(&greeting(0x80)).is_ok());
    assert!(matches!(read_meta(&greeting(0)), Err(StreamError::Protocol(_))));
}

#[test]
fn a_packet_header_reads_back() {
    let h = |flags: u64, len: u32| {
        let mut v = flags.to_be_bytes().to_vec();
        v.extend(len.to_be_bytes());
        v
    };
    assert_eq!(
        read_header(&h(77 | 1 << 61, 5)),
        Header::Media(MediaHeader { pts: 77, is_config: false, is_keyframe: true, len: 5 })
    );
    match read_header(&h(1 << 62, 9)) {
        Header::Media(m) => {
            assert!(m.is_config && !m.is_keyframe);
            let p = packet_of(m, vec![1; 9]);
            assert!(p.is_config);
            assert_eq!(p.data.len(), 9);
        }
        other => panic!("{other:?}"),
    }
    let mut session = vec![0x80, 0, 0, 0];
    session.extend(720u32.to_be_bytes());
    session.extend(1280u32.to_be_bytes());
    assert!(!matches!(read_header(&session), Header::Media(_)));
}

#[test]
fn units_are_cut_and_framed() {
    let data = vec![0, 0, 0, 1, 0x67, 1, 2, 0, 0, 1, 0x68, 3, 0, 0, 0, 1, 0x65, 4, 5];
    assert_eq!(
        nal_units(&data),
        vec![vec![0x67, 1, 2], vec![0x68, 3], vec![0x65, 4, 5]]
    );
    assert_eq!(
        annexb_to_avcc(&data),
        vec![0, 0, 0, 3, 0x67, 1, 2, 0, 0, 0, 2, 0x68, 3, 0, 0, 0, 3, 0x65, 4, 5]
    );
    let (sps, pps) = parameter_sets(&data).unwrap();
    assert_eq!((sps, pps), (vec![0x67, 1, 2], vec![0x68, 3]));
    assert!(parameter_sets(&vec![0, 0, 1, 0x65, 1]).is_err());
    assert!(nal_units(&vec![1, 2, 3]).is_empty());
    assert!(nal_units(&vec![]).is_empty());
}

#[test]
fn the_hardware_decoder_is_set_up_before_it_decodes() {
    let sets = packet(true, &[0, 0, 1, 0x67, 1, 0, 0, 1, 0x68, 2]);
    let frame = packet(false, &[0, 0, 1, 0x65, 9]);
    let mut d = VideoToolboxDecoder::new();
    assert_eq!(d.name(), "videotoolbox (hardware)");
    assert!(matches!(d.decode(&frame), Ok(Work::Nothing)));
    match d.decode(&sets) {
        Ok(Work::SetUp { sps, pps }) => assert_eq!((sps, pps), (vec![0x67, 1], vec![0x68, 2])),
        other => panic!("{other:?}"),
    }
    let bad = StageResult { stage: Stage::Session, status: -12909, missing: false };
    match d.setup(&vec![bad]) {
        Err(e) => assert_eq!(e.message(), "scrcpy protocol: VT session create failed (-12909)"),
        Ok(()) => panic!("set up"),
    }
    assert!(d.setup(&vec![]).is_ok());
    assert!(matches!(d.decode(&sets), Ok(Work::Nothing)));
    match d.decode(&frame) {
        Ok(Work::Decode { units }) => assert_eq!(units, vec![0, 0, 0, 2, 0x65, 9]),
        other => panic!("{other:?}"),
    }
    assert!(matches!(d.decode(&packet(false, &[])), Ok(Work::Nothing)));
}

#[test]
fn samples_follow_the_newest_sets() {
    let sets = packet(true, &[0, 0, 1, 0x67, 1, 0, 0, 1, 0x68, 2]);
    let mut a = SampleAssembler::new();
    assert!(matches!(a.push(&packet(false, &[0, 0, 1, 0x65, 9])), Ok(Work::Nothing)));
    assert!(a.set_format(&vec![]).is_ok());
    assert!(matches!(a.push(&sets), Ok(Work::SetUp { .. })));
    assert!(matches!(a.push(&packet(false, &[0, 0, 1, 0x65, 9])), Ok(Work::Decode { .. })));
    let bad = StageResult { stage: Stage::Format, status: 0, missing: true };
    assert!(a.set_format(&vec![bad]).is_err());
    assert!(settle(&vec![]).is_ok());
}

#[test]
fn pictures_of_the_system_are_turned_around() {
    let bytes = vec![1, 2, 3, 4, 5, 6, 7, 8, 0, 0, 9, 10, 11, 12, 13, 14, 15, 16, 0, 0];
    assert_eq!(
        bgra_to_rgba(&bytes, 2, 2, 10),
        vec![3, 2, 1, 4, 7, 6, 5, 8, 11, 10, 9, 12, 15, 14, 13, 16]
    );
    let image = PixelBuffer { locked: true, width: 2, height: 2, stride: 10, bytes: Some(bytes) };
    let sink = output_callback(0, Some(image));
    let f = VideoToolboxDecoder::decode_frame(&vec![], sink).unwrap().unwrap();
    assert_eq!((f.width, f.height, f.rgba[0]), (2, 2, 3));
    let sink = output_callback(-1, None);
    assert!(sink.frame.is_none());
    let empty = Sink { frame: None, error: None };
    assert!(VideoToolboxDecoder::decode_frame(&vec![], empty).unwrap().is_none());
    let said = Sink { frame: None, error: Some("gone".into()) };
    assert!(VideoToolboxDecoder::decode_frame(&vec![], said).is_err());
}

#[test]
fn decoders_are_chosen() {
    assert_eq!(DecoderKind::from_env(None), DecoderKind::Openh264);
    assert_eq!(DecoderKind::from_env(Some("vt")), DecoderKind::VideoToolbox);
    assert_eq!(DecoderKind::from_env(Some("VT")), DecoderKind::Openh264);
    assert_eq!(DecoderKind::Openh264.label(), "openh264 (software)");
    assert!(matches!(
        make_decoder(DecoderKind::VideoToolbox, Host::Linux),
        Err(StreamError::Protocol(_))
    ));
    assert!(matches!(
        make_decoder(DecoderKind::VideoToolbox, Host::Mac),
        Ok(Selected::Hardware(_))
    ));
    assert!(matches!(
        make_decoder(DecoderKind::Openh264, Host::Linux),
        Ok(Selected::Software(_))
    ));
}

#[test]
fn what_a_decoder_gave_becomes_a_picture() {
    let f = frame_of(Ok(Some((2, 1, vec![7; 8])))).unwrap().unwrap();
    assert_eq!((f.width, f.height, f.rgba), (2, 1, vec![7; 8]));
    assert!(frame_of(Ok(None)).unwrap().is_none());
    assert!(frame_of(Err("odd".into())).is_err());
    let p = encoded_of(0, Ok(vec![1, 2])).unwrap();
    assert_eq!(p.data, vec![1, 2]);
    assert!(encoded_of(0, Err("odd".into())).is_err());
}

#[test]
fn a_picture_survives_being_coded() {
    let mut enc = TestEncoder::new().unwrap();
    let mut dec = Openh264Decoder::new().unwrap();
    assert_eq!(dec.name(), "openh264 (software)");
    let mut seen = 0;
    for t in 0..8u32 {
        let src = demo_frame(t, 64, 32);
        let p = enc.encode_rgba(&src.rgba, 64, 32).unwrap();
        assert!(!p.data.is_empty());
        assert!(!nal_units(&p.data).is_empty());
        if let Ok(Some(f)) = dec.decode(&p) {
            seen += 1;
            assert_eq!((f.width, f.height, f.rgba.len()), (64, 32, 64 * 32 * 4));
            assert!(check_frame(&f).is_ok());
            // Coding loses little: blue is one half everywhere.
            let mut off: u32 = 0;
            for px in f.rgba.chunks(4) {
                off += px[2].abs_diff(128) as u32;
                assert_eq!(px[3], 255);
            }
            assert!(off / (64 * 32) < 24, "{off}");
        }
    }
    assert!(seen > 0);
}

#[test]
fn bytes_that_are_no_stream_give_no_picture() {
    let mut dec = Openh264Decoder::new().unwrap();
    assert!(!matches!(dec.decode(&packet(false, &[1, 2, 3, 4])), Ok(Some(_))));
    let mut none = NullDecoder::default();
    assert!(matches!(none.decode(&packet(false, &[1])), Ok(None)));
}

#[test]
fn clients_have_names_of_their_own() {
    let a = ScrcpyOptions::numbered(0x1_2345, 0);
    let b = ScrcpyOptions::numbered(0x1_2345, 11);
    assert_eq!((a.scid.as_str(), a.port), ("23450000", 27183));
    assert_eq!((b.scid.as_str(), b.port), ("2345000b", 27194));
}

#[test]
fn a_picture_that_is_too_large_is_told_of() {
    let mut enc = TestEncoder::new().unwrap();
    let text = enc.encode_rgba(&vec![0; 3842 * 2 * 4], 3842, 2).unwrap_err().message();
    assert!(text.contains("openh264 encode: OpenH264 encountered an error. Native:0."), "{text}");
    assert!(text.contains("Encoder max resolution 3840x2160"), "{text}");
    // It does not count: the next one is the first, and a key frame.
    let src = demo_frame(0, 64, 32);
    let p = enc.encode_rgba(&src.rgba, 64, 32).unwrap();
    assert_eq!((p.pts, p.is_keyframe), (1, true));
}

#[test]
fn a_demo_shows_pictures() {
    let mut demo = DecodeDemo::new(64, 32).unwrap();
    let mut seen = 0;
    for _ in 0..6 {
        if let Some(f) = demo.next_frame() {
            assert_eq!((f.width, f.height), (64, 32));
            seen += 1;
        }
    }
    assert!(seen > 0);
    assert_eq!(demo.t, 12);
}

#[test]
fn a_demo_begins_with_its_codecs() {
    let made = (TestEncoder::new().unwrap(), Openh264Decoder::new().unwrap());
    let demo = DecodeDemo::with_codecs(Ok(made), 64, 32).unwrap();
    assert_eq!((demo.t, demo.w, demo.h), (0, 64, 32));
    let failed = Err(StreamError::Protocol("openh264 init: no".into()));
    assert!(DecodeDemo::with_codecs(failed, 64, 32).is_none());
}

#[test]
fn a_demo_shows_what_its_encoder_made() {
    let mut demo = DecodeDemo::new(64, 32).unwrap();
    assert!(demo.show(Err(StreamError::Protocol("no".into()))).is_none());
    assert!(demo.show(Ok(packet(false, &[1, 2, 3]))).is_none());
    let mut enc = TestEncoder::new().unwrap();
    let mut shown = None;
    for t in 0..6 {
        let src = demo_frame(t, 64, 32);
        let p = enc.encode_rgba(&src.rgba, 64, 32).unwrap();
        assert!(!p.data.is_empty());
        shown = demo.show(Ok(p)).or(shown);
    }
    let f = shown.unwrap();
    assert_eq!((f.width, f.height, f.rgba.len()), (64, 32, 64 * 32 * 4));
    assert_eq!(demo.t, 0);
}

struct Script(Vec<Result<EncodedPacket, StreamError>>);

impl PacketSource for Script {
    fn next_packet(&mut self) -> Result<EncodedPacket, StreamError> {
        if self.0.is_empty() {
            return Err(StreamError::Io("end".into()));
        }
        self.0.remove(0)
    }
}

#[test]
fn the_loop_ends_with_its_source() {
    let mut source = Script(vec![Ok(packet(false, &[1]))]);
    let mut dec = NullDecoder::default();
    assert!(matches!(turn(&mut source, &mut dec), Turn::Nothing));
    assert!(matches!(turn(&mut source, &mut dec), Turn::Ended));
    assert_eq!(dec.packets, 1);
    assert!(matches!(turn_on(Ok(packet(true, &[2])), &mut dec), Turn::Nothing));
    assert!(matches!(turn_on(Err(StreamError::Io("end".into())), &mut dec), Turn::Ended));
    assert_eq!((dec.packets, dec.config_packets), (2, 1));
    let f = DecodedFrame { width: 0, height: 0, rgba: vec![] };
    assert!(matches!(turn_of(Ok(Some(f))), Turn::Frame(_)));
    assert!(matches!(turn_of(Err(StreamError::Io("x".into()))), Turn::Nothing));
}

#[test]
fn demo_pictures_move() {
    let f = demo_frame(10, 4, 3);
    assert_eq!(f.rgba.len(), 48);
    assert_eq!(&f.rgba[..4], &[10, 5, 128, 255]);
    assert_eq!(&f.rgba[(2 * 4 + 3) * 4..], &[13, 7, 128, 255]);
    assert_eq!(demo_frame(255, 2, 1).rgba[4], 0);
}

#[test]
fn pictures_of_the_wrong_size_are_refused() {
    let f = DecodedFrame { width: 2, height: 2, rgba: vec![0; 15] };
    assert_eq!(check_frame(&f).unwrap_err(), "frame is 15 bytes, expected 16");
    let f = DecodedFrame { width: 2, height: 2, rgba: vec![0; 16] };
    assert_eq!(check_frame(&f), Ok(16));
    assert!(is_stale(None, 1, 1));
    assert!(is_stale(Some((1, 2)), 1, 1));
    assert!(!is_stale(Some((1, 1)), 1, 1));
}

#[test]
fn sizes_are_packed_and_unpacked() {
    assert_eq!(pack_size(1, 2), 0x1_0000_0002);
    assert_eq!(unpack_size(pack_size(u32::MAX, 7)), (u32::MAX, 7));
    assert_eq!(fits(400, 0, 800), Some((400, 1)));
    assert_eq!(fits(900, 10, 800), None);
}

#[test]
fn settings_come_from_the_environment() {
    assert_eq!(env_u32(None, 60), 60);
    assert_eq!(env_u32(Some("30"), 60), 30);
    assert_eq!(env_u32(Some("fast"), 60), 60);
    assert_eq!(coherence_size(None), (800, 500));
    assert_eq!(coherence_size(Some("1024x640")), (1024, 640));
    assert_eq!(coherence_size(Some("1024")), (800, 500));
    assert_eq!(coherence_size(Some("10x20x30")), (800, 500));
    assert!(use_avlayer(Host::Mac, None));
    assert!(!use_avlayer(Host::Mac, Some("gpu")));
    assert!(!use_avlayer(Host::Linux, None));
}

#[test]
fn windows_are_titled() {
    assert_eq!(pane_title(Some("com.a"), "Px", "h264"), "com.a — Androlon");
    assert_eq!(pane_title(None, "Px", "h264"), "Androlon — Px [h264]");
    assert_eq!(hud_title("t", 59), "t — 59 fps");
    assert_eq!(PaneStage::Start.failure("x"), "start stream: x");
    assert_eq!(PaneStage::Deploy.failure("x"), "deploy server: x");
    assert_eq!(PaneStage::Window.failure("x"), "video window: x");
    assert_eq!(PaneStage::LayerWindow.failure("x"), "layer window: x");
    let meta = read_meta(&greeting(0x80)).unwrap();
    let p = pane_setup(Some(("com.a", (800, 500))), &meta, (1, 1), Host::Mac, None);
    assert_eq!((p.title.as_str(), p.window, p.stream), ("com.a — Androlon", (800, 500), (1600, 1000)));
    assert!(p.layer);
    assert_eq!(p.keys_of.as_deref(), Some("com.a"));
    let p = pane_setup(None, &meta, (800, 500), Host::Linux, None);
    assert_eq!((p.title.as_str(), p.window), ("Androlon — Px [h264]", (800, 500)));
    assert!(!p.layer && p.keys_of.is_none());
}
