use export_doctor::metadata::{
    canonical_video_codec, extract_metadata, parse_duration_milli, parse_frame_rate,
    FfprobeStatus, NormalizeError,
};
use export_doctor::probe::{parse_optional_u64, FieldValue, ProbeData, ProbeFormat, ProbeStream};
use export_doctor::text::{first_line, first_token};

fn text(s: &str) -> FieldValue {
    FieldValue::Text(String::from(s))
}

#[test]
fn frame_rate_ntsc() {
    assert_eq!(parse_frame_rate("30000/1001"), 29970);
}

#[test]
fn frame_rate_zero_denominator() {
    assert_eq!(parse_frame_rate("0/0"), 0);
}

#[test]
fn frame_rate_exact() {
    assert_eq!(parse_frame_rate("25/1"), 25000);
}

#[test]
fn frame_rate_fractional_parts() {
    // both parts are read over the decimal grammar
    assert_eq!(parse_frame_rate("2.5/5"), 500);
    assert_eq!(parse_frame_rate("1.25/2.5"), 500);
    assert_eq!(parse_frame_rate("30/1.5"), 20000);
}

#[test]
fn frame_rate_malformed() {
    assert_eq!(parse_frame_rate("abc"), 0);
    assert_eq!(parse_frame_rate(""), 0);
    assert_eq!(parse_frame_rate("1/2/3"), 0);
    assert_eq!(parse_frame_rate("25"), 0);
}

#[test]
fn frame_rate_unparsed_parts_yield_zero() {
    // a part that is not a plain unsigned numeral makes the rate 0
    assert_eq!(parse_frame_rate("x/25"), 0);
    assert_eq!(parse_frame_rate("30/x"), 0);
    assert_eq!(parse_frame_rate("30/-2"), 0);
    assert_eq!(parse_frame_rate("30/"), 0);
}

#[test]
fn codec_avc_raw_name() {
    assert_eq!(canonical_video_codec("avc", ""), "h264");
}

#[test]
fn codec_avc1_tag() {
    assert_eq!(canonical_video_codec("h264", "avc1"), "h264");
}

#[test]
fn codec_passthrough() {
    assert_eq!(canonical_video_codec("hevc", ""), "hevc");
}

#[test]
fn container_first_alias() {
    assert_eq!(first_token("mov,mp4,m4a"), "mov");
    assert_eq!(first_token("matroska"), "matroska");
}

#[test]
fn numeric_coercion() {
    assert_eq!(parse_optional_u64(&text("N/A")), None);
    assert_eq!(parse_optional_u64(&text("128000")), Some(128000));
    assert_eq!(parse_optional_u64(&FieldValue::UInt(128000)), Some(128000));
    assert_eq!(parse_optional_u64(&text("")), None);
    assert_eq!(parse_optional_u64(&FieldValue::Absent), None);
}

#[test]
fn duration_parsing() {
    assert_eq!(parse_duration_milli("10.5"), 10500);
    assert_eq!(parse_duration_milli("123.456789"), 123456);
    assert_eq!(parse_duration_milli("123."), 123000);
    assert_eq!(parse_duration_milli(".5"), 500);
    assert_eq!(parse_duration_milli("7"), 7000);
    assert_eq!(parse_duration_milli(""), 0);
    assert_eq!(parse_duration_milli("abc"), 0);
}

#[test]
fn no_video_stream_fails() {
    let mut audio = ProbeStream::empty();
    audio.codec_type = text("audio");
    let mut data_stream = ProbeStream::empty();
    data_stream.codec_type = text("data");
    let probe = ProbeData {
        streams: Some(vec![audio, data_stream]),
        format: ProbeFormat::empty(),
    };
    let r = extract_metadata(&probe);
    assert!(matches!(r, Err(NormalizeError::NoVideoStream)));
    assert_eq!(
        NormalizeError::NoVideoStream.message(),
        "No video stream found"
    );
}

#[test]
fn missing_streams_fails() {
    let probe = ProbeData {
        streams: None,
        format: ProbeFormat::empty(),
    };
    let r = extract_metadata(&probe);
    assert!(matches!(r, Err(NormalizeError::MalformedProbeOutput)));
    assert_eq!(
        NormalizeError::MalformedProbeOutput.message(),
        "No streams found in ffprobe output"
    );
}

#[test]
fn full_extraction() {
    let mut video = ProbeStream::empty();
    video.codec_type = text("video");
    video.codec_name = text("avc");
    video.codec_tag_string = text("xxxx");
    video.width = FieldValue::UInt(1920);
    video.height = FieldValue::UInt(1080);
    video.r_frame_rate = text("30000/1001");
    video.avg_frame_rate = text("0/0");
    video.bit_rate = text("128000");
    video.profile = text("High");
    video.level = FieldValue::UInt(41);
    video.pix_fmt = text("yuv420p");
    video.has_b_frames = FieldValue::UInt(2);
    video.refs = FieldValue::Int(-1);
    video.nb_frames = text("250");
    video.time_base = text("1/30000");
    let mut audio = ProbeStream::empty();
    audio.codec_type = text("audio");
    audio.codec_name = text("aac");
    audio.sample_rate = text("48000");
    audio.channels = FieldValue::UInt(2);
    audio.channel_layout_name = text("stereo");
    audio.bit_rate = FieldValue::UInt(96000);
    let probe = ProbeData {
        streams: Some(vec![video, audio]),
        format: ProbeFormat {
            format_name: text("mov,mp4,m4a,3gp,3g2,mj2"),
            duration: text("10.5"),
            bit_rate: text("N/A"),
        },
    };
    let m = extract_metadata(&probe).unwrap();
    assert_eq!(m.width, 1920);
    assert_eq!(m.height, 1080);
    assert_eq!(m.fps_r_milli, 29970);
    assert_eq!(m.fps_avg_milli, 0);
    // the average rate is preferred only when it is positive
    assert_eq!(m.fps_milli, 29970);
    assert_eq!(m.video_codec, "h264");
    assert_eq!(m.container, "mov");
    assert_eq!(m.duration_milli, 10500);
    assert_eq!(m.video_bitrate, Some(128000));
    assert_eq!(m.format_bitrate, None);
    assert_eq!(m.profile.as_deref(), Some("High"));
    assert_eq!(m.level, Some(41));
    assert_eq!(m.pix_fmt.as_deref(), Some("yuv420p"));
    assert_eq!(m.field_order, None);
    assert_eq!(m.has_b_frames, Some(2));
    assert_eq!(m.refs, Some(-1));
    assert_eq!(m.nb_frames.as_deref(), Some("250"));
    // codec_time_base falls back to time_base when absent
    assert_eq!(m.codec_time_base.as_deref(), Some("1/30000"));
    assert_eq!(m.audio_codec.as_deref(), Some("aac"));
    assert_eq!(m.audio_sample_rate, Some(48000));
    assert_eq!(m.audio_bitrate, Some(96000));
    assert_eq!(m.audio_channels, Some(2));
    // channel_layout is absent, so the layout-name field supplies the value
    assert_eq!(m.audio_channel_layout.as_deref(), Some("stereo"));
    assert_eq!(m.bits_per_raw_sample, None);
}

#[test]
fn no_audio_stream_is_not_an_error() {
    let mut video = ProbeStream::empty();
    video.codec_type = text("video");
    let probe = ProbeData {
        streams: Some(vec![video]),
        format: ProbeFormat::empty(),
    };
    let m = extract_metadata(&probe).unwrap();
    assert_eq!(m.width, 0);
    assert_eq!(m.fps_milli, 0);
    assert_eq!(m.video_codec, "unknown");
    assert_eq!(m.container, "unknown");
    assert_eq!(m.duration_milli, 0);
    assert_eq!(m.audio_codec, None);
    assert_eq!(m.audio_sample_rate, None);
    assert_eq!(m.audio_bitrate, None);
    assert_eq!(m.audio_channels, None);
    assert_eq!(m.audio_channel_layout, None);
}

#[test]
fn first_video_and_audio_streams_win() {
    let mut v1 = ProbeStream::empty();
    v1.codec_type = text("video");
    v1.codec_name = text("hevc");
    let mut v2 = ProbeStream::empty();
    v2.codec_type = text("video");
    v2.codec_name = text("vp9");
    let mut a1 = ProbeStream::empty();
    a1.codec_type = text("audio");
    a1.codec_name = text("aac");
    let mut a2 = ProbeStream::empty();
    a2.codec_type = text("audio");
    a2.codec_name = text("opus");
    let probe = ProbeData {
        streams: Some(vec![a1, v1, v2, a2]),
        format: ProbeFormat::empty(),
    };
    let m = extract_metadata(&probe).unwrap();
    assert_eq!(m.video_codec, "hevc");
    assert_eq!(m.audio_codec.as_deref(), Some("aac"));
}

#[test]
fn version_first_line() {
    assert_eq!(
        first_line("ffprobe version 6.0\nbuilt with clang\n").as_deref(),
        Some("ffprobe version 6.0")
    );
    assert_eq!(
        first_line("ffprobe version 6.0\r\nbuilt\r\n").as_deref(),
        Some("ffprobe version 6.0")
    );
    assert_eq!(first_line("single line").as_deref(), Some("single line"));
    assert_eq!(first_line(""), None);
}

#[test]
fn probe_unavailable_status() {
    let s = FfprobeStatus::unavailable();
    assert!(!s.available);
    assert_eq!(s.source, "none");
    assert_eq!(s.version, None);
}
