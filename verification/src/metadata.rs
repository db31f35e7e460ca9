//! The metadata normalizer: turns a probe report into a flat, fully typed
//! record, canonicalizing codec names, container aliases, frame rates and
//! inconsistently encoded numeric fields.

use vstd::prelude::*;
use vstd::string::StrSliceExecFns;
use vstd::string::StringExecFns;
use crate::text::all_digits;
use crate::text::char_occurrences;
use crate::text::count_char;
use crate::text::dec_val;
use crate::text::find_char;
use crate::text::parse_u32_spec;
use crate::text::parse_u32_str;
use crate::text::scan_digits;
use crate::text::str_eq;
use crate::text::strip_plus;
use crate::text::DigitScan;
use crate::probe::spec_coerce_u64;
use crate::probe::spec_int;
use crate::probe::spec_text;
use crate::probe::spec_text_or;
use crate::probe::spec_uint;
use crate::probe::int_of;
use crate::probe::parse_optional_u64;
use crate::probe::text_of;
use crate::probe::uint_of;
use crate::probe::FieldValue;
use crate::probe::ProbeData;
use crate::probe::ProbeStream;

verus! {

/// `n` clamped into the `u64` range.
pub open spec fn sat_u64(n: int) -> u64 {
    if n > u64::MAX {
        u64::MAX
    } else if n < 0 {
        0
    } else {
        n as u64
    }
}

/// A rate string read as thousandths of a unit: `"num/den"` with both parts
/// decimal tokens becomes `num/den` rounded to the nearest thousandth (half
/// away from zero): with both values held in thousandths, that is
/// `(2000·num + den) / (2·den)` in whole thousandths. Everything else
/// yields 0: a string that does not split into exactly two parts, a
/// numerator outside the decimal grammar (it counts as 0), and a
/// denominator outside the grammar, negative, or reading as 0 (it fails the
/// positive-denominator guard).
pub open spec fn spec_parse_frame_rate(s: Seq<char>) -> u64 {
    if count_char(s, '/') != 1 {
        0
    } else {
        let p = find_char(s, '/');
        let num = match spec_decimal_milli(s.take(p)) {
            Some(v) => v as int,
            None => 0,
        };
        let den = match spec_decimal_milli(s.skip(p + 1)) {
            Some(v) => v as int,
            None => 0,
        };
        if den == 0 {
            0
        } else {
            sat_u64((2000 * num + den) / (2 * den))
        }
    }
}

/// Parses a `"numerator/denominator"` rate string into thousandths.
pub fn parse_frame_rate(s: &str) -> (r: u64)
    ensures
        r == spec_parse_frame_rate(s@),
{
    let n = s.unicode_len();
    proof {
        assert(s@.subrange(0, n as int) =~= s@);
    }
    let (cnt, p) = char_occurrences(s, '/', 0, n);
    if cnt != 1 {
        return 0;
    }
    let num_str = s.substring_char(0, p);
    let den_str = s.substring_char(p + 1, n);
    proof {
        assert(num_str@ =~= s@.take(find_char(s@, '/')));
        assert(den_str@ =~= s@.skip(find_char(s@, '/') + 1));
    }
    let num = match decimal_milli(num_str) {
        Some(v) => v,
        None => 0,
    };
    let den = match decimal_milli(den_str) {
        Some(v) => v,
        None => 0,
    };
    if den == 0 {
        return 0;
    }
    let q = (2000u128 * (num as u128) + (den as u128)) / (2u128 * (den as u128));
    if q > u64::MAX as u128 {
        u64::MAX
    } else {
        q as u64
    }
}

/// The thousandths contributed by the fractional digits of a decimal string:
/// the first three digits, padded with zeros on the right.
pub open spec fn frac_milli(f: Seq<char>) -> nat {
    if f.len() == 0 {
        0
    } else if f.len() == 1 {
        dec_val(f) * 100
    } else if f.len() == 2 {
        dec_val(f) * 10
    } else {
        dec_val(f.take(3))
    }
}

/// A decimal token read as thousandths. The modeled grammar is an optional
/// leading `'+'`, digits, and at most one point followed by digits, with at
/// least one digit in all; fractional digits beyond the third are dropped.
/// Sign, exponent and infinity forms lie outside the grammar and read as
/// nothing, as does everything else.
pub open spec fn spec_decimal_milli(s: Seq<char>) -> Option<u64> {
    let t = strip_plus(s);
    if count_char(t, '.') == 0 {
        if t.len() > 0 && all_digits(t) {
            Some(sat_u64(dec_val(t) * 1000 as int))
        } else {
            None
        }
    } else if count_char(t, '.') == 1 {
        let p = find_char(t, '.');
        let ip = t.take(p);
        let fp = t.skip(p + 1);
        if ip.len() + fp.len() > 0 && all_digits(ip) && all_digits(fp) {
            Some(sat_u64(dec_val(ip) * 1000 + frac_milli(fp) as int))
        } else {
            None
        }
    } else {
        None
    }
}

/// A duration string read as thousandths of a second: a decimal token per
/// `spec_decimal_milli`, with anything outside that grammar yielding 0.
pub open spec fn spec_parse_duration_milli(s: Seq<char>) -> u64 {
    match spec_decimal_milli(s) {
        Some(v) => v,
        None => 0,
    }
}

/// A numeral of at most three digits is at most 999.
proof fn lemma_small_numeral(s: Seq<char>)
    requires
        all_digits(s),
        s.len() <= 3,
    ensures
        s.len() == 0 ==> dec_val(s) == 0,
        s.len() >= 1 ==> dec_val(s) <= 999,
        s.len() == 1 ==> dec_val(s) <= 9,
        s.len() == 2 ==> dec_val(s) <= 99,
    decreases s.len(),
{
    if s.len() > 0 {
        assert(forall|i: int| 0 <= i < s.len() - 1 ==> s.drop_last()[i] == s[i]);
        lemma_small_numeral(s.drop_last());
    }
}

/// Reads a whole string as a decimal token in thousandths.
#[verifier::rlimit(30)]
pub fn decimal_milli(s: &str) -> (r: Option<u64>)
    ensures
        r == spec_decimal_milli(s@),
{
    let n = s.unicode_len();
    let start: usize = if n > 0 && s.get_char(0) == '+' {
        1
    } else {
        0
    };
    proof {
        assert(s@.subrange(start as int, n as int) =~= strip_plus(s@));
    }
    let (cnt, p) = char_occurrences(s, '.', start, n);
    let ghost t = strip_plus(s@);
    if cnt == 0 {
        if start >= n {
            return None;
        }
        match scan_digits(s, start, n) {
            DigitScan::NotDigits => None,
            DigitScan::Huge => Some(u64::MAX),
            DigitScan::Value(v) => {
                let total = (v as u128) * 1000;
                if total > u64::MAX as u128 {
                    Some(u64::MAX)
                } else {
                    Some(total as u64)
                }
            },
        }
    } else if cnt == 1 {
        proof {
            assert(s@.subrange(start as int, p as int) =~= t.take(find_char(t, '.')));
            assert(s@.subrange(p + 1, n as int) =~= t.skip(find_char(t, '.') + 1));
        }
        if start >= p && p + 1 >= n {
            return None;
        }
        let ip_scan = scan_digits(s, start, p);
        if matches!(ip_scan, DigitScan::NotDigits) {
            return None;
        }
        let fp_scan = scan_digits(s, p + 1, n);
        if matches!(fp_scan, DigitScan::NotDigits) {
            return None;
        }
        let ghost fp = t.skip(find_char(t, '.') + 1);
        let fp_len = n - (p + 1);
        let frac: u64 = if fp_len == 0 {
            0
        } else if fp_len <= 2 {
            proof {
                lemma_small_numeral(fp);
            }
            match fp_scan {
                DigitScan::Value(v) => if fp_len == 1 {
                    v * 100
                } else {
                    v * 10
                },
                _ => {
                    proof {
                        assert(false);
                    }
                    0
                },
            }
        } else {
            proof {
                assert(s@.subrange(p + 1, p + 4 as int) =~= fp.take(3));
                assert(forall|i: int| 0 <= i < 3 ==> fp.take(3)[i] == fp[i]);
                lemma_small_numeral(fp.take(3));
            }
            match scan_digits(s, p + 1, p + 4) {
                DigitScan::Value(v) => v,
                _ => {
                    proof {
                        assert(false);
                    }
                    0
                },
            }
        };
        match ip_scan {
            DigitScan::Huge => Some(u64::MAX),
            DigitScan::Value(iv) => {
                let total = (iv as u128) * 1000 + (frac as u128);
                if total > u64::MAX as u128 {
                    Some(u64::MAX)
                } else {
                    Some(total as u64)
                }
            },
            DigitScan::NotDigits => {
                proof {
                    assert(false);
                }
                None
            },
        }
    } else {
        None
    }
}

/// Parses a decimal seconds string into thousandths of a second.
pub fn parse_duration_milli(s: &str) -> (r: u64)
    ensures
        r == spec_parse_duration_milli(s@),
{
    match decimal_milli(s) {
        Some(v) => v,
        None => 0,
    }
}

/// The canonical name of a video codec: the probe tool reports the same
/// bitstream as `"avc"`, or under the codec tag `"avc1"`, depending on build
/// and container; both become `"h264"`, and every other name passes through.
pub open spec fn spec_canonical_codec(raw: Seq<char>, tag: Seq<char>) -> Seq<char> {
    if raw == "avc"@ || tag == "avc1"@ {
        "h264"@
    } else {
        raw
    }
}

/// Canonicalizes a raw codec name and codec tag pair.
pub fn canonical_video_codec(raw: &str, tag: &str) -> (r: String)
    ensures
        r@ == spec_canonical_codec(raw@, tag@),
{
    if str_eq(raw, "avc") || str_eq(tag, "avc1") {
        String::from_str("h264")
    } else {
        raw.to_owned()
    }
}

/// The stream's `codec_type` field says it is a video stream.
pub open spec fn is_video_stream(s: ProbeStream) -> bool {
    spec_text(s.codec_type) == Some("video"@)
}

/// The stream's `codec_type` field says it is an audio stream.
pub open spec fn is_audio_stream(s: ProbeStream) -> bool {
    spec_text(s.codec_type) == Some("audio"@)
}

/// Index of the first video stream, or -1.
pub open spec fn find_video(ss: Seq<ProbeStream>) -> int
    decreases ss.len(),
{
    if ss.len() == 0 {
        -1
    } else {
        let r = find_video(ss.drop_last());
        if r >= 0 {
            r
        } else if is_video_stream(ss.last()) {
            ss.len() - 1
        } else {
            -1
        }
    }
}

/// Index of the first audio stream, or -1.
pub open spec fn find_audio(ss: Seq<ProbeStream>) -> int
    decreases ss.len(),
{
    if ss.len() == 0 {
        -1
    } else {
        let r = find_audio(ss.drop_last());
        if r >= 0 {
            r
        } else if is_audio_stream(ss.last()) {
            ss.len() - 1
        } else {
            -1
        }
    }
}

fn stream_is_video(s: &ProbeStream) -> (r: bool)
    ensures
        r == is_video_stream(*s),
{
    match text_of(&s.codec_type) {
        Some(t) => str_eq(t.as_str(), "video"),
        None => false,
    }
}

fn stream_is_audio(s: &ProbeStream) -> (r: bool)
    ensures
        r == is_audio_stream(*s),
{
    match text_of(&s.codec_type) {
        Some(t) => str_eq(t.as_str(), "audio"),
        None => false,
    }
}

fn find_first_video(streams: &Vec<ProbeStream>) -> (r: Option<usize>)
    ensures
        match r {
            Some(j) => j < streams@.len() && find_video(streams@) == j as int,
            None => find_video(streams@) == -1,
        },
{
    let n = streams.len();
    let mut res: Option<usize> = None;
    let mut i: usize = 0;
    while i < n
        invariant
            i <= n,
            n == streams@.len(),
            match res {
                Some(j) => j < i && find_video(streams@.take(i as int)) == j as int,
                None => find_video(streams@.take(i as int)) == -1,
            },
        decreases n - i,
    {
        proof {
            assert(streams@.take(i + 1).drop_last() =~= streams@.take(i as int));
            assert(streams@.take(i + 1).last() == streams@[i as int]);
        }
        if res.is_none() && stream_is_video(&streams[i]) {
            res = Some(i);
        }
        i += 1;
    }
    proof {
        assert(streams@.take(n as int) =~= streams@);
    }
    res
}

fn find_first_audio(streams: &Vec<ProbeStream>) -> (r: Option<usize>)
    ensures
        match r {
            Some(j) => j < streams@.len() && find_audio(streams@) == j as int,
            None => find_audio(streams@) == -1,
        },
{
    let n = streams.len();
    let mut res: Option<usize> = None;
    let mut i: usize = 0;
    while i < n
        invariant
            i <= n,
            n == streams@.len(),
            match res {
                Some(j) => j < i && find_audio(streams@.take(i as int)) == j as int,
                None => find_audio(streams@.take(i as int)) == -1,
            },
        decreases n - i,
    {
        proof {
            assert(streams@.take(i + 1).drop_last() =~= streams@.take(i as int));
            assert(streams@.take(i + 1).last() == streams@[i as int]);
        }
        if res.is_none() && stream_is_audio(&streams[i]) {
            res = Some(i);
        }
        i += 1;
    }
    proof {
        assert(streams@.take(n as int) =~= streams@);
    }
    res
}

fn text_cloned(f: &FieldValue) -> (r: Option<String>)
    ensures
        r.deep_view() == spec_text(*f),
{
    match f {
        FieldValue::Text(s) => Some(s.clone()),
        _ => None,
    }
}

/// A rate field read as thousandths: absent or non-string fields count as a
/// rate of zero.
pub open spec fn spec_rate_field(f: FieldValue) -> u64 {
    match spec_text(f) {
        Some(t) => spec_parse_frame_rate(t),
        None => 0,
    }
}

fn rate_of(f: &FieldValue) -> (r: u64)
    ensures
        r == spec_rate_field(*f),
{
    match text_of(f) {
        Some(t) => parse_frame_rate(t.as_str()),
        None => 0,
    }
}

/// A sample-rate field: a string holding a `u32` numeral.
pub open spec fn spec_sample_rate(f: FieldValue) -> Option<u32> {
    match spec_text(f) {
        Some(t) => parse_u32_spec(t),
        None => None,
    }
}

fn sample_rate_of(f: &FieldValue) -> (r: Option<u32>)
    ensures
        r == spec_sample_rate(*f),
{
    match text_of(f) {
        Some(t) => parse_u32_str(t.as_str()),
        None => None,
    }
}

fn uint_or_zero(f: &FieldValue) -> (r: u64)
    ensures
        r == (match spec_uint(*f) {
            Some(n) => n,
            None => 0u64,
        }),
{
    match uint_of(f) {
        Some(n) => n,
        None => 0,
    }
}

/// Flat, fully typed metadata record of a media file.
///
/// Width, height and the frame rates default to zero, not to an absent
/// value, when unparseable: callers must treat zero as "unknown". Frame
/// rates and the duration are held in thousandths: a rate of 29.97 frames
/// per second is 29970, a duration of 1.5 seconds is 1500.
#[derive(Clone, Debug)]
pub struct ExtendedMetadata {
    pub width: u64,
    pub height: u64,
    pub fps_milli: u64,
    pub fps_avg_milli: u64,
    pub fps_r_milli: u64,
    pub video_codec: String,
    pub container: String,
    pub duration_milli: u64,
    pub audio_codec: Option<String>,
    pub audio_sample_rate: Option<u32>,
    pub video_bitrate: Option<u64>,
    pub format_bitrate: Option<u64>,
    pub profile: Option<String>,
    pub level: Option<i64>,
    pub pix_fmt: Option<String>,
    pub field_order: Option<String>,
    pub color_space: Option<String>,
    pub color_transfer: Option<String>,
    pub color_primaries: Option<String>,
    pub color_range: Option<String>,
    pub audio_bitrate: Option<u64>,
    pub has_b_frames: Option<i64>,
    pub refs: Option<i64>,
    pub nb_frames: Option<String>,
    pub codec_time_base: Option<String>,
    pub audio_channels: Option<u64>,
    pub audio_channel_layout: Option<String>,
    pub bits_per_raw_sample: Option<String>,
}

/// Why a probe report could not be normalized.
#[derive(Clone, Copy, PartialEq, Eq, Structural, Debug)]
pub enum NormalizeError {
    /// The report carries no stream array.
    MalformedProbeOutput,
    /// No stream entry is a video stream.
    NoVideoStream,
}

impl NormalizeError {
    /// The human-readable message shown for this error.
    pub fn message(&self) -> (r: String)
        ensures
            *self == NormalizeError::MalformedProbeOutput ==> r@
                == "No streams found in ffprobe output"@,
            *self == NormalizeError::NoVideoStream ==> r@ == "No video stream found"@,
    {
        match self {
            NormalizeError::MalformedProbeOutput => String::from_str(
                "No streams found in ffprobe output",
            ),
            NormalizeError::NoVideoStream => String::from_str("No video stream found"),
        }
    }
}

/// Every field equation that normalization promises, with `vs` the first
/// video stream and, when one exists, the first audio stream supplying the
/// audio fields.
pub open spec fn spec_fields_ok(ss: Seq<ProbeStream>, fmt: crate::probe::ProbeFormat, m: ExtendedMetadata) -> bool {
    let vs = ss[find_video(ss)];
    let ai = find_audio(ss);
    &&& m.width == (match spec_uint(vs.width) {
        Some(n) => n,
        None => 0u64,
    })
    &&& m.height == (match spec_uint(vs.height) {
        Some(n) => n,
        None => 0u64,
    })
    &&& m.fps_r_milli == spec_rate_field(vs.r_frame_rate)
    &&& m.fps_avg_milli == spec_rate_field(vs.avg_frame_rate)
    &&& m.fps_milli == (if spec_rate_field(vs.avg_frame_rate) > 0 {
        spec_rate_field(vs.avg_frame_rate)
    } else {
        spec_rate_field(vs.r_frame_rate)
    })
    &&& m.video_codec@ == spec_canonical_codec(
        spec_text_or(vs.codec_name, "unknown"@),
        spec_text_or(vs.codec_tag_string, ""@),
    )
    &&& m.container@ == (match spec_text(fmt.format_name) {
        Some(t) => crate::text::spec_first_token(t),
        None => "unknown"@,
    })
    &&& m.duration_milli == (match spec_text(fmt.duration) {
        Some(t) => spec_parse_duration_milli(t),
        None => 0u64,
    })
    &&& m.video_bitrate == spec_coerce_u64(vs.bit_rate)
    &&& m.format_bitrate == spec_coerce_u64(fmt.bit_rate)
    &&& m.profile.deep_view() == spec_text(vs.profile)
    &&& m.level == spec_int(vs.level)
    &&& m.pix_fmt.deep_view() == spec_text(vs.pix_fmt)
    &&& m.field_order.deep_view() == spec_text(vs.field_order)
    &&& m.color_space.deep_view() == spec_text(vs.color_space)
    &&& m.color_transfer.deep_view() == spec_text(vs.color_transfer)
    &&& m.color_primaries.deep_view() == spec_text(vs.color_primaries)
    &&& m.color_range.deep_view() == spec_text(vs.color_range)
    &&& m.has_b_frames == spec_int(vs.has_b_frames)
    &&& m.refs == spec_int(vs.refs)
    &&& m.nb_frames.deep_view() == spec_text(vs.nb_frames)
    &&& m.codec_time_base.deep_view() == spec_text(
        if vs.codec_time_base is Absent {
            vs.time_base
        } else {
            vs.codec_time_base
        },
    )
    &&& m.bits_per_raw_sample.deep_view() == spec_text(vs.bits_per_raw_sample)
    &&& (ai < 0 ==> {
        &&& m.audio_codec is None
        &&& m.audio_sample_rate is None
        &&& m.audio_bitrate is None
        &&& m.audio_channels is None
        &&& m.audio_channel_layout is None
    })
    &&& (ai >= 0 ==> {
        let aus = ss[ai];
        &&& m.audio_codec.deep_view() == spec_text(aus.codec_name)
        &&& m.audio_sample_rate == spec_sample_rate(aus.sample_rate)
        &&& m.audio_bitrate == spec_coerce_u64(aus.bit_rate)
        &&& m.audio_channels == spec_uint(aus.channels)
        &&& m.audio_channel_layout.deep_view() == spec_text(
            if aus.channel_layout is Absent {
                aus.channel_layout_name
            } else {
                aus.channel_layout
            },
        )
    })
}

/// Normalizes a probe report into a metadata record.
///
/// Fails with `MalformedProbeOutput` exactly when the report carries no
/// stream array, and with `NoVideoStream` exactly when no stream entry is a
/// video stream; at most the first audio stream is consulted, and a missing
/// audio stream leaves every audio field absent rather than failing.
pub fn extract_metadata(probe: &ProbeData) -> (r: Result<ExtendedMetadata, NormalizeError>)
    ensures
        (r matches Err(e) && e == NormalizeError::MalformedProbeOutput) <==> probe.streams
            is None,
        (r matches Err(e) && e == NormalizeError::NoVideoStream) <==> (probe.streams matches Some(
            v,
        ) && find_video(v@) < 0),
        r is Ok <==> (probe.streams matches Some(v) && find_video(v@) >= 0),
        r matches Ok(m) ==> (probe.streams matches Some(v) && spec_fields_ok(
            v@,
            probe.format,
            m,
        )),
{
    let streams = match &probe.streams {
        Some(v) => v,
        None => {
            return Err(NormalizeError::MalformedProbeOutput);
        },
    };
    let vi = match find_first_video(streams) {
        Some(j) => j,
        None => {
            return Err(NormalizeError::NoVideoStream);
        },
    };
    let vs = &streams[vi];

    let fps_r_milli = rate_of(&vs.r_frame_rate);
    let fps_avg_milli = rate_of(&vs.avg_frame_rate);
    let fps_milli = if fps_avg_milli > 0 {
        fps_avg_milli
    } else {
        fps_r_milli
    };

    let container = match text_of(&probe.format.format_name) {
        Some(t) => crate::text::first_token(t.as_str()),
        None => String::from_str("unknown"),
    };

    let raw_codec: &str = match text_of(&vs.codec_name) {
        Some(t) => t.as_str(),
        None => "unknown",
    };
    let codec_tag: &str = match text_of(&vs.codec_tag_string) {
        Some(t) => t.as_str(),
        None => "",
    };
    let video_codec = canonical_video_codec(raw_codec, codec_tag);

    let duration_milli = match text_of(&probe.format.duration) {
        Some(t) => parse_duration_milli(t.as_str()),
        None => 0,
    };

    let time_base_field = if matches!(vs.codec_time_base, FieldValue::Absent) {
        &vs.time_base
    } else {
        &vs.codec_time_base
    };

    let (audio_codec, audio_sample_rate, audio_bitrate, audio_channels, audio_channel_layout) =
        match find_first_audio(streams) {
        Some(aj) => {
            let aus = &streams[aj];
            let layout_field = if matches!(aus.channel_layout, FieldValue::Absent) {
                &aus.channel_layout_name
            } else {
                &aus.channel_layout
            };
            (
                text_cloned(&aus.codec_name),
                sample_rate_of(&aus.sample_rate),
                parse_optional_u64(&aus.bit_rate),
                uint_of(&aus.channels),
                text_cloned(layout_field),
            )
        },
        None => (None, None, None, None, None),
    };

    let m = ExtendedMetadata {
        width: uint_or_zero(&vs.width),
        height: uint_or_zero(&vs.height),
        fps_milli,
        fps_avg_milli,
        fps_r_milli,
        video_codec,
        container,
        duration_milli,
        audio_codec,
        audio_sample_rate,
        video_bitrate: parse_optional_u64(&vs.bit_rate),
        format_bitrate: parse_optional_u64(&probe.format.bit_rate),
        profile: text_cloned(&vs.profile),
        level: int_of(&vs.level),
        pix_fmt: text_cloned(&vs.pix_fmt),
        field_order: text_cloned(&vs.field_order),
        color_space: text_cloned(&vs.color_space),
        color_transfer: text_cloned(&vs.color_transfer),
        color_primaries: text_cloned(&vs.color_primaries),
        color_range: text_cloned(&vs.color_range),
        audio_bitrate,
        has_b_frames: int_of(&vs.has_b_frames),
        refs: int_of(&vs.refs),
        nb_frames: text_cloned(&vs.nb_frames),
        codec_time_base: text_cloned(time_base_field),
        audio_channels,
        audio_channel_layout,
        bits_per_raw_sample: text_cloned(&vs.bits_per_raw_sample),
    };
    proof {
        assert(spec_fields_ok(streams@, probe.format, m));
    }
    Ok(m)
}

/// Whether a working probe binary was found, where, and its reported
/// version line.
#[derive(Clone, Debug)]
pub struct FfprobeStatus {
    pub available: bool,
    pub source: String,
    pub version: Option<String>,
}

impl FfprobeStatus {
    /// The status reported when no strategy found a working probe binary.
    pub fn unavailable() -> (r: FfprobeStatus)
        ensures
            !r.available,
            r.source@ == "none"@,
            r.version is None,
    {
        FfprobeStatus { available: false, source: String::from_str("none"), version: None }
    }
}

/// A normalized metadata record together with the probed file's name and
/// size.
#[derive(Clone, Debug)]
pub struct AnalyzeResult {
    pub metadata: ExtendedMetadata,
    pub file_name: String,
    pub file_size: u64,
}

} // verus!
