//! The probe report modeled as plain values: every field of a stream or
//! format entry that the normalizer consults, together with the accessors
//! that mirror how a dynamic JSON value answers string and integer reads.

use vstd::prelude::*;
use crate::text::parse_u64_spec;
use crate::text::parse_u64_str;

verus! {

/// One field of a probe report entry, as plain data.
///
/// `Text` holds a JSON string, `UInt` a non-negative JSON integer, `Int` a
/// negative JSON integer, `Other` any present value of another shape (null,
/// boolean, fraction, array, object), and `Absent` a field that the entry
/// does not carry at all.
#[derive(Clone, Debug)]
pub enum FieldValue {
    Absent,
    Text(String),
    UInt(u64),
    Int(i64),
    Other,
}

/// The string content of a field, when it holds one.
pub open spec fn spec_text(f: FieldValue) -> Option<Seq<char>> {
    match f {
        FieldValue::Text(s) => Some(s@),
        _ => None,
    }
}

/// The field read as a non-negative integer.
pub open spec fn spec_uint(f: FieldValue) -> Option<u64> {
    match f {
        FieldValue::UInt(n) => Some(n),
        _ => None,
    }
}

/// The field read as a signed integer.
pub open spec fn spec_int(f: FieldValue) -> Option<i64> {
    match f {
        FieldValue::UInt(n) => if n <= i64::MAX {
            Some(n as i64)
        } else {
            None
        },
        FieldValue::Int(i) => Some(i),
        _ => None,
    }
}

/// The string content of a field, or a default for any other shape.
pub open spec fn spec_text_or(f: FieldValue, d: Seq<char>) -> Seq<char> {
    match spec_text(f) {
        Some(t) => t,
        None => d,
    }
}

/// Numeric coercion for fields that arrive either as a numeric string or as
/// a plain JSON number: a string is read as a decimal numeral (so `"N/A"`
/// and the empty string yield nothing), any other text yields nothing, and a
/// non-negative integer passes through.
pub open spec fn spec_coerce_u64(f: FieldValue) -> Option<u64> {
    match f {
        FieldValue::Text(s) => parse_u64_spec(s@),
        FieldValue::UInt(n) => Some(n),
        _ => None,
    }
}

pub fn text_of(f: &FieldValue) -> (r: Option<&String>)
    ensures
        match r {
            Some(t) => spec_text(*f) == Some(t@),
            None => spec_text(*f) is None,
        },
{
    match f {
        FieldValue::Text(s) => Some(s),
        _ => None,
    }
}

pub fn uint_of(f: &FieldValue) -> (r: Option<u64>)
    ensures
        r == spec_uint(*f),
{
    match f {
        FieldValue::UInt(n) => Some(*n),
        _ => None,
    }
}

pub fn int_of(f: &FieldValue) -> (r: Option<i64>)
    ensures
        r == spec_int(*f),
{
    match f {
        FieldValue::UInt(n) => if *n <= i64::MAX as u64 {
            Some(*n as i64)
        } else {
            None
        },
        FieldValue::Int(i) => Some(*i),
        _ => None,
    }
}

/// Numeric coercion of a field that is sometimes a numeric string and
/// sometimes a plain number.
pub fn parse_optional_u64(f: &FieldValue) -> (r: Option<u64>)
    ensures
        r == spec_coerce_u64(*f),
{
    match f {
        FieldValue::Text(s) => parse_u64_str(s.as_str()),
        FieldValue::UInt(n) => Some(*n),
        _ => None,
    }
}

/// One stream descriptor of a probe report, reduced to the fields the
/// normalizer consults.
#[derive(Clone, Debug)]
pub struct ProbeStream {
    pub codec_type: FieldValue,
    pub codec_name: FieldValue,
    pub codec_tag_string: FieldValue,
    pub r_frame_rate: FieldValue,
    pub avg_frame_rate: FieldValue,
    pub width: FieldValue,
    pub height: FieldValue,
    pub bit_rate: FieldValue,
    pub profile: FieldValue,
    pub level: FieldValue,
    pub pix_fmt: FieldValue,
    pub field_order: FieldValue,
    pub color_space: FieldValue,
    pub color_transfer: FieldValue,
    pub color_primaries: FieldValue,
    pub color_range: FieldValue,
    pub sample_rate: FieldValue,
    pub channels: FieldValue,
    pub channel_layout: FieldValue,
    pub channel_layout_name: FieldValue,
    pub has_b_frames: FieldValue,
    pub refs: FieldValue,
    pub nb_frames: FieldValue,
    pub codec_time_base: FieldValue,
    pub time_base: FieldValue,
    pub bits_per_raw_sample: FieldValue,
}

impl ProbeStream {
    /// A stream descriptor with every field absent.
    pub fn empty() -> (r: ProbeStream)
        ensures
            r.codec_type is Absent,
            r.codec_name is Absent,
            r.codec_tag_string is Absent,
            r.r_frame_rate is Absent,
            r.avg_frame_rate is Absent,
            r.width is Absent,
            r.height is Absent,
            r.bit_rate is Absent,
            r.profile is Absent,
            r.level is Absent,
            r.pix_fmt is Absent,
            r.field_order is Absent,
            r.color_space is Absent,
            r.color_transfer is Absent,
            r.color_primaries is Absent,
            r.color_range is Absent,
            r.sample_rate is Absent,
            r.channels is Absent,
            r.channel_layout is Absent,
            r.channel_layout_name is Absent,
            r.has_b_frames is Absent,
            r.refs is Absent,
            r.nb_frames is Absent,
            r.codec_time_base is Absent,
            r.time_base is Absent,
            r.bits_per_raw_sample is Absent,
    {
        ProbeStream {
            codec_type: FieldValue::Absent,
            codec_name: FieldValue::Absent,
            codec_tag_string: FieldValue::Absent,
            r_frame_rate: FieldValue::Absent,
            avg_frame_rate: FieldValue::Absent,
            width: FieldValue::Absent,
            height: FieldValue::Absent,
            bit_rate: FieldValue::Absent,
            profile: FieldValue::Absent,
            level: FieldValue::Absent,
            pix_fmt: FieldValue::Absent,
            field_order: FieldValue::Absent,
            color_space: FieldValue::Absent,
            color_transfer: FieldValue::Absent,
            color_primaries: FieldValue::Absent,
            color_range: FieldValue::Absent,
            sample_rate: FieldValue::Absent,
            channels: FieldValue::Absent,
            channel_layout: FieldValue::Absent,
            channel_layout_name: FieldValue::Absent,
            has_b_frames: FieldValue::Absent,
            refs: FieldValue::Absent,
            nb_frames: FieldValue::Absent,
            codec_time_base: FieldValue::Absent,
            time_base: FieldValue::Absent,
            bits_per_raw_sample: FieldValue::Absent,
        }
    }
}

/// The format descriptor of a probe report, reduced to the fields the
/// normalizer consults.
#[derive(Clone, Debug)]
pub struct ProbeFormat {
    pub format_name: FieldValue,
    pub duration: FieldValue,
    pub bit_rate: FieldValue,
}

impl ProbeFormat {
    /// A format descriptor with every field absent.
    pub fn empty() -> (r: ProbeFormat)
        ensures
            r.format_name is Absent,
            r.duration is Absent,
            r.bit_rate is Absent,
    {
        ProbeFormat {
            format_name: FieldValue::Absent,
            duration: FieldValue::Absent,
            bit_rate: FieldValue::Absent,
        }
    }
}

/// A whole probe report. `streams` is `None` when the report carries no
/// stream array at all (a malformed report), `Some` otherwise.
#[derive(Clone, Debug)]
pub struct ProbeData {
    pub streams: Option<Vec<ProbeStream>>,
    pub format: ProbeFormat,
}

} // verus!
