//! Script data of FLV: AMF0 values and the stream metadata they describe.
//!
//! AMF0 is decoded by `rml_amf0`, and the metadata of an `onMetaData` event is
//! collected by `rml_rtmp`. Their types are opaque here; the views below hold
//! their contents as plain values, floating-point numbers by their bits. Which NaN
//! a number is, is not told: all of them have the same bits in the views.
use crate::buffer::{bytes_as_slice, bytes_of};
use crate::flv::nesting::{is_nested_within_limit, nests_within_limit};
use crate::text::str_eq;
use bytes::Bytes;
use rml_rtmp::rml_amf0::{Amf0DeserializationError, Amf0Value};
use rml_rtmp::sessions::StreamMetadata;
use std::collections::HashMap;
use vstd::prelude::*;

verus! {

/// `rml_amf0::Amf0Value`, one decoded AMF0 value.
#[verifier::external_type_specification]
#[verifier::external_body]
pub struct ExAmf0Value(rml_rtmp::rml_amf0::Amf0Value);

/// `rml_amf0::Amf0DeserializationError`, why AMF0 data did not decode.
#[verifier::external_type_specification]
#[verifier::external_body]
pub struct ExAmf0DeserializationError(rml_rtmp::rml_amf0::Amf0DeserializationError);

/// `rml_rtmp::sessions::StreamMetadata`, what a stream advertises on publishing.
#[verifier::external_type_specification]
#[verifier::external_body]
pub struct ExStreamMetadata(rml_rtmp::sessions::StreamMetadata);

/// What an AMF0 value holds.
pub enum ScriptView {
    /// A number, by the bits of its binary64 form; every NaN by those of one NaN.
    Number(u64),
    Boolean(bool),
    Text(Seq<char>),
    Object(Map<Seq<char>, ScriptView>),
    Array(Seq<ScriptView>),
    Null,
    Undefined,
}

/// What stream metadata holds.
pub struct MetadataView {
    pub video_width: Option<u32>,
    pub video_height: Option<u32>,
    pub video_codec_id: Option<u32>,
    /// The frame rate, by the bits of its binary32 form; every NaN by those of one
    /// NaN, since converting a NaN may change its bits.
    pub video_frame_rate: Option<u32>,
    pub video_bitrate_kbps: Option<u32>,
    pub audio_codec_id: Option<u32>,
    pub audio_bitrate_kbps: Option<u32>,
    pub audio_sample_rate: Option<u32>,
    pub audio_channels: Option<u32>,
    pub audio_is_stereo: Option<bool>,
    pub encoder: Option<Seq<char>>,
}

/// Metadata of which nothing is known.
pub open spec fn empty_metadata() -> MetadataView {
    MetadataView {
        video_width: None,
        video_height: None,
        video_codec_id: None,
        video_frame_rate: None,
        video_bitrate_kbps: None,
        audio_codec_id: None,
        audio_bitrate_kbps: None,
        audio_sample_rate: None,
        audio_channels: None,
        audio_is_stereo: None,
        encoder: None,
    }
}

/// The contents of an AMF0 value. All NaN numbers have the same contents.
pub uninterp spec fn script_view(v: rml_rtmp::rml_amf0::Amf0Value) -> ScriptView;

/// The contents of the property table of an AMF0 object.
pub uninterp spec fn properties_view(
    p: std::collections::HashMap<String, rml_rtmp::rml_amf0::Amf0Value>,
) -> Map<Seq<char>, ScriptView>;

/// The contents of stream metadata. All NaN frame rates have the same contents.
pub uninterp spec fn metadata_view(m: rml_rtmp::sessions::StreamMetadata) -> MetadataView;

/// The values that AMF0 data decodes to, or `None` where it does not decode.
pub uninterp spec fn amf0_decoded(payload: Seq<u8>) -> Option<Seq<ScriptView>>;

/// Metadata after a property table was applied to it.
pub uninterp spec fn metadata_applied(
    m: MetadataView,
    properties: Map<Seq<char>, ScriptView>,
) -> MetadataView;

/// The contents of a run of AMF0 values.
pub open spec fn script_views(s: Seq<Amf0Value>) -> Seq<ScriptView> {
    Seq::new(s.len(), |i: int| script_view(s[i]))
}

/// `rml_amf0::deserialize` over a cursor on the payload. What it returns depends
/// on the bytes alone. Values may nest, and the decoder takes three calls of stack
/// for each level, so no payload is handed to it that nests deeper than the stack
/// bears.
#[verifier::external_body]
fn deserialize_amf0(payload: Bytes) -> (r: Result<Vec<Amf0Value>, Amf0DeserializationError>)
    requires
        nests_within_limit(bytes_of(payload)),
    ensures
        match amf0_decoded(bytes_of(payload)) {
            Some(vs) => r matches Ok(values) && script_views(values@) == vs,
            None => r is Err,
        },
{
    rml_rtmp::rml_amf0::deserialize(&mut std::io::Cursor::new(payload))
}

/// Borrows the text of an `Amf0Value::Utf8String`; other variants hold none.
#[verifier::external_body]
fn amf0_text(v: &Amf0Value) -> (r: Option<&String>)
    ensures
        match script_view(*v) {
            ScriptView::Text(t) => r matches Some(s) && s@ == t,
            _ => r is None,
        },
{
    match v {
        Amf0Value::Utf8String(s) => Some(s),
        _ => None,
    }
}

/// `Amf0Value::get_object_properties` gives the property table of an object;
/// other variants have none.
pub assume_specification[ rml_rtmp::rml_amf0::Amf0Value::get_object_properties ](
    v: rml_rtmp::rml_amf0::Amf0Value,
) -> (r: Option<std::collections::HashMap<String, rml_rtmp::rml_amf0::Amf0Value>>)
    ensures
        match script_view(v) {
            ScriptView::Object(p) => r matches Some(table) && properties_view(table) == p,
            _ => r is None,
        },
;

/// `StreamMetadata::new` knows nothing.
pub assume_specification[ rml_rtmp::sessions::StreamMetadata::new ]() -> (r:
    rml_rtmp::sessions::StreamMetadata)
    ensures
        metadata_view(r) == empty_metadata(),
;

/// `StreamMetadata::apply_metadata_values` sets a field for each property whose
/// name it knows and whose value has the fitting type. The keys of a table are
/// distinct, so the order in which it is walked does not matter.
pub assume_specification[ rml_rtmp::sessions::StreamMetadata::apply_metadata_values ](
    m: &mut rml_rtmp::sessions::StreamMetadata,
    properties: std::collections::HashMap<String, rml_rtmp::rml_amf0::Amf0Value>,
)
    ensures
        metadata_view(*final(m)) == metadata_applied(
            metadata_view(*old(m)),
            properties_view(properties),
        ),
;

/// `<StreamMetadata as Clone>::clone` keeps every field.
pub assume_specification[ <rml_rtmp::sessions::StreamMetadata as Clone>::clone ](
    m: &rml_rtmp::sessions::StreamMetadata,
) -> (r: rml_rtmp::sessions::StreamMetadata)
    ensures
        metadata_view(r) == metadata_view(*m),
;

/// Why a script data tag gives no metadata.
#[derive(Clone, Copy, Debug, PartialEq, Eq, Structural)]
pub enum ScriptDataError {
    /// The payload is not AMF0.
    Undecodable,
    /// Fewer than two AMF0 values.
    MissingValues,
    /// The event is another than `onMetaData`.
    NotMetadata,
}

impl ScriptDataError {
    /// The error as text.
    pub fn message(&self) -> (r: String)
        ensures
            r@ == match self {
                ScriptDataError::Undecodable => "ScriptData payload is not AMF0"@,
                ScriptDataError::MissingValues =>
                    "ScriptData payload is missing required AMF values"@,
                ScriptDataError::NotMetadata => "ScriptData event is not onMetaData"@,
            },
    {
        let text = match self {
            ScriptDataError::Undecodable => "ScriptData payload is not AMF0",
            ScriptDataError::MissingValues => "ScriptData payload is missing required AMF values",
            ScriptDataError::NotMetadata => "ScriptData event is not onMetaData",
        };
        text.to_owned()
    }
}

/// What a script data tag with these values says: an `onMetaData` event names
/// itself first and describes the stream in its second value.
pub open spec fn script_metadata(values: Option<Seq<ScriptView>>) -> Result<
    MetadataView,
    ScriptDataError,
> {
    match values {
        None => Err(ScriptDataError::Undecodable),
        Some(vs) => if vs.len() < 2 {
            Err(ScriptDataError::MissingValues)
        } else if vs[0] != ScriptView::Text("onMetaData"@) {
            Err(ScriptDataError::NotMetadata)
        } else {
            match vs[1] {
                ScriptView::Object(p) => Ok(metadata_applied(empty_metadata(), p)),
                _ => Ok(empty_metadata()),
            }
        },
    }
}

/// Reads the metadata of an `onMetaData` event from its decoded values.
pub fn metadata_from_values(values: Vec<Amf0Value>) -> (r: Result<StreamMetadata, ScriptDataError>)
    ensures
        match script_metadata(Some(script_views(values@))) {
            Ok(m) => r matches Ok(x) && metadata_view(x) == m,
            Err(e) => r matches Err(x) && x == e,
        },
{
    let mut values = values;
    if values.len() < 2 {
        return Err(ScriptDataError::MissingValues);
    }
    let is_metadata = match amf0_text(&values[0]) {
        Some(name) => str_eq(name.as_str(), "onMetaData"),
        None => false,
    };
    if !is_metadata {
        return Err(ScriptDataError::NotMetadata);
    }
    let object = values.remove(1);
    let mut metadata = StreamMetadata::new();
    if let Some(properties) = object.get_object_properties() {
        metadata.apply_metadata_values(properties);
    }
    Ok(metadata)
}

/// Parses `onMetaData` from a script data tag payload that nests no deeper than the
/// stack bears.
pub fn parse_script_data_metadata(payload: Bytes) -> (r: Result<StreamMetadata, ScriptDataError>)
    requires
        nests_within_limit(bytes_of(payload)),
    ensures
        match script_metadata(amf0_decoded(bytes_of(payload))) {
            Ok(m) => r matches Ok(x) && metadata_view(x) == m,
            Err(e) => r matches Err(x) && x == e,
        },
{
    match deserialize_amf0(payload) {
        Ok(values) => metadata_from_values(values),
        Err(_) => Err(ScriptDataError::Undecodable),
    }
}

/// Parses `onMetaData` from any script data tag payload. `None` where it nests deeper
/// than the stack bears, so that it cannot be decoded.
pub fn checked_script_data_metadata(payload: Bytes) -> (r: Option<
    Result<StreamMetadata, ScriptDataError>,
>)
    ensures
        r is Some <==> nests_within_limit(bytes_of(payload)),
        r matches Some(parsed) ==> match script_metadata(amf0_decoded(bytes_of(payload))) {
            Ok(m) => parsed matches Ok(x) && metadata_view(x) == m,
            Err(e) => parsed matches Err(x) && x == e,
        },
{
    if is_nested_within_limit(bytes_as_slice(&payload)) {
        Some(parse_script_data_metadata(payload))
    } else {
        None
    }
}

/// Metadata comes from an event of two values at least whose first is the text
/// `onMetaData`: from the properties of the second where it is an object, and empty
/// metadata otherwise. Every other event is refused by what is wrong with it.
pub proof fn law_metadata_comes_from_on_meta_data(values: Seq<ScriptView>)
    ensures
        values.len() < 2 ==> script_metadata(Some(values)) == Err::<MetadataView, ScriptDataError>(
            ScriptDataError::MissingValues,
        ),
        values.len() >= 2 && !(values[0] matches ScriptView::Text(name) && name == "onMetaData"@)
            ==> script_metadata(Some(values)) == Err::<MetadataView, ScriptDataError>(
            ScriptDataError::NotMetadata,
        ),
        values.len() >= 2 && values[0] == ScriptView::Text("onMetaData"@) ==> {
            &&& values[1] matches ScriptView::Object(p) ==> script_metadata(Some(values)) == Ok::<
                MetadataView,
                ScriptDataError,
            >(metadata_applied(empty_metadata(), p))
            &&& !(values[1] is Object) ==> script_metadata(Some(values)) == Ok::<
                MetadataView,
                ScriptDataError,
            >(empty_metadata())
        },
        script_metadata(None) == Err::<MetadataView, ScriptDataError>(ScriptDataError::Undecodable),
{
}

/// Empty metadata knows nothing.
pub proof fn law_empty_metadata_knows_nothing()
    ensures
        ({
            let m = empty_metadata();
            &&& m.video_width is None && m.video_height is None && m.video_codec_id is None
            &&& m.video_frame_rate is None && m.video_bitrate_kbps is None
            &&& m.audio_codec_id is None && m.audio_bitrate_kbps is None
            &&& m.audio_sample_rate is None && m.audio_channels is None
            &&& m.audio_is_stereo is None && m.encoder is None
        }),
{
}

} // verus!
