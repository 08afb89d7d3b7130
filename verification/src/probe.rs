//! The probe parser: from the probe tool's structured output to a metadata
//! record.

use vstd::prelude::*;
use crate::error::MediaError;
use crate::text::{parse_unsigned, read_unsigned, same_text};

verus! {

/// A parsed document of the probe tool.
#[derive(Debug, PartialEq, Eq)]
pub enum Json {
    Null,
    Bool(bool),
    /// A number, held as an unsigned 64-bit integer where it is one.
    Number(Option<u64>),
    Text(String),
    Array(Vec<Json>),
    /// The members of an object, in the order in which the parser hands them
    /// out.
    Object(Vec<(String, Json)>),
}

/// A document as plain values.
pub enum JsonModel {
    Null,
    Bool(bool),
    Number(Option<u64>),
    Text(Seq<char>),
    Array(Seq<JsonModel>),
    Object(Seq<(Seq<char>, JsonModel)>),
}

impl Json {
    /// The document as plain values.
    pub open spec fn model(&self) -> JsonModel
        decreases self,
    {
        match self {
            Json::Null => JsonModel::Null,
            Json::Bool(b) => JsonModel::Bool(*b),
            Json::Number(n) => JsonModel::Number(*n),
            Json::Text(t) => JsonModel::Text(t@),
            Json::Array(items) => JsonModel::Array(
                Seq::new(
                    items@.len(),
                    |i: int|
                        if 0 <= i < items@.len() {
                            items@[i].model()
                        } else {
                            JsonModel::Null
                        },
                ),
            ),
            Json::Object(members) => JsonModel::Object(
                Seq::new(
                    members@.len(),
                    |i: int|
                        if 0 <= i < members@.len() {
                            (members@[i].0@, members@[i].1.model())
                        } else {
                            (Seq::empty(), JsonModel::Null)
                        },
                ),
            ),
        }
    }
}

impl View for Json {
    type V = JsonModel;

    open spec fn view(&self) -> JsonModel {
        self.model()
    }
}

/// The model of a list holds the models of its items, in order.
pub proof fn lemma_array_model(value: Json)
    requires
        value is Array,
    ensures
        value@ is Array,
        value@->Array_0.len() == value->Array_0@.len(),
        forall|j: int|
            0 <= j < value->Array_0@.len() ==> #[trigger] value@->Array_0[j]
                == value->Array_0@[j]@,
{
    let items = value->Array_0;
    assert(value == Json::Array(items));
    let expected = Seq::new(
        items@.len(),
        |i: int|
            if 0 <= i < items@.len() {
                items@[i].model()
            } else {
                JsonModel::Null
            },
    );
    assert(value@->Array_0 =~= expected);
}

/// The model of an object holds its members as text and model, in order.
pub proof fn lemma_object_model(value: Json)
    requires
        value is Object,
    ensures
        value@ is Object,
        value@->Object_0.len() == value->Object_0@.len(),
        forall|j: int|
            0 <= j < value->Object_0@.len() ==> #[trigger] value@->Object_0[j] == (
                value->Object_0@[j].0@,
                value->Object_0@[j].1@,
            ),
{
    let members = value->Object_0;
    assert(value == Json::Object(members));
    let expected = Seq::new(
        members@.len(),
        |i: int|
            if 0 <= i < members@.len() {
                (members@[i].0@, members@[i].1.model())
            } else {
                (Seq::empty(), JsonModel::Null)
            },
    );
    assert(value@->Object_0 =~= expected);
}

/// The value of the first member called `key`, if there is one.
pub open spec fn find_member(members: Seq<(Seq<char>, JsonModel)>, key: Seq<char>) -> Option<
    JsonModel,
>
    decreases members.len(),
{
    if members.len() == 0 {
        None
    } else if members[0].0 == key {
        Some(members[0].1)
    } else {
        find_member(members.skip(1), key)
    }
}

/// The member `key` of an object; a value that is no object has no members.
pub open spec fn member(doc: JsonModel, key: Seq<char>) -> Option<JsonModel> {
    match doc {
        JsonModel::Object(members) => find_member(members, key),
        _ => None,
    }
}

/// The member `key` of `owner` where it is a text.
pub open spec fn text_member(owner: Option<JsonModel>, key: Seq<char>) -> Option<Seq<char>> {
    match owner {
        Some(doc) => match member(doc, key) {
            Some(JsonModel::Text(t)) => Some(t),
            _ => None,
        },
        None => None,
    }
}

/// The member `key` of `owner` where it is an unsigned integer.
pub open spec fn number_member(owner: Option<JsonModel>, key: Seq<char>) -> Option<u64> {
    match owner {
        Some(doc) => match member(doc, key) {
            Some(JsonModel::Number(Some(n))) => Some(n),
            _ => None,
        },
        None => None,
    }
}

/// Whether a stream record declares itself as audio.
pub open spec fn is_audio(stream: JsonModel) -> bool {
    text_member(Some(stream), "codec_type"@) == Some("audio"@)
}

/// The first stream record that is audio.
pub open spec fn first_audio(streams: Seq<JsonModel>) -> Option<JsonModel>
    decreases streams.len(),
{
    if streams.len() == 0 {
        None
    } else if is_audio(streams[0]) {
        Some(streams[0])
    } else {
        first_audio(streams.skip(1))
    }
}

/// The stream records of a document: its member `streams` where that is a
/// list, else none.
pub open spec fn streams_of(doc: JsonModel) -> Seq<JsonModel> {
    match member(doc, "streams"@) {
        Some(JsonModel::Array(items)) => items,
        _ => Seq::empty(),
    }
}

/// An unsigned decimal number up to `max`, or 0 where the text is absent or
/// reads as none.
pub open spec fn number_or_zero(text: Option<Seq<char>>, max: nat) -> nat {
    match text {
        Some(t) => match parse_unsigned(t, max) {
            Some(n) => n,
            None => 0,
        },
        None => 0,
    }
}

/// A metadata record as plain values.
pub struct MetadataModel {
    pub duration: Option<Seq<char>>,
    pub bitrate: nat,
    pub sample_rate: nat,
    pub channels: nat,
    pub codec: Seq<char>,
}

/// The metadata that a probe document holds. Every field that is missing,
/// unreadable or too large for its place in the record takes its default;
/// nothing here fails.
pub open spec fn metadata_of(doc: JsonModel) -> MetadataModel {
    let format = member(doc, "format"@);
    let audio = first_audio(streams_of(doc));
    MetadataModel {
        duration: text_member(format, "duration"@),
        bitrate: number_or_zero(text_member(format, "bit_rate"@), u64::MAX as nat),
        sample_rate: number_or_zero(text_member(audio, "sample_rate"@), u32::MAX as nat),
        channels: match number_member(audio, "channels"@) {
            Some(n) => if n <= u8::MAX {
                n as nat
            } else {
                0
            },
            None => 0,
        },
        codec: match text_member(audio, "codec_name"@) {
            Some(name) => name,
            None => "unknown"@,
        },
    }
}

/// Metadata of an audio or video asset.
#[derive(Clone, Debug, PartialEq, Eq)]
pub struct AudioMetadata {
    /// The duration in seconds as the probe tool printed it, where it printed
    /// one. A caller reads it as a floating-point number and takes 0.0 where
    /// it is absent or unreadable.
    pub duration: Option<String>,
    /// Bits per second; 0 where unknown.
    pub bitrate: u64,
    /// Hertz; 0 where unknown.
    pub sample_rate: u32,
    /// Channel count; 0 where unknown.
    pub channels: u8,
    /// Codec name; `unknown` where absent.
    pub codec: String,
}

impl View for AudioMetadata {
    type V = MetadataModel;

    open spec fn view(&self) -> MetadataModel {
        MetadataModel {
            duration: match self.duration {
                Some(t) => Some(t@),
                None => None,
            },
            bitrate: self.bitrate as nat,
            sample_rate: self.sample_rate as nat,
            channels: self.channels as nat,
            codec: self.codec@,
        }
    }
}

/// The model of an optional document.
pub open spec fn optional_model(value: Option<&Json>) -> Option<JsonModel> {
    match value {
        Some(v) => Some(v@),
        None => None,
    }
}

/// The member `key` of an object.
pub fn get<'a>(doc: &'a Json, key: &str) -> (value: Option<&'a Json>)
    ensures
        optional_model(value) == member(doc@, key@),
{
    match doc {
        Json::Object(members) => {
            let ghost model = doc@->Object_0;
            proof {
                lemma_object_model(*doc);
            }
            assert(model.skip(0) =~= model);
            let mut i: usize = 0;
            while i < members.len()
                invariant
                    i <= members.len(),
                    doc@ == JsonModel::Object(model),
                    model.len() == members@.len(),
                    forall|j: int|
                        0 <= j < members@.len() ==> #[trigger] model[j] == (
                            members@[j].0@,
                            members@[j].1@,
                        ),
                    find_member(model, key@) == find_member(model.skip(i as int), key@),
                decreases members.len() - i,
            {
                if same_text(members[i].0.as_str(), key) {
                    return Some(&members[i].1);
                }
                assert(model.skip(i as int).skip(1) =~= model.skip(i + 1));
                i = i + 1;
            }
            None
        },
        _ => None,
    }
}

/// The member `key` of `owner` where it is a text.
pub fn get_text<'a>(owner: Option<&'a Json>, key: &str) -> (text: Option<&'a str>)
    ensures
        match text {
            Some(t) => text_member(optional_model(owner), key@) == Some(t@),
            None => text_member(optional_model(owner), key@) is None,
        },
{
    match owner {
        Some(doc) => match get(doc, key) {
            Some(Json::Text(t)) => Some(t.as_str()),
            _ => None,
        },
        None => None,
    }
}

/// The first stream record that is audio.
pub fn find_audio<'a>(doc: &'a Json) -> (stream: Option<&'a Json>)
    ensures
        optional_model(stream) == first_audio(streams_of(doc@)),
{
    match get(doc, "streams") {
        Some(Json::Array(items)) => {
            let ghost model = streams_of(doc@);
            proof {
                lemma_array_model(Json::Array(*items));
            }
            assert(model.skip(0) =~= model);
            let mut i: usize = 0;
            while i < items.len()
                invariant
                    i <= items.len(),
                    model == streams_of(doc@),
                    model.len() == items@.len(),
                    forall|j: int| 0 <= j < items@.len() ==> #[trigger] model[j] == items@[j]@,
                    first_audio(model) == first_audio(model.skip(i as int)),
                decreases items.len() - i,
            {
                let audio = match get_text(Some(&items[i]), "codec_type") {
                    Some(kind) => same_text(kind, "audio"),
                    None => false,
                };
                if audio {
                    return Some(&items[i]);
                }
                assert(model.skip(i as int).skip(1) =~= model.skip(i + 1));
                i = i + 1;
            }
            None
        },
        _ => None,
    }
}

/// An unsigned decimal number up to `max`, or 0 where the text is absent or
/// reads as none.
fn read_or_zero(text: Option<&str>, max: u64) -> (n: u64)
    ensures
        n == number_or_zero(
            match text {
                Some(t) => Some(t@),
                None => None,
            },
            max as nat,
        ),
        n <= max,
{
    match text {
        Some(t) => match read_unsigned(t, max) {
            Some(n) => n,
            None => 0,
        },
        None => 0,
    }
}

/// Extracts the metadata of a probe document. Missing and unreadable fields
/// take their defaults.
pub fn metadata(doc: &Json) -> (record: AudioMetadata)
    ensures
        record@ == metadata_of(doc@),
{
    let format = get(doc, "format");
    let audio = find_audio(doc);
    let duration = match get_text(format, "duration") {
        Some(t) => Some(t.to_owned()),
        None => None,
    };
    let bitrate = read_or_zero(get_text(format, "bit_rate"), u64::MAX);
    let sample_rate = read_or_zero(get_text(audio, "sample_rate"), 0xffff_ffff);
    let channels: u8 = match audio {
        Some(stream) => match get(stream, "channels") {
            Some(Json::Number(Some(n))) => if *n <= 255 {
                *n as u8
            } else {
                0
            },
            _ => 0,
        },
        None => 0,
    };
    let codec = match get_text(audio, "codec_name") {
        Some(name) => name.to_owned(),
        None => "unknown".to_owned(),
    };
    AudioMetadata { duration, bitrate, sample_rate: sample_rate as u32, channels, codec }
}

/// A document without a `streams` member has no audio stream: sample rate and
/// channel count are 0 and the codec is `unknown`, while duration and bitrate
/// are those of its `format` record.
pub proof fn law_missing_streams_defaults(doc: JsonModel)
    requires
        member(doc, "streams"@) is None,
    ensures
        metadata_of(doc).sample_rate == 0,
        metadata_of(doc).channels == 0,
        metadata_of(doc).codec == "unknown"@,
        metadata_of(doc).duration == text_member(member(doc, "format"@), "duration"@),
        metadata_of(doc).bitrate == number_or_zero(
            text_member(member(doc, "format"@), "bit_rate"@),
            u64::MAX as nat,
        ),
{
}

/// A document none of whose stream records is audio has the same defaults: a
/// video-only asset is no error.
pub proof fn law_no_audio_stream_defaults(doc: JsonModel)
    requires
        first_audio(streams_of(doc)) is None,
    ensures
        metadata_of(doc).sample_rate == 0,
        metadata_of(doc).channels == 0,
        metadata_of(doc).codec == "unknown"@,
{
}

/// Every number of a metadata record fits its field.
pub proof fn law_metadata_in_range(doc: JsonModel)
    ensures
        metadata_of(doc).bitrate <= u64::MAX,
        metadata_of(doc).sample_rate <= u32::MAX,
        metadata_of(doc).channels <= u8::MAX,
{
}

/// The document type of `serde_json`, carried from the parser to the
/// conversion and not looked into.
#[verifier::external_type_specification]
#[verifier::external_body]
pub struct ExValue(serde_json::Value);

/// The error type of `serde_json`.
#[verifier::external_type_specification]
#[verifier::external_body]
pub struct ExError(serde_json::Error);

/// What a `serde_json::Value` holds, as plain values.
pub uninterp spec fn value_model(value: serde_json::Value) -> JsonModel;

/// The document that `serde_json::from_slice` reads from the bytes, or
/// nothing where it refuses them.
pub uninterp spec fn document_of(bytes: Seq<u8>) -> Option<JsonModel>;

/// Calls `serde_json::from_slice` for a `Value`. Trusted: whether the bytes
/// are accepted, and the document read from them, depend on the bytes alone.
#[verifier::external_body]
fn read_value(bytes: &[u8]) -> (result: Result<serde_json::Value, serde_json::Error>)
    ensures
        match result {
            Ok(value) => document_of(bytes@) == Some(value_model(value)),
            Err(_) => document_of(bytes@) is None,
        },
{
    serde_json::from_slice::<serde_json::Value>(bytes)
}

/// Copies a `serde_json::Value` into a `Json`, variant by variant. A number
/// is kept as `Number::as_u64` gives it; the members of an object come in the
/// order of `Map::iter`. Trusted: the copy holds what the value holds.
#[verifier::external_body]
fn json_of(value: &serde_json::Value) -> (doc: Json)
    ensures
        doc@ == value_model(*value),
{
    match value {
        serde_json::Value::Null => Json::Null,
        serde_json::Value::Bool(b) => Json::Bool(*b),
        serde_json::Value::Number(n) => Json::Number(n.as_u64()),
        serde_json::Value::String(s) => Json::Text(s.clone()),
        serde_json::Value::Array(a) => Json::Array(a.iter().map(json_of).collect()),
        serde_json::Value::Object(m) => Json::Object(
            m.iter().map(|(k, v)| (k.clone(), json_of(v))).collect(),
        ),
    }
}

/// Reads a document from the raw output of the probe tool.
///
/// Fails with `MalformedProbeOutput` exactly when the bytes are no document.
pub fn read_document(raw: &[u8]) -> (result: Result<Json, MediaError>)
    ensures
        match document_of(raw@) {
            Some(model) => result matches Ok(doc) && doc@ == model,
            None => result matches Err(e) && e == MediaError::MalformedProbeOutput,
        },
{
    match read_value(raw) {
        Ok(value) => Ok(json_of(&value)),
        Err(_) => Err(MediaError::MalformedProbeOutput),
    }
}

/// Parses the raw output of the probe tool into a metadata record.
///
/// Fails with `MalformedProbeOutput` exactly when the bytes are no document;
/// a document always gives a record, with defaults where fields are missing.
pub fn parse(raw: &[u8]) -> (result: Result<AudioMetadata, MediaError>)
    ensures
        match document_of(raw@) {
            Some(model) => result matches Ok(record) && record@ == metadata_of(model),
            None => result matches Err(e) && e == MediaError::MalformedProbeOutput,
        },
{
    match read_document(raw) {
        Ok(doc) => Ok(metadata(&doc)),
        Err(e) => Err(e),
    }
}

} // verus!
