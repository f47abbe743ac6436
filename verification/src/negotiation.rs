//! The values that the streamer negotiates for a session.
//!
//! They arrive as the text of a JSON object. Each value is read on its own:
//! one that is missing, or of the wrong kind, falls back to its default and
//! leaves the others alone. Only a text that is no JSON object is refused.
//!
//! Real numbers are held as the bits of their double-precision form.

use std::collections::HashMap;
use vstd::prelude::*;

verus! {

/// The key of the view resolution in the negotiated object.
pub const VIEW_RESOLUTION_KEY: &'static str = "view_resolution";

/// The key of the refresh rate in the negotiated object.
pub const REFRESH_RATE_HINT_KEY: &'static str = "refresh_rate_hint";

/// The key of the game audio sample rate in the negotiated object.
pub const GAME_AUDIO_SAMPLE_RATE_KEY: &'static str = "game_audio_sample_rate";

/// The refresh rate taken where none is negotiated: 60 Hz, as the bits of a
/// double.
pub const DEFAULT_REFRESH_RATE_HINT_BITS: u64 = 0x404E_0000_0000_0000;

/// The game audio sample rate taken where none is negotiated, in Hz.
pub const DEFAULT_GAME_AUDIO_SAMPLE_RATE: u64 = 44100;

/// A JSON value of `serde_json`. Nothing of its inside is known here.
#[verifier::external_type_specification]
#[verifier::external_body]
pub struct ExJsonValue(serde_json::Value);

/// The error of `serde_json`. Nothing of its inside is known here.
#[verifier::external_type_specification]
#[verifier::external_body]
pub struct ExJsonError(serde_json::Error);

/// The `clone` of a `serde_json::Value`: the copy is the same value.
pub assume_specification[ <serde_json::Value as Clone>::clone ](
    value: &serde_json::Value,
) -> (copy: serde_json::Value)
    ensures
        copy == *value,
;

/// What `serde_json::from_str` makes of a text that is read as a map from
/// strings to JSON values: the entries of the object, or nothing where the
/// text is refused.
pub uninterp spec fn json_object(text: Seq<char>) -> Option<Map<Seq<char>, serde_json::Value>>;

/// The entries that a map from strings to JSON values holds.
pub uninterp spec fn object_entries(object: HashMap<String, serde_json::Value>) -> Map<
    Seq<char>,
    serde_json::Value,
>;

/// What `serde_json::Value::as_u64` returns for a value.
pub uninterp spec fn json_u64(value: serde_json::Value) -> Option<u64>;

/// The bits of what `serde_json::Value::as_f64` returns for a value.
pub uninterp spec fn json_f64_bits(value: serde_json::Value) -> Option<u64>;

/// The two components of what `serde_json::from_value` returns for a value
/// that is read as a `glam::UVec2`, or nothing where the value is refused.
pub uninterp spec fn json_resolution(value: serde_json::Value) -> Option<(u32, u32)>;

/// A resolution in pixels.
#[derive(Clone, Copy, Debug, PartialEq, Eq, Structural)]
pub struct Resolution {
    pub width: u32,
    pub height: u32,
}

/// What was found of each negotiated value: nothing where the value is
/// missing or of the wrong kind.
#[derive(Clone, Copy, Debug, PartialEq, Eq)]
pub struct NegotiatedFields {
    pub view_resolution: Option<(u32, u32)>,
    pub refresh_rate_hint_bits: Option<u64>,
    pub game_audio_sample_rate: Option<u64>,
}

/// The negotiated values of a session.
#[derive(Clone, Copy, Debug, PartialEq, Eq, Structural)]
pub struct NegotiatedValues {
    /// The resolution of one eye's view.
    pub view_resolution: Resolution,
    /// The refresh rate in Hz, as the bits of a double.
    pub refresh_rate_hint_bits: u64,
    /// The sample rate of the game audio, in Hz.
    pub game_audio_sample_rate: u32,
}

/// Why a negotiated text was refused.
#[derive(Clone, Debug, PartialEq, Eq)]
pub enum NegotiationError {
    /// The text is no JSON object; the message says where it goes wrong.
    NotAnObject { message: String },
}

/// The values with the default in place of each one that was not found: no
/// resolution at all, 60 Hz, 44100 Hz. A sample rate keeps its low 32 bits.
pub open spec fn with_defaults(fields: NegotiatedFields) -> NegotiatedValues {
    NegotiatedValues {
        view_resolution: match fields.view_resolution {
            Some((width, height)) => Resolution { width, height },
            None => Resolution { width: 0, height: 0 },
        },
        refresh_rate_hint_bits: match fields.refresh_rate_hint_bits {
            Some(bits) => bits,
            None => DEFAULT_REFRESH_RATE_HINT_BITS,
        },
        game_audio_sample_rate: match fields.game_audio_sample_rate {
            Some(rate) => (rate % 0x1_0000_0000) as u32,
            None => DEFAULT_GAME_AUDIO_SAMPLE_RATE as u32,
        },
    }
}

/// What is found of each negotiated value among the entries of an object.
pub open spec fn fields_of(entries: Map<Seq<char>, serde_json::Value>) -> NegotiatedFields {
    NegotiatedFields {
        view_resolution: if entries.contains_key(VIEW_RESOLUTION_KEY@) {
            json_resolution(entries[VIEW_RESOLUTION_KEY@])
        } else {
            None
        },
        refresh_rate_hint_bits: if entries.contains_key(REFRESH_RATE_HINT_KEY@) {
            json_f64_bits(entries[REFRESH_RATE_HINT_KEY@])
        } else {
            None
        },
        game_audio_sample_rate: if entries.contains_key(GAME_AUDIO_SAMPLE_RATE_KEY@) {
            json_u64(entries[GAME_AUDIO_SAMPLE_RATE_KEY@])
        } else {
            None
        },
    }
}

/// Calls `serde_json::from_str` to read a text as a map from strings to JSON
/// values. The contract names the outcome after the text alone: the entries
/// of the map that comes back, or a refusal.
#[verifier::external_body]
fn parse_object(text: &str) -> (parsed: Result<HashMap<String, serde_json::Value>, serde_json::Error>)
    ensures
        match parsed {
            Ok(object) => json_object(text@) == Some(object_entries(object)),
            Err(_) => json_object(text@).is_none(),
        },
{
    serde_json::from_str::<HashMap<String, serde_json::Value>>(text)
}

/// Calls `HashMap::get` with a string key. The contract says that the value
/// stored under the key comes back, and nothing where the key is not there.
#[verifier::external_body]
fn lookup<'a>(object: &'a HashMap<String, serde_json::Value>, key: &str) -> (found: Option<
    &'a serde_json::Value,
>)
    ensures
        match found {
            Some(value) => object_entries(*object).contains_key(key@) && object_entries(
                *object,
            )[key@] == *value,
            None => !object_entries(*object).contains_key(key@),
        },
{
    object.get(key)
}

/// Calls `serde_json::Value::as_u64`. The contract names the result after the
/// value.
#[verifier::external_body]
fn value_as_u64(value: &serde_json::Value) -> (number: Option<u64>)
    ensures
        number == json_u64(*value),
{
    value.as_u64()
}

/// Calls `serde_json::Value::as_f64` and hands the number on as its bits. The
/// contract names the result after the value.
#[verifier::external_body]
fn value_as_f64_bits(value: &serde_json::Value) -> (bits: Option<u64>)
    ensures
        bits == json_f64_bits(*value),
{
    value.as_f64().map(|number| number.to_bits())
}

/// Calls `serde_json::from_value` to read a copy of the value as a
/// `glam::UVec2`, and hands on its two components. The contract names the
/// result after the value.
#[verifier::external_body]
fn value_as_resolution(value: &serde_json::Value) -> (resolution: Option<(u32, u32)>)
    ensures
        resolution == json_resolution(*value),
{
    serde_json::from_value::<glam::UVec2>(value.clone()).ok().map(|size| (size.x, size.y))
}

/// Calls the `to_string` of a `serde_json::Error`. Nothing is claimed of the
/// text.
#[verifier::external_body]
fn error_text(error: &serde_json::Error) -> (text: String) {
    error.to_string()
}

/// Puts the default in place of each value that was not found.
pub fn apply_defaults(fields: NegotiatedFields) -> (values: NegotiatedValues)
    ensures
        values == with_defaults(fields),
{
    let view_resolution = match fields.view_resolution {
        Some((width, height)) => Resolution { width, height },
        None => Resolution { width: 0, height: 0 },
    };
    let refresh_rate_hint_bits = match fields.refresh_rate_hint_bits {
        Some(bits) => bits,
        None => DEFAULT_REFRESH_RATE_HINT_BITS,
    };
    let game_audio_sample_rate = match fields.game_audio_sample_rate {
        Some(rate) => (rate % 0x1_0000_0000) as u32,
        None => DEFAULT_GAME_AUDIO_SAMPLE_RATE as u32,
    };
    NegotiatedValues { view_resolution, refresh_rate_hint_bits, game_audio_sample_rate }
}

/// Reads each negotiated value from an object.
fn read_fields(object: &HashMap<String, serde_json::Value>) -> (fields: NegotiatedFields)
    ensures
        fields == fields_of(object_entries(*object)),
{
    let view_resolution = match lookup(object, VIEW_RESOLUTION_KEY) {
        Some(value) => value_as_resolution(value),
        None => None,
    };
    let refresh_rate_hint_bits = match lookup(object, REFRESH_RATE_HINT_KEY) {
        Some(value) => value_as_f64_bits(value),
        None => None,
    };
    let game_audio_sample_rate = match lookup(object, GAME_AUDIO_SAMPLE_RATE_KEY) {
        Some(value) => value_as_u64(value),
        None => None,
    };
    NegotiatedFields { view_resolution, refresh_rate_hint_bits, game_audio_sample_rate }
}

/// Reads the negotiated values from their text. A text that is a JSON object
/// always gives values: each one as found in the object, or its default. Any
/// other text is refused.
pub fn negotiate(text: &str) -> (negotiated: Result<NegotiatedValues, NegotiationError>)
    ensures
        match json_object(text@) {
            Some(entries) => negotiated == Ok::<NegotiatedValues, NegotiationError>(
                with_defaults(fields_of(entries)),
            ),
            None => negotiated is Err,
        },
{
    match parse_object(text) {
        Ok(object) => Ok(apply_defaults(read_fields(&object))),
        Err(error) => Err(NegotiationError::NotAnObject { message: error_text(&error) }),
    }
}

} // verus!
