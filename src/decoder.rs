//! Decoding of inbound control messages.
//!
//! Two wire shapes are understood. The structured one is a JSON object with
//! a string field `action` (`"on"` or `"off"`) and an optional object
//! `params` whose string field `source` names the sender. When a payload is
//! not of that shape it is read as a bare word: `on` or `off`. Anything else
//! decodes to `Unknown`; decoding never fails.

use vstd::prelude::*;
use vstd::slice::slice_to_vec;

verus! {

/// The bytes of the word `on`.
pub open spec fn word_on() -> Seq<u8> {
    seq![111u8, 110u8]
}

/// The bytes of the word `off`.
pub open spec fn word_off() -> Seq<u8> {
    seq![111u8, 102u8, 102u8]
}

/// What a control message asks for.
#[derive(Debug)]
pub enum Command {
    /// Switch the display on (`true`) or off (`false`).
    SetPower(bool),
    /// Not understood: the action of a structured message, or the whole
    /// payload of a bare one.
    Unknown(Vec<u8>),
}

/// Model of a [`Command`].
pub enum CommandModel {
    SetPower(bool),
    Unknown(Seq<u8>),
}

impl View for Command {
    type V = CommandModel;

    open spec fn view(&self) -> CommandModel {
        match self {
            Command::SetPower(on) => CommandModel::SetPower(*on),
            Command::Unknown(raw) => CommandModel::Unknown(raw@),
        }
    }
}

/// A decoded message: the command, and the sender if the message named one.
#[derive(Debug)]
pub struct InboundCommand {
    pub command: Command,
    pub source: Option<String>,
}

/// The view of an optional string.
pub open spec fn opt_string_view(s: Option<String>) -> Option<Seq<char>> {
    match s {
        Some(t) => Some(t@),
        None => None,
    }
}

impl View for InboundCommand {
    type V = (CommandModel, Option<Seq<char>>);

    open spec fn view(&self) -> (CommandModel, Option<Seq<char>>) {
        (self.command@, opt_string_view(self.source))
    }
}

/// Key of a structured message's action.
pub const ACTION_KEY: &'static str = "action";

/// Key of a structured message's parameters.
pub const PARAMS_KEY: &'static str = "params";

/// Key of the sender among a structured message's parameters.
pub const SOURCE_KEY: &'static str = "source";

/// The view of optional bytes.
pub open spec fn opt_bytes_view(b: Option<Vec<u8>>) -> Option<Seq<u8>> {
    match b {
        Some(v) => Some(v@),
        None => None,
    }
}

/// The UTF-8 bytes of the string stored under `key` when the JSON reader
/// reads `payload` as an object that has a string there; `None` otherwise.
pub uninterp spec fn json_str_field_of(payload: Seq<u8>, key: Seq<char>) -> Option<Seq<u8>>;

/// The string stored under `inner` in the object stored under `outer`, when
/// the JSON reader reads `payload` as an object of that shape; `None`
/// otherwise.
pub uninterp spec fn json_nested_str_field_of(payload: Seq<u8>, outer: Seq<char>, inner: Seq<char>) -> Option<Seq<char>>;

/// Relies on `serde_json::from_slice` to read `payload` as a
/// `serde_json::Value`, on `Value::get` to look up `key` (which finds
/// nothing unless the value is an object), and on `Value::as_str` to take a
/// string. The outcome depends on the arguments alone.
#[verifier::external_body]
fn json_str_field(payload: &[u8], key: &str) -> (r: Option<Vec<u8>>)
    ensures
        opt_bytes_view(r) == json_str_field_of(payload@, key@),
{
    let v: serde_json::Value = serde_json::from_slice(payload).ok()?;
    Some(v.get(key)?.as_str()?.as_bytes().to_vec())
}

/// Relies on `serde_json::from_slice` to read `payload` as a
/// `serde_json::Value`, on `Value::get` to look up `outer` and then `inner`
/// (each finds nothing unless the value is an object), and on
/// `Value::as_str` to take a string. The outcome depends on the arguments
/// alone.
#[verifier::external_body]
fn json_nested_str_field(payload: &[u8], outer: &str, inner: &str) -> (r: Option<String>)
    ensures
        opt_string_view(r) == json_nested_str_field_of(payload@, outer@, inner@),
{
    let v: serde_json::Value = serde_json::from_slice(payload).ok()?;
    Some(v.get(outer)?.get(inner)?.as_str()?.to_string())
}

/// The command that a bare word stands for.
pub open spec fn word_command(word: Seq<u8>) -> CommandModel {
    if word == word_on() {
        CommandModel::SetPower(true)
    } else if word == word_off() {
        CommandModel::SetPower(false)
    } else {
        CommandModel::Unknown(word)
    }
}

/// The decoded form of `payload`, given the action that the JSON reader
/// found in it and the sender: a structured message when there is an
/// action, else the payload read as a bare word.
pub open spec fn decoded(action: Option<Seq<u8>>, source: Option<Seq<char>>, payload: Seq<u8>) -> (
    CommandModel,
    Option<Seq<char>>,
) {
    match action {
        Some(a) => (word_command(a), source),
        None => (word_command(payload), None),
    }
}

/// The decoded form of `payload`: a JSON object with a string `action` is a
/// structured message whose sender is the string `params.source`; anything
/// else is read as a bare word.
pub open spec fn decoded_payload(payload: Seq<u8>) -> (CommandModel, Option<Seq<char>>) {
    decoded(
        json_str_field_of(payload, ACTION_KEY@),
        json_nested_str_field_of(payload, PARAMS_KEY@, SOURCE_KEY@),
        payload,
    )
}

/// The power state that a decoded command asks for, if any.
pub open spec fn power_target(c: CommandModel) -> Option<bool> {
    match c {
        CommandModel::SetPower(on) => Some(on),
        CommandModel::Unknown(_) => None,
    }
}

/// Whether `bytes` spells `on`.
fn is_word_on(bytes: &[u8]) -> (r: bool)
    ensures
        r == (bytes@ == word_on()),
{
    let r = bytes.len() == 2 && bytes[0] == 111u8 && bytes[1] == 110u8;
    assert(r ==> bytes@ =~= word_on());
    r
}

/// Whether `bytes` spells `off`.
fn is_word_off(bytes: &[u8]) -> (r: bool)
    ensures
        r == (bytes@ == word_off()),
{
    let r = bytes.len() == 3 && bytes[0] == 111u8 && bytes[1] == 102u8 && bytes[2] == 102u8;
    assert(r ==> bytes@ =~= word_off());
    r
}

/// Reads `word` as a bare command: `on`, `off`, or anything else.
pub fn decode_legacy(word: &[u8]) -> (r: Command)
    ensures
        r@ == word_command(word@),
{
    if is_word_on(word) {
        Command::SetPower(true)
    } else if is_word_off(word) {
        Command::SetPower(false)
    } else {
        Command::Unknown(slice_to_vec(word))
    }
}

/// Decodes `payload` given the action that the JSON reader found in it and
/// the sender: the action of a structured message, or else the payload read
/// as a bare word.
pub fn decode_fields(action: Option<Vec<u8>>, source: Option<String>, payload: &[u8]) -> (r:
    InboundCommand)
    ensures
        r@ == decoded(opt_bytes_view(action), opt_string_view(source), payload@),
{
    match action {
        Some(a) => InboundCommand { command: decode_legacy(a.as_slice()), source },
        None => InboundCommand { command: decode_legacy(payload), source: None },
    }
}

/// Decodes an inbound payload. Never fails: what is not understood becomes
/// `Unknown`.
pub fn decode(payload: &[u8]) -> (r: InboundCommand)
    ensures
        r@ == decoded(
            json_str_field_of(payload@, ACTION_KEY@),
            json_nested_str_field_of(payload@, PARAMS_KEY@, SOURCE_KEY@),
            payload@,
        ),
        r@ == decoded_payload(payload@),
{
    let action = json_str_field(payload, ACTION_KEY);
    let source = json_nested_str_field(payload, PARAMS_KEY, SOURCE_KEY);
    decode_fields(action, source, payload)
}

} // verus!
