//! The shape of the records in the store: which JSON values are a session, a
//! bundle of sessions, a generation or a prompt, and the record each one is.
//!
//! A record is a JSON object with one member for each field, under the
//! field's name; members under other names are passed over. It may also be a
//! JSON array of just the fields' values in the order of the fields. A time
//! is a number of milliseconds that is not negative.

use crate::json::JsonValue;
use crate::text::same_text;
use crate::{ChatGeneration, ChatPrompt, ChatSession, ComposerData};
use vstd::prelude::*;

verus! {

// The names of the fields, as the store writes them.
pub const FIELD_TYPE: &'static str = "type";

pub const FIELD_COMPOSER_ID: &'static str = "composer_id";

pub const FIELD_NAME: &'static str = "name";

pub const FIELD_LAST_UPDATED_AT: &'static str = "last_updated_at";

pub const FIELD_CREATED_AT: &'static str = "created_at";

pub const FIELD_UNIFIED_MODE: &'static str = "unified_mode";

pub const FIELD_FORCE_MODE: &'static str = "force_mode";

pub const FIELD_HAS_UNREAD_MESSAGES: &'static str = "has_unread_messages";

pub const FIELD_ALL_COMPOSERS: &'static str = "all_composers";

pub const FIELD_UNIX_MS: &'static str = "unix_ms";

pub const FIELD_GENERATION_UUID: &'static str = "generation_uuid";

pub const FIELD_TEXT_DESCRIPTION: &'static str = "text_description";

pub const FIELD_TEXT: &'static str = "text";

pub const FIELD_COMMAND_TYPE: &'static str = "command_type";

/// Why a store entry gave no records.
#[derive(Debug, Clone, Copy, PartialEq, Eq, Structural)]
pub enum ExtractError {
    /// The store has no entry under the key.
    KeyNotFound,
    /// The entry is no JSON document, or the document has not the shape of
    /// the records.
    DecodeError,
}

/// The member of an object under `key`.
pub open spec fn member(members: Seq<(String, JsonValue)>, key: Seq<char>) -> Option<JsonValue>
    decreases members.len(),
{
    if members.len() == 0 {
        None
    } else if members[0].0@ == key {
        Some(members[0].1)
    } else {
        member(members.skip(1), key)
    }
}

/// The value of a record's field: the member of an object under the name
/// of the field, or the item of an array of `count` items at the position of
/// the field.
pub open spec fn field_of(value: JsonValue, name: Seq<char>, position: int, count: int) -> Option<
    JsonValue,
> {
    match value {
        JsonValue::Object(members) => member(members@, name),
        JsonValue::Array(items) => if items@.len() == count && 0 <= position < count {
            Some(items@[position])
        } else {
            None
        },
        _ => None,
    }
}

/// The string that a field holds.
pub open spec fn text_of(field: Option<JsonValue>) -> Option<String> {
    match field {
        Some(JsonValue::Text(text)) => Some(text),
        _ => None,
    }
}

/// The integer that a field holds.
pub open spec fn integer_of(field: Option<JsonValue>) -> Option<i64> {
    match field {
        Some(JsonValue::Number(Some(number))) => Some(number),
        _ => None,
    }
}

/// The time that a field holds: an integer that is not negative.
pub open spec fn time_of(field: Option<JsonValue>) -> Option<i64> {
    match integer_of(field) {
        Some(number) => if number >= 0 {
            Some(number)
        } else {
            None
        },
        None => None,
    }
}

/// The truth value that a field holds.
pub open spec fn bool_of(field: Option<JsonValue>) -> Option<bool> {
    match field {
        Some(JsonValue::Bool(flag)) => Some(flag),
        _ => None,
    }
}

/// The items of an array.
pub open spec fn items_of(field: Option<JsonValue>) -> Option<Seq<JsonValue>> {
    match field {
        Some(JsonValue::Array(items)) => Some(items@),
        _ => None,
    }
}

/// The session that a JSON value is, if it is one.
pub open spec fn session_of(value: JsonValue) -> Option<ChatSession> {
    let session_type = text_of(field_of(value, FIELD_TYPE@, 0, 8));
    let composer_id = text_of(field_of(value, FIELD_COMPOSER_ID@, 1, 8));
    let name = text_of(field_of(value, FIELD_NAME@, 2, 8));
    let last_updated_at = time_of(field_of(value, FIELD_LAST_UPDATED_AT@, 3, 8));
    let created_at = time_of(field_of(value, FIELD_CREATED_AT@, 4, 8));
    let unified_mode = text_of(field_of(value, FIELD_UNIFIED_MODE@, 5, 8));
    let force_mode = text_of(field_of(value, FIELD_FORCE_MODE@, 6, 8));
    let has_unread_messages = bool_of(field_of(value, FIELD_HAS_UNREAD_MESSAGES@, 7, 8));
    if session_type is Some && composer_id is Some && name is Some && last_updated_at is Some
        && created_at is Some && unified_mode is Some && force_mode is Some
        && has_unread_messages is Some {
        Some(
            ChatSession {
                session_type: session_type->0,
                composer_id: composer_id->0,
                name: name->0,
                last_updated_at: last_updated_at->0,
                created_at: created_at->0,
                unified_mode: unified_mode->0,
                force_mode: force_mode->0,
                has_unread_messages: has_unread_messages->0,
            },
        )
    } else {
        None
    }
}

/// The generation that a JSON value is, if it is one.
pub open spec fn generation_of(value: JsonValue) -> Option<ChatGeneration> {
    let unix_ms = time_of(field_of(value, FIELD_UNIX_MS@, 0, 4));
    let generation_uuid = text_of(field_of(value, FIELD_GENERATION_UUID@, 1, 4));
    let generation_type = text_of(field_of(value, FIELD_TYPE@, 2, 4));
    let text_description = text_of(field_of(value, FIELD_TEXT_DESCRIPTION@, 3, 4));
    if unix_ms is Some && generation_uuid is Some && generation_type is Some
        && text_description is Some {
        Some(
            ChatGeneration {
                unix_ms: unix_ms->0,
                generation_uuid: generation_uuid->0,
                generation_type: generation_type->0,
                text_description: text_description->0,
            },
        )
    } else {
        None
    }
}

/// The prompt that a JSON value is, if it is one. The code of its command
/// is an integer from -2^31 to 2^31 - 1.
pub open spec fn prompt_of(value: JsonValue) -> Option<ChatPrompt> {
    let text = text_of(field_of(value, FIELD_TEXT@, 0, 2));
    let command_type = integer_of(field_of(value, FIELD_COMMAND_TYPE@, 1, 2));
    if text is Some && command_type is Some && i32::MIN <= command_type->0 <= i32::MAX {
        Some(ChatPrompt { text: text->0, command_type: command_type->0 as i32 })
    } else {
        None
    }
}

/// The sessions that the items of an array are, if each item is one.
pub open spec fn sessions_of(items: Seq<JsonValue>) -> Option<Seq<ChatSession>> {
    if forall|k: int| 0 <= k < items.len() ==> session_of(#[trigger] items[k]) is Some {
        Some(Seq::new(items.len(), |k: int| session_of(items[k])->0))
    } else {
        None
    }
}

/// The generations that the items of an array are, if each item is one.
pub open spec fn generations_of(items: Seq<JsonValue>) -> Option<Seq<ChatGeneration>> {
    if forall|k: int| 0 <= k < items.len() ==> generation_of(#[trigger] items[k]) is Some {
        Some(Seq::new(items.len(), |k: int| generation_of(items[k])->0))
    } else {
        None
    }
}

/// The prompts that the items of an array are, if each item is one.
pub open spec fn prompts_of(items: Seq<JsonValue>) -> Option<Seq<ChatPrompt>> {
    if forall|k: int| 0 <= k < items.len() ==> prompt_of(#[trigger] items[k]) is Some {
        Some(Seq::new(items.len(), |k: int| prompt_of(items[k])->0))
    } else {
        None
    }
}

/// The generations that a JSON document holds: it is an array of them.
pub open spec fn generation_list_of(document: JsonValue) -> Option<Seq<ChatGeneration>> {
    match items_of(Some(document)) {
        Some(items) => generations_of(items),
        None => None,
    }
}

/// The prompts that a JSON document holds: it is an array of them.
pub open spec fn prompt_list_of(document: JsonValue) -> Option<Seq<ChatPrompt>> {
    match items_of(Some(document)) {
        Some(items) => prompts_of(items),
        None => None,
    }
}

/// The sessions of the bundle that a JSON document holds: it is a record
/// whose one field is an array of sessions.
pub open spec fn bundle_of(document: JsonValue) -> Option<Seq<ChatSession>> {
    match items_of(field_of(document, FIELD_ALL_COMPOSERS@, 0, 1)) {
        Some(items) => sessions_of(items),
        None => None,
    }
}

/// The member of an object under `key`.
pub fn find_member<'a>(members: &'a Vec<(String, JsonValue)>, key: &str) -> (r: Option<
    &'a JsonValue,
>)
    ensures
        match r {
            Some(value) => member(members@, key@) == Some(*value),
            None => member(members@, key@) is None,
        },
{
    let mut at: usize = 0;
    proof {
        assert(members@.skip(0) == members@);
    }
    while at < members.len()
        invariant
            at <= members.len(),
            member(members@, key@) == member(members@.skip(at as int), key@),
        decreases members.len() - at,
    {
        proof {
            assert(members@.skip(at as int).skip(1) == members@.skip(at + 1));
        }
        if same_text(members[at].0.as_str(), key) {
            return Some(&members[at].1);
        }
        at = at + 1;
    }
    None
}

/// The value of a record's field.
pub fn field<'a>(value: &'a JsonValue, name: &str, position: usize, count: usize) -> (r: Option<
    &'a JsonValue,
>)
    ensures
        match r {
            Some(found) => field_of(*value, name@, position as int, count as int) == Some(*found),
            None => field_of(*value, name@, position as int, count as int) is None,
        },
{
    match value {
        JsonValue::Object(members) => find_member(members, name),
        JsonValue::Array(items) => {
            if items.len() == count && position < count {
                Some(&items[position])
            } else {
                None
            }
        },
        _ => None,
    }
}

/// The string that a field of a record holds.
pub fn text_field(value: &JsonValue, name: &str, position: usize, count: usize) -> (r: Option<
    String,
>)
    ensures
        r == text_of(field_of(*value, name@, position as int, count as int)),
{
    match field(value, name, position, count) {
        Some(JsonValue::Text(text)) => Some(text.clone()),
        _ => None,
    }
}

/// The integer that a field of a record holds.
pub fn integer_field(value: &JsonValue, name: &str, position: usize, count: usize) -> (r: Option<
    i64,
>)
    ensures
        r == integer_of(field_of(*value, name@, position as int, count as int)),
{
    match field(value, name, position, count) {
        Some(JsonValue::Number(Some(number))) => Some(*number),
        _ => None,
    }
}

/// The time that a field of a record holds.
pub fn time_field(value: &JsonValue, name: &str, position: usize, count: usize) -> (r: Option<i64>)
    ensures
        r == time_of(field_of(*value, name@, position as int, count as int)),
{
    match integer_field(value, name, position, count) {
        Some(number) => if number >= 0 {
            Some(number)
        } else {
            None
        },
        None => None,
    }
}

/// The truth value that a field of a record holds.
pub fn bool_field(value: &JsonValue, name: &str, position: usize, count: usize) -> (r: Option<bool>)
    ensures
        r == bool_of(field_of(*value, name@, position as int, count as int)),
{
    match field(value, name, position, count) {
        Some(JsonValue::Bool(flag)) => Some(*flag),
        _ => None,
    }
}

/// The session that a JSON value is; `DecodeError` where it is none.
pub fn session_from_json(value: &JsonValue) -> (r: Result<ChatSession, ExtractError>)
    ensures
        match session_of(*value) {
            Some(session) => r == Ok::<ChatSession, ExtractError>(session),
            None => r == Err::<ChatSession, ExtractError>(ExtractError::DecodeError),
        },
        r matches Ok(session) ==> session.valid_times(),
{
    let session_type = text_field(value, FIELD_TYPE, 0, 8);
    let composer_id = text_field(value, FIELD_COMPOSER_ID, 1, 8);
    let name = text_field(value, FIELD_NAME, 2, 8);
    let last_updated_at = time_field(value, FIELD_LAST_UPDATED_AT, 3, 8);
    let created_at = time_field(value, FIELD_CREATED_AT, 4, 8);
    let unified_mode = text_field(value, FIELD_UNIFIED_MODE, 5, 8);
    let force_mode = text_field(value, FIELD_FORCE_MODE, 6, 8);
    let has_unread_messages = bool_field(value, FIELD_HAS_UNREAD_MESSAGES, 7, 8);
    match (
        session_type,
        composer_id,
        name,
        last_updated_at,
        created_at,
        unified_mode,
        force_mode,
        has_unread_messages,
    ) {
        (
            Some(session_type),
            Some(composer_id),
            Some(name),
            Some(last_updated_at),
            Some(created_at),
            Some(unified_mode),
            Some(force_mode),
            Some(has_unread_messages),
        ) => Ok(
            ChatSession {
                session_type,
                composer_id,
                name,
                last_updated_at,
                created_at,
                unified_mode,
                force_mode,
                has_unread_messages,
            },
        ),
        _ => Err(ExtractError::DecodeError),
    }
}

/// The generation that a JSON value is; `DecodeError` where it is none.
pub fn generation_from_json(value: &JsonValue) -> (r: Result<ChatGeneration, ExtractError>)
    ensures
        match generation_of(*value) {
            Some(generation) => r == Ok::<ChatGeneration, ExtractError>(generation),
            None => r == Err::<ChatGeneration, ExtractError>(ExtractError::DecodeError),
        },
        r matches Ok(generation) ==> generation.valid_time(),
{
    let unix_ms = time_field(value, FIELD_UNIX_MS, 0, 4);
    let generation_uuid = text_field(value, FIELD_GENERATION_UUID, 1, 4);
    let generation_type = text_field(value, FIELD_TYPE, 2, 4);
    let text_description = text_field(value, FIELD_TEXT_DESCRIPTION, 3, 4);
    match (unix_ms, generation_uuid, generation_type, text_description) {
        (Some(unix_ms), Some(generation_uuid), Some(generation_type), Some(text_description)) => Ok(
            ChatGeneration { unix_ms, generation_uuid, generation_type, text_description },
        ),
        _ => Err(ExtractError::DecodeError),
    }
}

/// The prompt that a JSON value is; `DecodeError` where it is none.
pub fn prompt_from_json(value: &JsonValue) -> (r: Result<ChatPrompt, ExtractError>)
    ensures
        match prompt_of(*value) {
            Some(prompt) => r == Ok::<ChatPrompt, ExtractError>(prompt),
            None => r == Err::<ChatPrompt, ExtractError>(ExtractError::DecodeError),
        },
{
    let text = text_field(value, FIELD_TEXT, 0, 2);
    let command_type = integer_field(value, FIELD_COMMAND_TYPE, 1, 2);
    match (text, command_type) {
        (Some(text), Some(code)) => {
            if -0x8000_0000 <= code && code <= 0x7fff_ffff {
                Ok(ChatPrompt { text, command_type: code as i32 })
            } else {
                Err(ExtractError::DecodeError)
            }
        },
        _ => Err(ExtractError::DecodeError),
    }
}

/// The sessions that the items of an array are; `DecodeError` where an item
/// is none.
pub fn sessions_from_items(items: &Vec<JsonValue>) -> (r: Result<Vec<ChatSession>, ExtractError>)
    ensures
        match sessions_of(items@) {
            Some(sessions) => r matches Ok(found) && found@ == sessions,
            None => r == Err::<Vec<ChatSession>, ExtractError>(ExtractError::DecodeError),
        },
{
    let mut found: Vec<ChatSession> = Vec::new();
    let mut at: usize = 0;
    while at < items.len()
        invariant
            at <= items.len(),
            found@.len() == at,
            forall|k: int| 0 <= k < at ==> session_of(#[trigger] items@[k]) == Some(found@[k]),
        decreases items.len() - at,
    {
        match session_from_json(&items[at]) {
            Ok(session) => found.push(session),
            Err(_) => {
                return Err(ExtractError::DecodeError);
            },
        }
        at = at + 1;
    }
    proof {
        assert(found@ =~= Seq::new(items@.len(), |k: int| session_of(items@[k])->0));
    }
    Ok(found)
}

/// The bundle that a JSON document holds; `DecodeError` where it holds none.
pub fn bundle_from_json(document: &JsonValue) -> (r: Result<ComposerData, ExtractError>)
    ensures
        match bundle_of(*document) {
            Some(sessions) => r matches Ok(bundle) && bundle.all_composers@ == sessions,
            None => r == Err::<ComposerData, ExtractError>(ExtractError::DecodeError),
        },
{
    match field(document, FIELD_ALL_COMPOSERS, 0, 1) {
        Some(JsonValue::Array(items)) => match sessions_from_items(items) {
            Ok(all_composers) => Ok(ComposerData { all_composers }),
            Err(_) => Err(ExtractError::DecodeError),
        },
        _ => Err(ExtractError::DecodeError),
    }
}

/// The generations that the items of an array are; `DecodeError` where an
/// item is none.
pub fn generations_from_items(items: &Vec<JsonValue>) -> (r: Result<
    Vec<ChatGeneration>,
    ExtractError,
>)
    ensures
        match generations_of(items@) {
            Some(generations) => r matches Ok(found) && found@ == generations,
            None => r == Err::<Vec<ChatGeneration>, ExtractError>(ExtractError::DecodeError),
        },
{
    let mut found: Vec<ChatGeneration> = Vec::new();
    let mut at: usize = 0;
    while at < items.len()
        invariant
            at <= items.len(),
            found@.len() == at,
            forall|k: int| 0 <= k < at ==> generation_of(#[trigger] items@[k]) == Some(found@[k]),
        decreases items.len() - at,
    {
        match generation_from_json(&items[at]) {
            Ok(generation) => found.push(generation),
            Err(_) => {
                return Err(ExtractError::DecodeError);
            },
        }
        at = at + 1;
    }
    proof {
        assert(found@ =~= Seq::new(items@.len(), |k: int| generation_of(items@[k])->0));
    }
    Ok(found)
}

/// The prompts that the items of an array are; `DecodeError` where an item
/// is none.
pub fn prompts_from_items(items: &Vec<JsonValue>) -> (r: Result<Vec<ChatPrompt>, ExtractError>)
    ensures
        match prompts_of(items@) {
            Some(prompts) => r matches Ok(found) && found@ == prompts,
            None => r == Err::<Vec<ChatPrompt>, ExtractError>(ExtractError::DecodeError),
        },
{
    let mut found: Vec<ChatPrompt> = Vec::new();
    let mut at: usize = 0;
    while at < items.len()
        invariant
            at <= items.len(),
            found@.len() == at,
            forall|k: int| 0 <= k < at ==> prompt_of(#[trigger] items@[k]) == Some(found@[k]),
        decreases items.len() - at,
    {
        match prompt_from_json(&items[at]) {
            Ok(prompt) => found.push(prompt),
            Err(_) => {
                return Err(ExtractError::DecodeError);
            },
        }
        at = at + 1;
    }
    proof {
        assert(found@ =~= Seq::new(items@.len(), |k: int| prompt_of(items@[k])->0));
    }
    Ok(found)
}

/// The generations that a JSON document holds; `DecodeError` where it is no
/// array of generations.
pub fn generations_from_json(document: &JsonValue) -> (r: Result<
    Vec<ChatGeneration>,
    ExtractError,
>)
    ensures
        match generation_list_of(*document) {
            Some(generations) => r matches Ok(found) && found@ == generations,
            None => r == Err::<Vec<ChatGeneration>, ExtractError>(ExtractError::DecodeError),
        },
{
    match document {
        JsonValue::Array(items) => generations_from_items(items),
        _ => Err(ExtractError::DecodeError),
    }
}

/// The prompts that a JSON document holds; `DecodeError` where it is no
/// array of prompts.
pub fn prompts_from_json(document: &JsonValue) -> (r: Result<Vec<ChatPrompt>, ExtractError>)
    ensures
        match prompt_list_of(*document) {
            Some(prompts) => r matches Ok(found) && found@ == prompts,
            None => r == Err::<Vec<ChatPrompt>, ExtractError>(ExtractError::DecodeError),
        },
{
    match document {
        JsonValue::Array(items) => prompts_from_items(items),
        _ => Err(ExtractError::DecodeError),
    }
}

/// The times of every record that is read are milliseconds since the
/// epoch: none is negative.
pub proof fn lemma_decoded_times_are_valid(document: JsonValue)
    ensures
        bundle_of(document) matches Some(sessions) ==> forall|k: int|
            0 <= k < sessions.len() ==> (#[trigger] sessions[k]).valid_times(),
        generation_list_of(document) matches Some(generations) ==> forall|k: int|
            0 <= k < generations.len() ==> (#[trigger] generations[k]).valid_time(),
{
    if let Some(sessions) = bundle_of(document) {
        let items = items_of(field_of(document, FIELD_ALL_COMPOSERS@, 0, 1))->0;
        assert forall|k: int| 0 <= k < sessions.len() implies (#[trigger] sessions[k]).valid_times() by {
            assert(session_of(items[k]) is Some);
        }
    }
    if let Some(generations) = generation_list_of(document) {
        let items = items_of(Some(document))->0;
        assert forall|k: int| 0 <= k < generations.len() implies (
        #[trigger] generations[k]).valid_time() by {
            assert(generation_of(items[k]) is Some);
        }
    }
}

} // verus!
