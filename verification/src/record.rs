//! Webhook deliveries: the payload as it arrives, and the record as it is kept.

use crate::json::{
    clone_object, decode_object, decoded_fields, insert_field, json_string, json_text,
    object_fields, pretty_print, pretty_text, remove_field, text_of, text_value, Fields,
    JsonFault, JsonObject,
};
use vstd::prelude::*;

verus! {

/// Why a request body is not accepted as a delivery.
#[derive(Clone, Copy, Debug, PartialEq, Eq, Structural)]
pub enum DecodeError {
    /// The body is not syntactically valid JSON.
    Syntax,
    /// The body is valid JSON, but not an object.
    Data,
}

/// A delivery as it arrives: a JSON object of any shape. A `timestamp`
/// member that is a string is the delivery's own timestamp; the object need
/// not have one.
#[derive(Debug)]
pub struct WebhookPayload {
    /// The text of the `timestamp` member, if the object has one that is a
    /// string.
    pub timestamp: Option<String>,
    /// Every other member, untouched.
    pub extra: JsonObject,
}

/// A delivery as it is kept: it always has a time of receipt.
#[derive(Debug)]
pub struct WebhookRecord {
    /// The payload's own timestamp, or the time of ingestion if it had none.
    pub received_at: String,
    /// Every other member of the payload, untouched.
    pub body: JsonObject,
}

/// The mathematical content of a [`WebhookPayload`].
pub struct PayloadView {
    pub timestamp: Option<Seq<char>>,
    pub extra: Fields,
}

/// The mathematical content of a [`WebhookRecord`].
pub struct RecordView {
    pub received_at: Seq<char>,
    pub body: Fields,
}

impl View for WebhookPayload {
    type V = PayloadView;

    open spec fn view(&self) -> PayloadView {
        PayloadView {
            timestamp: self.timestamp.deep_view(),
            extra: object_fields(self.extra),
        }
    }
}

impl View for WebhookRecord {
    type V = RecordView;

    open spec fn view(&self) -> RecordView {
        RecordView { received_at: self.received_at@, body: object_fields(self.body) }
    }
}

/// The views of a sequence of records, in the same order.
pub open spec fn spec_views(records: Seq<WebhookRecord>) -> Seq<RecordView> {
    records.map_values(|record: WebhookRecord| record@)
}

/// The key of the member that carries a delivery's timestamp.
pub open spec fn timestamp_key() -> Seq<char> {
    "timestamp"@
}

/// How a decoding fault is reported: only a fault in the data's shape is a
/// data error, every other fault is a syntax error.
pub open spec fn spec_decode_error(fault: JsonFault) -> DecodeError {
    match fault {
        JsonFault::Data => DecodeError::Data,
        _ => DecodeError::Syntax,
    }
}

/// The timestamp that an object with the members `fields` supplies: the
/// text of its `timestamp` member, if it has one and it is a string.
pub open spec fn spec_supplied_timestamp(fields: Fields) -> Option<Seq<char>> {
    if fields.contains_key(timestamp_key()) {
        json_text(fields[timestamp_key()])
    } else {
        None
    }
}

/// The payload that an object with the members `fields` stands for. Every
/// object stands for one: a timestamp that it supplies is split off, and
/// all other members are kept as they are.
pub open spec fn spec_payload(fields: Fields) -> PayloadView {
    match spec_supplied_timestamp(fields) {
        Some(text) => PayloadView { timestamp: Some(text), extra: fields.remove(timestamp_key()) },
        None => PayloadView { timestamp: None, extra: fields },
    }
}

/// The payload that a request body stands for. A body is refused only if it
/// cannot be decoded as a JSON object.
pub open spec fn spec_decode(body: Seq<u8>) -> Result<PayloadView, DecodeError> {
    match decoded_fields(body) {
        Ok(fields) => Ok(spec_payload(fields)),
        Err(fault) => Err(spec_decode_error(fault)),
    }
}

/// The record that a payload becomes when it is ingested at the time `now`:
/// a supplied timestamp is kept, a missing one is replaced by `now`.
pub open spec fn spec_stamp(payload: PayloadView, now: Seq<char>) -> RecordView {
    RecordView {
        received_at: match payload.timestamp {
            Some(text) => text,
            None => now,
        },
        body: payload.extra,
    }
}

/// The members of the JSON object that represents a record: its body, and
/// its time of receipt under the timestamp key unless the body has a member
/// of its own under that key.
pub open spec fn spec_record_fields(record: RecordView) -> Fields {
    if record.body.contains_key(timestamp_key()) {
        record.body
    } else {
        record.body.insert(timestamp_key(), json_string(record.received_at))
    }
}

/// The JSON text that represents a record; empty where it cannot be
/// serialized.
pub open spec fn spec_record_json(record: RecordView) -> Seq<char> {
    match pretty_text(spec_record_fields(record)) {
        Some(text) => text,
        None => Seq::empty(),
    }
}

/// Reports a decoding fault as a [`DecodeError`].
pub fn decode_error(fault: JsonFault) -> (e: DecodeError)
    ensures
        e == spec_decode_error(fault),
{
    match fault {
        JsonFault::Data => DecodeError::Data,
        _ => DecodeError::Syntax,
    }
}

impl WebhookPayload {
    /// Reads a JSON object as a payload. A `timestamp` member that is a
    /// string is split off as the delivery's timestamp; any other member,
    /// a `timestamp` that is not a string included, stays where it is.
    pub fn from_object(object: JsonObject) -> (payload: WebhookPayload)
        ensures
            payload@ == spec_payload(object_fields(object)),
            payload.timestamp matches Some(text) ==> object_fields(object)[timestamp_key()]
                == json_string(text@),
    {
        let mut extra = object;
        match remove_field(&mut extra, "timestamp") {
            None => {
                assert(object_fields(extra) =~= object_fields(object));
                WebhookPayload { timestamp: None, extra }
            },
            Some(value) => match text_of(&value) {
                Some(text) => WebhookPayload { timestamp: Some(text), extra },
                None => {
                    insert_field(&mut extra, "timestamp".to_string(), value);
                    assert(object_fields(extra) =~= object_fields(object));
                    WebhookPayload { timestamp: None, extra }
                },
            },
        }
    }

    /// Decodes a request body. It is accepted if and only if it is one JSON
    /// object, whatever its members.
    pub fn decode(body: &[u8]) -> (r: Result<WebhookPayload, DecodeError>)
        ensures
            match r {
                Ok(payload) => spec_decode(body@) == Ok::<PayloadView, DecodeError>(payload@),
                Err(e) => spec_decode(body@) == Err::<PayloadView, DecodeError>(e),
            },
    {
        match decode_object(body) {
            Ok(object) => Ok(WebhookPayload::from_object(object)),
            Err(fault) => Err(decode_error(fault)),
        }
    }

    /// Turns the payload into the record to keep, given the current time.
    pub fn into_record(self, now: String) -> (record: WebhookRecord)
        ensures
            record@ == spec_stamp(self@, now@),
    {
        let WebhookPayload { timestamp, extra } = self;
        match timestamp {
            Some(text) => WebhookRecord { received_at: text, body: extra },
            None => WebhookRecord { received_at: now, body: extra },
        }
    }
}

impl WebhookRecord {
    /// The record as a JSON object: the body's members, and the time of
    /// receipt under the key `timestamp` unless the body has a member of its
    /// own under that key.
    pub fn to_object(&self) -> (object: JsonObject)
        ensures
            object_fields(object) == spec_record_fields(self@),
            !self@.body.contains_key(timestamp_key()) ==> json_text(
                object_fields(object)[timestamp_key()],
            ) == Some(self@.received_at),
    {
        let mut object = clone_object(&self.body);
        match remove_field(&mut object, "timestamp") {
            Some(own) => {
                insert_field(&mut object, "timestamp".to_string(), own);
            },
            None => {
                insert_field(
                    &mut object,
                    "timestamp".to_string(),
                    text_value(self.received_at.clone()),
                );
            },
        }
        assert(object_fields(object) =~= spec_record_fields(self@));
        object
    }

    /// The record as pretty-printed JSON text, empty where the object cannot
    /// be serialized.
    pub fn to_json(&self) -> (json: String)
        ensures
            json@ == spec_record_json(self@),
    {
        match pretty_print(&self.to_object()) {
            Some(text) => text,
            None => String::new(),
        }
    }
}

impl Clone for WebhookRecord {
    fn clone(&self) -> (copy: Self)
        ensures
            copy@ == self@,
    {
        WebhookRecord { received_at: self.received_at.clone(), body: clone_object(&self.body) }
    }
}

/// A delivery's time of receipt: the timestamp that the delivery supplies is
/// kept unchanged, and a delivery that supplies none receives the time of
/// ingestion.
pub proof fn lemma_timestamp_defaulting(fields: Fields, now: Seq<char>)
    ensures
        spec_stamp(spec_payload(fields), now).received_at == match spec_supplied_timestamp(
            fields,
        ) {
            Some(text) => text,
            None => now,
        },
{
}

/// A record's JSON object always has a member under the timestamp key: the
/// supplied timestamp as a JSON string, or the time of ingestion if the
/// delivery had no such member, or the delivery's own member if that was
/// not a string.
pub proof fn lemma_timestamp_listed(fields: Fields, now: Seq<char>)
    ensures
        ({
            let listed = spec_record_fields(spec_stamp(spec_payload(fields), now));
            &&& listed.contains_key(timestamp_key())
            &&& listed[timestamp_key()] == match spec_supplied_timestamp(fields) {
                Some(text) => json_string(text),
                None => if fields.contains_key(timestamp_key()) {
                    fields[timestamp_key()]
                } else {
                    json_string(now)
                },
            }
        }),
{
}

/// A delivery may have any members, and each of them comes back unchanged.
/// The record's body and its JSON object hold every member but a supplied
/// timestamp with the value that the delivery has for it, and no member
/// that the delivery lacks but the timestamp.
pub proof fn lemma_members_preserved(fields: Fields, now: Seq<char>, key: Seq<char>)
    requires
        key != timestamp_key(),
    ensures
        ({
            let record = spec_stamp(spec_payload(fields), now);
            &&& record.body.contains_key(key) == fields.contains_key(key)
            &&& spec_record_fields(record).contains_key(key) == fields.contains_key(key)
            &&& fields.contains_key(key) ==> record.body[key] == fields[key]
            &&& fields.contains_key(key) ==> spec_record_fields(record)[key] == fields[key]
        }),
{
}

/// A delivery that has a `timestamp` member is listed exactly as it came:
/// the record's JSON object has the delivery's members and no others. For a
/// timestamp that is a string this rests on the value being the JSON string
/// of its text, which [`WebhookPayload::from_object`] establishes.
pub proof fn lemma_round_trip(fields: Fields, now: Seq<char>)
    requires
        fields.contains_key(timestamp_key()),
    ensures
        (spec_supplied_timestamp(fields) matches Some(text) ==> fields[timestamp_key()]
            == json_string(text)) ==> spec_record_fields(spec_stamp(spec_payload(fields), now))
            == fields,
{
    let listed = spec_record_fields(spec_stamp(spec_payload(fields), now));
    if spec_supplied_timestamp(fields) matches Some(text) ==> fields[timestamp_key()]
        == json_string(text) {
        assert(listed =~= fields);
    }
}

/// A delivery that has no `timestamp` member is listed as it came, with the
/// time of ingestion added under that key.
pub proof fn lemma_round_trip_stamped(fields: Fields, now: Seq<char>)
    requires
        !fields.contains_key(timestamp_key()),
    ensures
        spec_record_fields(spec_stamp(spec_payload(fields), now)) == fields.insert(
            timestamp_key(),
            json_string(now),
        ),
{
}

/// Every JSON object is accepted, whatever its members: a body is refused
/// only where it cannot be decoded as an object.
pub proof fn lemma_any_shape_accepted(body: Seq<u8>)
    ensures
        spec_decode(body) is Err <==> decoded_fields(body) is Err,
{
}

} // verus!
