//! Per-message processing for the broker session: decode a payload, convert
//! it, wrap it for dispatch. Every function here is total — a malformed
//! payload yields an error value to be logged and skipped, never a failure
//! of the session that calls it.

use vstd::prelude::*;
use crate::clock::now_millis;
use crate::json::{lossy_text, utf8_lossy};
use crate::decode::{decode_spec, map_json_to_mqtt_source_change, DecodeError};
use crate::json::json_parse;
use crate::model::{
    convert_mqtt_to_source_change_at, convert_spec, MQTTSourceChange, SourceChangeEvent,
    SourceChangeEventS,
};

verus! {

/// What handling one payload comes to, given the clock reading `now`: the
/// dispatchable event for a payload that decodes, and the decode error —
/// never anything fatal — for one that does not.
pub open spec fn payload_spec(payload: Seq<char>, source_id: Seq<char>, now: u64) -> Result<
    SourceChangeEventS,
    DecodeError,
> {
    match json_parse(payload) {
        Option::None => Result::Err(DecodeError::Malformed),
        Option::Some(m) => match decode_spec(m) {
            Result::Err(e) => Result::Err(e),
            Result::Ok(c) => Result::Ok(
                SourceChangeEventS {
                    source_id: source_id,
                    change: convert_spec(c, source_id, now),
                    timestamp: now,
                },
            ),
        },
    }
}

/// A decoded change wrapped for dispatch: tagged with the adapter's source
/// id and stamped with the given emission time, which also stands in for any
/// missing wire timestamp.
pub fn process_event_at(source_id: &str, event: &MQTTSourceChange, now_ms: u64) -> (r:
    SourceChangeEvent)
    ensures
        r.deep_view() == (SourceChangeEventS {
            source_id: source_id@,
            change: convert_spec(event.deep_view(), source_id@, now_ms),
            timestamp: now_ms,
        }),
{
    let change = convert_mqtt_to_source_change_at(event, source_id, now_ms).unwrap();
    SourceChangeEvent { source_id: source_id.to_owned(), change, timestamp: now_ms }
}

/// One payload through the whole pipeline — decode, convert, wrap — with the
/// clock reading supplied by the caller; deterministic, and exactly what
/// `payload_spec` says.
pub fn handle_payload_at(payload: &str, source_id: &str, now_ms: u64) -> (r: Result<
    SourceChangeEvent,
    DecodeError,
>)
    ensures
        match payload_spec(payload@, source_id@, now_ms) {
            Ok(evs) => r matches Ok(ev) && ev.deep_view() == evs,
            Err(e) => r == Result::<SourceChangeEvent, DecodeError>::Err(e),
        },
{
    match map_json_to_mqtt_source_change(payload) {
        Err(e) => Err(e),
        Ok(change) => Ok(process_event_at(source_id, &change, now_ms)),
    }
}

/// One payload through the whole pipeline, reading the clock once for both
/// the emission timestamp and any missing wire timestamp. Total: whatever
/// the payload holds, the session goes on to the next message.
pub fn handle_payload(payload: &str, source_id: &str) -> (r: Result<
    SourceChangeEvent,
    DecodeError,
>)
    ensures
        exists|now: u64|
            match (#[trigger] payload_spec(payload@, source_id@, now)) {
                Ok(evs) => r matches Ok(ev) && ev.deep_view() == evs,
                Err(e) => r == Result::<SourceChangeEvent, DecodeError>::Err(e),
            },
{
    let now = now_millis();
    let r = handle_payload_at(payload, source_id, now);
    proof {
        assert(match payload_spec(payload@, source_id@, now) {
            Ok(evs) => r matches Ok(ev) && ev.deep_view() == evs,
            Err(e) => r == Result::<SourceChangeEvent, DecodeError>::Err(e),
        });
    }
    r
}

/// One raw payload through the whole pipeline: the bytes are read as UTF-8
/// text the way the broker layer hands them over — ill-formed sequences
/// replaced, never fatal — and the text is handled as `handle_payload` does.
pub fn handle_payload_bytes(payload: &[u8], source_id: &str) -> (r: Result<
    SourceChangeEvent,
    DecodeError,
>)
    ensures
        exists|now: u64|
            match (#[trigger] payload_spec(lossy_text(payload@), source_id@, now)) {
                Ok(evs) => r matches Ok(ev) && ev.deep_view() == evs,
                Err(e) => r == Result::<SourceChangeEvent, DecodeError>::Err(e),
            },
{
    let text = utf8_lossy(payload);
    let now = now_millis();
    let r = handle_payload_at(text.as_str(), source_id, now);
    proof {
        assert(match payload_spec(lossy_text(payload@), source_id@, now) {
            Ok(evs) => r matches Ok(ev) && ev.deep_view() == evs,
            Err(e) => r == Result::<SourceChangeEvent, DecodeError>::Err(e),
        });
    }
    r
}

} // verus!
