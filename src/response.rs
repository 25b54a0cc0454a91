//! What the service answers: the success payload, the per-recipient results,
//! the classified errors, and how a JSON document is read as a payload.
use vstd::prelude::*;
use vstd::string::*;
use crate::json::{JsonValue, opt_view};

verus! {

/// Why a message could not be delivered.
#[derive(Debug, PartialEq)]
pub enum GcmError {
    /// The API key was refused.
    Unauthorized,
    /// The service refused the message; the detail says why.
    InvalidMessage(String),
    /// The service failed, or it could not be reached.
    ServerError,
    /// A successful answer whose body is not a response payload.
    InvalidResponseBody,
}

impl GcmError {
    /// The short name of the error kind.
    pub open spec fn spec_description(&self) -> Seq<char> {
        match self {
            GcmError::Unauthorized => "UnauthorizedError"@,
            GcmError::InvalidMessage(_) => "InvalidMessage"@,
            GcmError::ServerError => "ServerError"@,
            GcmError::InvalidResponseBody => "InvalidJsonBody"@,
        }
    }

    /// The error as a reader sees it: its kind, and the detail where it has one.
    pub open spec fn spec_text(&self) -> Seq<char> {
        match self {
            GcmError::InvalidMessage(m) => "InvalidMessage: "@ + m@,
            _ => self.spec_description(),
        }
    }

    /// The short name of the error kind.
    pub fn description(&self) -> (r: &'static str)
        ensures
            r@ == self.spec_description(),
    {
        match self {
            GcmError::Unauthorized => "UnauthorizedError",
            GcmError::InvalidMessage(_) => "InvalidMessage",
            GcmError::ServerError => "ServerError",
            GcmError::InvalidResponseBody => "InvalidJsonBody",
        }
    }

    /// The error as a reader sees it: its kind, and the detail where it has one.
    pub fn to_string(&self) -> (r: String)
        ensures
            r@ == self.spec_text(),
    {
        let mut r = String::new();
        match self {
            GcmError::InvalidMessage(m) => {
                r.append("InvalidMessage: ");
                r.append(m.as_str());
            },
            _ => {
                r.append(self.description());
            },
        }
        assert(r@ =~= self.spec_text());
        r
    }
}

/// The outcome for one recipient of a message.
#[derive(Debug)]
pub struct MessageResult {
    pub message_id: Option<u64>,
    pub registration_id: Option<u64>,
    pub error: Option<String>,
}

/// The successful answer of the service.
#[derive(Debug)]
pub struct GcmResponse {
    pub message_id: Option<u64>,
    pub error: Option<String>,
    pub multicast_id: Option<i64>,
    pub success: Option<u64>,
    pub failure: Option<u64>,
    pub canonical_ids: Option<u64>,
    pub results: Option<Vec<MessageResult>>,
}

/// The content of a `MessageResult`.
pub struct MessageResultView {
    pub message_id: Option<u64>,
    pub registration_id: Option<u64>,
    pub error: Option<Seq<char>>,
}

/// The content of a `GcmResponse`.
pub struct GcmResponseView {
    pub message_id: Option<u64>,
    pub error: Option<Seq<char>>,
    pub multicast_id: Option<i64>,
    pub success: Option<u64>,
    pub failure: Option<u64>,
    pub canonical_ids: Option<u64>,
    pub results: Option<Seq<MessageResultView>>,
}

impl View for MessageResult {
    type V = MessageResultView;

    open spec fn view(&self) -> MessageResultView {
        MessageResultView {
            message_id: self.message_id,
            registration_id: self.registration_id,
            error: opt_view(self.error),
        }
    }
}

impl View for GcmResponse {
    type V = GcmResponseView;

    open spec fn view(&self) -> GcmResponseView {
        GcmResponseView {
            message_id: self.message_id,
            error: opt_view(self.error),
            multicast_id: self.multicast_id,
            success: self.success,
            failure: self.failure,
            canonical_ids: self.canonical_ids,
            results: match self.results {
                Some(v) => Some(v@.map_values(|r: MessageResult| r@)),
                None => None,
            },
        }
    }
}

/// The value of the first member of an object that is named `key`.
pub open spec fn member(ms: Seq<(String, JsonValue)>, key: Seq<char>) -> Option<JsonValue>
    decreases ms.len(),
{
    if ms.len() == 0 {
        None
    } else if ms[0].0@ == key {
        Some(ms[0].1)
    } else {
        member(ms.drop_first(), key)
    }
}

/// An optional unsigned field: absent or `null` is `Some(None)`, a
/// non-negative integer in range is `Some(Some(n))`, anything else is a
/// mismatch (`None`).
pub open spec fn field_u64(v: Option<JsonValue>) -> Option<Option<u64>> {
    match v {
        None => Some(None),
        Some(JsonValue::Null) => Some(None),
        Some(JsonValue::Number(n)) => match n.unsigned {
            Some(u) => Some(Some(u)),
            None => None,
        },
        _ => None,
    }
}

/// An optional signed field, read as `field_u64` reads an unsigned one.
pub open spec fn field_i64(v: Option<JsonValue>) -> Option<Option<i64>> {
    match v {
        None => Some(None),
        Some(JsonValue::Null) => Some(None),
        Some(JsonValue::Number(n)) => match n.signed {
            Some(i) => Some(Some(i)),
            None => None,
        },
        _ => None,
    }
}

/// An optional string field, read as `field_u64` reads a number.
pub open spec fn field_text(v: Option<JsonValue>) -> Option<Option<Seq<char>>> {
    match v {
        None => Some(None),
        Some(JsonValue::Null) => Some(None),
        Some(JsonValue::Str(s)) => Some(Some(s@)),
        _ => None,
    }
}

/// A message id of a result: a non-negative integer in range, else absent,
/// whatever the field holds.
pub open spec fn lenient_u64(v: Option<JsonValue>) -> Option<u64> {
    match v {
        Some(JsonValue::Number(n)) => n.unsigned,
        _ => None,
    }
}

/// The result that an element of `results` gives, or `None` where it is
/// not one.
pub open spec fn result_of(j: JsonValue) -> Option<MessageResultView> {
    match j {
        JsonValue::Object(ms) => {
            let registration_id = field_u64(member(ms@, "registration_id"@));
            let error = field_text(member(ms@, "error"@));
            if registration_id is Some && error is Some {
                Some(
                    MessageResultView {
                        message_id: lenient_u64(member(ms@, "message_id"@)),
                        registration_id: registration_id->0,
                        error: error->0,
                    },
                )
            } else {
                None
            }
        },
        _ => None,
    }
}

/// The `results` field: absent or `null`, or an array of results.
pub open spec fn field_results(v: Option<JsonValue>) -> Option<Option<Seq<MessageResultView>>> {
    match v {
        None => Some(None),
        Some(JsonValue::Null) => Some(None),
        Some(JsonValue::Array(items)) => if forall|i: int|
            0 <= i < items@.len() ==> (#[trigger] result_of(items@[i])) is Some {
            Some(Some(items@.map_values(|x: JsonValue| result_of(x)->0)))
        } else {
            None
        },
        _ => None,
    }
}

/// The response payload that a JSON document gives, or `None` where it is
/// not one: an object whose known members have the types of the payload.
/// Other members are ignored.
pub open spec fn response_of(j: JsonValue) -> Option<GcmResponseView> {
    match j {
        JsonValue::Object(ms) => {
            let message_id = field_u64(member(ms@, "message_id"@));
            let error = field_text(member(ms@, "error"@));
            let multicast_id = field_i64(member(ms@, "multicast_id"@));
            let success = field_u64(member(ms@, "success"@));
            let failure = field_u64(member(ms@, "failure"@));
            let canonical_ids = field_u64(member(ms@, "canonical_ids"@));
            let results = field_results(member(ms@, "results"@));
            if message_id is Some && error is Some && multicast_id is Some && success is Some
                && failure is Some && canonical_ids is Some && results is Some {
                Some(
                    GcmResponseView {
                        message_id: message_id->0,
                        error: error->0,
                        multicast_id: multicast_id->0,
                        success: success->0,
                        failure: failure->0,
                        canonical_ids: canonical_ids->0,
                        results: results->0,
                    },
                )
            } else {
                None
            }
        },
        _ => None,
    }
}

/// Where the first member named `key` stands.
fn find_member(ms: &Vec<(String, JsonValue)>, key: &str) -> (r: Option<usize>)
    ensures
        match r {
            Some(i) => i < ms@.len() && member(ms@, key@) == Some(ms@[i as int].1),
            None => member(ms@, key@) is None,
        },
{
    let wanted = key.to_owned();
    let mut i: usize = 0;
    assert(ms@.subrange(0, ms@.len() as int) =~= ms@);
    while i < ms.len()
        invariant
            i <= ms@.len(),
            wanted@ == key@,
            member(ms@, key@) == member(ms@.subrange(i as int, ms@.len() as int), key@),
        decreases ms.len() - i,
    {
        assert(ms@.subrange(i as int, ms@.len() as int).drop_first() =~= ms@.subrange(
            i as int + 1,
            ms@.len() as int,
        ));
        if ms[i].0 == wanted {
            return Some(i);
        }
        i = i + 1;
    }
    None
}

fn read_u64(ms: &Vec<(String, JsonValue)>, key: &str) -> (r: Option<Option<u64>>)
    ensures
        r == field_u64(member(ms@, key@)),
{
    match find_member(ms, key) {
        None => Some(None),
        Some(i) => match &ms[i].1 {
            JsonValue::Null => Some(None),
            JsonValue::Number(n) => match n.unsigned {
                Some(u) => Some(Some(u)),
                None => None,
            },
            _ => None,
        },
    }
}

fn read_i64(ms: &Vec<(String, JsonValue)>, key: &str) -> (r: Option<Option<i64>>)
    ensures
        r == field_i64(member(ms@, key@)),
{
    match find_member(ms, key) {
        None => Some(None),
        Some(i) => match &ms[i].1 {
            JsonValue::Null => Some(None),
            JsonValue::Number(n) => match n.signed {
                Some(i) => Some(Some(i)),
                None => None,
            },
            _ => None,
        },
    }
}

fn read_text(ms: &Vec<(String, JsonValue)>, key: &str) -> (r: Option<Option<String>>)
    ensures
        match r {
            Some(s) => field_text(member(ms@, key@)) == Some(opt_view(s)),
            None => field_text(member(ms@, key@)) is None,
        },
{
    match find_member(ms, key) {
        None => Some(None),
        Some(i) => match &ms[i].1 {
            JsonValue::Null => Some(None),
            JsonValue::Str(s) => Some(Some(s.as_str().to_owned())),
            _ => None,
        },
    }
}

fn read_lenient_u64(ms: &Vec<(String, JsonValue)>, key: &str) -> (r: Option<u64>)
    ensures
        r == lenient_u64(member(ms@, key@)),
{
    match find_member(ms, key) {
        None => None,
        Some(i) => match &ms[i].1 {
            JsonValue::Number(n) => n.unsigned,
            _ => None,
        },
    }
}

impl MessageResult {
    /// Reads one element of `results`. Its `message_id` is absent unless it
    /// holds an unsigned integer: a placeholder in its place is no error.
    pub fn from_json(j: &JsonValue) -> (r: Option<MessageResult>)
        ensures
            match r {
                Some(x) => result_of(*j) == Some(x@),
                None => result_of(*j) is None,
            },
    {
        match j {
            JsonValue::Object(ms) => {
                let registration_id = read_u64(ms, "registration_id");
                let error = read_text(ms, "error");
                match (registration_id, error) {
                    (Some(registration_id), Some(error)) => Some(
                        MessageResult {
                            message_id: read_lenient_u64(ms, "message_id"),
                            registration_id,
                            error,
                        },
                    ),
                    _ => None,
                }
            },
            _ => None,
        }
    }
}

fn read_results(ms: &Vec<(String, JsonValue)>) -> (r: Option<Option<Vec<MessageResult>>>)
    ensures
        match r {
            Some(Some(v)) => field_results(member(ms@, "results"@)) == Some(
                Some(v@.map_values(|x: MessageResult| x@)),
            ),
            Some(None) => field_results(member(ms@, "results"@)) == Some(
                None::<Seq<MessageResultView>>,
            ),
            None => field_results(member(ms@, "results"@)) is None,
        },
{
    match find_member(ms, "results") {
        None => Some(None),
        Some(k) => match &ms[k].1 {
            JsonValue::Null => Some(None),
            JsonValue::Array(items) => {
                let mut out: Vec<MessageResult> = Vec::new();
                let mut i: usize = 0;
                while i < items.len()
                    invariant
                        member(ms@, "results"@) == Some(JsonValue::Array(*items)),
                        i <= items@.len(),
                        out@.len() == i,
                        forall|t: int| 0 <= t < i ==> result_of(items@[t]) == Some(#[trigger] out@[t]@),
                    decreases items.len() - i,
                {
                    match MessageResult::from_json(&items[i]) {
                        Some(x) => out.push(x),
                        None => {
                            assert(result_of(items@[i as int]) is None);
                            return None;
                        },
                    }
                    i = i + 1;
                }
                assert forall|t: int| 0 <= t < items@.len() implies (#[trigger] result_of(
                    items@[t],
                )) is Some by {
                    assert(result_of(items@[t]) == Some(out@[t]@));
                }
                assert(out@.map_values(|x: MessageResult| x@) =~= items@.map_values(
                    |x: JsonValue| result_of(x)->0,
                ));
                Some(Some(out))
            },
            _ => None,
        },
    }
}

impl GcmResponse {
    /// Reads a JSON document as the response payload. Members that the
    /// payload does not know are ignored; a known member of another type, or
    /// a document that is no object, is `InvalidResponseBody`.
    pub fn from_json(j: &JsonValue) -> (r: Result<GcmResponse, GcmError>)
        ensures
            match r {
                Ok(x) => response_of(*j) == Some(x@),
                Err(e) => response_of(*j) is None && e == GcmError::InvalidResponseBody,
            },
    {
        match j {
            JsonValue::Object(ms) => {
                let message_id = read_u64(ms, "message_id");
                let error = read_text(ms, "error");
                let multicast_id = read_i64(ms, "multicast_id");
                let success = read_u64(ms, "success");
                let failure = read_u64(ms, "failure");
                let canonical_ids = read_u64(ms, "canonical_ids");
                let results = read_results(ms);
                match (message_id, error, multicast_id, success, failure, canonical_ids, results) {
                    (
                        Some(message_id),
                        Some(error),
                        Some(multicast_id),
                        Some(success),
                        Some(failure),
                        Some(canonical_ids),
                        Some(results),
                    ) => Ok(
                        GcmResponse {
                            message_id,
                            error,
                            multicast_id,
                            success,
                            failure,
                            canonical_ids,
                            results,
                        },
                    ),
                    _ => Err(GcmError::InvalidResponseBody),
                }
            },
            _ => Err(GcmError::InvalidResponseBody),
        }
    }
}

/// An element of `results` whose `message_id` is a string, such as the
/// placeholder that a dry run gets, is no error: it decodes exactly when its
/// other members do, and then it has no message id.
pub proof fn lemma_placeholder_message_id(j: JsonValue)
    requires
        j is Object,
        member(j->Object_0@, "message_id"@) matches Some(JsonValue::Str(_)),
    ensures
        result_of(j) is Some <==> (field_u64(member(j->Object_0@, "registration_id"@)) is Some
            && field_text(member(j->Object_0@, "error"@)) is Some),
        result_of(j) is Some ==> result_of(j)->0.message_id is None,
{
}

} // verus!
