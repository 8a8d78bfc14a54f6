//! The work on each issue: the candidate rules that the search returns, the
//! question to the language model and its answer, and the decisions of a run
//! that fills the response sheet.
use vstd::prelude::*;
use crate::ApiError;
use crate::json::JsonValue;
use crate::pre_process::{lines, texts_of, join_lines};

verus! {

/// The description of one row of a search reply, if it is a string.
pub open spec fn row_text(row: JsonValue) -> Option<Seq<char>> {
    match row.spec_member("Scaler"@) {
        Some(v) => v.spec_text(),
        None => None,
    }
}

/// The descriptions of the rows, in order, leaving out the rows without one.
pub open spec fn row_texts(rows: Seq<JsonValue>) -> Seq<Seq<char>>
    decreases rows.len(),
{
    if rows.len() == 0 {
        Seq::empty()
    } else {
        match row_text(rows.last()) {
            Some(t) => row_texts(rows.drop_last()).push(t),
            None => row_texts(rows.drop_last()),
        }
    }
}

/// The rule descriptions in a search reply: those of the rows of its `data`
/// array; none where `data` is not an array.
pub open spec fn found_texts(reply: JsonValue) -> Seq<Seq<char>> {
    match reply.spec_member("data"@) {
        Some(JsonValue::Array(rows)) => row_texts(rows@),
        _ => Seq::empty(),
    }
}

/// The description of a row as the search writes it: its `Scaler` member,
/// where that is a string.
pub open spec fn scaler_string(row: JsonValue) -> Option<Seq<char>> {
    match row.spec_member("Scaler"@) {
        Some(JsonValue::Str(s)) => Some(s@),
        _ => None,
    }
}

proof fn lemma_row_texts_keep_every_described_row(rows: Seq<JsonValue>)
    ensures
        row_texts(rows) == rows.filter_map(|r: JsonValue| scaler_string(r)),
    decreases rows.len(),
{
    if rows.len() > 0 {
        lemma_row_texts_keep_every_described_row(rows.drop_last());
        let last = rows.last();
        match last.spec_member("Scaler"@) {
            Some(v) => {
                match v {
                    JsonValue::Str(s) => {
                        assert(row_texts(rows) =~= rows.drop_last().filter_map(|r: JsonValue| scaler_string(r))
                            + seq![s@]);
                    },
                    _ => {},
                }
            },
            None => {},
        }
    }
}

/// Every row of the reply's `data` array whose `Scaler` is a string gives
/// its text, in the order of the rows, however many there are; nothing else
/// is given.
pub proof fn law_found_texts_keep_every_described_row(reply: JsonValue)
    ensures
        found_texts(reply) == match reply.spec_member("data"@) {
            Some(JsonValue::Array(rows)) => rows@.filter_map(|r: JsonValue| scaler_string(r)),
            _ => Seq::<Seq<char>>::empty(),
        },
{
    match reply.spec_member("data"@) {
        Some(JsonValue::Array(rows)) => lemma_row_texts_keep_every_described_row(rows@),
        _ => {},
    }
}

/// The descriptions of the rules that a search reply lists, in its order.
pub fn closest_texts(reply: &JsonValue) -> (found: Vec<String>)
    ensures
        texts_of(found@) == found_texts(*reply),
        texts_of(found@) == match reply.spec_member("data"@) {
            Some(JsonValue::Array(rows)) => rows@.filter_map(|r: JsonValue| scaler_string(r)),
            _ => Seq::<Seq<char>>::empty(),
        },
{
    proof { law_found_texts_keep_every_described_row(*reply); }
    let mut found: Vec<String> = Vec::new();
    match reply.member("data") {
        Some(JsonValue::Array(rows)) => {
            let mut i: usize = 0;
            assert(rows@.take(0) =~= Seq::<JsonValue>::empty());
            while i < rows.len()
                invariant
                    i <= rows@.len(),
                    texts_of(found@) == row_texts(rows@.take(i as int)),
                decreases rows@.len() - i,
            {
                assert(rows@.take(i + 1).drop_last() =~= rows@.take(i as int));
                let row = &rows[i];
                match row.member("Scaler") {
                    Some(v) => match v.text() {
                        Some(t) => {
                            found.push(t.clone());
                            assert(texts_of(found@) =~= row_texts(rows@.take(i as int)).push(t@));
                        },
                        None => {},
                    },
                    None => {},
                }
                i += 1;
            }
            assert(rows@.take(rows@.len() as int) =~= rows@);
        },
        _ => {
            assert(texts_of(found@) =~= Seq::<Seq<char>>::empty());
        },
    }
    found
}

/// The candidate rules as the model reads them: each followed by a line break.
pub fn gemini_context(context: &Vec<String>) -> (text: String)
    ensures
        text@ == lines(texts_of(context@)),
{
    join_lines(context)
}

/// Why the model's reply holds no answer.
#[derive(Debug, PartialEq, Eq)]
pub enum ReplyFailure {
    /// The reply reports an error, with its message where it has one.
    ServiceError(Option<String>),
    /// The reply has no text where the answer stands.
    NoText,
    /// The answer is not a string; this failure carries no text.
    TextNotString,
}

/// What is said when the reply reports an error.
pub const SERVICE_ERROR: &'static str = "we got an error code in the gemini request, try again";

/// What is said when the reply holds no answer.
pub const NO_TEXT: &'static str = "error while parsing the gemini response json. It should work so try again";

impl ReplyFailure {
    /// The text of the failure; an answer that is not a string is refused
    /// without one.
    pub open spec fn spec_message(&self) -> Seq<char> {
        match self {
            ReplyFailure::ServiceError(_) => SERVICE_ERROR@,
            ReplyFailure::NoText => NO_TEXT@,
            ReplyFailure::TextNotString => Seq::empty(),
        }
    }

    /// The text of the failure.
    pub fn message(&self) -> (m: String)
        ensures
            m@ == self.spec_message(),
    {
        match self {
            ReplyFailure::ServiceError(_) => String::from_str(SERVICE_ERROR),
            ReplyFailure::NoText => String::from_str(NO_TEXT),
            ReplyFailure::TextNotString => String::new(),
        }
    }
}

/// The value where the answer stands: the `text` of the first part of the
/// `content` of the first of the `candidates`.
pub open spec fn answer_value(reply: JsonValue) -> Option<JsonValue> {
    match reply.spec_member("candidates"@) {
        None => None,
        Some(candidates) => match candidates.spec_element(0) {
            None => None,
            Some(first) => match first.spec_member("content"@) {
                None => None,
                Some(content) => match content.spec_member("parts"@) {
                    None => None,
                    Some(parts) => match parts.spec_element(0) {
                        None => None,
                        Some(part) => part.spec_member("text"@),
                    },
                },
            },
        },
    }
}

/// The message of the error that a reply reports, where it is a string.
pub open spec fn error_message(reply: JsonValue) -> Option<Seq<char>> {
    match reply.spec_member("error"@) {
        Some(e) => match e.spec_member("message"@) {
            Some(m) => m.spec_text(),
            None => None,
        },
        None => None,
    }
}

/// The answer that a reply gives, or the text of the failure.
pub open spec fn answer_outcome(reply: JsonValue) -> Result<Seq<char>, Seq<char>> {
    if reply.spec_member("error"@) is Some {
        Err(SERVICE_ERROR@)
    } else {
        match answer_value(reply) {
            None => Err(NO_TEXT@),
            Some(v) => match v.spec_text() {
                Some(t) => Ok(t),
                None => Err(Seq::empty()),
            },
        }
    }
}

/// Whenever a reply reports no error and the first part of the content of
/// its first candidate has a string `text`, that string is the answer,
/// whatever it says.
pub proof fn law_text_of_first_part_is_the_answer(
    reply: JsonValue,
    candidates: JsonValue,
    first: JsonValue,
    content: JsonValue,
    parts: JsonValue,
    part: JsonValue,
    text: String,
)
    requires
        reply.spec_member("error"@) is None,
        reply.spec_member("candidates"@) == Some(candidates),
        candidates.spec_element(0) == Some(first),
        first.spec_member("content"@) == Some(content),
        content.spec_member("parts"@) == Some(parts),
        parts.spec_element(0) == Some(part),
        part.spec_member("text"@) == Some(JsonValue::Str(text)),
    ensures
        answer_outcome(reply) == Ok::<Seq<char>, Seq<char>>(text@),
{
}

/// Reads the model's answer out of its reply. A reply with an `error` member
/// is refused whatever else it holds.
pub fn gemini_answer(reply: &JsonValue) -> (answer: Result<String, ReplyFailure>)
    ensures
        reply.spec_member("error"@) is Some ==> (answer matches Err(ReplyFailure::ServiceError(m))
            && match m {
            Some(t) => error_message(*reply) == Some(t@),
            None => error_message(*reply) is None,
        }),
        match answer {
            Ok(s) => answer_outcome(*reply) == Ok::<Seq<char>, Seq<char>>(s@),
            Err(f) => answer_outcome(*reply) == Err::<Seq<char>, Seq<char>>(f.spec_message()),
        },
        reply.spec_member("error"@) is None ==> match answer_value(*reply) {
            None => answer == Err::<String, ReplyFailure>(ReplyFailure::NoText),
            Some(v) => match v.spec_text() {
                Some(t) => answer matches Ok(s) && s@ == t,
                None => answer == Err::<String, ReplyFailure>(ReplyFailure::TextNotString),
            },
        },
{
    if let Some(e) = reply.member("error") {
        let message = match e.member("message") {
            Some(m) => match m.text() {
                Some(t) => Some(t.clone()),
                None => None,
            },
            None => None,
        };
        return Err(ReplyFailure::ServiceError(message));
    }
    let candidates = match reply.member("candidates") {
        Some(c) => c,
        None => return Err(ReplyFailure::NoText),
    };
    let first = match candidates.element(0) {
        Some(f) => f,
        None => return Err(ReplyFailure::NoText),
    };
    let content = match first.member("content") {
        Some(c) => c,
        None => return Err(ReplyFailure::NoText),
    };
    let parts = match content.member("parts") {
        Some(p) => p,
        None => return Err(ReplyFailure::NoText),
    };
    let part = match parts.element(0) {
        Some(p) => p,
        None => return Err(ReplyFailure::NoText),
    };
    let value = match part.member("text") {
        Some(v) => v,
        None => return Err(ReplyFailure::NoText),
    };
    match value.text() {
        Some(t) => Ok(t.clone()),
        None => Err(ReplyFailure::TextNotString),
    }
}

} // verus!
