//! The decisions of a run that stores the validation rules in the vector
//! store: each rule's text is embedded, its embedding written out, and the
//! rule stored under its position in the table. The caller performs each
//! action (print and send, write numbers, send, report, stop) and hands back
//! what came of it; the run says what to do next.
use vstd::prelude::*;
use crate::json::JsonValue;
use crate::pre_process::{create_validation_vectors, validation_text};
use crate::clients_connection::{embedding_body, embedding_request, upsert_body, upsert_request};

verus! {

/// What is printed before stopping when an embedding reply holds no vector.
pub const NO_VECTOR: &'static str = "Error parsing the the embbedded vector, probably ai studio is down";

/// Put before the message when storing a rule fails.
pub const UPLOAD_FAILED: &'static str = "error occurred while uploading ";

/// Where an upload run stands.
#[derive(Debug, Clone, Copy, PartialEq, Eq, Structural)]
pub enum UploadStage {
    Embedding,
    Encoding,
    Uploading,
    Reporting,
    Finished,
}

/// What the caller is to do next.
#[derive(Debug)]
pub enum UploadAction {
    /// Print this rule text, then send this body to the embedding service.
    Embed(String, String),
    /// Write these numbers as the JSON text of an array of `f32`.
    Encode(Vec<JsonValue>),
    /// Send this body to the vector store.
    Upsert(String),
    /// Print this message on the error stream.
    Report(String),
    /// Print this message and end the process with failure.
    Abort(String),
    /// Stop, with this outcome.
    Finish(Result<(), String>),
}

/// What came of the last action.
#[derive(Debug)]
pub enum UploadEvent {
    /// It succeeded (store, report).
    Succeeded,
    /// It failed, with this message.
    Failed(String),
    /// The embedding service answered with this reply.
    Embedded(JsonValue),
    /// The numbers, written as this JSON text.
    Encoded(String),
}

/// The numbers of an embedding reply: the array `embedding.values`.
pub open spec fn embedding_values(reply: JsonValue) -> Option<Seq<JsonValue>> {
    match reply.spec_member("embedding"@) {
        Some(e) => match e.spec_member("values"@) {
            Some(JsonValue::Array(items)) => Some(items@),
            _ => None,
        },
        None => None,
    }
}

/// Whenever the `values` member of the reply's `embedding` is an array, its
/// elements, all of them and in order, are the numbers of the reply.
pub proof fn law_every_value_is_taken(reply: JsonValue, embedding: JsonValue, items: Vec<JsonValue>)
    requires
        reply.spec_member("embedding"@) == Some(embedding),
        embedding.spec_member("values"@) == Some(JsonValue::Array(items)),
    ensures
        embedding_values(reply) == Some(items@),
{
}

/// Takes the numbers out of an embedding reply.
pub fn embedding_numbers(reply: JsonValue) -> (values: Option<Vec<JsonValue>>)
    ensures
        match values {
            Some(v) => embedding_values(reply) == Some(v@),
            None => embedding_values(reply) is None,
        },
{
    let values = match reply.into_member("embedding") {
        Some(e) => e.into_member("values"),
        None => None,
    };
    match values {
        Some(JsonValue::Array(items)) => Some(items),
        _ => None,
    }
}

/// A run over the rule texts; `index` is the rule in hand.
pub struct UploadRun {
    texts: Vec<String>,
    index: usize,
    stage: UploadStage,
}

impl UploadRun {
    #[verifier::type_invariant]
    spec fn inv(self) -> bool {
        self.well_placed()
    }

    /// The rule in hand is one of the rules, until the run finishes.
    pub open spec fn well_placed(self) -> bool {
        &&& self.spec_index() <= self.spec_texts().len()
        &&& !(self.spec_stage() is Finished) ==> self.spec_index() < self.spec_texts().len()
    }

    /// The rule texts, in the order of the table.
    pub closed spec fn spec_texts(self) -> Seq<String> {
        self.texts@
    }

    /// The position of the rule in hand.
    pub closed spec fn spec_index(self) -> nat {
        self.index as nat
    }

    /// Where the run stands.
    pub closed spec fn spec_stage(self) -> UploadStage {
        self.stage
    }

    /// The text of the rule in hand.
    pub open spec fn current(self) -> Seq<char> {
        self.spec_texts()[self.spec_index() as int]@
    }

    /// The events that the run can take where it stands.
    pub open spec fn expects(self, event: UploadEvent) -> bool {
        match self.spec_stage() {
            UploadStage::Embedding => event is Embedded || event is Failed,
            UploadStage::Encoding => event is Encoded,
            UploadStage::Uploading => event is Succeeded || event is Failed,
            UploadStage::Reporting => event is Succeeded,
            UploadStage::Finished => false,
        }
    }

    /// The position of the rule in hand.
    pub fn index(&self) -> (n: usize)
        ensures
            n == self.spec_index(),
    {
        self.index
    }

    /// Where the run stands.
    pub fn stage(&self) -> (s: UploadStage)
        ensures
            s == self.spec_stage(),
    {
        self.stage
    }
}

/// `after` takes up the next rule of `before` (and `action` embeds it), or
/// finishes with success where none is left.
pub open spec fn moves_on(before: UploadRun, after: UploadRun, action: UploadAction) -> bool {
    if before.spec_index() + 1 < before.spec_texts().len() {
        &&& after.spec_index() == before.spec_index() + 1
        &&& after.spec_stage() == UploadStage::Embedding
        &&& action matches UploadAction::Embed(t, b) && t@ == before.spec_texts()[before.spec_index() + 1int]@
            && b@ == embedding_request(t@)
    } else {
        &&& after.spec_stage() == UploadStage::Finished
        &&& action matches UploadAction::Finish(Ok(()))
    }
}

/// `after` stays with the same rule, in `stage`.
pub open spec fn stays_in(before: UploadRun, after: UploadRun, stage: UploadStage) -> bool {
    after.spec_index() == before.spec_index() && after.spec_stage() == stage
}

/// One step of an upload run: from `before`, on `event`, to `after`, asking for `action`.
pub open spec fn upload_step_spec(
    before: UploadRun,
    after: UploadRun,
    event: UploadEvent,
    action: UploadAction,
) -> bool {
    &&& after.spec_texts() == before.spec_texts()
    &&& match before.spec_stage() {
        UploadStage::Embedding => match event {
            UploadEvent::Embedded(reply) => match embedding_values(reply) {
                Some(items) => stays_in(before, after, UploadStage::Encoding)
                    && (action matches UploadAction::Encode(v) && v@ == items),
                None => after.spec_stage() == UploadStage::Finished
                    && (action matches UploadAction::Abort(m) && m@ == NO_VECTOR@),
            },
            UploadEvent::Failed(e) => after.spec_stage() == UploadStage::Finished
                && (action matches UploadAction::Finish(Err(m)) && m@ == e@),
            _ => false,
        },
        UploadStage::Encoding => match event {
            UploadEvent::Encoded(v) => stays_in(before, after, UploadStage::Uploading)
                && (action matches UploadAction::Upsert(b)
                && b@ == upsert_request(before.spec_index(), before.current(), v@)),
            _ => false,
        },
        UploadStage::Uploading => match event {
            UploadEvent::Succeeded => moves_on(before, after, action),
            UploadEvent::Failed(e) => stays_in(before, after, UploadStage::Reporting)
                && (action matches UploadAction::Report(m) && m@ == UPLOAD_FAILED@ + e@),
            _ => false,
        },
        UploadStage::Reporting => match event {
            UploadEvent::Succeeded => moves_on(before, after, action),
            _ => false,
        },
        UploadStage::Finished => false,
    }
}

/// Starts a run over the rules of the table: each record's name and value
/// make a rule text, and the first rule is embedded (none left: success).
pub fn start_upload(records: &Vec<Vec<String>>) -> (started: (UploadRun, UploadAction))
    requires
        forall|i: int| 0 <= i < records@.len() ==> #[trigger] records@[i]@.len() >= 2,
    ensures
        started.0.spec_texts().len() == records@.len(),
        forall|k: int|
            0 <= k < records@.len() ==> #[trigger] started.0.spec_texts()[k]@ == validation_text(
                records@[k]@[0]@,
                records@[k]@[1]@,
            ),
        started.0.spec_index() == 0,
        started.0.well_placed(),
        records@.len() == 0 ==> started.0.spec_stage() == UploadStage::Finished
            && (started.1 matches UploadAction::Finish(Ok(()))),
        records@.len() > 0 ==> started.0.spec_stage() == UploadStage::Embedding
            && (started.1 matches UploadAction::Embed(t, b) && t@ == started.0.spec_texts()[0]@
            && b@ == embedding_request(t@)),
{
    let texts = create_validation_vectors(records);
    if texts.len() == 0 {
        (UploadRun { texts, index: 0, stage: UploadStage::Finished }, UploadAction::Finish(Ok(())))
    } else {
        let text = texts[0].clone();
        let body = embedding_body(text.as_str());
        (UploadRun { texts, index: 0, stage: UploadStage::Embedding }, UploadAction::Embed(text, body))
    }
}

impl UploadRun {
    fn move_on(&mut self) -> (action: UploadAction)
        requires
            !(old(self).spec_stage() is Finished),
        ensures
            moves_on(*old(self), *final(self), action),
            final(self).spec_texts() == old(self).spec_texts(),
            final(self).well_placed(),
    {
        proof { use_type_invariant(&*self); }
        let count = self.texts.len();
        let action = if self.index + 1 < count {
            let text = self.texts[self.index + 1].clone();
            let body = embedding_body(text.as_str());
            self.index = self.index + 1;
            self.stage = UploadStage::Embedding;
            UploadAction::Embed(text, body)
        } else {
            self.stage = UploadStage::Finished;
            UploadAction::Finish(Ok(()))
        };
        proof { use_type_invariant(&*self); }
        action
    }

    /// Takes what came of the last action and says what to do next.
    pub fn step(&mut self, event: UploadEvent) -> (action: UploadAction)
        requires
            old(self).expects(event),
        ensures
            upload_step_spec(*old(self), *final(self), event, action),
            final(self).well_placed(),
    {
        proof { use_type_invariant(&*self); }
        let action = match self.stage {
            UploadStage::Embedding => match event {
                UploadEvent::Embedded(reply) => {
                    match embedding_numbers(reply) {
                        Some(items) => {
                            self.stage = UploadStage::Encoding;
                            UploadAction::Encode(items)
                        },
                        _ => {
                            self.stage = UploadStage::Finished;
                            UploadAction::Abort(String::from_str(NO_VECTOR))
                        },
                    }
                },
                UploadEvent::Failed(e) => {
                    self.stage = UploadStage::Finished;
                    UploadAction::Finish(Err(e))
                },
                _ => {
                    self.stage = UploadStage::Finished;
                    UploadAction::Finish(Ok(()))
                },
            },
            UploadStage::Encoding => match event {
                UploadEvent::Encoded(vector) => {
                    let body = upsert_body(self.index as u64, &self.texts[self.index], vector.as_str());
                    self.stage = UploadStage::Uploading;
                    UploadAction::Upsert(body)
                },
                _ => {
                    self.stage = UploadStage::Finished;
                    UploadAction::Finish(Ok(()))
                },
            },
            UploadStage::Uploading => match event {
                UploadEvent::Failed(e) => {
                    let mut message = String::from_str(UPLOAD_FAILED);
                    message.append(e.as_str());
                    self.stage = UploadStage::Reporting;
                    UploadAction::Report(message)
                },
                _ => self.move_on(),
            },
            UploadStage::Reporting => self.move_on(),
            UploadStage::Finished => UploadAction::Finish(Ok(())),
        };
        proof { use_type_invariant(&*self); }
        action
    }
}

/// The k-th rule is stored as `upsert_request(k, text_k, vector_k)`: under its
/// position in the table, with its own text and the embedding written for it.
pub proof fn law_rules_stored_under_their_position(
    before: UploadRun,
    after: UploadRun,
    event: UploadEvent,
    action: UploadAction,
)
    requires
        before.well_placed(),
        upload_step_spec(before, after, event, action),
        action is Upsert,
    ensures
        before.spec_stage() == UploadStage::Encoding,
        event matches UploadEvent::Encoded(v) && action matches UploadAction::Upsert(b)
            && b@ == upsert_request(before.spec_index(), before.spec_texts()[before.spec_index() as int]@, v@),
{
}

/// After a rule is stored (or the failure to store it reported), the next
/// rule of the table is embedded whenever one remains; the run finishes only
/// after the last rule.
pub proof fn law_no_rule_is_skipped(before: UploadRun, after: UploadRun, event: UploadEvent, action: UploadAction)
    requires
        before.well_placed(),
        upload_step_spec(before, after, event, action),
        before.spec_stage() is Uploading || before.spec_stage() is Reporting,
        event is Succeeded,
    ensures
        action is Finish ==> before.spec_index() + 1 == before.spec_texts().len(),
        before.spec_index() + 1 < before.spec_texts().len() ==> (action matches UploadAction::Embed(t, b)
            && t@ == before.spec_texts()[before.spec_index() + 1int]@ && b@ == embedding_request(t@)
            && after.spec_index() == before.spec_index() + 1),
{
}

/// Rules are embedded one at a time and in their order.
pub proof fn law_rules_in_order(before: UploadRun, after: UploadRun, event: UploadEvent, action: UploadAction)
    requires
        before.well_placed(),
        upload_step_spec(before, after, event, action),
        action is Embed,
    ensures
        after.spec_index() == before.spec_index() + 1,
        action matches UploadAction::Embed(t, b) && t@ == before.spec_texts()[after.spec_index() as int]@
            && b@ == embedding_request(t@),
{
}

/// A failed upload is reported, and the run then goes on with the next rule
/// (or finishes with success after the last).
pub proof fn law_failed_upload_is_reported_and_run_goes_on(
    before: UploadRun,
    failed: String,
    middle: UploadRun,
    report: UploadAction,
    reported: UploadEvent,
    after: UploadRun,
    action: UploadAction,
)
    requires
        before.well_placed(),
        before.spec_stage() == UploadStage::Uploading,
        upload_step_spec(before, middle, UploadEvent::Failed(failed), report),
        middle.expects(reported),
        upload_step_spec(middle, after, reported, action),
    ensures
        report matches UploadAction::Report(m) && m@ == UPLOAD_FAILED@ + failed@,
        moves_on(before, after, action),
{
}

/// An embedding reply without an array of numbers stops the run.
pub proof fn law_missing_vector_stops(before: UploadRun, after: UploadRun, reply: JsonValue, action: UploadAction)
    requires
        before.spec_stage() == UploadStage::Embedding,
        upload_step_spec(before, after, UploadEvent::Embedded(reply), action),
        embedding_values(reply) is None,
    ensures
        after.spec_stage() == UploadStage::Finished,
        action matches UploadAction::Abort(m) && m@ == NO_VECTOR@,
{
}

/// A finished run takes no further event.
pub proof fn law_finished_upload_is_final(run: UploadRun, event: UploadEvent)
    requires
        run.spec_stage() == UploadStage::Finished,
    ensures
        !run.expects(event),
{
}

} // verus!
