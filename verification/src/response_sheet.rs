//! The decisions of a run that fills the response sheet: one row per issue,
//! the model's answer to which rules cover it. The caller performs each action
//! (open the CSV writer, write, search, ask, flush) and hands back what came of
//! it; the run says what to do next, and when to stop the process.
use vstd::prelude::*;
use crate::json::JsonValue;
use crate::pre_process::{lines, texts_of};
use crate::actual_work::{
    found_texts, answer_outcome, answer_value, error_message, closest_texts, gemini_context, gemini_answer,
    ReplyFailure, SERVICE_ERROR, NO_TEXT,
};
use crate::clients_connection::{gemini_body, create_body};

verus! {

/// The single field of the header row.
pub const HEADER: &'static str = "response";

/// Put before the message when the writer cannot be created.
pub const WRITER_FAILED: &'static str = "Error creating csv  ";

/// Put before the message when the header row cannot be written.
pub const HEADER_FAILED: &'static str = "failed to create header row ";

/// Put before the message when the search for candidate rules fails.
pub const SEARCH_FAILED: &'static str = "Error finding closests, ";

/// How many issues a run answers when every row is written and flushed.
pub const ISSUE_LIMIT: usize = 3;

/// Where a run stands.
#[derive(Debug, Clone, Copy, PartialEq, Eq, Structural)]
pub enum SheetStage {
    OpeningWriter,
    WritingHeader,
    Searching,
    Asking,
    WritingRow,
    Flushing,
    Finished,
}

/// A line printed before the process stops.
#[derive(Debug)]
pub enum Output {
    /// On the error stream.
    Stderr(String),
    /// On the output stream.
    Stdout(String),
    /// On the output stream, the debug form of an optional text
    /// (`Some("..")` or `None`).
    StdoutDebug(Option<String>),
}

/// The texts of an optional string.
pub open spec fn optional_text(o: Option<String>) -> Option<Seq<char>> {
    match o {
        Some(s) => Some(s@),
        None => None,
    }
}

/// What the caller is to do next.
#[derive(Debug)]
pub enum SheetAction {
    /// Create the CSV writer at the output path.
    OpenWriter,
    /// Write this record.
    WriteRecord(Vec<String>),
    /// Search the rules nearest to this issue.
    Search(String),
    /// Send this body to the language model.
    Ask(String),
    /// Flush the writer.
    Flush,
    /// Print these lines, in order, and end the process with failure.
    Exit(Vec<Output>),
    /// The sheet is done.
    Finish,
}

/// What came of the last action.
#[derive(Debug)]
pub enum SheetEvent {
    /// It succeeded (open, write, flush).
    Succeeded,
    /// It failed, with this message.
    Failed(String),
    /// The search answered with this reply.
    Found(JsonValue),
    /// The model answered with this reply.
    Answered(JsonValue),
}

/// A run over a list of issues. The `taken` first issues have been taken up;
/// the one in hand is the last of them.
pub struct SheetRun {
    issues: Vec<String>,
    taken: usize,
    stage: SheetStage,
}

impl SheetRun {
    #[verifier::type_invariant]
    spec fn inv(self) -> bool {
        self.well_placed()
    }

    /// No more issues taken than there are; none before the header is
    /// written; one in hand from its search to its flush.
    pub open spec fn well_placed(self) -> bool {
        &&& self.spec_taken() <= self.spec_issues().len()
        &&& (self.spec_stage() is OpeningWriter || self.spec_stage() is WritingHeader) ==> self.spec_taken() == 0
        &&& (self.spec_stage() is Searching || self.spec_stage() is Asking || self.spec_stage() is WritingRow
            || self.spec_stage() is Flushing) ==> self.spec_taken() >= 1
    }

    /// The issues of the run.
    pub closed spec fn spec_issues(self) -> Seq<String> {
        self.issues@
    }

    /// How many issues have been taken up.
    pub closed spec fn spec_taken(self) -> nat {
        self.taken as nat
    }

    /// Where the run stands.
    pub closed spec fn spec_stage(self) -> SheetStage {
        self.stage
    }

    /// The issue in hand.
    pub open spec fn current(self) -> Seq<char> {
        self.spec_issues()[self.spec_taken() - 1]@
    }

    /// The events that the run can take where it stands: success or failure
    /// of opening, writing and flushing; the reply or failure of a search or a
    /// question; nothing once finished.
    pub open spec fn expects(self, event: SheetEvent) -> bool {
        match self.spec_stage() {
            SheetStage::Searching => event is Found || event is Failed,
            SheetStage::Asking => event is Answered || event is Failed,
            SheetStage::Finished => false,
            _ => event is Succeeded || event is Failed,
        }
    }

    /// How many issues have been taken up.
    pub fn taken(&self) -> (n: usize)
        ensures
            n == self.spec_taken(),
    {
        self.taken
    }

    /// Where the run stands.
    pub fn stage(&self) -> (s: SheetStage)
        ensures
            s == self.spec_stage(),
    {
        self.stage
    }
}

/// `after` takes up the next issue of `before` (and `action` searches it), or
/// finishes with success where none is left.
pub open spec fn takes_next(before: SheetRun, after: SheetRun, action: SheetAction) -> bool {
    if before.spec_taken() < before.spec_issues().len() {
        &&& after.spec_taken() == before.spec_taken() + 1
        &&& after.spec_stage() == SheetStage::Searching
        &&& action matches SheetAction::Search(q) && q@ == before.spec_issues()[before.spec_taken() as int]@
    } else {
        &&& after.spec_taken() == before.spec_taken()
        &&& after.spec_stage() == SheetStage::Finished
        &&& action is Finish
    }
}

/// The lines that an `Exit` action prints.
pub open spec fn exit_lines(action: SheetAction) -> Seq<Output> {
    match action {
        SheetAction::Exit(lines) => lines@,
        _ => Seq::empty(),
    }
}

/// `after` has finished and `action` stops the process.
pub open spec fn stops(before: SheetRun, after: SheetRun, action: SheetAction) -> bool {
    &&& after.spec_taken() == before.spec_taken()
    &&& after.spec_stage() == SheetStage::Finished
    &&& action is Exit
}

/// `action` stops the process after printing `message` alone, on the error
/// stream (`on_stderr`) or on the output stream.
pub open spec fn stops_saying(
    before: SheetRun,
    after: SheetRun,
    action: SheetAction,
    on_stderr: bool,
    message: Seq<char>,
) -> bool {
    &&& stops(before, after, action)
    &&& exit_lines(action).len() == 1
    &&& if on_stderr {
        exit_lines(action)[0] matches Output::Stderr(m) && m@ == message
    } else {
        exit_lines(action)[0] matches Output::Stdout(m) && m@ == message
    }
}

/// How a run stops on a reply of the model that holds no answer: an error
/// reply is reported with the message it carries, a reply without text with a
/// line, an answer that is not a string without any.
pub open spec fn stops_on_reply(before: SheetRun, after: SheetRun, action: SheetAction, reply: JsonValue) -> bool {
    if reply.spec_member("error"@) is Some {
        &&& stops(before, after, action)
        &&& exit_lines(action).len() == 2
        &&& exit_lines(action)[0] matches Output::Stderr(m) && m@ == SERVICE_ERROR@
        &&& exit_lines(action)[1] matches Output::StdoutDebug(d) && optional_text(d) == error_message(reply)
    } else if answer_value(reply) is None {
        stops_saying(before, after, action, true, NO_TEXT@)
    } else {
        stops(before, after, action) && exit_lines(action).len() == 0
    }
}

/// `after` stays with the same issue, in `stage`.
pub open spec fn moves_to(before: SheetRun, after: SheetRun, stage: SheetStage) -> bool {
    after.spec_taken() == before.spec_taken() && after.spec_stage() == stage
}

/// One step of a run: from `before`, on `event`, to `after`, asking for `action`.
pub open spec fn step_spec(before: SheetRun, after: SheetRun, event: SheetEvent, action: SheetAction) -> bool {
    &&& after.spec_issues() == before.spec_issues()
    &&& match before.spec_stage() {
        SheetStage::OpeningWriter => match event {
            SheetEvent::Succeeded => moves_to(before, after, SheetStage::WritingHeader)
                && (action matches SheetAction::WriteRecord(r) && texts_of(r@) == seq![HEADER@]),
            SheetEvent::Failed(e) => stops_saying(before, after, action, true, WRITER_FAILED@ + e@),
            _ => false,
        },
        SheetStage::WritingHeader => match event {
            SheetEvent::Succeeded => takes_next(before, after, action),
            SheetEvent::Failed(e) => stops_saying(before, after, action, true, HEADER_FAILED@ + e@),
            _ => false,
        },
        SheetStage::Searching => match event {
            SheetEvent::Found(reply) => moves_to(before, after, SheetStage::Asking)
                && (action matches SheetAction::Ask(b)
                && b@ == gemini_body(before.current(), lines(found_texts(reply)))),
            SheetEvent::Failed(e) => stops_saying(before, after, action, false, SEARCH_FAILED@ + e@),
            _ => false,
        },
        SheetStage::Asking => match event {
            SheetEvent::Answered(reply) => match answer_outcome(reply) {
                Ok(t) => moves_to(before, after, SheetStage::WritingRow)
                    && (action matches SheetAction::WriteRecord(r) && texts_of(r@) == seq![t]),
                Err(_) => stops_on_reply(before, after, action, reply),
            },
            SheetEvent::Failed(e) => stops_saying(before, after, action, true, e@),
            _ => false,
        },
        SheetStage::WritingRow => match event {
            SheetEvent::Succeeded => moves_to(before, after, SheetStage::Flushing) && action is Flush,
            SheetEvent::Failed(_) => takes_next(before, after, action),
            _ => false,
        },
        SheetStage::Flushing => match event {
            SheetEvent::Succeeded => if before.spec_taken() == ISSUE_LIMIT {
                &&& moves_to(before, after, SheetStage::Finished)
                &&& action is Finish
            } else {
                takes_next(before, after, action)
            },
            SheetEvent::Failed(_) => takes_next(before, after, action),
            _ => false,
        },
        SheetStage::Finished => false,
    }
}

fn stop_saying(prefix: &str, detail: &String, on_stderr: bool) -> (action: SheetAction)
    ensures
        exit_lines(action).len() == 1,
        action is Exit,
        on_stderr ==> (exit_lines(action)[0] matches Output::Stderr(m) && m@ == prefix@ + detail@),
        !on_stderr ==> (exit_lines(action)[0] matches Output::Stdout(m) && m@ == prefix@ + detail@),
{
    let mut message = String::from_str(prefix);
    message.append(detail.as_str());
    let mut lines: Vec<Output> = Vec::new();
    if on_stderr {
        lines.push(Output::Stderr(message));
    } else {
        lines.push(Output::Stdout(message));
    }
    SheetAction::Exit(lines)
}

/// Starts a run over the issues; its first action opens the writer.
pub fn create_response_sheet(vector: Vec<String>) -> (started: (SheetRun, SheetAction))
    ensures
        started.0.spec_issues() == vector@,
        started.0.spec_taken() == 0,
        started.0.spec_stage() == SheetStage::OpeningWriter,
        started.1 is OpenWriter,
        started.0.well_placed(),
{
    (SheetRun { issues: vector, taken: 0, stage: SheetStage::OpeningWriter }, SheetAction::OpenWriter)
}

impl SheetRun {
    fn take_next(&mut self) -> (action: SheetAction)
        ensures
            takes_next(*old(self), *final(self), action),
            final(self).spec_issues() == old(self).spec_issues(),
            final(self).well_placed(),
    {
        proof { use_type_invariant(&*self); }
        let action = if self.taken < self.issues.len() {
            let issue = self.issues[self.taken].clone();
            self.stage = SheetStage::Finished;
            self.taken = self.taken + 1;
            self.stage = SheetStage::Searching;
            SheetAction::Search(issue)
        } else {
            self.stage = SheetStage::Finished;
            SheetAction::Finish
        };
        proof { use_type_invariant(&*self); }
        action
    }

    /// Takes what came of the last action and says what to do next.
    pub fn step(&mut self, event: SheetEvent) -> (action: SheetAction)
        requires
            old(self).expects(event),
        ensures
            step_spec(*old(self), *final(self), event, action),
            final(self).well_placed(),
    {
        proof { use_type_invariant(&*self); }
        let action = match self.stage {
            SheetStage::OpeningWriter => match event {
                SheetEvent::Failed(e) => {
                    self.stage = SheetStage::Finished;
                    stop_saying(WRITER_FAILED, &e, true)
                },
                _ => {
                    self.stage = SheetStage::WritingHeader;
                    let mut record: Vec<String> = Vec::new();
                    record.push(String::from_str(HEADER));
                    assert(texts_of(record@) =~= seq![HEADER@]);
                    SheetAction::WriteRecord(record)
                },
            },
            SheetStage::WritingHeader => match event {
                SheetEvent::Failed(e) => {
                    self.stage = SheetStage::Finished;
                    stop_saying(HEADER_FAILED, &e, true)
                },
                _ => self.take_next(),
            },
            SheetStage::Searching => match event {
                SheetEvent::Found(reply) => {
                    let validations = closest_texts(&reply);
                    let context = gemini_context(&validations);
                    let body = create_body(&self.issues[self.taken - 1], &context);
                    self.stage = SheetStage::Asking;
                    SheetAction::Ask(body)
                },
                SheetEvent::Failed(e) => {
                    self.stage = SheetStage::Finished;
                    stop_saying(SEARCH_FAILED, &e, false)
                },
                _ => {
                    self.stage = SheetStage::Finished;
                    SheetAction::Finish
                },
            },
            SheetStage::Asking => match event {
                SheetEvent::Answered(reply) => match gemini_answer(&reply) {
                    Ok(text) => {
                        self.stage = SheetStage::WritingRow;
                        let mut record: Vec<String> = Vec::new();
                        let ghost t = text@;
                        record.push(text);
                        assert(texts_of(record@) =~= seq![t]);
                        SheetAction::WriteRecord(record)
                    },
                    Err(f) => {
                        self.stage = SheetStage::Finished;
                        let mut lines: Vec<Output> = Vec::new();
                        match f {
                            ReplyFailure::ServiceError(m) => {
                                lines.push(Output::Stderr(String::from_str(SERVICE_ERROR)));
                                lines.push(Output::StdoutDebug(m));
                            },
                            ReplyFailure::NoText => {
                                lines.push(Output::Stderr(String::from_str(NO_TEXT)));
                            },
                            ReplyFailure::TextNotString => {},
                        }
                        SheetAction::Exit(lines)
                    },
                },
                SheetEvent::Failed(e) => {
                    self.stage = SheetStage::Finished;
                    proof {
                        reveal_strlit("");
                        assert(""@ + e@ =~= e@);
                    }
                    stop_saying("", &e, true)
                },
                _ => {
                    self.stage = SheetStage::Finished;
                    SheetAction::Finish
                },
            },
            SheetStage::WritingRow => match event {
                SheetEvent::Succeeded => {
                    self.stage = SheetStage::Flushing;
                    SheetAction::Flush
                },
                _ => self.take_next(),
            },
            SheetStage::Flushing => match event {
                SheetEvent::Succeeded => if self.taken == ISSUE_LIMIT {
                    self.stage = SheetStage::Finished;
                    SheetAction::Finish
                } else {
                    self.take_next()
                },
                _ => self.take_next(),
            },
            SheetStage::Finished => SheetAction::Finish,
        };
        proof { use_type_invariant(&*self); }
        action
    }

}

/// Once the row of the third issue is written and flushed, the run ends with
/// success: no issue after the third is searched or asked about.
pub proof fn law_third_row_ends_run(before: SheetRun, after: SheetRun, event: SheetEvent, action: SheetAction)
    requires
        before.well_placed(),
        step_spec(before, after, event, action),
        before.spec_stage() == SheetStage::Flushing,
        before.spec_taken() == ISSUE_LIMIT,
        event is Succeeded,
    ensures
        after.spec_stage() == SheetStage::Finished,
        action is Finish,
{
}

/// A fourth issue is taken up only when the row of the third could not be
/// written or flushed.
pub proof fn law_fourth_issue_only_after_failure(
    before: SheetRun,
    after: SheetRun,
    event: SheetEvent,
    action: SheetAction,
)
    requires
        before.well_placed(),
        step_spec(before, after, event, action),
        before.spec_taken() <= ISSUE_LIMIT,
        after.spec_taken() > ISSUE_LIMIT,
    ensures
        before.spec_taken() == ISSUE_LIMIT,
        before.spec_stage() is WritingRow || before.spec_stage() is Flushing,
        event is Failed,
{
}

/// Issues are searched one at a time and in their order: a search is always
/// for the issue after those already taken up.
pub proof fn law_issues_in_order(before: SheetRun, after: SheetRun, event: SheetEvent, action: SheetAction)
    requires
        before.well_placed(),
        step_spec(before, after, event, action),
        action is Search,
    ensures
        after.spec_taken() == before.spec_taken() + 1,
        action matches SheetAction::Search(q) && q@ == before.spec_issues()[before.spec_taken() as int]@,
{
}

/// Apart from the header, every row written is the model's answer about the
/// issue in hand, on a line of its own.
pub proof fn law_rows_are_answers(before: SheetRun, after: SheetRun, event: SheetEvent, action: SheetAction)
    requires
        before.well_placed(),
        step_spec(before, after, event, action),
        action is WriteRecord,
        !(before.spec_stage() is OpeningWriter),
    ensures
        before.spec_stage() is Asking,
        event matches SheetEvent::Answered(reply) && action matches SheetAction::WriteRecord(r)
            && answer_outcome(reply) == Ok::<Seq<char>, Seq<char>>(r@[0]@) && r@.len() == 1,
{
    if let SheetEvent::Answered(reply) = event {
        if let SheetAction::WriteRecord(r) = action {
            if let Ok(t) = answer_outcome(reply) {
                assert(texts_of(r@) == seq![t]);
                assert(texts_of(r@).len() == r@.len());
                assert(texts_of(r@)[0] == r@[0]@);
            }
        }
    }
}

/// For each issue taken up: the candidate rules that its search returns are
/// the context of the question about that same issue, and the row then written
/// is the model's answer to that question; no other issue is taken up in
/// between.
pub proof fn law_search_result_reaches_question_and_row(
    taking: SheetRun,
    event: SheetEvent,
    search: SheetAction,
    searching: SheetRun,
    found: JsonValue,
    ask: SheetAction,
    asking: SheetRun,
    answered: JsonValue,
    write: SheetAction,
    writing: SheetRun,
)
    requires
        taking.well_placed(),
        step_spec(taking, searching, event, search),
        search is Search,
        step_spec(searching, asking, SheetEvent::Found(found), ask),
        step_spec(asking, writing, SheetEvent::Answered(answered), write),
        answer_outcome(answered) is Ok,
    ensures
        searching.spec_taken() == taking.spec_taken() + 1,
        asking.spec_taken() == searching.spec_taken(),
        writing.spec_taken() == searching.spec_taken(),
        search matches SheetAction::Search(q) && (ask matches SheetAction::Ask(b)
            && b@ == gemini_body(q@, lines(found_texts(found)))),
        write matches SheetAction::WriteRecord(r) && r@.len() == 1
            && answer_outcome(answered) == Ok::<Seq<char>, Seq<char>>(r@[0]@),
{
    if let SheetAction::WriteRecord(r) = write {
        if let Ok(t) = answer_outcome(answered) {
            assert(texts_of(r@) == seq![t]);
            assert(texts_of(r@).len() == r@.len());
            assert(texts_of(r@)[0] == r@[0]@);
        }
    }
}

/// Every row that is written is flushed before the next issue is taken up.
pub proof fn law_row_then_flush(before: SheetRun, after: SheetRun, event: SheetEvent, action: SheetAction)
    requires
        before.well_placed(),
        step_spec(before, after, event, action),
        before.spec_stage() == SheetStage::WritingRow,
        event is Succeeded,
    ensures
        action is Flush,
        after.spec_taken() == before.spec_taken(),
{
}

/// A finished run takes no further event.
pub proof fn law_finished_is_final(run: SheetRun, event: SheetEvent)
    requires
        run.spec_stage() == SheetStage::Finished,
    ensures
        !run.expects(event),
{
}

} // verus!
