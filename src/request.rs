use vstd::prelude::*;
use vstd::string::*;

use crate::codec::{decompress, xz_decoded};
use crate::error::{ServeError, WriteFailure};

verus! {

/// The request parameter that names the file to serve.
pub const PATH_PARAM: &'static str = "DOCUMENT_PATH";

/// The header block written before the decompressed bytes.
pub const CONTENT_HEADER: &'static str = "Content-Type: application/octet-stream\r\n\r\n";

/// The terminator written after the decompressed bytes.
pub const TRAILER: &'static str = "\r\n\r\n";

pub open spec fn header_bytes() -> Seq<u8> {
    CONTENT_HEADER.spec_bytes()
}

pub open spec fn trailer_bytes() -> Seq<u8> {
    TRAILER.spec_bytes()
}

/// Everything written to the primary output for a file whose decompressed
/// contents are `c`.
pub open spec fn success_response(c: Seq<u8>) -> Seq<u8> {
    header_bytes() + c + trailer_bytes()
}

/// Where one request stands, as seen from outside.
pub enum HandlerState {
    /// The document path parameter has not been looked up yet.
    AwaitParam,
    /// The file has been asked for.
    AwaitFile,
    /// The header has been handed out for writing; `c` is the body to follow.
    HeaderSent(Seq<u8>),
    /// The body has been handed out for writing.
    BodySent,
    /// The trailer has been handed out for writing.
    TrailerSent,
    /// The request is answered or has failed.
    Finished,
}

/// What the caller reports back to the handler.
pub enum Event {
    /// The value of the document path parameter, if the request has one.
    Param(Option<String>),
    /// The raw bytes of the file, or the system's description of why it could
    /// not be opened or read.
    FileRead(Result<Vec<u8>, String>),
    /// The outcome of the last write to the primary output.
    Written(Result<(), WriteFailure>),
}

/// What the handler asks the caller to do next.
pub enum Step {
    /// Read the whole file at this path and report `Event::FileRead`.
    ReadFile(String),
    /// Write these bytes to the primary output in one call and report
    /// `Event::Written`.
    Write(Vec<u8>),
    /// The response is complete.
    Done,
    /// The request failed.
    Fail(ServeError),
    /// The event was not the one awaited; nothing changed.
    Ignored,
}

/// The handler's rule: from state `s`, event `e` leads to state `t` and step `r`.
pub open spec fn transition(s: HandlerState, e: Event, t: HandlerState, r: Step) -> bool {
    match s {
        HandlerState::AwaitParam => match e {
            Event::Param(None) => t == HandlerState::Finished && r == Step::Fail(
                ServeError::MissingPath,
            ),
            Event::Param(Some(p)) => t == HandlerState::AwaitFile && r == Step::ReadFile(p),
            _ => t == s && r == Step::Ignored,
        },
        HandlerState::AwaitFile => match e {
            Event::FileRead(Err(m)) => t == HandlerState::Finished && r == Step::Fail(
                ServeError::Filesystem(m),
            ),
            Event::FileRead(Ok(b)) => match xz_decoded(b@) {
                None => t == HandlerState::Finished && r == Step::Fail(ServeError::Data),
                Some(c) => t == HandlerState::HeaderSent(c) && (r matches Step::Write(w) && w@
                    == header_bytes()),
            },
            _ => t == s && r == Step::Ignored,
        },
        HandlerState::HeaderSent(_) | HandlerState::BodySent | HandlerState::TrailerSent => match e {
            Event::Written(Err(f)) => t == HandlerState::Finished && r == Step::Fail(
                ServeError::Write(f),
            ),
            Event::Written(Ok(())) => match s {
                HandlerState::HeaderSent(c) => t == HandlerState::BodySent && (r matches Step::Write(
                    w,
                ) && w@ == c),
                HandlerState::BodySent => t == HandlerState::TrailerSent && (r matches Step::Write(
                    w,
                ) && w@ == trailer_bytes()),
                _ => t == HandlerState::Finished && r == Step::Done,
            },
            _ => t == s && r == Step::Ignored,
        },
        HandlerState::Finished => t == s && r == Step::Ignored,
    }
}

enum Stage {
    AwaitParam,
    AwaitFile,
    HeaderSent(Vec<u8>),
    BodySent,
    TrailerSent,
    Finished,
}

/// The decisions of one request, driven by the events that its caller reports.
pub struct RequestHandler {
    stage: Stage,
}

impl View for RequestHandler {
    type V = HandlerState;

    closed spec fn view(&self) -> HandlerState {
        match self.stage {
            Stage::AwaitParam => HandlerState::AwaitParam,
            Stage::AwaitFile => HandlerState::AwaitFile,
            Stage::HeaderSent(c) => HandlerState::HeaderSent(c@),
            Stage::BodySent => HandlerState::BodySent,
            Stage::TrailerSent => HandlerState::TrailerSent,
            Stage::Finished => HandlerState::Finished,
        }
    }
}

impl RequestHandler {
    /// A handler for a request that has just arrived.
    pub fn new() -> (r: RequestHandler)
        ensures
            r@ == HandlerState::AwaitParam,
    {
        RequestHandler { stage: Stage::AwaitParam }
    }

    /// Takes the caller's report and says what to do next.
    pub fn step(&mut self, e: Event) -> (r: Step)
        ensures
            transition(old(self)@, e, final(self)@, r),
    {
        let mut stage = Stage::Finished;
        std::mem::swap(&mut self.stage, &mut stage);
        match stage {
            Stage::AwaitParam => match e {
                Event::Param(None) => Step::Fail(ServeError::MissingPath),
                Event::Param(Some(p)) => {
                    self.stage = Stage::AwaitFile;
                    Step::ReadFile(p)
                },
                _ => {
                    self.stage = Stage::AwaitParam;
                    Step::Ignored
                },
            },
            Stage::AwaitFile => match e {
                Event::FileRead(Err(m)) => Step::Fail(ServeError::Filesystem(m)),
                Event::FileRead(Ok(b)) => match decompress(b.as_slice()) {
                    Err(err) => Step::Fail(err),
                    Ok(c) => {
                        self.stage = Stage::HeaderSent(c);
                        Step::Write(CONTENT_HEADER.as_bytes_vec())
                    },
                },
                _ => {
                    self.stage = Stage::AwaitFile;
                    Step::Ignored
                },
            },
            Stage::Finished => Step::Ignored,
            sending => match e {
                Event::Written(Err(f)) => Step::Fail(ServeError::Write(f)),
                Event::Written(Ok(())) => match sending {
                    Stage::HeaderSent(c) => {
                        self.stage = Stage::BodySent;
                        Step::Write(c)
                    },
                    Stage::BodySent => {
                        self.stage = Stage::TrailerSent;
                        Step::Write(TRAILER.as_bytes_vec())
                    },
                    _ => Step::Done,
                },
                _ => {
                    self.stage = sending;
                    Step::Ignored
                },
            },
        }
    }
}

/// The reply written to the primary output when a request fails while its
/// peer is still there.
pub const ERROR_STATUS: &'static str = "Status: 500 Internal Server Error\r\n\r\n";

/// How a failed request is reported.
pub struct Report {
    /// Logged to the process's diagnostics and to the request's error stream.
    pub log: String,
    /// Written to the request's primary output.
    pub reply: Vec<u8>,
}

/// The report owed for a failed request: none where the peer is gone,
/// otherwise the error's description and a bare 500 status.
pub fn failure_report(err: &ServeError) -> (r: Option<Report>)
    ensures
        r is None <==> err.client_gone(),
        r matches Some(rep) ==> rep.log@ == err.message_spec() && rep.reply@
            == ERROR_STATUS.spec_bytes(),
{
    if err.is_client_gone() {
        None
    } else {
        Some(Report { log: err.message(), reply: ERROR_STATUS.as_bytes_vec() })
    }
}

/// The bytes that a step hands out for writing.
pub open spec fn written(r: Step) -> Seq<u8> {
    match r {
        Step::Write(w) => w@,
        _ => Seq::empty(),
    }
}

/// Everything that a sequence of steps hands out for writing, in order.
pub open spec fn output(steps: Seq<Step>) -> Seq<u8>
    decreases steps.len(),
{
    if steps.len() == 0 {
        Seq::empty()
    } else {
        output(steps.drop_last()) + written(steps.last())
    }
}

/// A fresh handler, fed the events `es`, passes through `states` and answers
/// with `steps`.
pub open spec fn runs(es: Seq<Event>, states: Seq<HandlerState>, steps: Seq<Step>) -> bool {
    &&& states.len() == es.len() + 1
    &&& steps.len() == es.len()
    &&& states[0] == HandlerState::AwaitParam
    &&& forall|i: int| 0 <= i < es.len() ==> #[trigger] step_at(es, states, steps, i)
}

/// The `i`th event of a run moves its state and gives its step by the rule.
pub open spec fn step_at(es: Seq<Event>, states: Seq<HandlerState>, steps: Seq<Step>, i: int) -> bool {
    transition(states[i], es[i], states[i + 1], steps[i])
}

/// The events of a request for `path` whose file holds `raw`, all writes
/// succeeding.
pub open spec fn served_events(path: String, raw: Vec<u8>) -> Seq<Event> {
    seq![
        Event::Param(Some(path)),
        Event::FileRead(Ok(raw)),
        Event::Written(Ok(())),
        Event::Written(Ok(())),
        Event::Written(Ok(())),
    ]
}

proof fn lemma_output_prefix(steps: Seq<Step>, n: int)
    requires
        0 <= n < steps.len(),
    ensures
        output(steps.take(n + 1)) == output(steps.take(n)) + written(steps[n]),
{
    assert(steps.take(n + 1).drop_last() =~= steps.take(n));
}

/// A finished request stays finished and ignores whatever follows.
proof fn lemma_finished_stays(es: Seq<Event>, states: Seq<HandlerState>, steps: Seq<Step>, i: int)
    requires
        runs(es, states, steps),
        0 <= i <= es.len(),
        states[i] == HandlerState::Finished,
    ensures
        forall|j: int| i <= j <= es.len() ==> states[j] == HandlerState::Finished,
        forall|j: int| i <= j < es.len() ==> steps[j] == Step::Ignored,
        output(steps) == output(steps.take(i)),
    decreases es.len() - i,
{
    if i < es.len() {
        assert(step_at(es, states, steps, i));
        lemma_finished_stays(es, states, steps, i + 1);
        lemma_output_prefix(steps, i);
    } else {
        assert(steps.take(i) =~= steps);
    }
}

/// A request for an existing file whose contents decode to `c` is answered
/// with exactly the header, `c` and the trailer, and then is complete.
pub proof fn lemma_served_response(
    path: String,
    raw: Vec<u8>,
    c: Seq<u8>,
    states: Seq<HandlerState>,
    steps: Seq<Step>,
)
    requires
        xz_decoded(raw@) == Some(c),
        runs(served_events(path, raw), states, steps),
    ensures
        steps[0] == Step::ReadFile(path),
        steps[4] == Step::Done,
        states[5] == HandlerState::Finished,
        output(steps) == success_response(c),
{
    let es = served_events(path, raw);
    assert(step_at(es, states, steps, 0));
    assert(step_at(es, states, steps, 1));
    assert(step_at(es, states, steps, 2));
    assert(step_at(es, states, steps, 3));
    assert(step_at(es, states, steps, 4));
    lemma_output_prefix(steps, 0);
    lemma_output_prefix(steps, 1);
    lemma_output_prefix(steps, 2);
    lemma_output_prefix(steps, 3);
    lemma_output_prefix(steps, 4);
    assert(steps.take(0) =~= Seq::<Step>::empty());
    assert(steps.take(5) =~= steps);
}

/// A request without a document path fails with the protocol error at once,
/// never asks for a file, and writes nothing, whatever is reported afterwards.
pub proof fn lemma_missing_path(es: Seq<Event>, states: Seq<HandlerState>, steps: Seq<Step>)
    requires
        es.len() > 0,
        es[0] == Event::Param(None),
        runs(es, states, steps),
    ensures
        steps[0] == Step::Fail(ServeError::MissingPath),
        forall|j: int| 0 <= j < steps.len() ==> !(steps[j] is ReadFile),
        output(steps) == Seq::<u8>::empty(),
{
    assert(step_at(es, states, steps, 0));
    lemma_finished_stays(es, states, steps, 1);
    lemma_output_prefix(steps, 0);
    assert(steps.take(0) =~= Seq::<Step>::empty());
}

/// A file that cannot be read fails the request with the filesystem error and
/// writes nothing, whatever is reported afterwards.
pub proof fn lemma_unreadable_file(
    es: Seq<Event>,
    states: Seq<HandlerState>,
    steps: Seq<Step>,
    path: String,
    m: String,
)
    requires
        es.len() > 1,
        es[0] == Event::Param(Some(path)),
        es[1] == Event::FileRead(Err(m)),
        runs(es, states, steps),
    ensures
        steps[1] == Step::Fail(ServeError::Filesystem(m)),
        output(steps) == Seq::<u8>::empty(),
{
    assert(step_at(es, states, steps, 0));
    assert(step_at(es, states, steps, 1));
    lemma_finished_stays(es, states, steps, 2);
    lemma_output_prefix(steps, 0);
    lemma_output_prefix(steps, 1);
    assert(steps.take(0) =~= Seq::<Step>::empty());
}

/// Contents that are not a valid xz stream fail the request with the data
/// error and write nothing, whatever is reported afterwards.
pub proof fn lemma_undecodable_file(
    es: Seq<Event>,
    states: Seq<HandlerState>,
    steps: Seq<Step>,
    path: String,
    raw: Vec<u8>,
)
    requires
        es.len() > 1,
        es[0] == Event::Param(Some(path)),
        es[1] == Event::FileRead(Ok(raw)),
        xz_decoded(raw@) is None,
        runs(es, states, steps),
    ensures
        steps[1] == Step::Fail(ServeError::Data),
        output(steps) == Seq::<u8>::empty(),
{
    assert(step_at(es, states, steps, 0));
    assert(step_at(es, states, steps, 1));
    lemma_finished_stays(es, states, steps, 2);
    lemma_output_prefix(steps, 0);
    lemma_output_prefix(steps, 1);
    assert(steps.take(0) =~= Seq::<Step>::empty());
}

/// Handling the same request twice, with the same reports, writes the same
/// bytes and ends in the same state.
pub proof fn lemma_same_request_same_response(
    es: Seq<Event>,
    states1: Seq<HandlerState>,
    steps1: Seq<Step>,
    states2: Seq<HandlerState>,
    steps2: Seq<Step>,
)
    requires
        runs(es, states1, steps1),
        runs(es, states2, steps2),
    ensures
        states1.last() == states2.last(),
        output(steps1) == output(steps2),
{
    lemma_same_prefix(es, states1, steps1, states2, steps2, es.len() as int);
    assert(steps1.take(es.len() as int) =~= steps1);
    assert(steps2.take(es.len() as int) =~= steps2);
}

proof fn lemma_same_prefix(
    es: Seq<Event>,
    states1: Seq<HandlerState>,
    steps1: Seq<Step>,
    states2: Seq<HandlerState>,
    steps2: Seq<Step>,
    n: int,
)
    requires
        runs(es, states1, steps1),
        runs(es, states2, steps2),
        0 <= n <= es.len(),
    ensures
        states1[n] == states2[n],
        output(steps1.take(n)) == output(steps2.take(n)),
    decreases n,
{
    if n == 0 {
        assert(steps1.take(0) =~= Seq::<Step>::empty());
        assert(steps2.take(0) =~= Seq::<Step>::empty());
    } else {
        lemma_same_prefix(es, states1, steps1, states2, steps2, n - 1);
        assert(step_at(es, states1, steps1, n - 1));
        assert(step_at(es, states2, steps2, n - 1));
        lemma_output_prefix(steps1, n - 1);
        lemma_output_prefix(steps2, n - 1);
    }
}

} // verus!
