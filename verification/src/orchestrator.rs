//! The container execution orchestrator: one request's walk from language
//! resolution through provisioning, code injection, attach, start and drain
//! to guaranteed teardown.
//!
//! The orchestrator is a state machine. It never touches the container
//! runtime itself: `next_action` says what the driver must do next, the
//! driver performs it and reports what happened through `on_event`, and
//! `spec_step` is the whole transition relation. Each request owns one
//! `Run`; concurrent requests share nothing.

use vstd::prelude::*;
use vstd::utf8::decode_utf8;
use vstd::utf8::valid_utf8;

use crate::FailureKind;
use crate::FailureModel;
use crate::RunningError;
use crate::collector::append_chunk;
use crate::registry::LangModel;
use crate::registry::LanguageSpec;
use crate::registry::lang_wf;
use crate::registry::lemma_lookup_well_formed;
use crate::registry::lookup;
use crate::registry::spec_lookup;

verus! {

/// Where a request stands. Any failure moves to `Failed` (or straight to
/// `Reaped` when no sandbox exists yet); `Reaped` is always the last stage.
#[derive(Clone, Copy, Debug, PartialEq, Eq, Structural)]
pub enum Stage {
    /// The language resolved; no sandbox exists yet.
    Created,
    /// The sandbox exists, isolated, with the launch command set.
    Provisioned,
    /// The source bytes sit at the code file path inside the sandbox.
    Injected,
    /// The combined output stream is open; the sandbox has not started.
    Attached,
    /// Start was issued; nothing has been read yet.
    Started,
    /// Chunks are being drained into the output buffer.
    Draining,
    /// The stream closed; the full output is in the buffer.
    Completed,
    /// A stage failed; the sandbox still has to be torn down.
    Failed,
    /// Teardown is done (or there was never anything to tear down).
    Reaped,
}

/// One unit read from the sandbox's combined output stream, as the driver
/// observed it.
#[derive(Debug)]
pub enum ChunkEvent {
    /// The transport's input-direction tag. This system never produces it on
    /// this leg; it is ignored, not an error.
    Input,
    /// Bytes the process wrote to standard output.
    Output(Vec<u8>),
    /// Bytes the process wrote to standard error.
    ErrorOutput(Vec<u8>),
    /// The stream failed mid-drain with a transport error.
    TransportError(String),
    /// The stream closed: the process exited.
    Closed,
}

/// What the container runtime reported for the action the orchestrator asked
/// for; an `Err` carries the runtime's message.
#[derive(Debug)]
pub enum Event {
    ProvisionDone(Result<(), String>),
    InjectDone(Result<(), String>),
    AttachDone(Result<(), String>),
    StartDone(Result<(), String>),
    Chunk(ChunkEvent),
    DeleteDone(Result<(), String>),
}

/// What the driver must do next. The data each action needs is read off the
/// `Run` through its getters.
#[derive(Clone, Copy, Debug, PartialEq, Eq, Structural)]
pub enum Action {
    /// Create the sandbox: `image_name`, the launch command, `isolation_flags`.
    Provision,
    /// Write the source bytes to the code file path inside the sandbox.
    Inject,
    /// Open the combined output stream. Strictly before `Start`.
    Attach,
    /// Start the sandbox.
    Start,
    /// Read the next chunk from the stream.
    ReadChunk,
    /// Best-effort delete of the sandbox; its own failure is swallowed.
    Delete,
    /// The run is over; take the outcome.
    Finish,
}

/// The isolation policy every sandbox is created with. Mandatory: network
/// access disabled is the single hard containment boundary between the
/// untrusted code and the rest of the system.
#[derive(Clone, Copy, Debug, PartialEq, Eq, Structural)]
pub struct IsolationFlags {
    /// No ingress, no egress.
    pub network_disabled: bool,
    /// The runtime removes the sandbox once its process exits.
    pub auto_remove: bool,
    /// Standard output is captured into the combined stream.
    pub attach_stdout: bool,
    /// Standard error is captured into the combined stream.
    pub attach_stderr: bool,
}

/// The single fixed base image every sandbox is created from, pre-loaded
/// with all supported interpreters, compilers and helper launch scripts.
pub fn image_name() -> (s: &'static str)
    ensures
        s@ == spec_image(),
{
    "ds-code-user-code"
}

pub open spec fn spec_image() -> Seq<char> {
    "ds-code-user-code"@
}

/// The flags every provisioning must use: network disabled, auto-remove on
/// exit, both output streams captured.
pub fn isolation_flags() -> (f: IsolationFlags)
    ensures
        f.network_disabled,
        f.auto_remove,
        f.attach_stdout,
        f.attach_stderr,
{
    IsolationFlags {
        network_disabled: true,
        auto_remove: true,
        attach_stdout: true,
        attach_stderr: true,
    }
}

/// One request: the language's launch specification, the raw source, the
/// output gathered so far, and where the run stands.
#[derive(Debug)]
pub struct Run {
    stage: Stage,
    lang: LanguageSpec,
    source: String,
    output: String,
    failure: Option<RunningError>,
    provisioned: bool,
    delete_attempted: bool,
}

/// The mathematical value of a `Run`.
#[verifier::ext_equal]
pub ghost struct RunModel {
    pub stage: Stage,
    pub lang: LangModel,
    pub source: Seq<char>,
    pub output: Seq<char>,
    pub failure: Option<FailureModel>,
    /// A sandbox was created for this request.
    pub provisioned: bool,
    /// The best-effort delete of that sandbox was issued.
    pub delete_attempted: bool,
}

impl View for Run {
    type V = RunModel;

    closed spec fn view(&self) -> RunModel {
        RunModel {
            stage: self.stage,
            lang: self.lang@,
            source: self.source@,
            output: self.output@,
            failure: match self.failure {
                Some(e) => Some(e@),
                None => None,
            },
            provisioned: self.provisioned,
            delete_attempted: self.delete_attempted,
        }
    }
}

/// A fresh request for `lang`, holding `source`: nothing provisioned, nothing
/// collected, nothing failed.
pub open spec fn spec_init(lang: LangModel, source: Seq<char>) -> RunModel {
    RunModel {
        stage: Stage::Created,
        lang: lang,
        source: source,
        output: Seq::empty(),
        failure: None,
        provisioned: false,
        delete_attempted: false,
    }
}

/// A stage failed: record the failure once, and move to `Failed` if there is
/// a sandbox left to tear down, else straight to `Reaped`.
pub open spec fn spec_fail(s: RunModel, kind: FailureKind, msg: Seq<char>) -> RunModel {
    RunModel {
        stage: if s.provisioned {
            Stage::Failed
        } else {
            Stage::Reaped
        },
        failure: Some(FailureModel { kind: kind, msg: msg }),
        ..s
    }
}

/// The message a run fails with when a chunk is not text.
pub open spec fn spec_decode_failure_msg() -> Seq<char> {
    "output is not valid UTF-8"@
}

/// How one chunk moves the run: input-direction chunks are ignored, output
/// and error chunks are decoded and appended in arrival order, a transport
/// error or an undecodable chunk fails the run, and the stream's close
/// completes it.
pub open spec fn spec_chunk_step(s: RunModel, c: ChunkEvent) -> RunModel {
    match c {
        ChunkEvent::Input => RunModel { stage: Stage::Draining, ..s },
        ChunkEvent::Output(b) => if valid_utf8(b@) {
            RunModel { stage: Stage::Draining, output: s.output + decode_utf8(b@), ..s }
        } else {
            spec_fail(s, FailureKind::DecodeFailure, spec_decode_failure_msg())
        },
        ChunkEvent::ErrorOutput(b) => if valid_utf8(b@) {
            RunModel { stage: Stage::Draining, output: s.output + decode_utf8(b@), ..s }
        } else {
            spec_fail(s, FailureKind::DecodeFailure, spec_decode_failure_msg())
        },
        ChunkEvent::TransportError(m) => spec_fail(s, FailureKind::StreamFailure, m@),
        ChunkEvent::Closed => RunModel { stage: Stage::Completed, ..s },
    }
}

/// The whole transition relation: what each runtime report does to the run.
/// An event that does not belong to the run's stage changes nothing.
pub open spec fn spec_step(s: RunModel, e: Event) -> RunModel {
    match e {
        Event::ProvisionDone(r) => if s.stage == Stage::Created {
            match r {
                Ok(_) => RunModel { stage: Stage::Provisioned, provisioned: true, ..s },
                Err(m) => spec_fail(s, FailureKind::ProvisionFailure, m@),
            }
        } else {
            s
        },
        Event::InjectDone(r) => if s.stage == Stage::Provisioned {
            match r {
                Ok(_) => RunModel { stage: Stage::Injected, ..s },
                Err(m) => spec_fail(s, FailureKind::InjectionFailure, m@),
            }
        } else {
            s
        },
        Event::AttachDone(r) => if s.stage == Stage::Injected {
            match r {
                Ok(_) => RunModel { stage: Stage::Attached, ..s },
                Err(m) => spec_fail(s, FailureKind::AttachFailure, m@),
            }
        } else {
            s
        },
        Event::StartDone(r) => if s.stage == Stage::Attached {
            match r {
                Ok(_) => RunModel { stage: Stage::Started, ..s },
                Err(m) => spec_fail(s, FailureKind::StartFailure, m@),
            }
        } else {
            s
        },
        Event::Chunk(c) => if s.stage == Stage::Started || s.stage == Stage::Draining {
            spec_chunk_step(s, c)
        } else {
            s
        },
        Event::DeleteDone(_) => if s.stage == Stage::Completed || s.stage == Stage::Failed {
            RunModel { stage: Stage::Reaped, delete_attempted: true, ..s }
        } else {
            s
        },
    }
}

/// What the driver must do next, as a function of the run's stage alone.
pub open spec fn spec_action(s: RunModel) -> Action {
    match s.stage {
        Stage::Created => Action::Provision,
        Stage::Provisioned => Action::Inject,
        Stage::Injected => Action::Attach,
        Stage::Attached => Action::Start,
        Stage::Started => Action::ReadChunk,
        Stage::Draining => Action::ReadChunk,
        Stage::Completed => Action::Delete,
        Stage::Failed => Action::Delete,
        Stage::Reaped => Action::Finish,
    }
}

/// The run's invariant. In particular: a failure is recorded exactly from
/// `Failed` on; every stage past `Created` (except a pre-provision `Reaped`)
/// owns a sandbox; and once `Reaped`, a provisioned sandbox has had its
/// delete issued — no sandbox outlives its request.
pub open spec fn wf(s: RunModel) -> bool {
    &&& lang_wf(s.lang)
    &&& match s.stage {
        Stage::Created => !s.provisioned && !s.delete_attempted && s.failure is None
            && s.output.len() == 0,
        Stage::Provisioned => s.provisioned && !s.delete_attempted && s.failure is None,
        Stage::Injected => s.provisioned && !s.delete_attempted && s.failure is None,
        Stage::Attached => s.provisioned && !s.delete_attempted && s.failure is None,
        Stage::Started => s.provisioned && !s.delete_attempted && s.failure is None,
        Stage::Draining => s.provisioned && !s.delete_attempted && s.failure is None,
        Stage::Completed => s.provisioned && !s.delete_attempted && s.failure is None,
        Stage::Failed => s.provisioned && !s.delete_attempted && s.failure is Some,
        Stage::Reaped => (s.provisioned ==> s.delete_attempted) && (!s.provisioned
            ==> s.failure is Some),
    }
}

impl Run {
    /// Resolves the language and opens a request. Fails, with
    /// `UnknownLanguage` and before anything is provisioned, exactly on the
    /// ids the registry does not hold.
    pub fn new(language_id: &str, source_code: &str) -> (r: Result<Run, RunningError>)
        ensures
            match r {
                Ok(run) => {
                    &&& spec_lookup(language_id@) matches Some(m) && run@ == spec_init(
                        m,
                        source_code@,
                    )
                    &&& wf(run@)
                },
                Err(e) => {
                    &&& spec_lookup(language_id@) is None
                    &&& e@.kind == FailureKind::UnknownLanguage
                    &&& e@.msg == "Unknown language"@
                },
            },
    {
        match lookup(language_id) {
            Some(lang) => {
                let run = Run {
                    stage: Stage::Created,
                    lang: lang,
                    source: String::from_str(source_code),
                    output: String::new(),
                    failure: None,
                    provisioned: false,
                    delete_attempted: false,
                };
                proof {
                    lemma_lookup_well_formed(language_id@);
                    assert(run@ =~= spec_init(run@.lang, source_code@));
                }
                Ok(run)
            },
            None => Err(
                RunningError {
                    kind: FailureKind::UnknownLanguage,
                    msg: String::from_str("Unknown language"),
                },
            ),
        }
    }

    /// Records a stage's failure and moves to teardown.
    fn fail(&mut self, kind: FailureKind, msg: String)
        ensures
            final(self)@ == spec_fail(old(self)@, kind, msg@),
    {
        self.failure = Some(RunningError { kind: kind, msg: msg });
        if self.provisioned {
            self.stage = Stage::Failed;
        } else {
            self.stage = Stage::Reaped;
        }
        proof {
            assert(self@ =~= spec_fail(old(self)@, kind, msg@));
        }
    }

    /// Decodes an output or error chunk into the buffer; a chunk that is not
    /// valid UTF-8 aborts the whole collection.
    fn take_bytes(&mut self, bytes: Vec<u8>)
        ensures
            valid_utf8(bytes@) ==> final(self)@ == (RunModel {
                stage: Stage::Draining,
                output: old(self)@.output + decode_utf8(bytes@),
                ..old(self)@
            }),
            !valid_utf8(bytes@) ==> final(self)@ == spec_fail(
                old(self)@,
                FailureKind::DecodeFailure,
                spec_decode_failure_msg(),
            ),
    {
        let ghost pre = self@;
        if append_chunk(&mut self.output, bytes) {
            self.stage = Stage::Draining;
            proof {
                assert(self@ =~= (RunModel {
                    stage: Stage::Draining,
                    output: pre.output + decode_utf8(bytes@),
                    ..pre
                }));
            }
        } else {
            self.fail(FailureKind::DecodeFailure, String::from_str("output is not valid UTF-8"));
            proof {
                assert(self@ =~= spec_fail(pre, FailureKind::DecodeFailure, spec_decode_failure_msg()));
            }
        }
    }

    /// Applies one chunk of the combined stream.
    fn absorb(&mut self, c: ChunkEvent)
        ensures
            final(self)@ == spec_chunk_step(old(self)@, c),
    {
        match c {
            ChunkEvent::Input => {
                self.stage = Stage::Draining;
                proof {
                    assert(self@ =~= (RunModel { stage: Stage::Draining, ..old(self)@ }));
                }
            },
            ChunkEvent::Output(b) => self.take_bytes(b),
            ChunkEvent::ErrorOutput(b) => self.take_bytes(b),
            ChunkEvent::TransportError(m) => self.fail(FailureKind::StreamFailure, m),
            ChunkEvent::Closed => {
                self.stage = Stage::Completed;
                proof {
                    assert(self@ =~= (RunModel { stage: Stage::Completed, ..old(self)@ }));
                }
            },
        }
    }

    /// Applies one runtime report. The new state is `spec_step` of the old
    /// state and the event, and of nothing else: no other request enters.
    pub fn on_event(&mut self, e: Event)
        ensures
            final(self)@ == spec_step(old(self)@, e),
    {
        match e {
            Event::ProvisionDone(r) => {
                if self.stage == Stage::Created {
                    match r {
                        Ok(_) => {
                            self.stage = Stage::Provisioned;
                            self.provisioned = true;
                            proof {
                                assert(self@ =~= (RunModel {
                                    stage: Stage::Provisioned,
                                    provisioned: true,
                                    ..old(self)@
                                }));
                            }
                        },
                        Err(m) => self.fail(FailureKind::ProvisionFailure, m),
                    }
                }
            },
            Event::InjectDone(r) => {
                if self.stage == Stage::Provisioned {
                    match r {
                        Ok(_) => {
                            self.stage = Stage::Injected;
                            proof {
                                assert(self@ =~= (RunModel {
                                    stage: Stage::Injected,
                                    ..old(self)@
                                }));
                            }
                        },
                        Err(m) => self.fail(FailureKind::InjectionFailure, m),
                    }
                }
            },
            Event::AttachDone(r) => {
                if self.stage == Stage::Injected {
                    match r {
                        Ok(_) => {
                            self.stage = Stage::Attached;
                            proof {
                                assert(self@ =~= (RunModel {
                                    stage: Stage::Attached,
                                    ..old(self)@
                                }));
                            }
                        },
                        Err(m) => self.fail(FailureKind::AttachFailure, m),
                    }
                }
            },
            Event::StartDone(r) => {
                if self.stage == Stage::Attached {
                    match r {
                        Ok(_) => {
                            self.stage = Stage::Started;
                            proof {
                                assert(self@ =~= (RunModel {
                                    stage: Stage::Started,
                                    ..old(self)@
                                }));
                            }
                        },
                        Err(m) => self.fail(FailureKind::StartFailure, m),
                    }
                }
            },
            Event::Chunk(c) => {
                if self.stage == Stage::Started || self.stage == Stage::Draining {
                    self.absorb(c);
                }
            },
            Event::DeleteDone(_) => {
                if self.stage == Stage::Completed || self.stage == Stage::Failed {
                    self.stage = Stage::Reaped;
                    self.delete_attempted = true;
                    proof {
                        assert(self@ =~= (RunModel {
                            stage: Stage::Reaped,
                            delete_attempted: true,
                            ..old(self)@
                        }));
                    }
                }
            },
        }
    }

    /// What the driver must do next.
    pub fn next_action(&self) -> (a: Action)
        ensures
            a == spec_action(self@),
    {
        match self.stage {
            Stage::Created => Action::Provision,
            Stage::Provisioned => Action::Inject,
            Stage::Injected => Action::Attach,
            Stage::Attached => Action::Start,
            Stage::Started => Action::ReadChunk,
            Stage::Draining => Action::ReadChunk,
            Stage::Completed => Action::Delete,
            Stage::Failed => Action::Delete,
            Stage::Reaped => Action::Finish,
        }
    }

    /// Where the run stands.
    pub fn stage(&self) -> (s: Stage)
        ensures
            s == self@.stage,
    {
        self.stage
    }

    /// The argv the sandbox must be created with.
    pub fn launch_command(&self) -> (c: &Vec<String>)
        ensures
            c.deep_view() == self@.lang.launch_command,
    {
        &self.lang.launch_command
    }

    /// Where the source bytes must be written before start.
    pub fn code_file_path(&self) -> (p: &String)
        ensures
            p@ == self@.lang.code_file_path,
    {
        &self.lang.code_file_path
    }

    /// The raw source, to be injected verbatim: no sanitization, no size
    /// limit, no encoding check.
    pub fn source_code(&self) -> (s: &String)
        ensures
            s@ == self@.source,
    {
        &self.source
    }

    /// The request's single reported outcome: the full collected output, or
    /// the one failure; output gathered before a failure is discarded.
    pub fn into_outcome(self) -> (r: Result<String, RunningError>)
        requires
            self@.stage == Stage::Reaped,
        ensures
            match self@.failure {
                None => r matches Ok(out) && out@ == self@.output,
                Some(f) => r matches Err(e) && e@ == f,
            },
    {
        match self.failure {
            Some(e) => Err(e),
            None => Ok(self.output),
        }
    }
}

/// The run after a whole sequence of runtime reports.
pub open spec fn spec_run(s: RunModel, events: Seq<Event>) -> RunModel
    decreases events.len(),
{
    if events.len() == 0 {
        s
    } else {
        spec_run(spec_step(s, events[0]), events.skip(1))
    }
}

/// One step preserves the invariant.
pub proof fn lemma_step_preserves_wf(s: RunModel, e: Event)
    requires
        wf(s),
    ensures
        wf(spec_step(s, e)),
{
}

/// Any sequence of runtime reports preserves the invariant.
pub proof fn lemma_run_preserves_wf(s: RunModel, events: Seq<Event>)
    requires
        wf(s),
    ensures
        wf(spec_run(s, events)),
    decreases events.len(),
{
    if events.len() > 0 {
        lemma_step_preserves_wf(s, events[0]);
        lemma_run_preserves_wf(spec_step(s, events[0]), events.skip(1));
    }
}

/// No sandbox outlives its request: however a run went, once it reports its
/// outcome (its next action is `Finish`), either no sandbox was ever
/// provisioned for it, or the delete of that sandbox has been issued.
pub proof fn lemma_no_sandbox_outlives_run(s0: RunModel, events: Seq<Event>)
    requires
        wf(s0),
    ensures
        ({
            let end = spec_run(s0, events);
            spec_action(end) == Action::Finish && end.provisioned ==> end.delete_attempted
        }),
{
    lemma_run_preserves_wf(s0, events);
}

/// A cleanup failure is swallowed: whatever the delete reported, the run
/// moves on identically, so the request's outcome never changes with it.
pub proof fn lemma_cleanup_failure_swallowed(
    s: RunModel,
    r1: Result<(), String>,
    r2: Result<(), String>,
)
    ensures
        spec_step(s, Event::DeleteDone(r1)) == spec_step(s, Event::DeleteDone(r2)),
{
}

/// Output and error chunks land in the buffer in arrival order, appended at
/// the end, and the two origins are treated alike: interleaved writes appear
/// in the result in the order they were read.
pub proof fn lemma_chunks_appended_in_order(s: RunModel, b: Vec<u8>)
    requires
        s.stage == Stage::Started || s.stage == Stage::Draining,
        valid_utf8(b@),
    ensures
        spec_step(s, Event::Chunk(ChunkEvent::Output(b))).output == s.output + decode_utf8(b@),
        spec_step(s, Event::Chunk(ChunkEvent::ErrorOutput(b))).output == s.output + decode_utf8(
            b@,
        ),
{
}

/// A chunk that carries process output (standard output or standard error)
/// whose bytes decode as UTF-8.
pub open spec fn is_text_chunk(c: ChunkEvent) -> bool {
    match c {
        ChunkEvent::Output(b) => valid_utf8(b@),
        ChunkEvent::ErrorOutput(b) => valid_utf8(b@),
        _ => false,
    }
}

/// The bytes an output or error chunk carries.
pub open spec fn chunk_bytes(c: ChunkEvent) -> Seq<u8> {
    match c {
        ChunkEvent::Output(b) => b@,
        ChunkEvent::ErrorOutput(b) => b@,
        _ => Seq::empty(),
    }
}

/// The decodings of a sequence of chunks, concatenated in that order.
pub open spec fn decoded_concat(chunks: Seq<ChunkEvent>) -> Seq<char>
    decreases chunks.len(),
{
    if chunks.len() == 0 {
        Seq::empty()
    } else {
        decode_utf8(chunk_bytes(chunks[0])) + decoded_concat(chunks.skip(1))
    }
}

/// Over a whole drain: a run that is reading chunks, fed any interleaving of
/// standard-output and standard-error chunks that decode, ends holding their
/// decodings concatenated in exactly arrival order — the two origins are
/// merged into one buffer, nothing reordered, nothing dropped.
pub proof fn lemma_drain_keeps_arrival_order(s: RunModel, chunks: Seq<ChunkEvent>)
    requires
        s.stage == Stage::Started || s.stage == Stage::Draining,
        forall|i: int| 0 <= i < chunks.len() ==> is_text_chunk(#[trigger] chunks[i]),
    ensures
        spec_run(s, chunks.map_values(|c: ChunkEvent| Event::Chunk(c))).output == s.output
            + decoded_concat(chunks),
    decreases chunks.len(),
{
    let events = chunks.map_values(|c: ChunkEvent| Event::Chunk(c));
    if chunks.len() == 0 {
        assert(s.output + decoded_concat(chunks) =~= s.output);
    } else {
        let c = chunks[0];
        let s1 = spec_step(s, events[0]);
        assert(s1.stage == Stage::Draining);
        assert(s1.output == s.output + decode_utf8(chunk_bytes(c)));
        assert(events.skip(1) =~= chunks.skip(1).map_values(|c: ChunkEvent| Event::Chunk(c)));
        lemma_drain_keeps_arrival_order(s1, chunks.skip(1));
        assert(s.output + decode_utf8(chunk_bytes(c)) + decoded_concat(chunks.skip(1)) =~= s.output
            + decoded_concat(chunks));
    }
}

/// Concurrent requests are independent: a run's next state is a function of
/// its own state and its own event alone, so no request can observe, or
/// disturb, another's sandbox or output.
pub proof fn lemma_requests_independent(a: RunModel, b: RunModel, e: Event)
    requires
        a == b,
    ensures
        spec_step(a, e) == spec_step(b, e),
{
}

/// The pipeline's ordering holds on every path: a stage is entered only from
/// its predecessor on that predecessor's successful report. In particular
/// the source is injected strictly before start, and the stream is attached
/// strictly before start.
pub proof fn lemma_pipeline_order(s: RunModel, e: Event)
    ensures
        spec_step(s, e).stage == Stage::Provisioned ==> (s.stage == Stage::Provisioned || (
        e matches Event::ProvisionDone(r) && r is Ok && s.stage == Stage::Created)),
        spec_step(s, e).stage == Stage::Injected ==> (s.stage == Stage::Injected || (
        e matches Event::InjectDone(r) && r is Ok && s.stage == Stage::Provisioned)),
        spec_step(s, e).stage == Stage::Attached ==> (s.stage == Stage::Attached || (
        e matches Event::AttachDone(r) && r is Ok && s.stage == Stage::Injected)),
        spec_step(s, e).stage == Stage::Started ==> (s.stage == Stage::Started || (
        e matches Event::StartDone(r) && r is Ok && s.stage == Stage::Attached)),
{
}

} // verus!
