use ds_code::orchestrator::image_name;
use ds_code::orchestrator::isolation_flags;
use ds_code::orchestrator::Action;
use ds_code::orchestrator::ChunkEvent;
use ds_code::orchestrator::Event;
use ds_code::orchestrator::Run;
use ds_code::orchestrator::Stage;
use ds_code::FailureKind;
use ds_code::RunningError;

/// A runtime test double: answers each action the orchestrator asks for from
/// a script, and records how often a sandbox was created and deleted.
struct Double {
    provision: Result<(), String>,
    inject: Result<(), String>,
    attach: Result<(), String>,
    start: Result<(), String>,
    chunks: Vec<ChunkEvent>,
    delete: Result<(), String>,
}

impl Double {
    fn happy(chunks: Vec<ChunkEvent>) -> Double {
        Double {
            provision: Ok(()),
            inject: Ok(()),
            attach: Ok(()),
            start: Ok(()),
            chunks,
            delete: Ok(()),
        }
    }
}

/// Drives one run to its end against the double; returns the outcome and the
/// number of create and delete calls the double saw.
fn drive(mut run: Run, mut double: Double) -> (Result<String, RunningError>, u32, u32) {
    let mut creates = 0u32;
    let mut deletes = 0u32;
    let mut chunks = double.chunks.drain(..);
    loop {
        match run.next_action() {
            Action::Provision => {
                creates += 1;
                run.on_event(Event::ProvisionDone(double.provision.clone()));
            }
            Action::Inject => run.on_event(Event::InjectDone(double.inject.clone())),
            Action::Attach => run.on_event(Event::AttachDone(double.attach.clone())),
            Action::Start => run.on_event(Event::StartDone(double.start.clone())),
            Action::ReadChunk => {
                let c = chunks.next().unwrap_or(ChunkEvent::Closed);
                run.on_event(Event::Chunk(c));
            }
            Action::Delete => {
                deletes += 1;
                run.on_event(Event::DeleteDone(double.delete.clone()));
            }
            Action::Finish => break,
        }
    }
    assert_eq!(run.stage(), Stage::Reaped, "every run ends reaped");
    (run.into_outcome(), creates, deletes)
}

fn out(bytes: &[u8]) -> ChunkEvent {
    ChunkEvent::Output(bytes.to_vec())
}

fn err_out(bytes: &[u8]) -> ChunkEvent {
    ChunkEvent::ErrorOutput(bytes.to_vec())
}

#[test]
fn unknown_language_fails_before_any_provisioning() {
    let e = Run::new("brainfuck", "+++").expect_err("unsupported id");
    assert_eq!(e.kind, FailureKind::UnknownLanguage);
    assert_eq!(e.msg, "Unknown language");
}

#[test]
fn python_two_prints_return_both_lines() {
    let run = Run::new("python", "print(1)\nprint(2)").expect("python is supported");
    let (outcome, creates, deletes) = drive(run, Double::happy(vec![out(b"1\n"), out(b"2\n")]));
    assert_eq!(outcome.expect("run succeeds"), "1\n2\n");
    assert_eq!((creates, deletes), (1, 1));
}

#[test]
fn orchestrator_asks_for_the_stages_in_order() {
    let mut run = Run::new("py", "print(1)").expect("py is supported");
    assert_eq!(run.next_action(), Action::Provision);
    run.on_event(Event::ProvisionDone(Ok(())));
    assert_eq!(run.next_action(), Action::Inject);
    run.on_event(Event::InjectDone(Ok(())));
    assert_eq!(run.next_action(), Action::Attach);
    run.on_event(Event::AttachDone(Ok(())));
    assert_eq!(run.next_action(), Action::Start);
    run.on_event(Event::StartDone(Ok(())));
    assert_eq!(run.next_action(), Action::ReadChunk);
    run.on_event(Event::Chunk(ChunkEvent::Closed));
    assert_eq!(run.next_action(), Action::Delete);
    run.on_event(Event::DeleteDone(Ok(())));
    assert_eq!(run.next_action(), Action::Finish);
    assert_eq!(run.into_outcome().expect("empty run succeeds"), "");
}

#[test]
fn interleaved_stdout_and_stderr_keep_arrival_order() {
    let run = Run::new("python", "x").expect("python is supported");
    let chunks = vec![out(b"a"), err_out(b"b"), out(b"c"), err_out(b"d")];
    let (outcome, _, _) = drive(run, Double::happy(chunks));
    assert_eq!(outcome.expect("run succeeds"), "abcd");
}

#[test]
fn input_direction_chunks_are_ignored() {
    let run = Run::new("lua", "x").expect("lua is supported");
    let chunks = vec![ChunkEvent::Input, out(b"hi"), ChunkEvent::Input];
    let (outcome, _, _) = drive(run, Double::happy(chunks));
    assert_eq!(outcome.expect("run succeeds"), "hi");
}

#[test]
fn multibyte_output_is_decoded_as_text() {
    let run = Run::new("python", "x").expect("python is supported");
    let (outcome, _, _) = drive(run, Double::happy(vec![out("héllo".as_bytes())]));
    let text = outcome.expect("run succeeds");
    assert_eq!(text, "héllo");
    assert_eq!(text.chars().count(), 5);
}

#[test]
fn invalid_utf8_discards_earlier_output_and_fails() {
    let run = Run::new("python", "x").expect("python is supported");
    let chunks = vec![out(b"partial"), out(&[0xff, 0xfe])];
    let (outcome, creates, deletes) = drive(run, Double::happy(chunks));
    let e = outcome.expect_err("undecodable chunk fails the run");
    assert_eq!(e.kind, FailureKind::DecodeFailure);
    assert_eq!((creates, deletes), (1, 1));
}

#[test]
fn transport_error_fails_the_stream_and_still_reaps() {
    let run = Run::new("js", "x").expect("js is supported");
    let chunks = vec![out(b"some"), ChunkEvent::TransportError("broken pipe".to_string())];
    let (outcome, creates, deletes) = drive(run, Double::happy(chunks));
    let e = outcome.expect_err("transport error fails the run");
    assert_eq!(e.kind, FailureKind::StreamFailure);
    assert_eq!(e.msg, "broken pipe");
    assert_eq!((creates, deletes), (1, 1));
}

#[test]
fn provision_failure_reports_and_leaves_nothing_to_delete() {
    let run = Run::new("c", "int main() {}").expect("c is supported");
    let mut double = Double::happy(vec![]);
    double.provision = Err("daemon unreachable".to_string());
    let (outcome, creates, deletes) = drive(run, double);
    let e = outcome.expect_err("provision failure fails the run");
    assert_eq!(e.kind, FailureKind::ProvisionFailure);
    assert_eq!(e.msg, "daemon unreachable");
    assert_eq!((creates, deletes), (1, 0), "nothing was created, nothing to delete");
}

#[test]
fn injection_failure_reports_and_reaps() {
    let run = Run::new("cpp", "x").expect("cpp is supported");
    let mut double = Double::happy(vec![]);
    double.inject = Err("copy failed".to_string());
    let (outcome, creates, deletes) = drive(run, double);
    assert_eq!(outcome.expect_err("injection failure").kind, FailureKind::InjectionFailure);
    assert_eq!((creates, deletes), (1, 1));
}

#[test]
fn attach_failure_reports_and_reaps() {
    let run = Run::new("rust", "x").expect("rust is supported");
    let mut double = Double::happy(vec![]);
    double.attach = Err("no stream".to_string());
    let (outcome, _, deletes) = drive(run, double);
    assert_eq!(outcome.expect_err("attach failure").kind, FailureKind::AttachFailure);
    assert_eq!(deletes, 1);
}

#[test]
fn start_failure_reports_and_reaps() {
    let run = Run::new("rs", "x").expect("rs is supported");
    let mut double = Double::happy(vec![]);
    double.start = Err("cannot start".to_string());
    let (outcome, _, deletes) = drive(run, double);
    assert_eq!(outcome.expect_err("start failure").kind, FailureKind::StartFailure);
    assert_eq!(deletes, 1);
}

#[test]
fn cleanup_failure_is_swallowed() {
    let run = Run::new("python", "x").expect("python is supported");
    let mut double = Double::happy(vec![out(b"fine")]);
    double.delete = Err("already gone".to_string());
    let (outcome, _, deletes) = drive(run, double);
    assert_eq!(outcome.expect("delete failure never changes the outcome"), "fine");
    assert_eq!(deletes, 1);
}

#[test]
fn concurrent_requests_never_see_each_other() {
    let mut a = Run::new("python", "print(1)").expect("python is supported");
    let mut b = Run::new("lua", "print(2)").expect("lua is supported");
    // Interleave the two runs step by step; `a` fails mid-drain, `b` drains on.
    a.on_event(Event::ProvisionDone(Ok(())));
    b.on_event(Event::ProvisionDone(Ok(())));
    a.on_event(Event::InjectDone(Ok(())));
    b.on_event(Event::InjectDone(Ok(())));
    a.on_event(Event::AttachDone(Ok(())));
    b.on_event(Event::AttachDone(Ok(())));
    a.on_event(Event::StartDone(Ok(())));
    b.on_event(Event::StartDone(Ok(())));
    a.on_event(Event::Chunk(out(b"a1")));
    b.on_event(Event::Chunk(out(b"b1")));
    a.on_event(Event::Chunk(ChunkEvent::TransportError("lost".to_string())));
    b.on_event(Event::Chunk(out(b"b2")));
    b.on_event(Event::Chunk(ChunkEvent::Closed));
    assert_eq!(a.next_action(), Action::Delete);
    a.on_event(Event::DeleteDone(Ok(())));
    b.on_event(Event::DeleteDone(Ok(())));
    let e = a.into_outcome().expect_err("the failing run fails alone");
    assert_eq!(e.kind, FailureKind::StreamFailure);
    assert_eq!(b.into_outcome().expect("the other run is untouched"), "b1b2");
}

#[test]
fn isolation_policy_is_mandatory() {
    let f = isolation_flags();
    assert!(f.network_disabled, "network isolation is the containment boundary");
    assert!(f.auto_remove);
    assert!(f.attach_stdout);
    assert!(f.attach_stderr);
    assert_eq!(image_name(), "ds-code-user-code");
}

#[test]
fn run_exposes_what_the_driver_needs() {
    let run = Run::new("python", "print(1)").expect("python is supported");
    assert_eq!(run.stage(), Stage::Created);
    let tokens: Vec<&str> = run.launch_command().iter().map(|t| t.as_str()).collect();
    assert_eq!(tokens, vec!["timeout", "2s", "/usr/bin/python3", "/user_code.py"]);
    assert_eq!(run.code_file_path(), "/user_code.py");
    assert_eq!(run.source_code(), "print(1)");
}
