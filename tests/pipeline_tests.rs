use lambda_endpoint::config::{DataBaseConfig, GlobalConfig};
use lambda_endpoint::definition::Trace;
use lambda_endpoint::pipeline::{start_run, RunEvent, RunStep, StartError, TraceRun};
use lambda_endpoint::script::Backend;
use lambda_endpoint::submission::{encode_body, start_chunk, ChunkStatus, SubmissionChunk};

fn config(chunk: usize) -> GlobalConfig {
    GlobalConfig {
        root_password: "pw".to_string(),
        bpf_path: "/usr/bin/bpftrace".to_string(),
        stap_path: "/usr/bin/stap".to_string(),
        submit_chunk_size: chunk,
        platform_url: "http://platform".to_string(),
        secret: "secret".to_string(),
        endpoint_uuid: "endpoint".to_string(),
        listen_address: "127.0.0.1".to_string(),
        listen_port: 8080,
        pool_size: 7,
        database_config: DataBaseConfig {
            address: "localhost".to_string(),
            port: 5432,
            username: "u".to_string(),
            password: "p".to_string(),
            database: "d".to_string(),
        },
    }
}

fn definition() -> Trace {
    Trace {
        id: 3,
        process: "nginx".to_string(),
        function_list: vec!["handle_request".to_string()],
        environment: vec!["A".to_string()],
        values: vec!["1".to_string()],
        options: vec!["-v".to_string()],
    }
}

fn copy(c: &SubmissionChunk) -> (String, ChunkStatus, Option<String>, Option<String>, u64) {
    (c.trace.clone(), c.status, c.body.clone(), c.stderr.clone(), c.no)
}

fn submit(run: &mut TraceRun, sent: &mut Vec<(String, ChunkStatus, Option<String>, Option<String>, u64)>) {
    sent.push(copy(run.pending_chunk().unwrap()));
    run.advance(RunEvent::Completed);
}

fn launch(run: &mut TraceRun) {
    assert_eq!(run.step(), RunStep::WriteScript);
    run.advance(RunEvent::Completed);
    assert_eq!(run.step(), RunStep::SubmitStart);
}

#[test]
fn test_submit() {
    let cfg = config(4);
    let mut run = definition().run(1, Backend::Stap, &cfg).unwrap();
    let name = run.name().clone();
    assert!(name.ends_with(".stap"));
    assert!(run.script().content.contains("probe process(\"nginx\").function(\"handle_request\")"));
    let plan = run.launch_plan();
    assert_eq!(plan.program, "sudo");
    assert_eq!(plan.args, vec!["-S".to_string(), "/usr/bin/stap".to_string(), name.clone(), "-v".to_string()]);
    assert_eq!(plan.envs, vec![("A".to_string(), "1".to_string())]);
    assert_eq!(run.credential(), "pw");

    let mut sent = Vec::new();
    launch(&mut run);
    submit(&mut run, &mut sent);
    assert_eq!(run.step(), RunStep::Spawn);
    run.advance(RunEvent::Completed);
    assert_eq!(run.step(), RunStep::WriteCredential);
    run.advance(RunEvent::Completed);
    assert_eq!(run.step(), RunStep::Register);
    run.advance(RunEvent::Completed);
    assert_eq!(run.step(), RunStep::Read);
    assert_eq!(run.chunk_size(), 4);

    run.advance(RunEvent::Output(b"abcd".to_vec()));
    assert_eq!(run.step(), RunStep::SubmitOutput);
    submit(&mut run, &mut sent);
    run.advance(RunEvent::Output(b"efgh".to_vec()));
    submit(&mut run, &mut sent);
    run.advance(RunEvent::Output(b"ij".to_vec()));
    assert_eq!(run.step(), RunStep::ReadStderr);
    assert!(run.pending_chunk().is_none());
    run.advance(RunEvent::ErrorOutput("warn".to_string()));
    assert_eq!(run.step(), RunStep::SubmitFinished);
    submit(&mut run, &mut sent);
    assert_eq!(run.step(), RunStep::Unregister);
    run.advance(RunEvent::Completed);
    assert_eq!(run.step(), RunStep::Done);
    assert!(run.ended_normally());
    assert!(!run.accepts(&RunEvent::Completed));

    let mut decoded = Vec::new();
    for chunk in &sent[1..] {
        let body = chunk.2.clone().unwrap();
        let mut reader = base64_stream::FromBase64Reader::new(std::io::Cursor::new(body.into_bytes()));
        std::io::Read::read_to_end(&mut reader, &mut decoded).unwrap();
    }
    assert_eq!(decoded, b"abcdefghij".to_vec());

    assert_eq!(
        sent,
        vec![
            (name.clone(), ChunkStatus::Start, None, None, 0),
            (name.clone(), ChunkStatus::Wip, Some("YWJjZA==".to_string()), None, 1),
            (name.clone(), ChunkStatus::Wip, Some("ZWZnaA==".to_string()), None, 2),
            (name.clone(), ChunkStatus::Finished, Some("aWo=".to_string()), Some("warn".to_string()), 3),
        ]
    );
}

#[test]
fn output_of_exactly_full_chunks_ends_on_empty_read() {
    let cfg = config(2);
    let mut run = definition().run(1, Backend::Bpf, &cfg).unwrap();
    let mut sent = Vec::new();
    launch(&mut run);
    submit(&mut run, &mut sent);
    run.advance(RunEvent::Completed);
    run.advance(RunEvent::Completed);
    run.advance(RunEvent::Completed);
    for _ in 0..3 {
        assert!(run.accepts(&RunEvent::Output(b"xy".to_vec())));
        run.advance(RunEvent::Output(b"xy".to_vec()));
        submit(&mut run, &mut sent);
    }
    run.advance(RunEvent::Output(Vec::new()));
    run.advance(RunEvent::ErrorOutput(String::new()));
    submit(&mut run, &mut sent);
    let numbers: Vec<u64> = sent.iter().map(|c| c.4).collect();
    assert_eq!(numbers, vec![0, 1, 2, 3, 4]);
    let last = sent.last().unwrap();
    assert_eq!(last.1, ChunkStatus::Finished);
    assert_eq!(last.2, Some(String::new()));
    assert_eq!(last.3, Some(String::new()));
}

#[test]
fn read_failure_unregisters_without_terminal_chunk() {
    let cfg = config(4);
    let mut run = definition().run(1, Backend::Stap, &cfg).unwrap();
    let mut sent = Vec::new();
    launch(&mut run);
    submit(&mut run, &mut sent);
    run.advance(RunEvent::Completed);
    run.advance(RunEvent::Completed);
    run.advance(RunEvent::Completed);
    run.advance(RunEvent::Output(b"abcd".to_vec()));
    submit(&mut run, &mut sent);
    run.advance(RunEvent::Failed);
    assert_eq!(run.step(), RunStep::Unregister);
    run.advance(RunEvent::Completed);
    assert_eq!(run.step(), RunStep::Done);
    assert!(!run.ended_normally());
    assert_eq!(sent.len(), 2);
}

#[test]
fn launch_failures_end_before_registration() {
    let cfg = config(4);
    let mut run = definition().run(1, Backend::Stap, &cfg).unwrap();
    run.advance(RunEvent::Failed);
    assert_eq!(run.step(), RunStep::Done);

    let mut run = definition().run(1, Backend::Stap, &cfg).unwrap();
    launch(&mut run);
    run.advance(RunEvent::Failed);
    assert_eq!(run.step(), RunStep::Spawn);
    run.advance(RunEvent::Failed);
    assert_eq!(run.step(), RunStep::Done);

    let mut run = definition().run(1, Backend::Stap, &cfg).unwrap();
    launch(&mut run);
    run.advance(RunEvent::Completed);
    run.advance(RunEvent::Completed);
    run.advance(RunEvent::Failed);
    assert_eq!(run.step(), RunStep::Reap);
    run.advance(RunEvent::Completed);
    assert_eq!(run.step(), RunStep::Done);
}

#[test]
fn events_outside_the_step_are_not_accepted() {
    let cfg = config(4);
    let mut run = definition().run(1, Backend::Stap, &cfg).unwrap();
    assert!(!run.accepts(&RunEvent::Output(vec![1])));
    launch(&mut run);
    run.advance(RunEvent::Completed);
    run.advance(RunEvent::Completed);
    run.advance(RunEvent::Completed);
    run.advance(RunEvent::Completed);
    assert!(!run.accepts(&RunEvent::Output(vec![1, 2, 3, 4, 5])));
    assert!(!run.accepts(&RunEvent::Completed));
    assert!(run.accepts(&RunEvent::Output(vec![1, 2, 3, 4])));
}

#[test]
fn bpf_runs_use_the_bpf_tracer() {
    let cfg = config(4);
    let run = definition().run(5, Backend::Bpf, &cfg).unwrap();
    assert_eq!(run.launch_plan().args[1], "/usr/bin/bpftrace");
    assert!(run.name().ends_with(".bpf"));
}

#[test]
fn start_requests_are_checked_in_order() {
    let cfg = config(4);
    let d = definition();
    assert_eq!(start_run(None, "STAP", 5, &cfg).err(), Some(StartError::NoSuchTrace));
    assert_eq!(start_run(Some(&d), "DTRACE", 5, &cfg).err(), Some(StartError::UnknownBackend));
    assert_eq!(start_run(Some(&d), "BPF", -1, &cfg).err(), Some(StartError::NegativeDuration));
    let mut bad = definition();
    bad.values.clear();
    assert_eq!(start_run(Some(&bad), "BPF", 5, &cfg).err(), Some(StartError::MalformedDefinition));
    let run = start_run(Some(&d), "BPF", 5, &cfg).ok().unwrap();
    assert!(run.script().content.ends_with("interval:s:(5) { exit(); }\n"));
    assert_eq!(StartError::NoSuchTrace.message(), "no such trace");
}

#[test]
fn prepared_run_uses_given_identifier() {
    let cfg = config(4);
    let run = definition().prepare_run("abc", 2, Backend::Stap, &cfg);
    assert_eq!(run.name(), "/tmp/abc.stap");
    assert_eq!(run.step(), RunStep::WriteScript);
    assert_eq!(run.launch_plan().args[2], "/tmp/abc.stap");
    assert!(run.script().content.ends_with("probe timer.s(2) {exit(); }\n"));
}

#[test]
fn test_start() {
    let c = start_chunk("123");
    assert_eq!(c.trace, "123");
    assert_eq!(c.status, ChunkStatus::Start);
    assert_eq!(c.status.name(), "start");
    assert!(c.body.is_none());
    assert!(c.stderr.is_none());
    assert_eq!(c.no, 0);
    assert_eq!(ChunkStatus::Wip.name(), "WIP");
    assert_eq!(ChunkStatus::Finished.name(), "finished");
}

#[test]
fn bodies_are_base64() {
    assert_eq!(encode_body(b""), "");
    assert_eq!(encode_body(b"ab"), "YWI=");
    assert_eq!(encode_body(&[0xff, 0x00, 0x10]), "/wAQ");
}
