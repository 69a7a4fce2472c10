use std::collections::{HashMap, HashSet};
use upload_server::ingest::{completion_notice, Action, Event, Phase, Pipeline, StepError};
use upload_server::reply::{Failure, PartOutcome, Reply, Summary};

/// One part of a simulated request.
struct Part {
    filename: Option<String>,
    chunks: Vec<Vec<u8>>,
    /// The chunk stream breaks off after the chunks instead of ending.
    breaks_off: bool,
}

/// A simulated request: its parts, and whether its framing breaks after
/// them instead of ending.
struct Request {
    parts: Vec<Part>,
    broken: bool,
}

/// A directory held in memory, with paths that refuse to be created and a
/// number of writes after which writing fails.
struct Disk {
    files: HashMap<String, Vec<u8>>,
    refuse_create: HashSet<String>,
    writes_left: Option<usize>,
}

/// What a simulated request did.
struct Run {
    reply: Reply,
    actions: Vec<Action>,
    chunks_read: usize,
    announced: Vec<String>,
}

fn named(name: &str, chunks: &[&[u8]]) -> Part {
    Part {
        filename: Some(name.to_string()),
        chunks: chunks.iter().map(|c| c.to_vec()).collect(),
        breaks_off: false,
    }
}

fn unnamed(chunks: &[&[u8]]) -> Part {
    Part { filename: None, chunks: chunks.iter().map(|c| c.to_vec()).collect(), breaks_off: false }
}

fn empty_disk() -> Disk {
    Disk { files: HashMap::new(), refuse_create: HashSet::new(), writes_left: None }
}

/// Drives a pipeline through a request whose framing is sound.
fn serve(dir: &str, parts: Vec<Part>, disk: &mut Disk) -> Run {
    serve_request(dir, Request { parts, broken: false }, disk)
}

/// Drives a pipeline through a request as a server would, against `disk`.
fn serve_request(dir: &str, request: Request, disk: &mut Disk) -> Run {
    let Request { parts, broken } = request;
    let end = if broken { Event::Malformed } else { Event::NoMoreParts };
    let mut pipeline = Pipeline::new(dir);
    let mut actions: Vec<Action> = Vec::new();
    let mut announced: Vec<String> = Vec::new();
    let mut chunks_read = 0;
    let mut parts = parts.into_iter();
    let mut current: Option<(Part, usize)> = None;
    let mut open: Option<String> = None;
    let mut event = match parts.next() {
        Some(part) => {
            let filename = part.filename.clone();
            current = Some((part, 0));
            Event::Part { filename }
        }
        None => end.clone(),
    };
    loop {
        assert!(pipeline.expects(&event));
        let action = pipeline.step(event).expect("the driver follows the protocol");
        actions.push(action.clone());
        event = match action {
            Action::CreateFile { path } => {
                if disk.refuse_create.contains(&path) {
                    Event::FileCreateFailed
                } else {
                    disk.files.insert(path.clone(), Vec::new());
                    open = Some(path);
                    Event::FileCreated
                }
            }
            Action::ReadChunk => {
                let (part, next) = current.as_mut().expect("a part is being read");
                if *next < part.chunks.len() {
                    let bytes = part.chunks[*next].clone();
                    *next += 1;
                    chunks_read += 1;
                    Event::Chunk { bytes }
                } else if part.breaks_off {
                    Event::ReadFailed
                } else {
                    Event::PartEnded
                }
            }
            Action::Write { bytes } => {
                let path = open.clone().expect("a file is open");
                match disk.writes_left {
                    Some(0) => Event::WriteFailed,
                    left => {
                        disk.writes_left = left.map(|n| n - 1);
                        disk.files.get_mut(&path).expect("the file exists").extend(bytes);
                        Event::Written
                    }
                }
            }
            Action::FinishPart { path, outcome } => {
                open = None;
                if let Some(line) = completion_notice(&path, outcome) {
                    announced.push(line);
                }
                match parts.next() {
                    Some(part) => {
                        let filename = part.filename.clone();
                        current = Some((part, 0));
                        Event::Part { filename }
                    }
                    None => end.clone(),
                }
            }
            Action::RefusePart { .. } => {
                assert!(open.is_none());
                match parts.next() {
                    Some(part) => {
                        let filename = part.filename.clone();
                        current = Some((part, 0));
                        Event::Part { filename }
                    }
                    None => end.clone(),
                }
            }
            Action::Respond { reply } => {
                assert!(pipeline.is_finished());
                return Run { reply, actions, chunks_read, announced };
            }
        };
    }
}

#[test]
fn report_txt_is_uploaded() {
    let mut disk = empty_disk();
    let run = serve("./uploads", vec![named("report.txt", &[b"hello world"])], &mut disk);
    assert_eq!(run.reply.message(), "File uploaded successfully.");
    assert_eq!(run.reply.status(), 200);
    assert_eq!(disk.files.len(), 1);
    assert_eq!(disk.files["./uploads/report.txt"], b"hello world".to_vec());
    assert_eq!(disk.files["./uploads/report.txt"].len(), 11);
    assert_eq!(run.announced, vec!["Successfully uploaded: ./uploads/report.txt".to_string()]);
}

#[test]
fn request_without_fields_is_refused() {
    let mut disk = empty_disk();
    disk.files.insert("./uploads/old.txt".to_string(), b"kept".to_vec());
    let run = serve("./uploads", Vec::new(), &mut disk);
    assert_eq!(run.reply.message(), "No file uploaded");
    assert_eq!(run.reply.status(), 400);
    assert_eq!(run.reply, Reply::NoFile);
    assert_eq!(run.actions, vec![Action::Respond { reply: Reply::NoFile }]);
    assert_eq!(disk.files.len(), 1);
    assert_eq!(disk.files["./uploads/old.txt"], b"kept".to_vec());
    assert!(run.announced.is_empty());
}

#[test]
fn one_part_request_asks_for_these_actions() {
    let mut disk = empty_disk();
    let run = serve("./uploads", vec![named("a.bin", &[b"ab", b"c"])], &mut disk);
    assert_eq!(
        run.actions,
        vec![
            Action::CreateFile { path: "./uploads/a.bin".to_string() },
            Action::ReadChunk,
            Action::Write { bytes: b"ab".to_vec() },
            Action::ReadChunk,
            Action::Write { bytes: b"c".to_vec() },
            Action::ReadChunk,
            Action::FinishPart {
                path: "./uploads/a.bin".to_string(),
                outcome: PartOutcome::Stored
            },
            Action::Respond { reply: Reply::Uploaded },
        ]
    );
}

#[test]
fn content_is_stored_whole_and_in_order() {
    let mut disk = empty_disk();
    disk.files.insert("./uploads/other".to_string(), b"untouched".to_vec());
    let chunks: [&[u8]; 5] = [b"The quick ", b"", b"brown fox ", b"jumps", b" over"];
    let run = serve("./uploads", vec![named("fox.txt", &chunks)], &mut disk);
    assert_eq!(run.reply, Reply::Uploaded);
    assert_eq!(disk.files["./uploads/fox.txt"], b"The quick brown fox jumps over".to_vec());
    assert_eq!(disk.files["./uploads/other"], b"untouched".to_vec());
    assert_eq!(disk.files.len(), 2);
}

#[test]
fn part_without_chunks_leaves_an_empty_file() {
    let mut disk = empty_disk();
    let run = serve("./uploads", vec![named("empty", &[])], &mut disk);
    assert_eq!(run.reply, Reply::Uploaded);
    assert_eq!(disk.files["./uploads/empty"], Vec::<u8>::new());
}

#[test]
fn part_without_name_goes_to_fallback_file() {
    let mut disk = empty_disk();
    let run = serve("./uploads", vec![unnamed(&[b"\x00\x01", b"\x02"])], &mut disk);
    assert_eq!(run.reply, Reply::Uploaded);
    assert_eq!(run.actions[0], Action::CreateFile { path: "./uploads/file.bin".to_string() });
    assert_eq!(disk.files.len(), 1);
    assert_eq!(disk.files["./uploads/file.bin"], vec![0u8, 1, 2]);
}

#[test]
fn second_upload_replaces_the_first() {
    let mut disk = empty_disk();
    let first = serve("./uploads", vec![named("f", &[b"first ", b"content"])], &mut disk);
    assert_eq!(first.reply, Reply::Uploaded);
    assert_eq!(disk.files["./uploads/f"], b"first content".to_vec());
    let second = serve("./uploads", vec![named("f", &[b"2nd"])], &mut disk);
    assert_eq!(second.reply, Reply::Uploaded);
    assert_eq!(disk.files.len(), 1);
    assert_eq!(disk.files["./uploads/f"], b"2nd".to_vec());
}

#[test]
fn later_part_of_the_same_name_wins() {
    let mut disk = empty_disk();
    let run =
        serve("./uploads", vec![named("f", &[b"one"]), named("f", &[b"two", b"!"])], &mut disk);
    assert_eq!(run.reply, Reply::Uploaded);
    assert_eq!(disk.files.len(), 1);
    assert_eq!(disk.files["./uploads/f"], b"two!".to_vec());
}

#[test]
fn parts_are_stored_in_order() {
    let mut disk = empty_disk();
    let run = serve(
        "./uploads",
        vec![named("a", &[b"1"]), unnamed(&[b"2"]), named("c", &[b"3"])],
        &mut disk,
    );
    assert_eq!(run.reply, Reply::Uploaded);
    assert_eq!(
        run.announced,
        vec![
            "Successfully uploaded: ./uploads/a".to_string(),
            "Successfully uploaded: ./uploads/file.bin".to_string(),
            "Successfully uploaded: ./uploads/c".to_string()
        ]
    );
    assert_eq!(disk.files["./uploads/a"], b"1".to_vec());
    assert_eq!(disk.files["./uploads/file.bin"], b"2".to_vec());
    assert_eq!(disk.files["./uploads/c"], b"3".to_vec());
}

#[test]
fn every_chunk_is_written_once_as_it_comes() {
    let chunk = vec![7u8; 4096];
    let count = 64;
    let chunks: Vec<&[u8]> = (0..count).map(|_| chunk.as_slice()).collect();
    let mut disk = empty_disk();
    let run = serve("./uploads", vec![named("big", &chunks)], &mut disk);
    assert_eq!(run.reply, Reply::Uploaded);
    let writes: Vec<&Vec<u8>> = run
        .actions
        .iter()
        .filter_map(|a| match a {
            Action::Write { bytes } => Some(bytes),
            _ => None,
        })
        .collect();
    assert_eq!(writes.len(), count);
    assert_eq!(run.chunks_read, count);
    assert!(writes.iter().all(|w| w.len() == 4096));
    assert_eq!(disk.files["./uploads/big"].len(), count * 4096);
}

#[test]
fn pipeline_keeps_nothing_of_a_chunk() {
    let mut a = Pipeline::new("./uploads");
    let mut b = Pipeline::new("./uploads");
    for p in [&mut a, &mut b] {
        p.step(Event::Part { filename: Some("x".to_string()) }).unwrap();
        p.step(Event::FileCreated).unwrap();
    }
    let small = a.step(Event::Chunk { bytes: vec![1] }).unwrap();
    let large = b.step(Event::Chunk { bytes: vec![9; 100_000] }).unwrap();
    assert_eq!(small, Action::Write { bytes: vec![1] });
    assert_eq!(large, Action::Write { bytes: vec![9; 100_000] });
    assert_eq!(a.phase(), b.phase());
    assert_eq!(a.phase(), &Phase::Writing { path: "./uploads/x".to_string() });
    assert_eq!(a.outcomes(), b.outcomes());
    assert_eq!(a.dir(), b.dir());
}

#[test]
fn file_that_cannot_be_created_is_skipped() {
    let mut disk = empty_disk();
    disk.refuse_create.insert("./uploads/locked".to_string());
    let run = serve(
        "./uploads",
        vec![named("locked", &[b"lost"]), named("free", &[b"kept"])],
        &mut disk,
    );
    assert_eq!(run.reply, Reply::Failed(Failure::CreateFile));
    assert_eq!(run.reply.status(), 500);
    assert_eq!(run.reply.message(), "Failed to create file on server");
    assert_eq!(run.chunks_read, 1);
    assert_eq!(disk.files.len(), 1);
    assert_eq!(disk.files["./uploads/free"], b"kept".to_vec());
    assert_eq!(run.announced, vec!["Successfully uploaded: ./uploads/free".to_string()]);
    assert_eq!(
        run.actions[1],
        Action::FinishPart {
            path: "./uploads/locked".to_string(),
            outcome: PartOutcome::Failed(Failure::CreateFile)
        }
    );
}

#[test]
fn failed_write_ends_the_part() {
    let mut disk = empty_disk();
    disk.writes_left = Some(1);
    let run = serve("./uploads", vec![named("p", &[b"aa", b"bb", b"cc"])], &mut disk);
    assert_eq!(run.reply, Reply::Failed(Failure::WriteChunk));
    assert_eq!(run.reply.status(), 500);
    assert_eq!(run.reply.message(), "Failed to write file");
    assert_eq!(run.chunks_read, 2);
    assert_eq!(disk.files["./uploads/p"], b"aa".to_vec());
    assert!(run.announced.is_empty());
    assert_eq!(
        run.actions,
        vec![
            Action::CreateFile { path: "./uploads/p".to_string() },
            Action::ReadChunk,
            Action::Write { bytes: b"aa".to_vec() },
            Action::ReadChunk,
            Action::Write { bytes: b"bb".to_vec() },
            Action::FinishPart {
                path: "./uploads/p".to_string(),
                outcome: PartOutcome::Failed(Failure::WriteChunk)
            },
            Action::Respond { reply: Reply::Failed(Failure::WriteChunk) },
        ]
    );
}

#[test]
fn failed_write_does_not_end_the_request() {
    let mut disk = empty_disk();
    disk.writes_left = Some(0);
    let mut pipeline = Pipeline::new("./uploads");
    pipeline.step(Event::Part { filename: Some("p".to_string()) }).unwrap();
    pipeline.step(Event::FileCreated).unwrap();
    pipeline.step(Event::Chunk { bytes: vec![1] }).unwrap();
    let action = pipeline.step(Event::WriteFailed).unwrap();
    assert_eq!(
        action,
        Action::FinishPart {
            path: "./uploads/p".to_string(),
            outcome: PartOutcome::Failed(Failure::WriteChunk)
        }
    );
    assert_eq!(pipeline.phase(), &Phase::AwaitingPart);
    assert!(!pipeline.is_finished());
    let action = pipeline.step(Event::Part { filename: Some("q".to_string()) }).unwrap();
    assert_eq!(action, Action::CreateFile { path: "./uploads/q".to_string() });
}

#[test]
fn first_failure_is_reported() {
    let mut disk = empty_disk();
    disk.refuse_create.insert("./uploads/b".to_string());
    disk.writes_left = Some(1);
    let run = serve(
        "./uploads",
        vec![named("a", &[b"ok"]), named("b", &[b"x"]), named("c", &[b"y"])],
        &mut disk,
    );
    assert_eq!(run.reply, Reply::Failed(Failure::CreateFile));
    assert_eq!(run.announced, vec!["Successfully uploaded: ./uploads/a".to_string()]);
}

#[test]
fn broken_chunk_stream_fails_the_part() {
    let mut disk = empty_disk();
    let part =
        Part { filename: Some("cut".to_string()), chunks: vec![b"begin".to_vec()], breaks_off: true };
    let run = serve("./uploads", vec![part, named("next", &[b"whole"])], &mut disk);
    assert_eq!(run.reply, Reply::Failed(Failure::ReadChunk));
    assert_eq!(run.reply.status(), 500);
    assert_eq!(run.reply.message(), "Failed to read file");
    assert_eq!(
        run.actions[..5],
        [
            Action::CreateFile { path: "./uploads/cut".to_string() },
            Action::ReadChunk,
            Action::Write { bytes: b"begin".to_vec() },
            Action::ReadChunk,
            Action::FinishPart {
                path: "./uploads/cut".to_string(),
                outcome: PartOutcome::Failed(Failure::ReadChunk)
            },
        ]
    );
    assert_eq!(disk.files["./uploads/next"], b"whole".to_vec());
    assert_eq!(run.announced, vec!["Successfully uploaded: ./uploads/next".to_string()]);
}

#[test]
fn success_is_not_reported_for_a_file_cut_short() {
    let mut pipeline = Pipeline::new("./uploads");
    pipeline.step(Event::Part { filename: Some("cut".to_string()) }).unwrap();
    pipeline.step(Event::FileCreated).unwrap();
    pipeline.step(Event::Chunk { bytes: vec![1, 2, 3] }).unwrap();
    pipeline.step(Event::Written).unwrap();
    pipeline.step(Event::ReadFailed).unwrap();
    let reply = pipeline.step(Event::NoMoreParts).unwrap();
    assert_eq!(reply, Action::Respond { reply: Reply::Failed(Failure::ReadChunk) });
}

fn check_refused(name: &str) {
    let mut disk = empty_disk();
    disk.files.insert("./uploads/old.txt".to_string(), b"kept".to_vec());
    disk.files.insert("./escape.txt".to_string(), b"outside".to_vec());
    let run = serve("./uploads", vec![named(name, &[b"payload"])], &mut disk);
    assert_eq!(run.reply, Reply::Failed(Failure::UnsafeName));
    assert_eq!(run.reply.status(), 400);
    assert_eq!(run.reply.message(), "Invalid file name");
    assert_eq!(
        run.actions,
        vec![
            Action::RefusePart { reason: Failure::UnsafeName },
            Action::Respond { reply: Reply::Failed(Failure::UnsafeName) },
        ]
    );
    assert_eq!(run.chunks_read, 0);
    assert!(run.announced.is_empty());
    assert_eq!(disk.files.len(), 2);
    assert_eq!(disk.files["./uploads/old.txt"], b"kept".to_vec());
    assert_eq!(disk.files["./escape.txt"], b"outside".to_vec());
}

#[test]
fn name_with_parent_segment_is_refused() {
    check_refused("../escape.txt");
    check_refused("a/../../x");
    check_refused("..");
}

#[test]
fn absolute_name_is_refused() {
    check_refused("/tmp/x");
    check_refused("/etc/passwd");
}

#[test]
fn name_with_directories_is_refused() {
    check_refused("sub/file.txt");
    check_refused("./file.txt");
    check_refused("file.txt/");
}

#[test]
fn empty_and_dot_names_are_refused() {
    check_refused("");
    check_refused(".");
}

#[test]
fn refused_part_does_not_end_the_request() {
    let mut disk = empty_disk();
    let run = serve(
        "./uploads",
        vec![named("a", &[b"1"]), named("../b", &[b"2"]), named("c", &[b"3"])],
        &mut disk,
    );
    assert_eq!(run.reply, Reply::Failed(Failure::UnsafeName));
    assert_eq!(disk.files.len(), 2);
    assert_eq!(disk.files["./uploads/a"], b"1".to_vec());
    assert_eq!(disk.files["./uploads/c"], b"3".to_vec());
    assert_eq!(run.chunks_read, 2);
}

#[test]
fn every_created_file_is_a_direct_child_of_the_directory() {
    let names = ["ok.txt", "../x", "/abs", "a/b", "..", ".", "", "...", "fine", "x/../y"];
    let parts: Vec<Part> = names.iter().map(|n| named(n, &[b"z"])).collect();
    let mut disk = empty_disk();
    let run = serve("./uploads", parts, &mut disk);
    let created: Vec<String> = run
        .actions
        .iter()
        .filter_map(|a| match a {
            Action::CreateFile { path } => Some(path.clone()),
            _ => None,
        })
        .collect();
    assert_eq!(
        created,
        vec![
            "./uploads/ok.txt".to_string(),
            "./uploads/...".to_string(),
            "./uploads/fine".to_string()
        ]
    );
    for path in &created {
        let name = path.strip_prefix("./uploads/").expect("the path begins with the directory");
        assert!(!name.is_empty());
        assert!(!name.contains('/'));
        assert!(name != "." && name != "..");
    }
    assert_eq!(disk.files.len(), 3);
}

#[test]
fn broken_framing_is_a_client_error() {
    let mut disk = empty_disk();
    let run = serve_request("./uploads", Request { parts: Vec::new(), broken: true }, &mut disk);
    assert_eq!(run.reply, Reply::Failed(Failure::MalformedBody));
    assert_eq!(run.reply.status(), 400);
    assert_eq!(run.reply.message(), "Malformed multipart body");
    assert_eq!(
        run.actions,
        vec![Action::Respond { reply: Reply::Failed(Failure::MalformedBody) }]
    );
    assert!(disk.files.is_empty());
}

#[test]
fn broken_framing_after_a_part_ends_the_request() {
    let mut disk = empty_disk();
    let request = Request { parts: vec![named("a", &[b"1"])], broken: true };
    let run = serve_request("./uploads", request, &mut disk);
    assert_eq!(run.reply, Reply::Failed(Failure::MalformedBody));
    assert_eq!(disk.files["./uploads/a"], b"1".to_vec());
    assert_eq!(run.announced, vec!["Successfully uploaded: ./uploads/a".to_string()]);
}

#[test]
fn broken_framing_does_not_hide_an_earlier_failure() {
    let mut disk = empty_disk();
    disk.refuse_create.insert("./uploads/a".to_string());
    let request = Request { parts: vec![named("a", &[b"1"])], broken: true };
    let run = serve_request("./uploads", request, &mut disk);
    assert_eq!(run.reply, Reply::Failed(Failure::CreateFile));
    assert_eq!(run.reply.status(), 500);
}

#[test]
fn broken_framing_is_recorded() {
    let mut pipeline = Pipeline::new("d");
    let action = pipeline.step(Event::Malformed).unwrap();
    assert_eq!(action, Action::Respond { reply: Reply::Failed(Failure::MalformedBody) });
    assert!(pipeline.is_finished());
    assert_eq!(pipeline.outcomes(), &vec![PartOutcome::Failed(Failure::MalformedBody)]);
    assert_eq!(pipeline.step(Event::Malformed), Err(StepError::Finished));
}

#[test]
fn refused_part_is_recorded() {
    let mut pipeline = Pipeline::new("d");
    let action = pipeline.step(Event::Part { filename: Some("x/y".to_string()) }).unwrap();
    assert_eq!(action, Action::RefusePart { reason: Failure::UnsafeName });
    assert_eq!(pipeline.phase(), &Phase::AwaitingPart);
    assert_eq!(pipeline.outcomes(), &vec![PartOutcome::Failed(Failure::UnsafeName)]);
    assert_eq!(
        pipeline.summary(),
        Summary::AllFailed { failed: 1, first: Failure::UnsafeName }
    );
}

#[test]
fn new_pipeline_waits_for_a_part() {
    let pipeline = Pipeline::new("/srv/in");
    assert_eq!(pipeline.dir(), "/srv/in");
    assert_eq!(pipeline.phase(), &Phase::AwaitingPart);
    assert!(pipeline.outcomes().is_empty());
    assert!(!pipeline.is_finished());
    assert_eq!(pipeline.summary(), Summary::NoFile);
}

#[test]
fn pipeline_records_outcomes_in_order() {
    let mut pipeline = Pipeline::new("d");
    pipeline.step(Event::Part { filename: None }).unwrap();
    pipeline.step(Event::FileCreateFailed).unwrap();
    pipeline.step(Event::Part { filename: None }).unwrap();
    pipeline.step(Event::FileCreated).unwrap();
    pipeline.step(Event::PartEnded).unwrap();
    assert_eq!(
        pipeline.outcomes(),
        &vec![PartOutcome::Failed(Failure::CreateFile), PartOutcome::Stored]
    );
    assert_eq!(
        pipeline.summary(),
        Summary::PartialFailure { stored: 1, failed: 1, first: Failure::CreateFile }
    );
}

#[test]
fn phases_follow_the_events() {
    let mut pipeline = Pipeline::new("d");
    pipeline.step(Event::Part { filename: Some("n".to_string()) }).unwrap();
    assert_eq!(pipeline.phase(), &Phase::Creating { path: "d/n".to_string() });
    assert_eq!(pipeline.step(Event::FileCreated), Ok(Action::ReadChunk));
    assert_eq!(pipeline.phase(), &Phase::AwaitingChunk { path: "d/n".to_string() });
    pipeline.step(Event::Chunk { bytes: vec![1, 2] }).unwrap();
    assert_eq!(pipeline.phase(), &Phase::Writing { path: "d/n".to_string() });
    assert_eq!(pipeline.step(Event::Written), Ok(Action::ReadChunk));
    assert_eq!(pipeline.phase(), &Phase::AwaitingChunk { path: "d/n".to_string() });
    pipeline.step(Event::PartEnded).unwrap();
    assert_eq!(pipeline.phase(), &Phase::AwaitingPart);
    assert_eq!(pipeline.step(Event::NoMoreParts), Ok(Action::Respond { reply: Reply::Uploaded }));
    assert_eq!(pipeline.phase(), &Phase::Finished);
}

fn all_events() -> Vec<Event> {
    vec![
        Event::Part { filename: None },
        Event::NoMoreParts,
        Event::Malformed,
        Event::FileCreated,
        Event::FileCreateFailed,
        Event::Chunk { bytes: vec![1] },
        Event::PartEnded,
        Event::ReadFailed,
        Event::Written,
        Event::WriteFailed,
    ]
}

/// Checks that exactly the events at `taken` are taken in the state that
/// `prepare` leads to, and that a refused event changes nothing.
fn check_taken(prepare: &[Event], taken: &[usize], refusal: StepError) {
    for (i, event) in all_events().into_iter().enumerate() {
        let mut pipeline = Pipeline::new("d");
        for e in prepare {
            pipeline.step(e.clone()).unwrap();
        }
        let phase = pipeline.phase().clone();
        let outcomes = pipeline.outcomes().clone();
        let expected = taken.contains(&i);
        assert_eq!(pipeline.expects(&event), expected);
        let result = pipeline.step(event);
        assert_eq!(result.is_ok(), expected);
        if !expected {
            assert_eq!(result, Err(refusal));
            assert_eq!(pipeline.phase(), &phase);
            assert_eq!(pipeline.outcomes(), &outcomes);
        }
    }
}

#[test]
fn awaiting_part_takes_parts_only() {
    check_taken(&[], &[0, 1, 2], StepError::Unexpected);
}

#[test]
fn creating_takes_creation_results_only() {
    check_taken(&[Event::Part { filename: None }], &[3, 4], StepError::Unexpected);
}

#[test]
fn awaiting_chunk_takes_reads_only() {
    check_taken(
        &[Event::Part { filename: None }, Event::FileCreated],
        &[5, 6, 7],
        StepError::Unexpected,
    );
}

#[test]
fn writing_takes_write_results_only() {
    check_taken(
        &[Event::Part { filename: None }, Event::FileCreated, Event::Chunk { bytes: vec![0] }],
        &[8, 9],
        StepError::Unexpected,
    );
}

#[test]
fn finished_pipeline_takes_nothing() {
    check_taken(&[Event::NoMoreParts], &[], StepError::Finished);
}

#[test]
fn reply_is_given_once() {
    let mut pipeline = Pipeline::new("d");
    assert_eq!(pipeline.step(Event::NoMoreParts), Ok(Action::Respond { reply: Reply::NoFile }));
    assert_eq!(pipeline.step(Event::NoMoreParts), Err(StepError::Finished));
    assert_eq!(pipeline.step(Event::Part { filename: None }), Err(StepError::Finished));
    assert!(pipeline.is_finished());
}

#[test]
fn stored_part_is_announced() {
    assert_eq!(
        completion_notice("./uploads/report.txt", PartOutcome::Stored),
        Some("Successfully uploaded: ./uploads/report.txt".to_string())
    );
    assert_eq!(completion_notice("", PartOutcome::Stored), Some("Successfully uploaded: ".to_string()));
}

#[test]
fn failed_part_is_not_announced() {
    assert_eq!(completion_notice("./uploads/a", PartOutcome::Failed(Failure::CreateFile)), None);
    assert_eq!(completion_notice("./uploads/a", PartOutcome::Failed(Failure::WriteChunk)), None);
}
