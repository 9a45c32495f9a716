use mint_lib::copy::{CopyReply, CopyRun, CopyStep};
use mint_lib::error::{IoErrorKind, IoFailure};
use mint_lib::integrate::CopyJob;

fn job(source: &str, destination: &str) -> CopyJob {
    CopyJob { source: source.to_string(), destination: destination.to_string() }
}

fn entry(name: &str, is_dir: bool) -> CopyReply {
    CopyReply::Entry { name: name.to_string(), is_dir }
}

fn failure() -> IoFailure {
    IoFailure { kind: IoErrorKind::Other, message: "disk full".to_string() }
}

fn step_of(run: &CopyRun) -> CopyStep {
    match run {
        CopyRun::Running { step, .. } => step.clone(),
        other => panic!("not running: {other:?}"),
    }
}

fn create(path: &str) -> CopyStep {
    CopyStep::CreateDir { path: path.to_string() }
}

fn open(path: &str) -> CopyStep {
    CopyStep::OpenDir { path: path.to_string() }
}

fn file(from: &str, to: &str) -> CopyStep {
    CopyStep::CopyFile { from: from.to_string(), to: to.to_string() }
}

#[test]
fn copy_creates_the_destination_first() {
    let run = CopyRun::begin(job("/src", "/dst"));
    assert_eq!(
        run,
        CopyRun::Running { stack: vec![job("/src", "/dst")], step: create("/dst") }
    );
}

#[test]
fn copy_of_an_empty_directory() {
    let run = CopyRun::begin(job("/src", "/dst"));
    let run = run.advance(CopyReply::Done);
    assert_eq!(step_of(&run), open("/src"));
    let run = run.advance(CopyReply::Done);
    assert_eq!(step_of(&run), CopyStep::NextEntry);
    assert_eq!(run.advance(CopyReply::EndOfDirectory), CopyRun::Succeeded);
}

#[test]
fn copy_of_files_and_nested_directories() {
    // /src: a.txt, sub/ (b.txt, deep/ (c.txt)), z.txt
    let replies = vec![
        CopyReply::Done,
        CopyReply::Done,
        entry("a.txt", false),
        CopyReply::Done,
        entry("sub", true),
        CopyReply::Done,
        CopyReply::Done,
        entry("b.txt", false),
        CopyReply::Done,
        entry("deep", true),
        CopyReply::Done,
        CopyReply::Done,
        entry("c.txt", false),
        CopyReply::Done,
        CopyReply::EndOfDirectory,
        CopyReply::EndOfDirectory,
        entry("z.txt", false),
        CopyReply::Done,
        CopyReply::EndOfDirectory,
    ];
    let expected = vec![
        create("/dst"),
        open("/src"),
        CopyStep::NextEntry,
        file("/src/a.txt", "/dst/a.txt"),
        CopyStep::NextEntry,
        create("/dst/sub"),
        open("/src/sub"),
        CopyStep::NextEntry,
        file("/src/sub/b.txt", "/dst/sub/b.txt"),
        CopyStep::NextEntry,
        create("/dst/sub/deep"),
        open("/src/sub/deep"),
        CopyStep::NextEntry,
        file("/src/sub/deep/c.txt", "/dst/sub/deep/c.txt"),
        CopyStep::NextEntry,
        CopyStep::NextEntry,
        CopyStep::NextEntry,
        file("/src/z.txt", "/dst/z.txt"),
        CopyStep::NextEntry,
    ];
    let mut run = CopyRun::begin(job("/src", "/dst"));
    let mut steps = Vec::new();
    for reply in replies {
        steps.push(step_of(&run));
        run = run.advance(reply);
    }
    assert_eq!(steps, expected);
    assert_eq!(run, CopyRun::Succeeded);
}

#[test]
fn copy_keeps_the_stack_of_open_directories() {
    let run = CopyRun::begin(job("/src", "/dst"))
        .advance(CopyReply::Done)
        .advance(CopyReply::Done)
        .advance(entry("sub", true));
    assert_eq!(
        run,
        CopyRun::Running {
            stack: vec![job("/src", "/dst"), job("/src/sub", "/dst/sub")],
            step: create("/dst/sub"),
        }
    );
    let run = run.advance(CopyReply::Done).advance(CopyReply::Done).advance(CopyReply::EndOfDirectory);
    assert_eq!(run, CopyRun::Running { stack: vec![job("/src", "/dst")], step: CopyStep::NextEntry });
}

#[test]
fn any_failure_ends_the_copy() {
    let begun = CopyRun::begin(job("/src", "/dst"));
    assert_eq!(
        begun.clone().advance(CopyReply::Failed { failure: failure() }),
        CopyRun::Failed { failure: failure() }
    );
    let opening = begun.clone().advance(CopyReply::Done);
    assert_eq!(
        opening.clone().advance(CopyReply::Failed { failure: failure() }),
        CopyRun::Failed { failure: failure() }
    );
    let reading = opening.advance(CopyReply::Done);
    assert_eq!(
        reading.clone().advance(CopyReply::Failed { failure: failure() }),
        CopyRun::Failed { failure: failure() }
    );
    let copying = reading.advance(entry("a", false));
    assert_eq!(
        copying.advance(CopyReply::Failed { failure: failure() }),
        CopyRun::Failed { failure: failure() }
    );
}

#[test]
fn missing_source_is_a_failure_of_the_copy() {
    let missing = IoFailure { kind: IoErrorKind::NotFound, message: "no such directory".to_string() };
    let run = CopyRun::begin(job("/missing", "/dst"))
        .advance(CopyReply::Done)
        .advance(CopyReply::Failed { failure: missing.clone() });
    assert_eq!(run, CopyRun::Failed { failure: missing });
}

#[test]
fn finished_copy_stays_as_it_is() {
    let failed = CopyRun::Failed { failure: failure() };
    assert_eq!(failed.clone().advance(CopyReply::Done), failed);
    assert_eq!(failed.clone().advance(entry("a", true)), failed);
    assert_eq!(CopyRun::Succeeded.advance(CopyReply::Failed { failure: failure() }), CopyRun::Succeeded);
    assert_eq!(CopyRun::Succeeded.advance(CopyReply::Done), CopyRun::Succeeded);
}

#[test]
fn reply_that_answers_another_step_changes_nothing() {
    let begun = CopyRun::begin(job("/src", "/dst"));
    assert_eq!(begun.clone().advance(entry("a", false)), begun);
    assert_eq!(begun.clone().advance(CopyReply::EndOfDirectory), begun);
    let reading = begun.advance(CopyReply::Done).advance(CopyReply::Done);
    assert_eq!(reading.clone().advance(CopyReply::Done), reading);
    let copying = reading.advance(entry("a", false));
    assert_eq!(copying.clone().advance(CopyReply::EndOfDirectory), copying);
    assert_eq!(copying.clone().advance(entry("b", false)), copying);
}

#[test]
fn copy_with_no_directory_left_has_succeeded() {
    let odd = CopyRun::Running { stack: vec![], step: CopyStep::NextEntry };
    assert_eq!(odd.clone().advance(CopyReply::Done), CopyRun::Succeeded);
    assert_eq!(odd.advance(CopyReply::Failed { failure: failure() }), CopyRun::Failed { failure: failure() });
}
