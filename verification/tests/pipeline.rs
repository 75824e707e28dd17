use commit_suggest::pipeline::Action;
use commit_suggest::pipeline::CmdOutcome;
use commit_suggest::pipeline::Outcome;
use commit_suggest::pipeline::Pipeline;
use commit_suggest::pipeline::DIFF_DECODE_ERROR_MESSAGE;
use commit_suggest::pipeline::NOT_A_REPO_MESSAGE;
use commit_suggest::pipeline::OUTPUT_DECODE_ERROR_MESSAGE;
use commit_suggest::pipeline::PATH_ERROR_MESSAGE;
use commit_suggest::prompt::INSTRUCTION;

fn exited(success: bool, stdout: Option<&str>) -> CmdOutcome {
    CmdOutcome::Exited { success, stdout: stdout.map(|s| s.to_string()) }
}

fn launch_failed(message: &str) -> CmdOutcome {
    CmdOutcome::LaunchFailed { message: message.to_string() }
}

/// Drives a fresh pipeline through a successful probe and a successful
/// listing, and returns it together with the action after the listing.
fn after_listing(path: &str, listing: &str) -> (Pipeline, Action) {
    let mut p = Pipeline::new(path.to_string());
    match p.start_action() {
        Action::Probe { path: probed } => assert_eq!(probed, path),
        other => panic!("expected a probe first, got {:?}", other),
    }
    match p.step(exited(true, Some(""))) {
        Action::ListChanged { path: listed } => assert_eq!(listed, path),
        other => panic!("expected a listing query, got {:?}", other),
    }
    let action = p.step(exited(true, Some(listing)));
    (p, action)
}

#[test]
fn not_a_repository_is_a_successful_answer() {
    let mut p = Pipeline::new("somewhere".to_string());
    let action = p.step(exited(false, None));
    match action {
        Action::Finish { outcome: Outcome::NotARepository { message } } => {
            assert_eq!(message, NOT_A_REPO_MESSAGE);
        }
        other => panic!("expected the non-error answer, got {:?}", other),
    }
    assert!(p.finished());
}

#[test]
fn probe_launch_failure_is_a_fatal_error() {
    let mut p = Pipeline::new("somewhere".to_string());
    let action = p.step(launch_failed("vcs tool not found"));
    match action {
        Action::Finish { outcome: Outcome::Failure { message } } => {
            assert_eq!(message, "vcs tool not found");
        }
        other => panic!("expected a failure, got {:?}", other),
    }
}

#[test]
fn zero_changed_files_prompt_is_bare_instruction() {
    let (p, action) = after_listing("repo", "");
    assert_eq!(p.aggregate, "");
    match action {
        Action::Infer { prompt } => assert_eq!(prompt, INSTRUCTION),
        other => panic!("expected the inference query, got {:?}", other),
    }
}

#[test]
fn all_diffs_succeed_in_listing_order() {
    let (mut p, mut action) = after_listing("repo", "a.rs\nb.rs\nc.rs\n");
    let diffs = ["diff of a", "diff of b", "diff of c"];
    let files = ["a.rs", "b.rs", "c.rs"];
    for k in 0..3 {
        match action {
            Action::DiffFile { path, file } => {
                assert_eq!(path, "repo");
                assert_eq!(file, files[k]);
            }
            other => panic!("expected a diff query, got {:?}", other),
        }
        action = p.step(exited(true, Some(diffs[k])));
    }
    let expected = "a.rs\ndiff of a\nb.rs\ndiff of b\nc.rs\ndiff of c\n";
    assert_eq!(p.aggregate, expected);
    match action {
        Action::Infer { prompt } => {
            assert_eq!(prompt, format!("{}{}", INSTRUCTION, expected));
        }
        other => panic!("expected the inference query, got {:?}", other),
    }
}

#[test]
fn failing_second_diff_keeps_exactly_one_entry() {
    let (mut p, action) = after_listing("repo", "a.rs\nb.rs\nc.rs\n");
    match action {
        Action::DiffFile { file, .. } => assert_eq!(file, "a.rs"),
        other => panic!("expected a diff query, got {:?}", other),
    }
    let action = p.step(exited(true, Some("diff of a")));
    match action {
        Action::DiffFile { file, .. } => assert_eq!(file, "b.rs"),
        other => panic!("expected a diff query, got {:?}", other),
    }
    // the second query fails: aggregation stops, no error is raised
    let action = p.step(exited(false, None));
    assert_eq!(p.aggregate, "a.rs\ndiff of a\n");
    match action {
        Action::Infer { prompt } => {
            assert_eq!(prompt, format!("{}{}", INSTRUCTION, "a.rs\ndiff of a\n"));
        }
        other => panic!("expected the inference query, got {:?}", other),
    }
}

#[test]
fn first_diff_launch_failure_keeps_zero_entries() {
    let (mut p, _) = after_listing("repo", "a.rs\n");
    let action = p.step(launch_failed("cannot run the diff"));
    assert_eq!(p.aggregate, "");
    match action {
        Action::Infer { prompt } => assert_eq!(prompt, INSTRUCTION),
        other => panic!("expected the inference query, got {:?}", other),
    }
}

#[test]
fn listing_failure_is_a_fatal_error() {
    let mut p = Pipeline::new("repo".to_string());
    p.step(exited(true, None));
    let action = p.step(exited(false, None));
    match action {
        Action::Finish { outcome: Outcome::Failure { message } } => {
            assert_eq!(message, PATH_ERROR_MESSAGE);
        }
        other => panic!("expected a failure, got {:?}", other),
    }
}

#[test]
fn undecodable_listing_is_a_fatal_error() {
    let mut p = Pipeline::new("repo".to_string());
    p.step(exited(true, None));
    let action = p.step(exited(true, None));
    match action {
        Action::Finish { outcome: Outcome::Failure { message } } => {
            assert_eq!(message, PATH_ERROR_MESSAGE);
        }
        other => panic!("expected a failure, got {:?}", other),
    }
}

#[test]
fn undecodable_diff_is_a_fatal_error() {
    let (mut p, _) = after_listing("repo", "a.rs\n");
    let action = p.step(exited(true, None));
    match action {
        Action::Finish { outcome: Outcome::Failure { message } } => {
            assert_eq!(message, DIFF_DECODE_ERROR_MESSAGE);
        }
        other => panic!("expected a failure, got {:?}", other),
    }
}

#[test]
fn inference_failure_returns_an_error_and_no_text() {
    let (mut p, _) = after_listing("repo", "");
    // even though the process printed something, a failing status is an error
    let action = p.step(exited(false, Some("half a suggestion")));
    match action {
        Action::Finish { outcome: Outcome::Failure { message } } => {
            assert_eq!(message, PATH_ERROR_MESSAGE);
        }
        Action::Finish { outcome: Outcome::Suggestion { text } } => {
            panic!("a failing inference run must not yield the text {:?}", text);
        }
        other => panic!("expected a failure, got {:?}", other),
    }
    assert!(p.finished());
}

#[test]
fn inference_launch_failure_is_reported_verbatim() {
    let (mut p, _) = after_listing("repo", "");
    let action = p.step(launch_failed("inference engine not installed"));
    match action {
        Action::Finish { outcome: Outcome::Failure { message } } => {
            assert_eq!(message, "inference engine not installed");
        }
        other => panic!("expected a failure, got {:?}", other),
    }
}

#[test]
fn undecodable_inference_output_is_a_reported_error() {
    let (mut p, _) = after_listing("repo", "");
    let action = p.step(exited(true, None));
    match action {
        Action::Finish { outcome: Outcome::Failure { message } } => {
            assert_eq!(message, OUTPUT_DECODE_ERROR_MESSAGE);
        }
        other => panic!("expected a failure, got {:?}", other),
    }
}

#[test]
fn successful_inference_returns_its_output() {
    let (mut p, _) = after_listing("repo", "a.rs\n");
    let action = p.step(exited(true, Some("+1")));
    match action {
        Action::Infer { .. } => {}
        other => panic!("expected the inference query, got {:?}", other),
    }
    let action = p.step(exited(true, Some("Add one to the counter")));
    match action {
        Action::Finish { outcome: Outcome::Suggestion { text } } => {
            assert_eq!(text, "Add one to the counter");
        }
        other => panic!("expected a suggestion, got {:?}", other),
    }
    assert!(p.finished());
}

#[test]
fn every_query_is_scoped_to_the_given_path() {
    let mut p = Pipeline::new("my/repo".to_string());
    match p.start_action() {
        Action::Probe { path } => assert_eq!(path, "my/repo"),
        other => panic!("expected a probe, got {:?}", other),
    }
    match p.step(exited(true, Some(".git"))) {
        Action::ListChanged { path } => assert_eq!(path, "my/repo"),
        other => panic!("expected a listing query, got {:?}", other),
    }
    match p.step(exited(true, Some("x.rs\n"))) {
        Action::DiffFile { path, file } => {
            assert_eq!(path, "my/repo");
            assert_eq!(file, "x.rs");
        }
        other => panic!("expected a diff query, got {:?}", other),
    }
}
