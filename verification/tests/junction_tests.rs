use compiler_linker::error::{process_exit_code, LinkError};
use compiler_linker::junction::{
    advance, start, Answer, JunctionAction, JunctionState, JunctionStep, LinkRequest,
};
use compiler_linker::reparse::create_reparse_data;
use compiler_linker::wide::null_terminate;

fn units(text: &str) -> Vec<u16> {
    text.encode_utf16().collect()
}

fn request(link: &str, target: &str) -> LinkRequest {
    LinkRequest { link_path: units(link), target_path: units(target) }
}

/// Drives the creator against a platform that answers from `answers`, in
/// order, and records what it was asked to do.
fn run(
    request: LinkRequest,
    answers: Vec<Answer>,
) -> (Vec<JunctionAction>, Result<(), LinkError>) {
    let mut asked = Vec::new();
    let mut answers = answers.into_iter();
    let mut step = start(request);
    loop {
        match step {
            JunctionStep::Done { outcome } => return (asked, outcome),
            JunctionStep::Continue { state, action } => {
                asked.push(action);
                let answer = answers.next().unwrap_or(Answer::Succeeded);
                step = advance(state, answer);
            }
        }
    }
}

fn failed(text: &str) -> Answer {
    Answer::Failed(text.to_string())
}

#[test]
fn junction_is_created_when_every_step_succeeds() {
    let (asked, outcome) = run(request("C:\\tmp\\linkA", "C:\\tmp\\real"), vec![]);
    let buffer = create_reparse_data(&null_terminate(&units("C:\\tmp\\real"))).unwrap();
    assert_eq!(
        asked,
        vec![
            JunctionAction::CreateDirectory { path: null_terminate(&units("C:\\tmp\\linkA")) },
            JunctionAction::OpenDirectory,
            JunctionAction::SetReparsePoint { buffer },
            JunctionAction::CloseDirectory,
        ]
    );
    assert_eq!(outcome, Ok(()));
    assert_eq!(process_exit_code(&outcome), 0);
}

#[test]
fn start_asks_for_the_directory_with_a_terminated_path() {
    match start(request("C:\\l", "C:\\t")) {
        JunctionStep::Continue {
            state: JunctionState::CreatingDirectory { buffer },
            action: JunctionAction::CreateDirectory { path },
        } => {
            assert_eq!(path, vec![0x43, 0x3A, 0x5C, 0x6C, 0]);
            assert_eq!(buffer.len(), 20 + 8);
            assert_eq!(&buffer[12..20], &[0x43, 0, 0x3A, 0, 0x5C, 0, 0x74, 0]);
        }
        other => panic!("unexpected first step: {:?}", other),
    }
}

#[test]
fn existing_link_path_ends_after_the_directory_request() {
    let (asked, outcome) =
        run(request("C:\\tmp\\linkA", "C:\\tmp\\real"), vec![failed("already exists")]);
    assert_eq!(
        asked,
        vec![JunctionAction::CreateDirectory { path: null_terminate(&units("C:\\tmp\\linkA")) }]
    );
    assert!(!asked.iter().any(|action| matches!(action, JunctionAction::SetReparsePoint { .. })));
    assert_eq!(outcome, Err(LinkError::DirectoryCreateFailed("already exists".to_string())));
    assert_eq!(
        outcome.as_ref().unwrap_err().message(),
        "Failed to create directory for junction point: already exists"
    );
    assert_eq!(process_exit_code(&outcome), 2);
}

#[test]
fn open_failure_keeps_the_platform_text() {
    let (asked, outcome) = run(
        request("C:\\tmp\\linkA", "C:\\tmp\\real"),
        vec![Answer::Succeeded, failed("Access is denied. (os error 5)")],
    );
    assert_eq!(asked.len(), 2);
    assert_eq!(asked[1], JunctionAction::OpenDirectory);
    assert_eq!(
        outcome,
        Err(LinkError::DirectoryOpenFailed("Access is denied. (os error 5)".to_string()))
    );
    assert_eq!(
        outcome.as_ref().unwrap_err().message(),
        "Failed to open junction directory: Access is denied. (os error 5)"
    );
    assert_eq!(process_exit_code(&outcome), 2);
}

#[test]
fn device_control_failure_closes_the_directory_and_reports() {
    let (asked, outcome) = run(
        request("C:\\tmp\\linkA", "C:\\tmp\\real"),
        vec![Answer::Succeeded, Answer::Succeeded, failed("privilege not held")],
    );
    assert_eq!(asked.len(), 4);
    assert!(matches!(asked[0], JunctionAction::CreateDirectory { .. }));
    assert_eq!(asked[1], JunctionAction::OpenDirectory);
    assert!(matches!(asked[2], JunctionAction::SetReparsePoint { .. }));
    assert_eq!(asked[3], JunctionAction::CloseDirectory);
    assert_eq!(outcome, Err(LinkError::ReparsePointSetFailed("privilege not held".to_string())));
    assert_eq!(
        outcome.as_ref().unwrap_err().message(),
        "Failed to set reparse point for junction: privilege not held"
    );
    assert_eq!(process_exit_code(&outcome), 2);
}

#[test]
fn answer_to_closing_does_not_change_the_outcome() {
    let (_, outcome) = run(
        request("C:\\l", "C:\\t"),
        vec![Answer::Succeeded, Answer::Succeeded, Answer::Succeeded, failed("late")],
    );
    assert_eq!(outcome, Ok(()));
    let (_, outcome) = run(
        request("C:\\l", "C:\\t"),
        vec![Answer::Succeeded, Answer::Succeeded, failed("refused"), failed("late")],
    );
    assert_eq!(outcome, Err(LinkError::ReparsePointSetFailed("refused".to_string())));
}

#[test]
fn too_long_target_is_refused_before_anything_is_asked() {
    let too_long = LinkRequest { link_path: units("C:\\l"), target_path: vec![0x61; 32762] };
    let (asked, outcome) = run(too_long, vec![]);
    assert!(asked.is_empty());
    assert_eq!(outcome, Err(LinkError::TargetPathTooLong));
    assert_eq!(process_exit_code(&outcome), 2);
}

#[test]
fn longest_target_is_taken_up() {
    let longest = LinkRequest { link_path: units("C:\\l"), target_path: vec![0x61; 32761] };
    let (asked, outcome) = run(longest, vec![]);
    assert_eq!(asked.len(), 4);
    assert_eq!(outcome, Ok(()));
}

#[test]
fn single_transitions() {
    let buffer = create_reparse_data(&[0x61, 0]).unwrap();
    assert_eq!(
        advance(JunctionState::CreatingDirectory { buffer: buffer.clone() }, Answer::Succeeded),
        JunctionStep::Continue {
            state: JunctionState::OpeningDirectory { buffer: buffer.clone() },
            action: JunctionAction::OpenDirectory,
        }
    );
    assert_eq!(
        advance(JunctionState::OpeningDirectory { buffer: buffer.clone() }, Answer::Succeeded),
        JunctionStep::Continue {
            state: JunctionState::SettingReparsePoint,
            action: JunctionAction::SetReparsePoint { buffer },
        }
    );
    assert_eq!(
        advance(JunctionState::SettingReparsePoint, Answer::Succeeded),
        JunctionStep::Continue {
            state: JunctionState::ClosingDirectory { outcome: Ok(()) },
            action: JunctionAction::CloseDirectory,
        }
    );
    assert_eq!(
        advance(JunctionState::ClosingDirectory { outcome: Ok(()) }, Answer::Succeeded),
        JunctionStep::Done { outcome: Ok(()) }
    );
}

#[test]
fn every_failed_request_keeps_the_platform_text() {
    let buffer = create_reparse_data(&[0x61, 0]).unwrap();
    assert_eq!(
        advance(JunctionState::CreatingDirectory { buffer: buffer.clone() }, failed("E1")),
        JunctionStep::Done { outcome: Err(LinkError::DirectoryCreateFailed("E1".to_string())) }
    );
    assert_eq!(
        advance(JunctionState::OpeningDirectory { buffer }, failed("E2")),
        JunctionStep::Done { outcome: Err(LinkError::DirectoryOpenFailed("E2".to_string())) }
    );
    assert_eq!(
        advance(JunctionState::SettingReparsePoint, failed("E3")),
        JunctionStep::Continue {
            state: JunctionState::ClosingDirectory {
                outcome: Err(LinkError::ReparsePointSetFailed("E3".to_string())),
            },
            action: JunctionAction::CloseDirectory,
        }
    );
    assert_eq!(
        advance(
            JunctionState::ClosingDirectory {
                outcome: Err(LinkError::ReparsePointSetFailed("E3".to_string())),
            },
            failed("late"),
        ),
        JunctionStep::Done { outcome: Err(LinkError::ReparsePointSetFailed("E3".to_string())) }
    );
}
