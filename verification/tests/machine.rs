use repo_migrator::entry::Candidate;
use repo_migrator::machine::step;
use repo_migrator::protocol::{Action, Event, Fatal, Notice, State, Step};
use repo_migrator::url::UrlError;

fn directory(name: &str) -> Candidate {
    Candidate {
        name: Some(String::from(name)),
        path: Some(format!("/work/{}", name)),
        is_dir: true,
    }
}

fn file(name: &str) -> Candidate {
    Candidate { is_dir: false, ..directory(name) }
}

fn checking(path: &str) -> State {
    State::Checking { path: String::from(path) }
}

fn next_with(notice: Option<Notice>) -> Step {
    Step { state: State::Start, notice, action: Action::Next }
}

fn abort_for(fatal: Fatal) -> Step {
    Step { state: State::Aborted(fatal), notice: None, action: Action::Abort(fatal) }
}

fn every_event() -> Vec<Event> {
    vec![
        Event::Entry(directory("repoA")),
        Event::EndOfEntries,
        Event::Checked { success: true },
        Event::Checked { success: false },
        Event::ChangedDir { ok: true },
        Event::ChangedDir { ok: false },
        Event::Read { success: true, stdout: b"https://host/org/repo\n".to_vec() },
        Event::Read { success: false, stdout: Vec::new() },
        Event::Written { success: true },
        Event::Written { success: false },
    ]
}

#[test]
fn hidden_entry_is_passed_over_in_silence() {
    assert_eq!(step(State::Start, Event::Entry(directory(".hidden"))), next_with(None));
    assert_eq!(step(State::Start, Event::Entry(file(".profile"))), next_with(None));
}

#[test]
fn file_is_passed_over_in_silence() {
    assert_eq!(step(State::Start, Event::Entry(file("notes.txt"))), next_with(None));
}

#[test]
fn passed_over_entry_needs_no_text_path() {
    let hidden = Candidate { name: Some(String::from(".x")), path: None, is_dir: true };
    assert_eq!(step(State::Start, Event::Entry(hidden)), next_with(None));
    let nameless_file = Candidate { name: None, path: None, is_dir: false };
    assert_eq!(step(State::Start, Event::Entry(nameless_file)), next_with(None));
}

#[test]
fn visible_directory_is_checked() {
    assert_eq!(
        step(State::Start, Event::Entry(directory("repoA"))),
        Step {
            state: checking("/work/repoA"),
            notice: Some(Notice::Checking { path: String::from("/work/repoA") }),
            action: Action::Check { path: String::from("/work/repoA") },
        }
    );
}

#[test]
fn directory_without_a_text_name_is_checked() {
    let odd = Candidate { name: None, path: Some(String::from("/work/odd")), is_dir: true };
    assert_eq!(
        step(State::Start, Event::Entry(odd)).action,
        Action::Check { path: String::from("/work/odd") }
    );
}

#[test]
fn directory_without_a_text_path_is_fatal() {
    let odd = Candidate { name: Some(String::from("odd")), path: None, is_dir: true };
    assert_eq!(step(State::Start, Event::Entry(odd)), abort_for(Fatal::PathNotText));
}

#[test]
fn end_of_entries_completes_the_run() {
    assert_eq!(
        step(State::Start, Event::EndOfEntries),
        Step { state: State::Completed, notice: None, action: Action::Finish }
    );
}

#[test]
fn failed_check_means_no_repository() {
    assert_eq!(
        step(checking("/work/notarepo"), Event::Checked { success: false }),
        next_with(Some(Notice::NotARepository))
    );
}

#[test]
fn passed_check_enters_the_repository() {
    assert_eq!(
        step(checking("/work/repoA"), Event::Checked { success: true }),
        Step {
            state: State::Confirmed,
            notice: Some(Notice::Updating { path: String::from("/work/repoA") }),
            action: Action::Enter { path: String::from("/work/repoA") },
        }
    );
}

#[test]
fn entered_repository_is_read() {
    assert_eq!(
        step(State::Confirmed, Event::ChangedDir { ok: true }),
        Step { state: State::Entered, notice: None, action: Action::ReadOrigin }
    );
}

#[test]
fn failed_change_of_directory_is_fatal() {
    assert_eq!(step(State::Confirmed, Event::ChangedDir { ok: false }), abort_for(Fatal::EnterFailed));
}

#[test]
fn failed_read_is_announced_and_the_run_goes_on() {
    assert_eq!(
        step(State::Entered, Event::Read { success: false, stdout: Vec::new() }),
        next_with(Some(Notice::ReadFailed))
    );
    assert_eq!(
        step(State::Entered, Event::Read { success: false, stdout: b"https://host/org/repo\n".to_vec() }),
        next_with(Some(Notice::ReadFailed))
    );
}

#[test]
fn read_url_is_rewritten() {
    assert_eq!(
        step(
            State::Entered,
            Event::Read { success: true, stdout: b"https://oldhost.example/someorg/myrepo.git\n".to_vec() }
        ),
        Step {
            state: State::UrlRead,
            notice: None,
            action: Action::WriteOrigin { url: String::from("git@github.com:awesomeorg/myrepo.git") },
        }
    );
}

#[test]
fn unusable_output_is_fatal() {
    assert_eq!(
        step(State::Entered, Event::Read { success: true, stdout: vec![0xff, b'\n'] }),
        abort_for(Fatal::BadOutput(UrlError::NotText))
    );
    assert_eq!(
        step(State::Entered, Event::Read { success: true, stdout: b"https://host/org/repo".to_vec() }),
        abort_for(Fatal::BadOutput(UrlError::MissingNewline))
    );
    assert_eq!(
        step(State::Entered, Event::Read { success: true, stdout: b"repo\n".to_vec() }),
        abort_for(Fatal::BadOutput(UrlError::MissingSeparator))
    );
}

#[test]
fn outcome_of_the_write_is_announced() {
    assert_eq!(step(State::UrlRead, Event::Written { success: true }), next_with(Some(Notice::Done)));
    assert_eq!(
        step(State::UrlRead, Event::Written { success: false }),
        next_with(Some(Notice::WriteFailed))
    );
}

#[test]
fn completed_run_stays_completed() {
    for event in every_event() {
        assert_eq!(
            step(State::Completed, event),
            Step { state: State::Completed, notice: None, action: Action::Finish }
        );
    }
}

#[test]
fn aborted_run_stays_aborted() {
    for event in every_event() {
        assert_eq!(step(State::Aborted(Fatal::EnterFailed), event), abort_for(Fatal::EnterFailed));
    }
}

#[test]
fn event_out_of_turn_is_fatal() {
    let waiting = vec![
        (State::Start, 0, 1),
        (checking("/work/repoA"), 2, 3),
        (State::Confirmed, 4, 5),
        (State::Entered, 6, 7),
        (State::UrlRead, 8, 9),
    ];
    for (state, first, second) in waiting {
        for (i, event) in every_event().into_iter().enumerate() {
            if i != first && i != second {
                assert_eq!(step(state.clone(), event), abort_for(Fatal::OutOfTurn));
            }
        }
    }
}
