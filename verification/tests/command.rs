use repo_migrator::command::TOOL;
use repo_migrator::protocol::{Action, Fatal, Notice};
use repo_migrator::url::UrlError;

fn strings(words: &[&str]) -> Vec<String> {
    words.iter().map(|w| String::from(*w)).collect()
}

#[test]
fn tool_is_git() {
    assert_eq!(TOOL, "git");
}

#[test]
fn check_runs_rev_parse_against_the_path() {
    let action = Action::Check { path: String::from("/work/repoA") };
    assert_eq!(action.arguments(), Some(strings(&["-C", "/work/repoA", "rev-parse"])));
}

#[test]
fn read_asks_for_the_origin_url() {
    assert_eq!(Action::ReadOrigin.arguments(), Some(strings(&["remote", "get-url", "origin"])));
}

#[test]
fn write_sets_the_origin_url() {
    let action = Action::WriteOrigin { url: String::from("git@github.com:awesomeorg/repoA.git") };
    assert_eq!(
        action.arguments(),
        Some(strings(&["remote", "set-url", "origin", "git@github.com:awesomeorg/repoA.git"]))
    );
}

#[test]
fn other_actions_run_nothing() {
    assert_eq!(Action::Enter { path: String::from("/work/repoA") }.arguments(), None);
    assert_eq!(Action::Next.arguments(), None);
    assert_eq!(Action::Finish.arguments(), None);
    assert_eq!(Action::Abort(Fatal::EnterFailed).arguments(), None);
}

#[test]
fn notices_are_worded() {
    assert_eq!(Notice::Checking { path: String::from("/work/repoA") }.text(), "Checking /work/repoA");
    assert_eq!(Notice::Updating { path: String::from("/work/repoA") }.text(), "Updating /work/repoA");
    assert_eq!(Notice::NotARepository.text(), "not a git repo...\n");
    assert_eq!(Notice::ReadFailed.text(), "error getting remote origin...\n");
    assert_eq!(Notice::WriteFailed.text(), "failed to set new url... :-/");
    assert_eq!(Notice::Done.text(), "done!\n");
}

#[test]
fn fatal_failures_are_described() {
    assert_eq!(Fatal::PathNotText.describe(), "the path of a directory is not valid Unicode");
    assert_eq!(Fatal::EnterFailed.describe(), "the working directory could not be changed");
    assert_eq!(Fatal::BadOutput(UrlError::NotText).describe(), "the remote URL is not valid UTF-8");
    assert_eq!(
        Fatal::BadOutput(UrlError::MissingNewline).describe(),
        "the remote URL does not end in a newline"
    );
    assert_eq!(Fatal::BadOutput(UrlError::MissingSeparator).describe(), "the remote URL holds no '/'");
    assert_eq!(Fatal::OutOfTurn.describe(), "an event was reported out of turn");
}
