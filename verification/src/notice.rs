//! The wording of what is announced on the console.

use vstd::prelude::*;
use crate::protocol::{Fatal, Notice, NoticeView};
use crate::url::UrlError;

verus! {

impl NoticeView {
    /// The line that announces the notice.
    pub open spec fn text(self) -> Seq<char> {
        match self {
            NoticeView::Checking { path } => "Checking "@ + path,
            NoticeView::NotARepository => "not a git repo...\n"@,
            NoticeView::Updating { path } => "Updating "@ + path,
            NoticeView::ReadFailed => "error getting remote origin...\n"@,
            NoticeView::WriteFailed => "failed to set new url... :-/"@,
            NoticeView::Done => "done!\n"@,
        }
    }
}

impl Notice {
    /// Words the notice.
    pub fn text(&self) -> (text: String)
        ensures
            text@ == self@.text(),
    {
        match self {
            Notice::Checking { path } => String::from_str("Checking ").concat(path.as_str()),
            Notice::NotARepository => String::from_str("not a git repo...\n"),
            Notice::Updating { path } => String::from_str("Updating ").concat(path.as_str()),
            Notice::ReadFailed => String::from_str("error getting remote origin...\n"),
            Notice::WriteFailed => String::from_str("failed to set new url... :-/"),
            Notice::Done => String::from_str("done!\n"),
        }
    }
}

impl Fatal {
    /// The sentence that says why the run was given up.
    pub open spec fn reason(self) -> Seq<char> {
        match self {
            Fatal::PathNotText => "the path of a directory is not valid Unicode"@,
            Fatal::EnterFailed => "the working directory could not be changed"@,
            Fatal::BadOutput(UrlError::NotText) => "the remote URL is not valid UTF-8"@,
            Fatal::BadOutput(UrlError::MissingNewline) => "the remote URL does not end in a newline"@,
            Fatal::BadOutput(UrlError::MissingSeparator) => "the remote URL holds no '/'"@,
            Fatal::OutOfTurn => "an event was reported out of turn"@,
        }
    }

    /// Says why the run was given up.
    pub fn describe(&self) -> (text: String)
        ensures
            text@ == self.reason(),
    {
        match self {
            Fatal::PathNotText => String::from_str("the path of a directory is not valid Unicode"),
            Fatal::EnterFailed => String::from_str("the working directory could not be changed"),
            Fatal::BadOutput(UrlError::NotText) => String::from_str(
                "the remote URL is not valid UTF-8",
            ),
            Fatal::BadOutput(UrlError::MissingNewline) => String::from_str(
                "the remote URL does not end in a newline",
            ),
            Fatal::BadOutput(UrlError::MissingSeparator) => String::from_str(
                "the remote URL holds no '/'",
            ),
            Fatal::OutOfTurn => String::from_str("an event was reported out of turn"),
        }
    }
}

} // verus!
