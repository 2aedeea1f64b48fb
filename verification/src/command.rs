//! The command lines with which `git` is run.

use vstd::prelude::*;
use crate::protocol::{Action, ActionView};

verus! {

/// The program that every command line starts.
pub const TOOL: &'static str = "git";

impl ActionView {
    /// The arguments with which the action runs `git`, or `None` for an
    /// action that runs nothing:
    /// `-C <path> rev-parse`, `remote get-url origin`,
    /// `remote set-url origin <url>`.
    pub open spec fn arguments(self) -> Option<Seq<Seq<char>>> {
        match self {
            ActionView::Check { path } => Some(seq!["-C"@, path, "rev-parse"@]),
            ActionView::ReadOrigin => Some(seq!["remote"@, "get-url"@, "origin"@]),
            ActionView::WriteOrigin { url } => Some(
                seq!["remote"@, "set-url"@, "origin"@, url],
            ),
            _ => None,
        }
    }

    /// Whether the action runs `git`.
    pub open spec fn invokes_tool(self) -> bool {
        self.arguments() is Some
    }
}

impl Action {
    /// Gives the arguments with which the action runs `git`, if it does.
    pub fn arguments(&self) -> (args: Option<Vec<String>>)
        ensures
            args.deep_view() == self@.arguments(),
    {
        match self {
            Action::Check { path } => {
                let mut args: Vec<String> = Vec::new();
                args.push(String::from_str("-C"));
                args.push(path.clone());
                args.push(String::from_str("rev-parse"));
                assert(args.deep_view() == seq!["-C"@, path@, "rev-parse"@]);
                Some(args)
            },
            Action::ReadOrigin => {
                let mut args: Vec<String> = Vec::new();
                args.push(String::from_str("remote"));
                args.push(String::from_str("get-url"));
                args.push(String::from_str("origin"));
                assert(args.deep_view() == seq!["remote"@, "get-url"@, "origin"@]);
                Some(args)
            },
            Action::WriteOrigin { url } => {
                let mut args: Vec<String> = Vec::new();
                args.push(String::from_str("remote"));
                args.push(String::from_str("set-url"));
                args.push(String::from_str("origin"));
                args.push(url.clone());
                assert(args.deep_view() == seq!["remote"@, "set-url"@, "origin"@, url@]);
                Some(args)
            },
            _ => None,
        }
    }
}

} // verus!
