//! Directory entries and the filter that decides which of them are looked at.

use vstd::prelude::*;

verus! {

/// What is read of one immediate child of the working directory.
#[derive(Clone, Debug, PartialEq, Eq)]
pub struct Candidate {
    /// The file name, or `None` where it is not valid Unicode.
    pub name: Option<String>,
    /// The full path, or `None` where it is not valid Unicode.
    pub path: Option<String>,
    /// Whether the file system reports the entry as a directory.
    pub is_dir: bool,
}

/// The mathematical value of a [`Candidate`].
pub struct CandidateView {
    pub name: Option<Seq<char>>,
    pub path: Option<Seq<char>>,
    pub is_dir: bool,
}

impl View for Candidate {
    type V = CandidateView;

    open spec fn view(&self) -> CandidateView {
        CandidateView {
            name: match self.name {
                Some(n) => Some(n@),
                None => None,
            },
            path: match self.path {
                Some(p) => Some(p@),
                None => None,
            },
            is_dir: self.is_dir,
        }
    }
}

/// A name is hidden when it begins with a dot.
pub open spec fn hidden_name(name: Seq<char>) -> bool {
    name.len() > 0 && name[0] == '.'
}

impl CandidateView {
    /// An entry is hidden when its name is text that begins with a dot.
    pub open spec fn hidden(self) -> bool {
        self.name matches Some(n) && hidden_name(n)
    }

    /// An entry is passed over when it is hidden or not a directory.
    pub open spec fn skipped(self) -> bool {
        self.hidden() || !self.is_dir
    }
}

/// Tells whether `name` begins with a dot.
pub fn is_hidden(name: &str) -> (hidden: bool)
    ensures
        hidden == hidden_name(name@),
{
    !name.is_empty() && name.get_char(0) == '.'
}

impl Candidate {
    /// Tells whether the entry is hidden.
    pub fn hidden(&self) -> (hidden: bool)
        ensures
            hidden == self@.hidden(),
    {
        match &self.name {
            Some(n) => is_hidden(n.as_str()),
            None => false,
        }
    }

    /// Tells whether the entry is passed over without a look at it.
    pub fn skipped(&self) -> (skipped: bool)
        ensures
            skipped == self@.skipped(),
    {
        self.hidden() || !self.is_dir
    }
}

} // verus!
