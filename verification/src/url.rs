//! The new `origin` of a repository, derived from what `git remote get-url`
//! printed.

use vstd::prelude::*;
use vstd::utf8::{
    decode_utf8, encode_utf8, encode_utf8_decode_utf8, encode_utf8_valid_utf8, valid_utf8,
};

verus! {

/// Where every repository moves to: the new URL is this prefix followed by
/// the repository's name.
pub const NEW_PREFIX: &'static str = "git@github.com:awesomeorg/";

/// Why the output of `git remote get-url` yields no new URL.
#[derive(Clone, Copy, Debug, PartialEq, Eq, Structural)]
pub enum UrlError {
    /// The output is not valid UTF-8.
    NotText,
    /// The output does not end in a newline.
    MissingNewline,
    /// The line before the newline holds no `/`.
    MissingSeparator,
}

/// The text after the last `/` of `line`, or `None` where `line` holds no `/`.
pub open spec fn after_last_slash(line: Seq<char>) -> Option<Seq<char>> {
    match line.index_of_last('/') {
        Some(i) => Some(line.subrange(i + 1, line.len() as int)),
        None => None,
    }
}

/// The repository name in `raw`: one trailing newline is taken off, and the
/// name is what follows the last `/` of the rest.
pub open spec fn repo_name_of(raw: Seq<char>) -> Result<Seq<char>, UrlError> {
    if raw.len() == 0 || raw.last() != '\n' {
        Err(UrlError::MissingNewline)
    } else {
        match after_last_slash(raw.drop_last()) {
            Some(name) => Ok(name),
            None => Err(UrlError::MissingSeparator),
        }
    }
}

/// The new URL of the repository called `name`.
pub open spec fn new_url_of(name: Seq<char>) -> Seq<char> {
    NEW_PREFIX@ + name
}

/// The new URL for a repository whose old one was printed as `raw`.
pub open spec fn rewritten(raw: Seq<char>) -> Result<Seq<char>, UrlError> {
    match repo_name_of(raw) {
        Ok(name) => Ok(new_url_of(name)),
        Err(e) => Err(e),
    }
}

/// The new URL for a repository for which `git remote get-url` wrote the
/// bytes `stdout`.
pub open spec fn rewritten_output(stdout: Seq<u8>) -> Result<Seq<char>, UrlError> {
    if valid_utf8(stdout) {
        rewritten(decode_utf8(stdout))
    } else {
        Err(UrlError::NotText)
    }
}

/// Whether the result `got` is the one that `model` describes: the same
/// error, or a text with the view that `model` holds.
pub open spec fn yields<T: View<V = Seq<char>>>(
    got: Result<T, UrlError>,
    model: Result<Seq<char>, UrlError>,
) -> bool {
    match got {
        Ok(text) => model == Ok::<Seq<char>, UrlError>(text@),
        Err(e) => model == Err::<Seq<char>, UrlError>(e),
    }
}

/// A `/` with none behind it is the last one.
pub proof fn lemma_last_slash_at(line: Seq<char>, i: int)
    requires
        0 <= i < line.len(),
        line[i] == '/',
        forall|j: int| i < j < line.len() ==> line[j] != '/',
    ensures
        line.index_of_last('/') == Some(i),
{
    line.index_of_last_ensures('/');
    assert(line.contains('/'));
}

/// A line without a `/` has no last one.
pub proof fn lemma_no_slash(line: Seq<char>)
    requires
        forall|j: int| 0 <= j < line.len() ==> line[j] != '/',
    ensures
        line.index_of_last('/') is None,
{
    line.index_of_last_ensures('/');
}

/// Takes the repository name out of what `git remote get-url` printed.
pub fn repo_name(raw: &str) -> (name: Result<&str, UrlError>)
    ensures
        yields(name, repo_name_of(raw@)),
{
    let len: usize = raw.unicode_len();
    let mut seen: usize = 0;
    let mut slash: Option<usize> = None;
    let mut last: char = '\n';
    for c in it: raw.chars()
        invariant
            len == raw@.len(),
            it.seq() == raw@,
            seen == it.index(),
            seen > 0 ==> last == raw@[seen - 1],
            match slash {
                Some(i) => i < seen && raw@[i as int] == '/' && forall|j: int|
                    i < j < seen ==> raw@[j] != '/',
                None => forall|j: int| 0 <= j < seen ==> raw@[j] != '/',
            },
    {
        if c == '/' {
            slash = Some(seen);
        }
        last = c;
        seen = seen + 1;
    }
    if len == 0 || last != '\n' {
        return Err(UrlError::MissingNewline);
    }
    let ghost line = raw@.drop_last();
    match slash {
        Some(i) => {
            proof {
                lemma_last_slash_at(line, i as int);
                assert(line.subrange(i + 1, line.len() as int) == raw@.subrange(i + 1, len - 1));
            }
            Ok(raw.substring_char(i + 1, len - 1))
        },
        None => {
            proof {
                lemma_no_slash(line);
            }
            Err(UrlError::MissingSeparator)
        },
    }
}

/// Builds the new URL of the repository called `name`.
pub fn new_url(name: &str) -> (url: String)
    ensures
        url@ == new_url_of(name@),
{
    String::from_str(NEW_PREFIX).concat(name)
}

/// Rewrites the URL that `git remote get-url` printed as `raw`.
pub fn rewrite(raw: &str) -> (url: Result<String, UrlError>)
    ensures
        yields(url, rewritten(raw@)),
{
    match repo_name(raw) {
        Ok(name) => Ok(new_url(name)),
        Err(e) => Err(e),
    }
}

/// `String::from_utf8`: the text that `bytes` encode in UTF-8, and `None`
/// exactly where they are not valid UTF-8.
#[verifier::external_body]
fn text_of(bytes: Vec<u8>) -> (text: Option<String>)
    ensures
        text is Some <==> valid_utf8(bytes@),
        text matches Some(t) ==> t@ == decode_utf8(bytes@),
{
    match String::from_utf8(bytes) {
        Ok(text) => Some(text),
        Err(_) => None,
    }
}

/// Rewrites the URL in the bytes that `git remote get-url` wrote.
pub fn rewrite_output(stdout: Vec<u8>) -> (url: Result<String, UrlError>)
    ensures
        yields(url, rewritten_output(stdout@)),
{
    match text_of(stdout) {
        Some(raw) => rewrite(raw.as_str()),
        None => Err(UrlError::NotText),
    }
}

/// The prefix of every new URL ends in the `/` that sets the name off.
pub proof fn lemma_prefix_ends_in_slash()
    ensures
        NEW_PREFIX@.len() == 26,
        NEW_PREFIX@.last() == '/',
{
    reveal_strlit("git@github.com:awesomeorg/");
}

/// What is printed as a prefix, a `/`, a name without a `/` and a newline
/// names that repository, whatever the prefix.
pub proof fn lemma_name_after_prefix(prefix: Seq<char>, name: Seq<char>)
    requires
        !name.contains('/'),
    ensures
        repo_name_of(prefix.push('/') + name.push('\n')) == Ok::<Seq<char>, UrlError>(name),
{
    let raw = prefix.push('/') + name.push('\n');
    let line = raw.drop_last();
    assert forall|j: int| prefix.len() < j < line.len() implies line[j] != '/' by {
        assert(line[j] == name[j - prefix.len() - 1]);
    }
    lemma_last_slash_at(line, prefix.len() as int);
    assert(line.subrange(prefix.len() as int + 1, line.len() as int) == name);
}

/// A repository name holds no `/`.
pub proof fn lemma_name_has_no_slash(raw: Seq<char>)
    ensures
        repo_name_of(raw) matches Ok(name) ==> !name.contains('/'),
{
    if let Ok(name) = repo_name_of(raw) {
        let line = raw.drop_last();
        line.index_of_last_ensures('/');
        let i = line.index_of_last('/').unwrap();
        assert forall|j: int| 0 <= j < name.len() implies name[j] != '/' by {
            assert(name[j] == line[i + 1 + j]);
        }
    }
}

/// Rewriting is idempotent: where `raw` gives a new URL, that URL printed on
/// a line of its own gives the same URL again.
pub proof fn lemma_rewrite_idempotent(raw: Seq<char>)
    ensures
        rewritten(raw) matches Ok(url) ==> rewritten(url.push('\n')) == Ok::<
            Seq<char>,
            UrlError,
        >(url),
{
    if let Ok(name) = repo_name_of(raw) {
        let url = new_url_of(name);
        let host = NEW_PREFIX@.drop_last();
        lemma_prefix_ends_in_slash();
        lemma_name_has_no_slash(raw);
        assert(url.push('\n') == host.push('/') + name.push('\n'));
        lemma_name_after_prefix(host, name);
    }
}

/// Rewriting is idempotent on what `git` writes: where the bytes `stdout`
/// give a new URL, the UTF-8 encoding of that URL and a newline gives the
/// same URL again.
pub proof fn lemma_rewrite_output_idempotent(stdout: Seq<u8>)
    ensures
        rewritten_output(stdout) matches Ok(url) ==> rewritten_output(
            encode_utf8(url.push('\n')),
        ) == Ok::<Seq<char>, UrlError>(url),
{
    if let Ok(url) = rewritten_output(stdout) {
        let again = url.push('\n');
        encode_utf8_valid_utf8(again);
        encode_utf8_decode_utf8(again);
        lemma_rewrite_idempotent(decode_utf8(stdout));
    }
}

} // verus!
