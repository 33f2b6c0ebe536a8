//! Paths of files, as the overlay and the saved documents write them:
//! relative to the directory of the loaded configuration, with forward
//! slashes, beginning with a slash.
//!
//! What a path's components are is for the platform's path handling to say;
//! this module only shapes the text around it. What the platform's path
//! handling returns has a name here, so that each function can say exactly
//! what it hands to it and what it does with the answer.

use vstd::prelude::*;
use crate::text::{
    chars_of, leading_count, lemma_without_leading, text_from, with_replaced, without_leading,
};

verus! {

/// What `std::path::Path::strip_prefix` leaves of the path `path` when the
/// path `base` is taken from its front, component by component; `None` if
/// `path` does not begin with the components of `base`. It reads nothing but
/// the two texts.
pub uninterp spec fn stripped_path(path: Seq<char>, base: Seq<char>) -> Option<Seq<char>>;

/// What `std::path::Path::join` makes of the path `base` and the path `path`:
/// `path` adjoined to `base` with the platform's separator, or `path` alone
/// if it is absolute. It reads nothing but the two texts.
pub uninterp spec fn joined_path(base: Seq<char>, path: Seq<char>) -> Seq<char>;

/// What `std::path::PathBuf::pop` leaves of the path `path`: the path
/// without its last component, or the path itself if it has no parent. It
/// reads nothing but the text.
pub uninterp spec fn parent_path(path: Seq<char>) -> Seq<char>;

/// An optional text as the characters it holds, if any.
pub open spec fn characters(text: Option<String>) -> Option<Seq<char>> {
    match text {
        Some(given) => Some(given@),
        None => None,
    }
}

/// `std::path::Path::strip_prefix` on two paths that are given as text. The
/// call splits both paths into components and compares them; it touches no
/// file. What is left is part of `path`, so it is text as `path` is. The
/// contract claims that the answer is `stripped_path` of the two texts and
/// says nothing of which text that is.
#[verifier::external_body]
fn strip_prefix(path: &str, base: &str) -> (rest: Option<String>)
    ensures
        characters(rest) == stripped_path(path@, base@),
{
    match std::path::Path::new(path).strip_prefix(base) {
        Ok(rest) => Some(rest.to_string_lossy().into_owned()),
        Err(_) => None,
    }
}

/// `std::path::Path::join` on two paths that are given as text. The call
/// puts the two texts together; it touches no file. The contract claims that
/// the answer is `joined_path` of the two texts and says nothing of which
/// text that is.
#[verifier::external_body]
fn join(base: &str, path: &str) -> (joined: String)
    ensures
        joined@ == joined_path(base@, path@),
{
    std::path::Path::new(base).join(path).to_string_lossy().into_owned()
}

/// `std::path::PathBuf::pop` on a path that is given as text. The call cuts
/// the text behind its parent; it touches no file. The contract claims that
/// the answer is `parent_path` of the text and says nothing of which text
/// that is.
#[verifier::external_body]
fn pop(path: &str) -> (parent: String)
    ensures
        parent@ == parent_path(path@),
{
    let mut buffer = std::path::PathBuf::from(path);
    buffer.pop();
    buffer.to_string_lossy().into_owned()
}

/// A platform path as the overlay writes it: with forward slashes, and
/// without the dots it begins with.
pub open spec fn web_form(native: Seq<char>) -> Seq<char> {
    without_leading(with_replaced(native, '\\', '/'), '.')
}

/// Whether a text has no backslash and does not begin with a dot.
pub open spec fn is_web_form(text: Seq<char>) -> bool {
    &&& forall|i: int| 0 <= i < text.len() ==> text[i] != '\\'
    &&& text.len() > 0 ==> text[0] != '.'
}

/// The web form of a path is in web form.
pub proof fn lemma_web_form_is_web_form(native: Seq<char>)
    ensures
        is_web_form(web_form(native)),
{
    let replaced = with_replaced(native, '\\', '/');
    lemma_without_leading(replaced, '.');
}

/// Writes a platform path as the overlay writes it.
pub fn web_path(native: &str) -> (web: String)
    ensures
        web@ == web_form(native@),
{
    let chars = chars_of(native);
    let mut replaced: Vec<char> = Vec::new();
    let mut i: usize = 0;
    while i < chars.len()
        invariant
            i <= chars@.len(),
            replaced@ == with_replaced(chars@.take(i as int), '\\', '/'),
        decreases chars@.len() - i,
    {
        let c = chars[i];
        replaced.push(
            if c == '\\' {
                '/'
            } else {
                c
            },
        );
        proof {
            assert(replaced@ =~= with_replaced(chars@.take(i + 1), '\\', '/'));
        }
        i = i + 1;
    }
    proof {
        assert(chars@.take(i as int) =~= chars@);
    }
    let skipped = leading_count(&replaced, '.');
    text_from(&replaced, skipped)
}

/// A path without the slashes that it begins with.
pub fn relative_part(path: &str) -> (relative: String)
    ensures
        relative@ == without_leading(path@, '/'),
{
    let chars = chars_of(path);
    let skipped = leading_count(&chars, '/');
    text_from(&chars, skipped)
}

/// The directory that holds the file at `path`: the path without its last
/// component, as the platform's path handling cuts it.
pub fn remove_file_from_path(path: &str) -> (directory: String)
    ensures
        directory@ == parent_path(path@),
{
    pop(path)
}

/// The path of the file at `path` relative to `base`, as the overlay writes
/// it: what is left of `path` below `base` is adjoined to a single dot, the
/// result is written with forward slashes, and the dot is dropped. There is
/// no such path if `path` is not below `base`.
pub open spec fn relative_form(base: Seq<char>, path: Seq<char>) -> Option<Seq<char>> {
    match stripped_path(path, base) {
        Some(rest) => Some(web_form(joined_path("."@, rest))),
        None => None,
    }
}

/// The path of a file relative to `base_path`, as the overlay writes it:
/// with forward slashes, beginning with a slash. `None` if the file is not
/// below `base_path`.
pub fn to_relative_path(base_path: &str, path: &str) -> (relative: Option<String>)
    ensures
        characters(relative) == relative_form(base_path@, path@),
        relative matches Some(text) ==> is_web_form(text@),
{
    match strip_prefix(path, base_path) {
        None => None,
        Some(rest) => {
            let dotted = join(".", rest.as_str());
            proof {
                lemma_web_form_is_web_form(dotted@);
            }
            Some(web_path(dotted.as_str()))
        },
    }
}

/// The platform path of the file that the overlay writes as `path`, below
/// `base_path`: `path` without the slashes that it begins with, adjoined to
/// `base_path` as the platform's path handling adjoins it.
pub fn from_relative_path(base_path: &str, path: &str) -> (absolute: String)
    ensures
        absolute@ == joined_path(base_path@, without_leading(path@, '/')),
{
    let relative = relative_part(path);
    join(base_path, relative.as_str())
}

} // verus!
