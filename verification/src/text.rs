//! Text: comparisons, messages and paths.

use std::io::Error as IoError;
use std::path::PathBuf;
use vstd::prelude::*;
use vstd::string::to_string_from_display_ensures;

verus! {

#[verifier::external_type_specification]
#[verifier::external_body]
pub struct ExPathBuf(PathBuf);

#[verifier::external_type_specification]
#[verifier::external_body]
pub struct ExIoError(IoError);

/// What `std::path::Path::to_string_lossy` makes of a path.
pub uninterp spec fn path_text(path: PathBuf) -> Seq<char>;

/// `std::path::PathBuf::clone`: the same path again.
pub assume_specification[ <PathBuf as Clone>::clone ](path: &PathBuf) -> (copy: PathBuf)
    ensures
        copy == *path,
;

/// Whether `text` is `prefix` followed by the message of `source`.
pub open spec fn wraps_message<T: core::fmt::Display>(
    text: Seq<char>,
    prefix: Seq<char>,
    source: &T,
) -> bool {
    exists|message: String|
        #[trigger] to_string_from_display_ensures::<T>(source, message) && text == prefix
            + message@
}

/// `std::path::Path::to_string_lossy`: the path as text.
#[verifier::external_body]
pub(crate) fn path_to_string(path: &PathBuf) -> (text: String)
    ensures
        text@ == path_text(*path),
{
    path.to_string_lossy().into_owned()
}

/// Whether two texts are the same.
pub fn same_text(left: &str, right: &str) -> (same: bool)
    ensures
        same == (left@ == right@),
{
    left.to_string() == right.to_string()
}

/// Whether `text` begins with the character `first`.
pub fn begins_with(text: &str, first: char) -> (begins: bool)
    ensures
        begins == (text@.len() > 0 && text@[0] == first),
{
    !text.is_empty() && text.get_char(0) == first
}

/// A message behind a prefix.
pub fn behind(prefix: &str, message: String) -> (text: String)
    ensures
        text@ == prefix@ + message@,
        prefix@.is_prefix_of(text@),
        text@.skip(prefix@.len() as int) == message@,
{
    let text = prefix.to_string().concat(message.as_str());
    proof {
        assert(text@.skip(prefix@.len() as int) == message@);
        assert(text@.subrange(0, prefix@.len() as int) == prefix@);
    }
    text
}

} // verus!
