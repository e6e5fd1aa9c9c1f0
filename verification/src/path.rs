//! What the library relies on from `std::path::PathBuf`.

use std::path::PathBuf;
use vstd::prelude::*;
use vstd::utf8::*;

verus! {

/// `PathBuf` is carried as it is; its contents are spoken of through [`raw`].
#[verifier::external_type_specification]
#[verifier::external_body]
pub struct ExPathBuf(std::path::PathBuf);

/// The encoded bytes a path holds.
pub uninterp spec fn raw(path: PathBuf) -> Seq<u8>;

/// What identifies a path with these bytes: its components, in the form in
/// which the platform the library is built for compares them.
pub uninterp spec fn components(bytes: Seq<u8>) -> Seq<Seq<u8>>;

/// What `Path::display` writes for a path whose bytes are not UTF-8.
pub uninterp spec fn display_replaced(bytes: Seq<u8>) -> Seq<char>;

/// What `Path::to_string_lossy` gives for a path whose bytes are not UTF-8.
pub uninterp spec fn lossy_replaced(bytes: Seq<u8>) -> Seq<char>;

/// The bytes of what `Path::file_name` gives for a path with these bytes, on the
/// platform the library is built for.
pub uninterp spec fn file_name_bytes(bytes: Seq<u8>) -> Option<Seq<u8>>;

/// What `Path::display` writes for a path with these bytes: the text they
/// spell, where they spell one.
pub open spec fn display_text(bytes: Seq<u8>) -> Seq<char> {
    if valid_utf8(bytes) {
        decode_utf8(bytes)
    } else {
        display_replaced(bytes)
    }
}

/// What `Path::to_string_lossy` gives for a path with these bytes: the text
/// they spell, where they spell one.
pub open spec fn lossy_text(bytes: Seq<u8>) -> Seq<char> {
    if valid_utf8(bytes) {
        decode_utf8(bytes)
    } else {
        lossy_replaced(bytes)
    }
}

/// What identifies a path: two paths are the same exactly when their keys are.
pub open spec fn path_key(path: PathBuf) -> Seq<Seq<u8>> {
    components(raw(path))
}

pub open spec fn same_path(a: PathBuf, b: PathBuf) -> bool {
    path_key(a) == path_key(b)
}

/// `PathBuf`'s `==` compares two paths component by component. The contract
/// claims that it is an equivalence relation and that the bytes decide it; which
/// spellings are one path is left to the platform.
pub assume_specification[ <PathBuf as PartialEq>::eq ](a: &PathBuf, b: &PathBuf) -> (equal: bool)
    ensures
        equal == (components(raw(*a)) == components(raw(*b))),
;

/// `PathBuf::clone` gives a path that holds the same.
pub assume_specification[ <PathBuf as Clone>::clone ](path: &PathBuf) -> (copy: PathBuf)
    ensures
        copy == *path,
;

/// `Path::display`, written out: a path that is Unicode is written as it stands.
/// What is written for any other depends on its bytes alone, and what it is the
/// contract does not say.
#[verifier::external_body]
pub(crate) fn display(path: &PathBuf) -> (text: String)
    ensures
        valid_utf8(raw(*path)) ==> text@ == decode_utf8(raw(*path)),
        !valid_utf8(raw(*path)) ==> text@ == display_replaced(raw(*path)),
{
    path.display().to_string()
}

/// `Path::to_string_lossy`, as an owned string: a path that is Unicode is given
/// as it stands. What is given for any other depends on its bytes alone, and
/// what it is the contract does not say.
#[verifier::external_body]
pub(crate) fn to_string_lossy(path: &PathBuf) -> (text: String)
    ensures
        valid_utf8(raw(*path)) ==> text@ == decode_utf8(raw(*path)),
        !valid_utf8(raw(*path)) ==> text@ == lossy_replaced(raw(*path)),
{
    path.to_string_lossy().into_owned()
}

/// `Path::file_name`, the name kept as a path of its own: whether the path ends
/// in a name, and in which, depends on its bytes alone.
#[verifier::external_body]
pub(crate) fn file_name(path: &PathBuf) -> (name: Option<PathBuf>)
    ensures
        match name {
            Some(name) => file_name_bytes(raw(*path)) == Some(raw(name)),
            None => file_name_bytes(raw(*path)) is None,
        },
{
    path.file_name().map(PathBuf::from)
}

/// A path that is Unicode is written as it stands, whole: its text, encoded,
/// gives the path's bytes back. Both ways of writing agree on it.
pub proof fn law_a_unicode_path_is_written_as_it_stands(bytes: Seq<u8>)
    requires
        valid_utf8(bytes),
    ensures
        encode_utf8(display_text(bytes)) == bytes,
        encode_utf8(lossy_text(bytes)) == bytes,
        display_text(bytes) == lossy_text(bytes),
{
    decode_utf8_encode_utf8(bytes);
}

/// What is written for a path that is not Unicode is what the platform writes.
pub proof fn law_any_other_path_is_left_to_the_platform(bytes: Seq<u8>)
    requires
        !valid_utf8(bytes),
    ensures
        display_text(bytes) == display_replaced(bytes),
        lossy_text(bytes) == lossy_replaced(bytes),
{
}

} // verus!
