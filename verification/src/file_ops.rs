//! The naming rules of quiz files.
//!
//! Which files are quiz files, what the canonical file is called and what
//! a backup is called are all decided by the extension of a file name. The
//! paths themselves, and the files behind them, belong to the caller.

use crate::container::ContainerKind;
use crate::decoder::{container_kind_for_extension, container_kind_of};
use vstd::prelude::*;

verus! {

/// The extension of a backup: the extension of the file itself, or `file`
/// where it has none, followed by `.bak`.
pub open spec fn backup_extension_of(extension: Option<Seq<char>>) -> Seq<char> {
    match extension {
        Some(extension) => extension + ".bak"@,
        None => "file"@ + ".bak"@,
    }
}

/// Whether a file with this extension is a quiz file: one whose extension
/// names a container.
pub fn is_quiz_extension(extension: &str) -> (r: bool)
    ensures
        r == (container_kind_of(extension@) is Some),
{
    container_kind_for_extension(extension).is_some()
}

/// The extension of the canonical container.
pub fn canonical_extension() -> (r: String)
    ensures
        r@ == "quizzle"@,
        container_kind_of(r@) == Some(ContainerKind::Zlib),
{
    proof {
        reveal_strlit("quizzle");
        reveal_strlit("quizlet");
        assert("quizzle"@[4] != "quizlet"@[4]);
    }
    "quizzle".to_owned()
}

/// The extension under which a file is backed up.
pub fn backup_extension(extension: Option<&str>) -> (r: String)
    ensures
        r@ == backup_extension_of(
            match extension {
                Some(extension) => Some(extension@),
                None => None,
            },
        ),
{
    let stem = match extension {
        Some(extension) => extension.to_owned(),
        None => "file".to_owned(),
    };
    stem.concat(".bak")
}

} // verus!
