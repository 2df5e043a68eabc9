//! Dual-mode source resolution for stylesheet literals.
//!
//! A stylesheet literal is either inline stylesheet text or a double-quoted
//! relative file path as its entire content. The mode is decided by a single
//! syntactic marker: the literal's first byte. Inline text goes on to token
//! repair; a file reference names a file whose contents are used verbatim.

use vstd::prelude::*;

verus! {

/// A raw stylesheet literal is a file reference exactly when its first byte
/// is a double quote.
pub open spec fn is_file_reference(raw: Seq<u8>) -> bool {
    raw.len() > 0 && raw[0] == 34
}

/// The referenced relative path: the literal's content without its first and
/// last byte, the surrounding quotes.
pub open spec fn file_path_of(raw: Seq<u8>) -> Seq<u8> {
    raw.subrange(1, raw.len() - 1)
}

/// How a stylesheet literal's text is to be obtained.
pub enum SourceResolution {
    /// The literal is inline stylesheet text, handed on unchanged to the
    /// token-repair normalizer.
    Inline { text: Vec<u8> },
    /// The literal names a file, relative to the working directory, whose
    /// contents are the resolved text.
    FileReference { path: Vec<u8> },
}

/// Decides the resolution mode of a raw stylesheet literal from its first
/// byte: a quoted literal yields the path between the quotes, anything else
/// passes through unchanged. Exactly one of the two paths is taken.
pub fn resolve_source(raw: &Vec<u8>) -> (r: SourceResolution)
    requires
        raw@.len() > 0,
        is_file_reference(raw@) ==> raw@.len() >= 2,
    ensures
        is_file_reference(raw@) ==> (r matches SourceResolution::FileReference { path } &&
            path@ == file_path_of(raw@)),
        !is_file_reference(raw@) ==> (r matches SourceResolution::Inline { text } && text@
            == raw@),
{
    if raw[0] == 34 {
        let mut path: Vec<u8> = Vec::new();
        crate::bytes::append_range(&mut path, raw, 1, raw.len() - 1);
        proof {
            assert(Seq::<u8>::empty() + raw@.subrange(1, raw@.len() - 1) =~= file_path_of(raw@));
        }
        SourceResolution::FileReference { path }
    } else {
        SourceResolution::Inline { text: crate::bytes::copy_bytes(raw) }
    }
}

} // verus!
