//! The content truncation policy: document text sent to the transcript
//! provider is capped at a fixed number of characters (Unicode scalars,
//! not bytes), applied before dialogue generation.

use vstd::prelude::*;
use vstd::string::StrSliceExecFns;
use vstd::string::StringExecFns;

verus! {

/// The largest document text, in characters, passed to the transcript
/// provider.
pub const MAX_CONTENT_CHARS: usize = 4000;

/// Text capped at `MAX_CONTENT_CHARS` characters: unchanged when within the
/// limit, else exactly its first `MAX_CONTENT_CHARS` characters.
pub open spec fn spec_truncate(s: Seq<char>) -> Seq<char> {
    if s.len() <= MAX_CONTENT_CHARS {
        s
    } else {
        s.subrange(0, MAX_CONTENT_CHARS as int)
    }
}

/// Applies the truncation policy to document text.
pub fn truncate_content(s: &str) -> (r: String)
    ensures
        r@ == spec_truncate(s@),
{
    let n = s.unicode_len();
    if n <= MAX_CONTENT_CHARS {
        String::from_str(s)
    } else {
        String::from_str(s.substring_char(0, MAX_CONTENT_CHARS))
    }
}

} // verus!
