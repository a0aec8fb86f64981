use vstd::prelude::*;
use vstd::string::{StrSliceExecFns, StringExecFns};

verus! {

/// How many characters of the body the print variant shows, counted by
/// Unicode scalar value, never by byte.
pub const PREVIEW_LIMIT: usize = 200;

/// The marker appended after the shown prefix of the body.
pub open spec fn spec_marker() -> Seq<char> {
    "..."@
}

/// What the print variant writes for a decoded body: the first
/// `PREVIEW_LIMIT` characters (all of them, when the body is shorter),
/// followed by the truncation marker. Defined over characters, so a
/// multi-byte character is never split.
pub open spec fn spec_preview(body: Seq<char>) -> Seq<char> {
    if body.len() <= PREVIEW_LIMIT {
        body + spec_marker()
    } else {
        body.take(PREVIEW_LIMIT as int) + spec_marker()
    }
}

/// For a body longer than the limit, the preview is exactly the first
/// `PREVIEW_LIMIT` characters followed by the marker, whatever the body's
/// byte length.
pub proof fn lemma_preview_truncates(body: Seq<char>)
    requires
        body.len() > PREVIEW_LIMIT,
    ensures
        spec_preview(body) == body.take(PREVIEW_LIMIT as int) + spec_marker(),
        spec_preview(body).len() == PREVIEW_LIMIT + spec_marker().len(),
{
}

/// A body no longer than the limit is shown whole, the marker still
/// appended; an empty body yields the marker alone.
pub proof fn lemma_preview_short(body: Seq<char>)
    requires
        body.len() <= PREVIEW_LIMIT,
    ensures
        spec_preview(body) == body + spec_marker(),
{
}

/// Builds the print variant's output for a decoded body, exactly as
/// `spec_preview` states it.
pub fn preview(body: &str) -> (r: String)
    ensures
        r@ == spec_preview(body@),
{
    let n = body.unicode_len();
    let cut = if n <= PREVIEW_LIMIT {
        n
    } else {
        PREVIEW_LIMIT
    };
    let prefix = body.substring_char(0, cut);
    proof {
        if n <= PREVIEW_LIMIT {
            assert(prefix@ =~= body@);
        } else {
            assert(prefix@ =~= body@.take(PREVIEW_LIMIT as int));
        }
    }
    prefix.to_owned().concat("...")
}

} // verus!
