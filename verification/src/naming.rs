use vstd::prelude::*;
use vstd::string::StrSliceExecFns;

verus! {

/// The name used when the URL path names no file of its own: the path is
/// empty, is just `/`, or ends in `/`.
pub open spec fn default_filename() -> Seq<char> {
    "index.html"@
}

/// The characters of `p` after its last `'/'`; all of `p` when `p` holds
/// no `'/'` at all.
pub open spec fn tail_segment(p: Seq<char>) -> Seq<char>
    decreases p.len(),
{
    if p.len() == 0 {
        p
    } else if p.last() == '/' {
        Seq::<char>::empty()
    } else {
        tail_segment(p.drop_last()).push(p.last())
    }
}

/// The filename derived from a URL path, mirroring common download-tool
/// defaulting: split the path on `/`, take the last segment verbatim, and
/// fall back to `index.html` when there are no segments (a path that does
/// not begin with `/`, as in cannot-be-a-base URLs) or the last segment is
/// empty (the path ends in `/`).
pub open spec fn spec_filename(path: Seq<char>) -> Seq<char> {
    if path.len() > 0 && path[0] == '/' && tail_segment(path).len() > 0 {
        tail_segment(path)
    } else {
        default_filename()
    }
}

/// After the last `'/'` of `p`, `tail_segment` is exactly the remaining
/// suffix of `p`.
pub proof fn lemma_tail_segment_after_slash(p: Seq<char>, j: int)
    requires
        0 <= j < p.len(),
        p[j] == '/',
        forall|k: int| j < k < p.len() ==> p[k] != '/',
    ensures
        tail_segment(p) == p.subrange(j + 1, p.len() as int),
    decreases p.len(),
{
    if j == p.len() - 1 {
        assert(tail_segment(p) =~= p.subrange(j + 1, p.len() as int));
    } else {
        assert(p.last() != '/');
        lemma_tail_segment_after_slash(p.drop_last(), j);
        assert(tail_segment(p) =~= p.subrange(j + 1, p.len() as int));
    }
}

/// An empty path, and the bare root path `/`, both derive the default name.
pub proof fn lemma_root_path_default()
    ensures
        spec_filename(Seq::<char>::empty()) == default_filename(),
        spec_filename("/"@) == default_filename(),
{
    reveal_strlit("/");
    assert("/"@.len() == 1);
}

/// A path that ends in `/` (an empty last segment) derives the default name.
pub proof fn lemma_trailing_slash_default(p: Seq<char>)
    requires
        p.len() > 0,
        p.last() == '/',
    ensures
        spec_filename(p) == default_filename(),
{
}

/// When the path has a non-empty final segment — the characters strictly
/// after its last `'/'` — that segment, verbatim, is the derived filename.
pub proof fn lemma_last_segment_filename(p: Seq<char>, j: int)
    requires
        p.len() > 0,
        p[0] == '/',
        0 <= j < p.len(),
        p[j] == '/',
        j + 1 < p.len(),
        forall|k: int| j < k < p.len() ==> p[k] != '/',
    ensures
        spec_filename(p) == p.subrange(j + 1, p.len() as int),
{
    lemma_tail_segment_after_slash(p, j);
    assert(p.subrange(j + 1, p.len() as int).len() > 0);
}

/// Derives the output filename from a URL path, exactly as `spec_filename`
/// describes. Pure string work: no network, no filesystem.
pub fn filename_from_path(path: &str) -> (r: String)
    ensures
        r@ == spec_filename(path@),
{
    let n = path.unicode_len();
    if n == 0 || path.get_char(0) != '/' {
        return "index.html".to_owned();
    }
    let mut last: usize = 0;
    let mut i: usize = 1;
    while i < n
        invariant
            1 <= i <= n,
            n == path@.len(),
            last < i,
            path@[last as int] == '/',
            forall|k: int| last < k < i ==> path@[k] != '/',
        decreases n - i,
    {
        if path.get_char(i) == '/' {
            last = i;
        }
        i += 1;
    }
    proof {
        lemma_tail_segment_after_slash(path@, last as int);
    }
    if last + 1 == n {
        "index.html".to_owned()
    } else {
        path.substring_char(last + 1, n).to_owned()
    }
}

} // verus!
