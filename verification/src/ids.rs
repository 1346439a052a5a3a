//! The chapter identity resolver: a chapter identifier is the file-name stem
//! of a document path. A path is modelled as its characters; `/` separates
//! components and the stem of a file name is the part before its last `.`.

use crate::PipelineError;
use vstd::prelude::*;
use vstd::string::StrSliceExecFns;
use vstd::string::StringExecFns;

verus! {

/// The file-name component of a path: everything after the last `/`
/// (the whole path when there is no `/`, empty when the path ends in `/`).
pub open spec fn spec_file_name(p: Seq<char>) -> Seq<char>
    decreases p.len(),
{
    if p.len() == 0 {
        Seq::<char>::empty()
    } else if p.last() == '/' {
        Seq::<char>::empty()
    } else {
        spec_file_name(p.drop_last()).push(p.last())
    }
}

/// Whether the sequence holds a `.` anywhere.
pub open spec fn spec_has_dot(s: Seq<char>) -> bool
    decreases s.len(),
{
    if s.len() == 0 {
        false
    } else {
        s.last() == '.' || spec_has_dot(s.drop_last())
    }
}

/// The stem of a file name: the part before the last `.`, or the whole
/// name when it holds no `.`.
pub open spec fn spec_stem_of_name(name: Seq<char>) -> Seq<char>
    decreases name.len(),
{
    if name.len() == 0 {
        Seq::<char>::empty()
    } else if name.last() == '.' {
        name.drop_last()
    } else if spec_has_dot(name.drop_last()) {
        spec_stem_of_name(name.drop_last())
    } else {
        name
    }
}

/// The chapter identifier derived from a document path; empty when the path
/// yields no usable identifier.
pub open spec fn spec_chapter_id(path: Seq<char>) -> Seq<char> {
    spec_stem_of_name(spec_file_name(path))
}

/// Whether a document path yields a usable chapter identifier.
pub open spec fn valid_chapter_id(path: Seq<char>) -> bool {
    spec_chapter_id(path).len() > 0
}

/// The directory part of a path: everything before the last `/`
/// (empty when there is no `/`).
pub open spec fn spec_parent_dir(p: Seq<char>) -> Seq<char>
    decreases p.len(),
{
    if p.len() == 0 {
        Seq::<char>::empty()
    } else if p.last() == '/' {
        p.drop_last()
    } else {
        spec_parent_dir(p.drop_last())
    }
}

proof fn lemma_file_name_suffix(p: Seq<char>, j: int)
    requires
        0 <= j <= p.len(),
        j == 0 || p[j - 1] == '/',
        forall|k: int| j <= k < p.len() ==> p[k] != '/',
    ensures
        spec_file_name(p) == p.subrange(j, p.len() as int),
    decreases p.len(),
{
    if p.len() == j {
        if j == 0 {
            assert(spec_file_name(p) =~= p.subrange(j, p.len() as int));
        } else {
            assert(p.last() == '/');
            assert(spec_file_name(p) =~= p.subrange(j, p.len() as int));
        }
    } else {
        assert(p[p.len() - 1] != '/');
        lemma_file_name_suffix(p.drop_last(), j);
        assert(p.drop_last().subrange(j, p.len() - 1) =~= p.subrange(j, p.len() - 1));
        assert(spec_file_name(p) =~= p.subrange(j, p.len() as int));
    }
}

proof fn lemma_no_dot(s: Seq<char>)
    requires
        forall|i: int| 0 <= i < s.len() ==> s[i] != '.',
    ensures
        !spec_has_dot(s),
    decreases s.len(),
{
    if s.len() > 0 {
        lemma_no_dot(s.drop_last());
    }
}

proof fn lemma_has_dot_at(s: Seq<char>, i: int)
    requires
        0 <= i < s.len(),
        s[i] == '.',
    ensures
        spec_has_dot(s),
    decreases s.len(),
{
    if i < s.len() - 1 {
        lemma_has_dot_at(s.drop_last(), i);
    }
}

proof fn lemma_stem_whole(name: Seq<char>)
    requires
        forall|i: int| 0 <= i < name.len() ==> name[i] != '.',
    ensures
        spec_stem_of_name(name) == name,
{
    if name.len() > 0 {
        lemma_no_dot(name.drop_last());
        assert(spec_stem_of_name(name) =~= name);
    } else {
        assert(spec_stem_of_name(name) =~= name);
    }
}

proof fn lemma_stem_before_last_dot(name: Seq<char>, k: int)
    requires
        0 < k <= name.len(),
        name[k - 1] == '.',
        forall|t: int| k <= t < name.len() ==> name[t] != '.',
    ensures
        spec_stem_of_name(name) == name.subrange(0, k - 1),
    decreases name.len(),
{
    if k == name.len() {
        assert(name.last() == '.');
        assert(spec_stem_of_name(name) =~= name.subrange(0, k - 1));
    } else {
        assert(name[name.len() - 1] != '.');
        lemma_has_dot_at(name.drop_last(), k - 1);
        lemma_stem_before_last_dot(name.drop_last(), k);
        assert(name.drop_last().subrange(0, k - 1) =~= name.subrange(0, k - 1));
    }
}

proof fn lemma_parent_none(p: Seq<char>)
    requires
        forall|k: int| 0 <= k < p.len() ==> p[k] != '/',
    ensures
        spec_parent_dir(p) == Seq::<char>::empty(),
    decreases p.len(),
{
    if p.len() > 0 {
        lemma_parent_none(p.drop_last());
    }
}

proof fn lemma_parent_prefix(p: Seq<char>, j: int)
    requires
        0 < j <= p.len(),
        p[j - 1] == '/',
        forall|k: int| j <= k < p.len() ==> p[k] != '/',
    ensures
        spec_parent_dir(p) == p.subrange(0, j - 1),
    decreases p.len(),
{
    if j == p.len() {
        assert(p.last() == '/');
        assert(spec_parent_dir(p) =~= p.subrange(0, j - 1));
    } else {
        assert(p[p.len() - 1] != '/');
        lemma_parent_prefix(p.drop_last(), j);
        assert(p.drop_last().subrange(0, j - 1) =~= p.subrange(0, j - 1));
    }
}

/// The character position right after the last `/` of the path
/// (0 when there is none): where the file name starts.
fn file_name_start(path: &str) -> (j: usize)
    ensures
        j <= path@.len(),
        j == 0 || path@[j - 1] == '/',
        forall|k: int| j <= k < path@.len() ==> path@[k] != '/',
{
    let n = path.unicode_len();
    let mut j = n;
    while j > 0
        invariant
            j <= n,
            n == path@.len(),
            forall|k: int| j <= k < path@.len() ==> path@[k] != '/',
        decreases j,
    {
        if path.get_char(j - 1) == '/' {
            return j;
        }
        j = j - 1;
    }
    j
}

/// The character position right after the last `.` of a file name
/// (0 when there is none).
fn dot_split_point(name: &str) -> (k: usize)
    ensures
        k <= name@.len(),
        k == 0 || name@[k - 1] == '.',
        forall|t: int| k <= t < name@.len() ==> name@[t] != '.',
{
    let m = name.unicode_len();
    let mut k = m;
    while k > 0
        invariant
            k <= m,
            m == name@.len(),
            forall|t: int| k <= t < name@.len() ==> name@[t] != '.',
        decreases k,
    {
        if name.get_char(k - 1) == '.' {
            return k;
        }
        k = k - 1;
    }
    k
}

/// Derives the chapter identifier from a document path: the file-name stem.
/// Fails with `InvalidIdentifier` exactly when the path yields an empty stem
/// (it ends in a separator, or its file name is empty up to its last `.`).
pub fn chapter_id(path: &str) -> (r: Result<String, PipelineError>)
    ensures
        match r {
            Ok(id) => id@ == spec_chapter_id(path@) && valid_chapter_id(path@),
            Err(e) => e == PipelineError::InvalidIdentifier && !valid_chapter_id(path@),
        },
{
    let n = path.unicode_len();
    let j = file_name_start(path);
    let name = path.substring_char(j, n);
    proof {
        lemma_file_name_suffix(path@, j as int);
    }
    let m = name.unicode_len();
    let k = dot_split_point(name);
    if k == 0 {
        // no `.` in the file name: the stem is the whole name
        proof {
            lemma_stem_whole(name@);
        }
        if m == 0 {
            Err(PipelineError::InvalidIdentifier)
        } else {
            Ok(String::from_str(name))
        }
    } else {
        proof {
            lemma_stem_before_last_dot(name@, k as int);
        }
        if k == 1 {
            Err(PipelineError::InvalidIdentifier)
        } else {
            Ok(String::from_str(name.substring_char(0, k - 1)))
        }
    }
}

/// The directory a document lives in, as a path prefix; its derived text
/// artifacts are placed beside it.
pub fn parent_dir(path: &str) -> (r: String)
    ensures
        r@ == spec_parent_dir(path@),
{
    let j = file_name_start(path);
    if j == 0 {
        proof {
            lemma_parent_none(path@);
            reveal_strlit("");
            assert(("")@ =~= Seq::<char>::empty());
        }
        String::from_str("")
    } else {
        proof {
            lemma_parent_prefix(path@, j as int);
        }
        String::from_str(path.substring_char(0, j - 1))
    }
}

} // verus!
