use vstd::prelude::*;
use vstd::string::StrSliceExecFns;
use vstd::string::StringExecFns;

verus! {

/// Joining two path fragments puts exactly one separator between them.
pub open spec fn spec_join(a: Seq<char>, b: Seq<char>) -> Seq<char> {
    a + "/"@ + b
}

/// Joins two path fragments with a single separator.
pub fn join_path(a: &str, b: &str) -> (r: String)
    ensures
        r@ == spec_join(a@, b@),
{
    let mut s: String = a.to_owned();
    s.append("/");
    s.append(b);
    proof {
        assert(s@ =~= a@ + "/"@ + b@);
    }
    s
}

/// The prefix of `s` before its last separator: `None` when `s` holds no
/// separator at all. Paths are expected in normalized form, without a
/// trailing separator.
pub open spec fn spec_parent_of(s: Seq<char>) -> Option<Seq<char>>
    decreases s.len(),
{
    if s.len() == 0 {
        None
    } else if s[s.len() - 1] == '/' {
        Some(s.take(s.len() - 1))
    } else {
        spec_parent_of(s.take(s.len() - 1))
    }
}

/// When `k` is the position of the last separator of `s`, the parent is
/// exactly the prefix before `k`.
proof fn lemma_parent_from_last_sep(s: Seq<char>, k: int)
    requires
        0 <= k < s.len(),
        s[k] == '/',
        forall|j: int| k < j < s.len() ==> s[j] != '/',
    ensures
        spec_parent_of(s) == Some(s.take(k)),
    decreases s.len(),
{
    if k == s.len() - 1 {
    } else {
        let prefix = s.take(s.len() - 1);
        lemma_parent_from_last_sep(prefix, k);
        assert(prefix.take(k) =~= s.take(k));
    }
}

/// A path without any separator has no parent.
proof fn lemma_parent_none(s: Seq<char>)
    requires
        forall|j: int| 0 <= j < s.len() ==> s[j] != '/',
    ensures
        spec_parent_of(s) is None,
    decreases s.len(),
{
    if s.len() > 0 {
        lemma_parent_none(s.take(s.len() - 1));
    }
}

/// Returns the prefix of `p` before its last separator, or `None` when `p`
/// holds no separator.
pub fn parent_dir(p: &str) -> (r: Option<String>)
    ensures
        match r {
            Some(par) => spec_parent_of(p@) == Some(par@),
            None => spec_parent_of(p@) is None,
        },
{
    let n = p.unicode_len();
    let mut i = n;
    while i > 0
        invariant
            i <= n,
            n == p@.len(),
            forall|j: int| i <= j < n ==> p@[j] != '/',
        decreases i,
    {
        if p.get_char(i - 1) == '/' {
            let par = p.substring_char(0, i - 1).to_owned();
            proof {
                lemma_parent_from_last_sep(p@, i - 1);
                assert(p@.subrange(0, i - 1) =~= p@.take(i - 1));
            }
            return Some(par);
        }
        i = i - 1;
    }
    proof {
        lemma_parent_none(p@);
    }
    None
}

} // verus!
