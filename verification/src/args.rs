use vstd::prelude::*;
use vstd::string::StrSliceExecFns;

verus! {

/// The characters on which a raw payload is split into arguments: ASCII
/// whitespace. Splitting is a naive tokenizer by design and does not
/// respect quoting.
pub open spec fn is_space(c: char) -> bool {
    c == ' ' || c == '\t' || c == '\n' || c == '\r'
}

/// Accumulator form of whitespace splitting: `cur` is the token being
/// collected, `acc` the tokens already emitted, `i` the next position.
pub open spec fn split_ws_rec(s: Seq<char>, i: int, cur: Seq<char>, acc: Seq<Seq<char>>) -> Seq<
    Seq<char>,
>
    decreases s.len() - i,
{
    if i < 0 || i >= s.len() {
        if cur.len() > 0 {
            acc.push(cur)
        } else {
            acc
        }
    } else if is_space(s[i]) {
        if cur.len() > 0 {
            split_ws_rec(s, i + 1, Seq::empty(), acc.push(cur))
        } else {
            split_ws_rec(s, i + 1, Seq::empty(), acc)
        }
    } else {
        split_ws_rec(s, i + 1, cur.push(s[i]), acc)
    }
}

/// The maximal whitespace-free tokens of `s`, in order.
pub open spec fn spec_split_ws(s: Seq<char>) -> Seq<Seq<char>> {
    split_ws_rec(s, 0, Seq::empty(), Seq::empty())
}

/// Splits `s` on whitespace into its maximal whitespace-free tokens.
pub fn split_whitespace_args(s: &str) -> (r: Vec<String>)
    ensures
        r.deep_view() == spec_split_ws(s@),
{
    let n = s.unicode_len();
    let mut out: Vec<String> = Vec::new();
    let mut start: usize = 0;
    let mut i: usize = 0;
    proof {
        assert(s@.subrange(0, 0) =~= Seq::<char>::empty());
        assert(out.deep_view() =~~= Seq::<Seq<char>>::empty());
    }
    while i < n
        invariant
            start <= i <= n,
            n == s@.len(),
            spec_split_ws(s@) == split_ws_rec(
                s@,
                i as int,
                s@.subrange(start as int, i as int),
                out.deep_view(),
            ),
        decreases n - i,
    {
        let ghost cur = s@.subrange(start as int, i as int);
        let ghost acc = out.deep_view();
        let c = s.get_char(i);
        if c == ' ' || c == '\t' || c == '\n' || c == '\r' {
            if start < i {
                out.push(s.substring_char(start, i).to_owned());
                proof {
                    assert(out.deep_view() =~~= acc.push(cur));
                }
            }
            start = i + 1;
        }
        i = i + 1;
        proof {
            if is_space(s@[i - 1]) {
                assert(s@.subrange(i as int, i as int) =~= Seq::<char>::empty());
            } else {
                assert(s@.subrange(start as int, i as int) =~= cur.push(s@[i - 1]));
            }
        }
    }
    let ghost cur = s@.subrange(start as int, i as int);
    let ghost acc = out.deep_view();
    if start < n {
        out.push(s.substring_char(start, n).to_owned());
        proof {
            assert(out.deep_view() =~~= acc.push(cur));
        }
    }
    out
}

} // verus!
