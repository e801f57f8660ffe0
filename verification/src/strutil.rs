//! Character-level string helpers used by the validation logic: trimming
//! trailing newline characters, prefix/suffix tests, and path joining.

use vstd::prelude::*;
use vstd::string::*;

verus! {

/// The sequence `s` with every trailing `'\n'` or `'\r'` removed.
pub open spec fn trim_newlines(s: Seq<char>) -> Seq<char>
    decreases s.len(),
{
    if s.len() > 0 && (s.last() == '\n' || s.last() == '\r') {
        trim_newlines(s.drop_last())
    } else {
        s
    }
}

/// `p` is a prefix of `s`.
pub open spec fn is_prefix_of(p: Seq<char>, s: Seq<char>) -> bool {
    p.len() <= s.len() && s.subrange(0, p.len() as int) == p
}

/// `p` is a suffix of `s`.
pub open spec fn is_suffix_of(p: Seq<char>, s: Seq<char>) -> bool {
    p.len() <= s.len() && s.subrange(s.len() - p.len(), s.len() as int) == p
}

/// The trailing portion of `s` with the length of `t`, or all of `s` when
/// `s` is shorter than `t`.
pub open spec fn tail_token(s: Seq<char>, t: Seq<char>) -> Seq<char> {
    if t.len() <= s.len() {
        s.subrange(s.len() - t.len(), s.len() as int)
    } else {
        s
    }
}

/// The leading portion of `s` with the length of `t`, or all of `s` when
/// `s` is shorter than `t`.
pub open spec fn head_token(s: Seq<char>, t: Seq<char>) -> Seq<char> {
    if t.len() <= s.len() {
        s.subrange(0, t.len() as int)
    } else {
        s
    }
}

proof fn lemma_trim_newlines_step(s: Seq<char>, end: int)
    requires
        0 < end <= s.len(),
        s[end - 1] == '\n' || s[end - 1] == '\r',
    ensures
        trim_newlines(s.subrange(0, end)) == trim_newlines(s.subrange(0, end - 1)),
{
    let t = s.subrange(0, end);
    assert(t.last() == s[end - 1]);
    assert(t.drop_last() =~= s.subrange(0, end - 1));
}

/// Copy of `s` with every trailing newline or carriage return removed.
pub fn trim_trailing_newlines(s: &str) -> (r: String)
    ensures
        r@ == trim_newlines(s@),
{
    let len = s.unicode_len();
    let mut end: usize = len;
    proof {
        assert(s@.subrange(0, len as int) =~= s@);
    }
    loop
        invariant
            end <= len,
            len == s@.len(),
            trim_newlines(s@.subrange(0, end as int)) == trim_newlines(s@),
        ensures
            end <= len,
            len == s@.len(),
            trim_newlines(s@.subrange(0, end as int)) == trim_newlines(s@),
            end == 0 || !(s@[end - 1] == '\n' || s@[end - 1] == '\r'),
        decreases end,
    {
        if end == 0 {
            break;
        }
        let c = s.get_char(end - 1);
        if c != '\n' && c != '\r' {
            break;
        }
        proof {
            lemma_trim_newlines_step(s@, end as int);
        }
        end = end - 1;
    }
    let cut = s.substring_char(0, end);
    proof {
        let t = s@.subrange(0, end as int);
        if end == 0 {
            assert(t.len() == 0);
        } else {
            assert(t.last() == s@[end - 1]);
        }
        assert(trim_newlines(t) == t);
    }
    cut.to_owned()
}

/// Whether `s` starts with `p`.
pub fn str_starts_with(s: &str, p: &str) -> (r: bool)
    ensures
        r == is_prefix_of(p@, s@),
{
    let slen = s.unicode_len();
    let plen = p.unicode_len();
    if plen > slen {
        return false;
    }
    let mut i: usize = 0;
    while i < plen
        invariant
            i <= plen,
            plen <= slen,
            plen == p@.len(),
            slen == s@.len(),
            forall|j: int| 0 <= j < i ==> s@[j] == p@[j],
        decreases plen - i,
    {
        let sc = s.get_char(i);
        let pc = p.get_char(i);
        if sc != pc {
            proof {
                assert(s@.subrange(0, p@.len() as int)[i as int] == s@[i as int]);
            }
            return false;
        }
        i = i + 1;
    }
    proof {
        assert(s@.subrange(0, p@.len() as int) =~= p@);
    }
    true
}

/// Whether `s` ends with `p`.
pub fn str_ends_with(s: &str, p: &str) -> (r: bool)
    ensures
        r == is_suffix_of(p@, s@),
{
    let slen = s.unicode_len();
    let plen = p.unicode_len();
    if plen > slen {
        return false;
    }
    let off = slen - plen;
    let mut i: usize = 0;
    while i < plen
        invariant
            i <= plen,
            plen <= slen,
            plen == p@.len(),
            slen == s@.len(),
            off == slen - plen,
            forall|j: int| 0 <= j < i ==> s@[off + j] == p@[j],
        decreases plen - i,
    {
        let sc = s.get_char(off + i);
        let pc = p.get_char(i);
        if sc != pc {
            proof {
                assert(s@.subrange(s@.len() - p@.len(), s@.len() as int)[i as int]
                    == s@[off + i]);
            }
            return false;
        }
        i = i + 1;
    }
    proof {
        assert(s@.subrange(s@.len() - p@.len(), s@.len() as int) =~= p@);
    }
    true
}

/// `dir` and `rel` joined with a single `'/'` separator.
pub fn path_join(dir: &str, rel: &str) -> (r: String)
    ensures
        r@ == dir@ + seq!['/'] + rel@,
{
    let mut r = dir.to_owned();
    r.append("/");
    proof {
        reveal_strlit("/");
        assert(r@ =~= dir@ + seq!['/']);
    }
    r.append(rel);
    proof {
        assert(r@ =~= dir@ + seq!['/'] + rel@);
    }
    r
}

/// `a` followed directly by `b`.
pub fn str_concat(a: &str, b: &str) -> (r: String)
    ensures
        r@ == a@ + b@,
{
    let mut r = a.to_owned();
    r.append(b);
    r
}

} // verus!
