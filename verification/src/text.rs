//! Trimming of typed lines, and the comparison that confirms a deletion.
use vstd::prelude::*;
use vstd::string::*;

verus! {

/// Whether `c` has the Unicode property White_Space.
pub open spec fn is_whitespace(c: char) -> bool {
    let u = c as u32;
    ||| 0x09 <= u <= 0x0D
    ||| u == 0x20
    ||| u == 0x85
    ||| u == 0xA0
    ||| u == 0x1680
    ||| 0x2000 <= u <= 0x200A
    ||| u == 0x2028
    ||| u == 0x2029
    ||| u == 0x202F
    ||| u == 0x205F
    ||| u == 0x3000
}

/// `s` without its leading whitespace.
pub open spec fn trim_start(s: Seq<char>) -> Seq<char>
    decreases s.len(),
{
    if s.len() > 0 && is_whitespace(s.first()) {
        trim_start(s.drop_first())
    } else {
        s
    }
}

/// `s` without its trailing whitespace.
pub open spec fn trim_end(s: Seq<char>) -> Seq<char>
    decreases s.len(),
{
    if s.len() > 0 && is_whitespace(s.last()) {
        trim_end(s.drop_last())
    } else {
        s
    }
}

/// `s` without its leading and trailing whitespace.
pub open spec fn trim(s: Seq<char>) -> Seq<char> {
    trim_end(trim_start(s))
}

/// Whether the typed `line` confirms the deletion of the entry `name`: it
/// does when it is the name itself, give or take surrounding whitespace.
pub open spec fn confirms(line: Seq<char>, name: Seq<char>) -> bool {
    trim(line) == name
}

/// Whether `c` has the Unicode property White_Space.
pub fn is_space(c: char) -> (b: bool)
    ensures
        b == is_whitespace(c),
{
    let u: u32 = c as u32;
    (0x09 <= u && u <= 0x0D) || u == 0x20 || u == 0x85 || u == 0xA0 || u == 0x1680 || (0x2000 <= u
        && u <= 0x200A) || u == 0x2028 || u == 0x2029 || u == 0x202F || u == 0x205F || u == 0x3000
}

/// The part of `line` between its leading and its trailing whitespace.
///
/// Characters are reached by position, which costs time proportional to the
/// position: the function is meant for a line typed at a prompt.
pub fn trimmed(line: &str) -> (t: &str)
    ensures
        t@ == trim(line@),
{
    let n: usize = line.unicode_len();
    let mut start: usize = 0;
    assert(line@.skip(0) =~= line@);
    loop
        invariant_except_break
            start <= n,
            n == line@.len(),
            trim_start(line@) == trim_start(line@.skip(start as int)),
        ensures
            start <= n,
            n == line@.len(),
            trim_start(line@) == line@.skip(start as int),
        decreases n - start,
    {
        if start == n {
            break ;
        }
        let c = line.get_char(start);
        if !is_space(c) {
            break ;
        }
        assert(line@.skip(start as int).drop_first() =~= line@.skip(start as int + 1));
        start = start + 1;
    }
    assert(line@.skip(start as int) =~= line@.subrange(start as int, n as int));
    let mut end: usize = n;
    loop
        invariant_except_break
            start <= end <= n,
            n == line@.len(),
            trim(line@) == trim_end(line@.subrange(start as int, end as int)),
        ensures
            start <= end <= n,
            n == line@.len(),
            trim(line@) == line@.subrange(start as int, end as int),
        decreases end - start,
    {
        if end == start {
            break ;
        }
        let c = line.get_char(end - 1);
        if !is_space(c) {
            break ;
        }
        assert(line@.subrange(start as int, end as int).drop_last() =~= line@.subrange(
            start as int,
            end as int - 1,
        ));
        end = end - 1;
    }
    line.substring_char(start, end)
}

/// Whether the typed `line` confirms the deletion of the entry `name`.
pub fn is_confirmation(line: &str, name: &str) -> (b: bool)
    ensures
        b == confirms(line@, name@),
{
    let typed = String::from_str(trimmed(line));
    let wanted = String::from_str(name);
    typed == wanted
}

/// Trimming gives a piece of the line that neither starts nor ends with
/// whitespace, and what it leaves out on either side is whitespace only.
pub proof fn lemma_trim_is_the_core(s: Seq<char>)
    ensures
        exists|i: int, j: int|
            0 <= i <= j <= s.len() && #[trigger] s.subrange(i, j) == trim(s) && (forall|k: int|
                0 <= k < i || j <= k < s.len() ==> is_whitespace(#[trigger] s[k])),
        trim(s).len() > 0 ==> !is_whitespace(trim(s).first()) && !is_whitespace(trim(s).last()),
{
    lemma_trim_start(s);
    let i = choose|i: int|
        0 <= i <= s.len() && #[trigger] s.skip(i) == trim_start(s) && (forall|k: int|
            0 <= k < i ==> is_whitespace(#[trigger] s[k]));
    let r = s.skip(i);
    lemma_trim_end(r);
    let m = choose|m: int|
        0 <= m <= r.len() && #[trigger] r.take(m) == trim_end(r) && (forall|k: int|
            m <= k < r.len() ==> is_whitespace(#[trigger] r[k]));
    assert(s.subrange(i, i + m) =~= r.take(m));
    assert forall|k: int| 0 <= k < i || i + m <= k < s.len() implies is_whitespace(
        #[trigger] s[k],
    ) by {
        if k >= i + m {
            assert(s[k] == r[k - i]);
        }
    }
    if trim(s).len() > 0 {
        assert(r.take(m).first() == r[0]);
        assert(m > 0);
    }
}

proof fn lemma_trim_start(s: Seq<char>)
    ensures
        exists|i: int|
            0 <= i <= s.len() && #[trigger] s.skip(i) == trim_start(s) && (forall|k: int|
                0 <= k < i ==> is_whitespace(#[trigger] s[k])),
        trim_start(s).len() > 0 ==> !is_whitespace(trim_start(s).first()),
    decreases s.len(),
{
    if s.len() > 0 && is_whitespace(s.first()) {
        let t = s.drop_first();
        lemma_trim_start(t);
        let i = choose|i: int|
            0 <= i <= t.len() && #[trigger] t.skip(i) == trim_start(t) && (forall|k: int|
                0 <= k < i ==> is_whitespace(#[trigger] t[k]));
        assert(s.skip(i + 1) =~= t.skip(i));
        assert forall|k: int| 0 <= k < i + 1 implies is_whitespace(#[trigger] s[k]) by {
            if k > 0 {
                assert(s[k] == t[k - 1]);
            }
        }
    } else {
        assert(s.skip(0) =~= s);
    }
}

proof fn lemma_trim_end(s: Seq<char>)
    ensures
        exists|m: int|
            0 <= m <= s.len() && #[trigger] s.take(m) == trim_end(s) && (forall|k: int|
                m <= k < s.len() ==> is_whitespace(#[trigger] s[k])),
        trim_end(s).len() > 0 ==> !is_whitespace(trim_end(s).last()),
        trim_end(s).len() > 0 ==> trim_end(s).first() == s.first(),
    decreases s.len(),
{
    if s.len() > 0 && is_whitespace(s.last()) {
        let t = s.drop_last();
        lemma_trim_end(t);
        let m = choose|m: int|
            0 <= m <= t.len() && #[trigger] t.take(m) == trim_end(t) && (forall|k: int|
                m <= k < t.len() ==> is_whitespace(#[trigger] t[k]));
        assert(s.take(m) =~= t.take(m));
        assert forall|k: int| m <= k < s.len() implies is_whitespace(#[trigger] s[k]) by {
            if k < s.len() - 1 {
                assert(s[k] == t[k]);
            }
        }
    } else {
        assert(s.take(s.len() as int) =~= s);
    }
}

} // verus!
