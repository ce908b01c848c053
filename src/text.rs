use vstd::prelude::*;
use vstd::string::*;

verus! {

/// The decimal digit character of `d`.
pub open spec fn digit_char(d: nat) -> char {
    if d == 0 { '0' } else if d == 1 { '1' } else if d == 2 { '2' } else if d == 3 { '3' }
    else if d == 4 { '4' } else if d == 5 { '5' } else if d == 6 { '6' } else if d == 7 { '7' }
    else if d == 8 { '8' } else { '9' }
}

/// The decimal notation of `n`, without leading zeros.
pub open spec fn decimal(n: nat) -> Seq<char>
    decreases n,
{
    if n < 10 {
        seq![digit_char(n)]
    } else {
        decimal(n / 10).push(digit_char(n % 10))
    }
}

/// The decimal notation of `i`, with a leading `-` when negative.
pub open spec fn signed_decimal(i: int) -> Seq<char> {
    if i < 0 {
        seq!['-'] + decimal((-i) as nat)
    } else {
        decimal(i as nat)
    }
}

fn digit_str(d: u64) -> (r: &'static str)
    requires
        d < 10,
    ensures
        r@ == seq![digit_char(d as nat)],
{
    proof {
        reveal_strlit("0");
        reveal_strlit("1");
        reveal_strlit("2");
        reveal_strlit("3");
        reveal_strlit("4");
        reveal_strlit("5");
        reveal_strlit("6");
        reveal_strlit("7");
        reveal_strlit("8");
        reveal_strlit("9");
    }
    let r = if d == 0 { "0" } else if d == 1 { "1" } else if d == 2 { "2" } else if d == 3 { "3" }
    else if d == 4 { "4" } else if d == 5 { "5" } else if d == 6 { "6" } else if d == 7 { "7" }
    else if d == 8 { "8" } else { "9" };
    assert(r@ =~= seq![digit_char(d as nat)]);
    r
}

/// The decimal notation of `n`.
pub fn u64_text(n: u64) -> (r: String)
    ensures
        r@ == decimal(n as nat),
    decreases n,
{
    if n < 10 {
        String::from_str(digit_str(n))
    } else {
        let mut s = u64_text(n / 10);
        s.append(digit_str(n % 10));
        s
    }
}

/// The decimal notation of `n`.
pub fn usize_text(n: usize) -> (r: String)
    ensures
        r@ == decimal(n as nat),
{
    u64_text(n as u64)
}

/// The decimal notation of `i`, signed.
pub fn i64_text(i: i64) -> (r: String)
    ensures
        r@ == signed_decimal(i as int),
{
    if i < 0 {
        let m: u64 = if i == i64::MIN { 9223372036854775808u64 } else { (-i) as u64 };
        let mut s = String::from_str("-");
        proof {
            reveal_strlit("-");
        }
        s.append(u64_text(m).as_str());
        assert(s@ =~= signed_decimal(i as int));
        s
    } else {
        u64_text(i as u64)
    }
}

/// The parts joined by `sep`.
pub open spec fn join(parts: Seq<Seq<char>>, sep: Seq<char>) -> Seq<char>
    decreases parts.len(),
{
    if parts.len() == 0 {
        Seq::empty()
    } else if parts.len() == 1 {
        parts[0]
    } else {
        join(parts.drop_last(), sep) + sep + parts.last()
    }
}

/// Joining one more part.
pub proof fn lemma_join_step(parts: Seq<Seq<char>>, sep: Seq<char>, i: int)
    requires
        0 <= i < parts.len(),
    ensures
        join(parts.take(i + 1), sep) == if i == 0 {
            parts[i]
        } else {
            join(parts.take(i), sep) + sep + parts[i]
        },
{
    assert(parts.take(i + 1).drop_last() =~= parts.take(i));
}

/// Joining all the parts.
pub proof fn lemma_join_all(parts: Seq<Seq<char>>, sep: Seq<char>)
    ensures
        join(parts.take(parts.len() as int), sep) == join(parts, sep),
{
    assert(parts.take(parts.len() as int) =~= parts);
}

/// `s` with every occurrence of `from` replaced by `to`, scanning left to right
/// and never overlapping two occurrences.
pub open spec fn replace_all(s: Seq<char>, from: Seq<char>, to: Seq<char>) -> Seq<char>
    decreases s.len(),
{
    if from.len() == 0 || s.len() < from.len() {
        s
    } else if s.take(from.len() as int) == from {
        to + replace_all(s.skip(from.len() as int), from, to)
    } else {
        seq![s[0]] + replace_all(s.skip(1), from, to)
    }
}

/// Whether `from` occurs in `s` at `i`.
pub open spec fn occurs_at(s: Seq<char>, from: Seq<char>, i: int) -> bool {
    0 <= i && i + from.len() <= s.len() && s.subrange(i, i + from.len() as int) == from
}

/// Skipping characters that start no occurrence.
proof fn lemma_replace_skip(s: Seq<char>, from: Seq<char>, to: Seq<char>, start: int, i: int)
    requires
        from.len() > 0,
        0 <= start <= i <= s.len(),
        forall|k: int| start <= k < i ==> !occurs_at(s, from, k),
    ensures
        replace_all(s.skip(start), from, to) == s.subrange(start, i) + replace_all(s.skip(i), from, to),
    decreases i - start,
{
    if start < i {
        let t = s.skip(start);
        assert(!occurs_at(s, from, start));
        if t.len() >= from.len() {
            assert(t.take(from.len() as int) =~= s.subrange(start, start + from.len() as int));
        }
        assert(t.skip(1) =~= s.skip(start + 1));
        lemma_replace_skip(s, from, to, start + 1, i);
        assert(seq![s[start]] + s.subrange(start + 1, i) =~= s.subrange(start, i));
        if t.len() < from.len() {
            assert(s.skip(i) =~= s.subrange(i, s.len() as int));
            lemma_replace_short(s.skip(start + 1), from, to);
            assert(replace_all(s.skip(start + 1), from, to) == s.skip(start + 1));
            assert(t =~= seq![s[start]] + s.skip(start + 1));
        }
    } else {
        assert(s.subrange(start, i) =~= Seq::<char>::empty());
    }
}

proof fn lemma_replace_short(s: Seq<char>, from: Seq<char>, to: Seq<char>)
    requires
        s.len() < from.len(),
    ensures
        replace_all(s, from, to) == s,
{
}

fn matches_at(s: &str, n: usize, from: &str, m: usize, i: usize) -> (r: bool)
    requires
        n == s@.len(),
        m == from@.len(),
        i <= n,
    ensures
        r == occurs_at(s@, from@, i as int),
{
    if m > n - i {
        return false;
    }
    let mut k: usize = 0;
    while k < m
        invariant
            m == from@.len(),
            n == s@.len(),
            i + m <= n,
            k <= m,
            forall|j: int| 0 <= j < k ==> s@[i + j] == from@[j],
        decreases m - k,
    {
        if s.get_char(i + k) != from.get_char(k) {
            assert(s@.subrange(i as int, i + m)[k as int] != from@[k as int]);
            return false;
        }
        k = k + 1;
    }
    assert(s@.subrange(i as int, i + m) =~= from@);
    true
}

/// `s` with every occurrence of the non-empty `from` replaced by `to`.
pub fn replace(s: &str, from: &str, to: &str) -> (r: String)
    requires
        from@.len() > 0,
    ensures
        r@ == replace_all(s@, from@, to@),
{
    let n = s.unicode_len();
    let m = from.unicode_len();
    let mut out = String::new();
    let mut start: usize = 0;
    let mut i: usize = 0;
    assert(s@.skip(0) =~= s@);
    assert(out@ + s@ =~= s@);
    while i < n
        invariant
            n == s@.len(),
            m == from@.len(),
            m > 0,
            start <= i <= n,
            forall|k: int| start <= k < i ==> !occurs_at(s@, from@, k),
            out@ + replace_all(s@.skip(start as int), from@, to@) == replace_all(s@, from@, to@),
        decreases n - i,
    {
        if matches_at(s, n, from, m, i) {
            proof {
                lemma_replace_skip(s@, from@, to@, start as int, i as int);
                let t = s@.skip(i as int);
                assert(t.take(m as int) =~= s@.subrange(i as int, i + m));
                assert(t.skip(m as int) =~= s@.skip(i + m));
            }
            out.append(s.substring_char(start, i));
            out.append(to);
            i = i + m;
            start = i;
            proof {
                assert(out@ + replace_all(s@.skip(start as int), from@, to@) == replace_all(s@, from@, to@));
            }
        } else {
            i = i + 1;
        }
    }
    proof {
        lemma_replace_skip(s@, from@, to@, start as int, i as int);
        assert(s@.skip(i as int) =~= Seq::<char>::empty());
    }
    out.append(s.substring_char(start, n));
    proof {
        assert(out@ =~= replace_all(s@, from@, to@));
    }
    out
}

/// The text after resolving its escape sequences, one kind after another.
pub open spec fn unescaped(s: Seq<char>) -> Seq<char> {
    replace_all(replace_all(replace_all(replace_all(replace_all(replace_all(replace_all(s, "\\n"@, "\n"@), "\\t"@, "\t"@), "\\r"@, "\r"@), "\\0"@, "\0"@), "\\'"@, "'"@), "\\\""@, "\""@), "\\\\"@, "\\"@)
}

/// Resolves the two-character escapes `\n`, `\t`, `\r`, `\0`, `\'`, `\"` and `\\`, in that order.
pub fn to_string_with_special_char(s: &str) -> (r: String)
    ensures
        r@ == unescaped(s@),
{
    proof {
        reveal_strlit("\\n");
        reveal_strlit("\\t");
        reveal_strlit("\\r");
        reveal_strlit("\\0");
        reveal_strlit("\\'");
        reveal_strlit("\\\"");
        reveal_strlit("\\\\");
    }
    let s0 = replace(s, "\\n", "\n");
    let s1 = replace(s0.as_str(), "\\t", "\t");
    let s2 = replace(s1.as_str(), "\\r", "\r");
    let s3 = replace(s2.as_str(), "\\0", "\0");
    let s4 = replace(s3.as_str(), "\\'", "'");
    let s5 = replace(s4.as_str(), "\\\"", "\"");
    let s6 = replace(s5.as_str(), "\\\\", "\\");
    s6
}

/// Whether two strings hold the same characters.
pub fn same_text(a: &str, b: &str) -> (r: bool)
    ensures
        r == (a@ == b@),
{
    let n = a.unicode_len();
    if n != b.unicode_len() {
        return false;
    }
    let mut i: usize = 0;
    while i < n
        invariant
            n == a@.len(),
            n == b@.len(),
            i <= n,
            forall|j: int| 0 <= j < i ==> a@[j] == b@[j],
        decreases n - i,
    {
        if a.get_char(i) != b.get_char(i) {
            return false;
        }
        i = i + 1;
    }
    assert(a@ =~= b@);
    true
}

} // verus!
