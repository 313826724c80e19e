//! Text as sequences of characters: substring search, literal replacement
//! and decimal numerals, each with the mathematical function it computes.

use vstd::prelude::*;
use vstd::string::*;

verus! {

/// `pattern` stands in `text` at position `at`.
pub open spec fn occurs_at(text: Seq<char>, pattern: Seq<char>, at: int) -> bool {
    &&& 0 <= at
    &&& at + pattern.len() <= text.len()
    &&& text.subrange(at, at + pattern.len()) == pattern
}

/// `pattern` stands somewhere in `text`. The empty pattern stands in every text.
pub open spec fn text_contains(text: Seq<char>, pattern: Seq<char>) -> bool {
    exists|at: int| occurs_at(text, pattern, at)
}

/// An end of `first` is a start of `second`: the last `n` characters of the
/// one are the first `n` of the other, for some `n` above 0.
pub open spec fn runs_into(first: Seq<char>, second: Seq<char>) -> bool {
    exists|n: int| ends_in_start(first, second, n)
}

/// The last `n` characters of `first` are the first `n` of `second`, and `n`
/// is above 0.
pub open spec fn ends_in_start(first: Seq<char>, second: Seq<char>, n: int) -> bool {
    &&& 0 < n <= first.len()
    &&& n <= second.len()
    &&& first.skip(first.len() - n) == second.take(n)
}

/// Two texts overlap: one contains the other, or an end of one is a start of
/// the other.
pub open spec fn overlaps(one: Seq<char>, other: Seq<char>) -> bool {
    ||| text_contains(one, other)
    ||| text_contains(other, one)
    ||| runs_into(one, other)
    ||| runs_into(other, one)
}

/// `text` with `with` put before each of its characters and after the last one.
pub open spec fn interleave(text: Seq<char>, with: Seq<char>) -> Seq<char>
    decreases text.len(),
{
    if text.len() == 0 {
        with
    } else {
        with + text.take(1) + interleave(text.skip(1), with)
    }
}

/// `text` read from the left, each occurrence of the non-empty `pattern`
/// that starts where the reading stands replaced by `with`; the reading
/// goes on behind the occurrence, so occurrences that are replaced do not
/// overlap.
pub open spec fn replace_scan(text: Seq<char>, pattern: Seq<char>, with: Seq<char>) -> Seq<char>
    decreases text.len(),
{
    if pattern.len() == 0 || text.len() < pattern.len() {
        text
    } else if occurs_at(text, pattern, 0) {
        with + replace_scan(text.skip(pattern.len() as int), pattern, with)
    } else {
        text.take(1) + replace_scan(text.skip(1), pattern, with)
    }
}

/// Every occurrence of `pattern` in `text` replaced by `with`, leftmost
/// first and without overlap. The empty pattern occurs before every
/// character and at the end.
pub open spec fn replace_all(text: Seq<char>, pattern: Seq<char>, with: Seq<char>) -> Seq<char> {
    if pattern.len() == 0 {
        interleave(text, with)
    } else {
        replace_scan(text, pattern, with)
    }
}

/// The character of a decimal digit.
pub open spec fn digit_char(d: nat) -> char {
    if d == 0 {
        '0'
    } else if d == 1 {
        '1'
    } else if d == 2 {
        '2'
    } else if d == 3 {
        '3'
    } else if d == 4 {
        '4'
    } else if d == 5 {
        '5'
    } else if d == 6 {
        '6'
    } else if d == 7 {
        '7'
    } else if d == 8 {
        '8'
    } else {
        '9'
    }
}

/// The decimal numeral of `n`, without leading zeros.
pub open spec fn decimal(n: nat) -> Seq<char>
    decreases n,
{
    if n < 10 {
        seq![digit_char(n)]
    } else {
        decimal(n / 10).push(digit_char(n % 10))
    }
}

/// The characters of a string, in order.
pub fn chars_of(s: &str) -> (v: Vec<char>)
    ensures
        v@ == s@,
{
    let mut v: Vec<char> = Vec::new();
    for c in it: s.chars()
        invariant
            v@ == it.seq().take(it.index() as int),
            it.seq() == s@,
    {
        v.push(c);
    }
    v
}

/// Whether two strings hold the same characters.
pub fn same_text(a: &str, b: &str) -> (r: bool)
    ensures
        r == (a@ == b@),
{
    let x = String::from_str(a);
    let y = String::from_str(b);
    x == y
}

/// Whether `pattern` stands in `text` at position `at`.
pub fn matches_at(text: &Vec<char>, pattern: &Vec<char>, at: usize) -> (r: bool)
    ensures
        r == occurs_at(text@, pattern@, at as int),
{
    let m = pattern.len();
    if at > text.len() || m > text.len() - at {
        return false;
    }
    let mut k: usize = 0;
    while k < m
        invariant
            m == pattern.len(),
            at + m <= text.len(),
            k <= m,
            forall|j: int| 0 <= j < k ==> text@[at + j] == pattern@[j],
        decreases m - k,
    {
        if text[at + k] != pattern[k] {
            proof {
                let window = text@.subrange(at as int, at + m);
                assert(window[k as int] == text@[at + k]);
            }
            return false;
        }
        k = k + 1;
    }
    proof {
        assert(text@.subrange(at as int, at + m) =~= pattern@);
    }
    true
}

/// Whether `pattern` stands somewhere in `text`.
pub fn find_in(text: &Vec<char>, pattern: &Vec<char>) -> (r: bool)
    ensures
        r == text_contains(text@, pattern@),
{
    let n = text.len();
    let m = pattern.len();
    if m > n {
        return false;
    }
    let last = n - m;
    let mut at: usize = 0;
    while at < last
        invariant
            n == text.len(),
            m == pattern.len(),
            last == n - m,
            at <= last,
            forall|j: int| 0 <= j < at ==> !occurs_at(text@, pattern@, j),
        decreases last - at,
    {
        if matches_at(text, pattern, at) {
            return true;
        }
        at = at + 1;
    }
    matches_at(text, pattern, last)
}

/// Whether the string `text` contains the string `pattern`.
pub fn contains_text(text: &str, pattern: &str) -> (r: bool)
    ensures
        r == text_contains(text@, pattern@),
{
    let t = chars_of(text);
    let p = chars_of(pattern);
    find_in(&t, &p)
}

/// `text` with `with` put before each of its characters and after the last one.
pub fn interleave_text(text: &str, with: &str) -> (r: String)
    ensures
        r@ == interleave(text@, with@),
{
    let n = text.unicode_len();
    let mut out = String::new();
    let mut at: usize = 0;
    proof {
        assert(text@.skip(0) == text@);
        assert(out@ + interleave(text@, with@) == interleave(text@, with@));
    }
    while at < n
        invariant
            n == text@.len(),
            at <= n,
            interleave(text@, with@) == out@ + interleave(text@.skip(at as int), with@),
        decreases n - at,
    {
        proof {
            let rest = text@.skip(at as int);
            assert(rest.skip(1) == text@.skip(at + 1));
            assert(rest.take(1) == text@.subrange(at as int, at + 1));
            assert(out@ + (with@ + rest.take(1) + interleave(rest.skip(1), with@)) == out@ + with@
                + rest.take(1) + interleave(rest.skip(1), with@));
        }
        out.append(with);
        out.append(text.substring_char(at, at + 1));
        at = at + 1;
    }
    out.append(with);
    out
}

/// Every occurrence of `pattern` in `text` replaced by `with`, leftmost
/// first and without overlap.
pub fn replace_text(text: &str, pattern: &str, with: &str) -> (r: String)
    ensures
        r@ == replace_all(text@, pattern@, with@),
{
    let t = chars_of(text);
    let p = chars_of(pattern);
    let n = t.len();
    let m = p.len();
    if m == 0 {
        return interleave_text(text, with);
    }
    if m > n {
        return String::from_str(text);
    }
    let last = n - m;
    let mut out = String::new();
    let mut start: usize = 0;
    let mut at: usize = 0;
    proof {
        assert(text@.skip(0) == text@);
        assert(out@ + text@.subrange(0, 0) + replace_scan(text@, pattern@, with@) == replace_scan(
            text@,
            pattern@,
            with@,
        ));
    }
    while at <= last
        invariant
            t@ == text@,
            p@ == pattern@,
            n == t.len(),
            m == p.len(),
            0 < m <= n,
            last == n - m,
            start <= at <= n,
            replace_scan(text@, pattern@, with@) == out@ + text@.subrange(start as int, at as int)
                + replace_scan(text@.skip(at as int), pattern@, with@),
        decreases n - at,
    {
        let ghost rest = text@.skip(at as int);
        let ghost kept = text@.subrange(start as int, at as int);
        if matches_at(&t, &p, at) {
            proof {
                assert(rest.subrange(0, m as int) == text@.subrange(at as int, at + m));
                assert(rest.skip(m as int) == text@.skip(at + m));
                assert(text@.subrange(at + m, at + m) == Seq::<char>::empty());
                assert(out@ + kept + (with@ + replace_scan(rest.skip(m as int), pattern@, with@))
                    == out@ + kept + with@ + Seq::<char>::empty() + replace_scan(
                    text@.skip(at + m),
                    pattern@,
                    with@,
                ));
            }
            out.append(text.substring_char(start, at));
            out.append(with);
            at = at + m;
            start = at;
        } else {
            proof {
                assert(rest.subrange(0, m as int) == text@.subrange(at as int, at + m));
                assert(rest.skip(1) == text@.skip(at + 1));
                assert(kept + rest.take(1) == text@.subrange(start as int, at + 1));
                assert(out@ + kept + (rest.take(1) + replace_scan(rest.skip(1), pattern@, with@))
                    == out@ + (kept + rest.take(1)) + replace_scan(rest.skip(1), pattern@, with@));
            }
            at = at + 1;
        }
    }
    proof {
        assert(text@.subrange(start as int, at as int) + text@.skip(at as int) == text@.subrange(
            start as int,
            n as int,
        ));
        assert(out@ + text@.subrange(start as int, at as int) + text@.skip(at as int) == out@ + (
        text@.subrange(start as int, at as int) + text@.skip(at as int)));
    }
    out.append(text.substring_char(start, n));
    out
}

/// The one-character string of a decimal digit.
fn digit_text(d: u8) -> (r: &'static str)
    requires
        d < 10,
    ensures
        r@ == seq![digit_char(d as nat)],
{
    proof {
        reveal_strlit("0");
        reveal_strlit("1");
        reveal_strlit("2");
        reveal_strlit("3");
        reveal_strlit("4");
        reveal_strlit("5");
        reveal_strlit("6");
        reveal_strlit("7");
        reveal_strlit("8");
        reveal_strlit("9");
    }
    let r = if d == 0 {
        "0"
    } else if d == 1 {
        "1"
    } else if d == 2 {
        "2"
    } else if d == 3 {
        "3"
    } else if d == 4 {
        "4"
    } else if d == 5 {
        "5"
    } else if d == 6 {
        "6"
    } else if d == 7 {
        "7"
    } else if d == 8 {
        "8"
    } else {
        "9"
    };
    assert(r@ =~= seq![digit_char(d as nat)]);
    r
}

/// The decimal numeral of `n`, without leading zeros.
pub fn decimal_text(n: u128) -> (r: String)
    ensures
        r@ == decimal(n as nat),
    decreases n,
{
    if n < 10 {
        String::from_str(digit_text(n as u8))
    } else {
        let mut s = decimal_text(n / 10);
        s.append(digit_text((n % 10) as u8));
        s
    }
}

/// A text contains each part that it is put together from.
pub proof fn lemma_contains_part(before: Seq<char>, part: Seq<char>, after: Seq<char>)
    ensures
        text_contains(before + part + after, part),
{
    let whole = before + part + after;
    let at = before.len() as int;
    assert(whole.subrange(at, at + part.len()) == part);
    assert(occurs_at(whole, part, at));
}

/// What stands in a part of a text stands in the text.
pub proof fn lemma_contains_within(text: Seq<char>, part: Seq<char>, inner: Seq<char>)
    requires
        text_contains(text, part),
        text_contains(part, inner),
    ensures
        text_contains(text, inner),
{
    let at = choose|at: int| occurs_at(text, part, at);
    let within = choose|within: int| occurs_at(part, inner, within);
    assert(text.subrange(at + within, at + within + inner.len()) == text.subrange(
        at,
        at + part.len(),
    ).subrange(within, within + inner.len()));
    assert(occurs_at(text, inner, at + within));
}

/// A text that does not contain `probe` does not contain it behind its
/// first `k` characters either.
pub proof fn lemma_absent_after_skip(text: Seq<char>, probe: Seq<char>, k: int)
    requires
        0 <= k <= text.len(),
        !text_contains(text, probe),
    ensures
        !text_contains(text.skip(k), probe),
{
    let rest = text.skip(k);
    assert forall|j: int| !occurs_at(rest, probe, j) by {
        if occurs_at(rest, probe, j) {
            assert(text.subrange(j + k, j + k + probe.len()) == rest.subrange(j, j + probe.len()));
            assert(occurs_at(text, probe, j + k));
        }
    }
}

/// The first `k` characters of what a replacement leaves behind are those of
/// the text that was read, unless the replacement text stands among them.
pub proof fn lemma_replace_scan_prefix(
    text: Seq<char>,
    pattern: Seq<char>,
    with: Seq<char>,
    k: int,
)
    requires
        pattern.len() > 0,
        0 <= k <= replace_scan(text, pattern, with).len(),
    ensures
        (k <= text.len() && replace_scan(text, pattern, with).take(k) == text.take(k)) || (
        exists|at: int| at < k && occurs_at(replace_scan(text, pattern, with), with, at)),
    decreases text.len(),
{
    let result = replace_scan(text, pattern, with);
    if k == 0 {
        assert(result.take(0) == text.take(0));
    } else if text.len() < pattern.len() {
    } else if occurs_at(text, pattern, 0) {
        assert(result.subrange(0, with.len() as int) == with);
        assert(occurs_at(result, with, 0));
    } else {
        let rest = text.skip(1);
        let tail = replace_scan(rest, pattern, with);
        assert(result == text.take(1) + tail);
        lemma_replace_scan_prefix(rest, pattern, with, k - 1);
        if k - 1 <= rest.len() && tail.take(k - 1) == rest.take(k - 1) {
            assert(result.take(k) == text.take(1) + tail.take(k - 1));
            assert(text.take(k) == text.take(1) + rest.take(k - 1));
        } else {
            let at = choose|at: int| at < k - 1 && occurs_at(tail, with, at);
            assert(result.subrange(at + 1, at + 1 + with.len()) == tail.subrange(
                at,
                at + with.len(),
            ));
            assert(occurs_at(result, with, at + 1));
        }
    }
}

/// Where `probe` stands in a text at `at` and `other` at `from`, and the two
/// places share a character, the two texts overlap.
pub proof fn lemma_shared_place_overlaps(
    text: Seq<char>,
    probe: Seq<char>,
    at: int,
    other: Seq<char>,
    from: int,
)
    requires
        occurs_at(text, probe, at),
        occurs_at(text, other, from),
        at < from + other.len(),
        from < at + probe.len(),
    ensures
        overlaps(probe, other),
{
    let q = probe.len() as int;
    let w = other.len() as int;
    let here = text.subrange(at, at + q);
    let there = text.subrange(from, from + w);
    if at <= from {
        if from + w <= at + q {
            assert(here.subrange(from - at, from - at + w) == there);
            assert(occurs_at(probe, other, from - at));
        } else {
            let n = at + q - from;
            assert(here.skip(q - n) == text.subrange(from, at + q));
            assert(there.take(n) == text.subrange(from, at + q));
            assert(ends_in_start(probe, other, n));
        }
    } else {
        if at + q <= from + w {
            assert(there.subrange(at - from, at - from + q) == here);
            assert(occurs_at(other, probe, at - from));
        } else {
            let n = from + w - at;
            assert(there.skip(w - n) == text.subrange(at, from + w));
            assert(here.take(n) == text.subrange(at, from + w));
            assert(ends_in_start(other, probe, n));
        }
    }
}

/// What a replacement leaves behind does not contain `probe`, where `probe`
/// is the pattern itself or a text that was absent before, and `probe` and
/// the replacement text do not overlap.
pub proof fn lemma_replace_scan_hides(
    text: Seq<char>,
    pattern: Seq<char>,
    with: Seq<char>,
    probe: Seq<char>,
)
    requires
        pattern.len() > 0,
        with.len() > 0,
        probe.len() > 0,
        !overlaps(probe, with),
        probe == pattern || !text_contains(text, probe),
    ensures
        !text_contains(replace_scan(text, pattern, with), probe),
    decreases text.len(),
{
    let m = pattern.len() as int;
    let q = probe.len() as int;
    let w = with.len() as int;
    let result = replace_scan(text, pattern, with);
    if text.len() < m {
        assert(result == text);
    } else if occurs_at(text, pattern, 0) {
        let rest = text.skip(m);
        if probe != pattern {
            lemma_absent_after_skip(text, probe, m);
        }
        lemma_replace_scan_hides(rest, pattern, with, probe);
        let tail = replace_scan(rest, pattern, with);
        assert(result == with + tail);
        assert(result.subrange(0, w) == with);
        assert forall|j: int| !occurs_at(result, probe, j) by {
            if occurs_at(result, probe, j) {
                if j >= w {
                    assert(tail.subrange(j - w, j - w + q) == result.subrange(j, j + q));
                    assert(occurs_at(tail, probe, j - w));
                } else {
                    lemma_shared_place_overlaps(result, probe, j, with, 0);
                }
            }
        }
    } else {
        let rest = text.skip(1);
        if probe != pattern {
            lemma_absent_after_skip(text, probe, 1);
        }
        lemma_replace_scan_hides(rest, pattern, with, probe);
        let tail = replace_scan(rest, pattern, with);
        assert(result == text.take(1) + tail);
        assert forall|j: int| !occurs_at(result, probe, j) by {
            if occurs_at(result, probe, j) {
                let window = result.subrange(j, j + q);
                if j >= 1 {
                    assert(tail.subrange(j - 1, j - 1 + q) == window);
                    assert(occurs_at(tail, probe, j - 1));
                } else {
                    lemma_replace_scan_prefix(rest, pattern, with, q - 1);
                    if q - 1 <= rest.len() && tail.take(q - 1) == rest.take(q - 1) {
                        assert forall|i: int| 0 <= i < q implies text[i] == probe[i] by {
                            assert(window[i] == result[i]);
                            if i > 0 {
                                assert(tail.take(q - 1)[i - 1] == rest.take(q - 1)[i - 1]);
                            }
                        }
                        assert(text.subrange(0, q) =~= probe);
                        assert(occurs_at(text, probe, 0));
                    } else {
                        let at = choose|at: int| at < q - 1 && occurs_at(tail, with, at);
                        assert(result.subrange(at + 1, at + 1 + w) == tail.subrange(at, at + w));
                        assert(occurs_at(result, with, at + 1));
                        lemma_shared_place_overlaps(result, probe, 0, with, at + 1);
                    }
                }
            }
        }
    }
}

} // verus!
