//! Small verified operations on text: prefixes, ordering, and decimal numbers.

use vstd::prelude::*;

verus! {

/// Whether `p` is a prefix of `s`.
pub open spec fn is_prefix(p: Seq<char>, s: Seq<char>) -> bool {
    p.len() <= s.len() && s.subrange(0, p.len() as int) == p
}

/// Whether `a` comes strictly before `b` when both are ordered character by
/// character, a proper prefix coming before its extensions.
pub open spec fn lex_less(a: Seq<char>, b: Seq<char>) -> bool
    decreases a.len(),
{
    if b.len() == 0 {
        false
    } else if a.len() == 0 {
        true
    } else if a[0] != b[0] {
        a[0] < b[0]
    } else {
        lex_less(a.skip(1), b.skip(1))
    }
}

/// The character that stands for a decimal digit.
pub open spec fn digit_char(d: int) -> char {
    if d == 0 {
        '0'
    } else if d == 1 {
        '1'
    } else if d == 2 {
        '2'
    } else if d == 3 {
        '3'
    } else if d == 4 {
        '4'
    } else if d == 5 {
        '5'
    } else if d == 6 {
        '6'
    } else if d == 7 {
        '7'
    } else if d == 8 {
        '8'
    } else {
        '9'
    }
}

/// Whether a character is a decimal digit.
pub open spec fn is_digit(c: char) -> bool {
    '0' <= c && c <= '9'
}

/// The value of a decimal digit.
pub open spec fn digit_value(c: char) -> int {
    (c as u32) as int - 48
}

/// Whether every character of `s` is a decimal digit.
pub open spec fn all_digits(s: Seq<char>) -> bool {
    forall|i: int| 0 <= i < s.len() ==> is_digit(#[trigger] s[i])
}

/// The number that a sequence of decimal digits denotes.
pub open spec fn number_of(s: Seq<char>) -> int
    decreases s.len(),
{
    if s.len() == 0 {
        0
    } else {
        number_of(s.drop_last()) * 10 + digit_value(s.last())
    }
}

/// The decimal digits of a number, without leading zeros.
pub open spec fn digits_of(n: int) -> Seq<char>
    decreases n,
{
    if n < 10 {
        seq![digit_char(n)]
    } else {
        digits_of(n / 10).push(digit_char(n % 10))
    }
}

/// The decimal digits of a number, padded with zeros to three places.
pub open spec fn padded3(n: int) -> Seq<char> {
    if n < 10 {
        seq!['0', '0'] + digits_of(n)
    } else if n < 100 {
        seq!['0'] + digits_of(n)
    } else {
        digits_of(n)
    }
}

/// The part of `s` that follows its last occurrence of `sep`, or all of `s`
/// where `sep` does not occur.
pub open spec fn last_segment(s: Seq<char>, sep: char) -> Seq<char>
    decreases s.len(),
{
    if s.len() == 0 {
        s
    } else if s.last() == sep {
        Seq::<char>::empty()
    } else {
        last_segment(s.drop_last(), sep).push(s.last())
    }
}

/// The number that a text denotes, where it is a non-empty run of decimal
/// digits whose value fits 31 bits.
pub open spec fn parsed_number(s: Seq<char>) -> Option<int> {
    if s.len() > 0 && all_digits(s) && number_of(s) <= i32::MAX {
        Some(number_of(s))
    } else {
        None
    }
}

/// Tests whether a text reads as a given word.
pub fn reads(s: &String, word: &str) -> (r: bool)
    ensures
        r == (s@ == word@),
{
    let w = String::from_str(word);
    *s == w
}

/// The number of characters of a string.
pub fn char_count(s: &String) -> (n: usize)
    ensures
        n == s@.len(),
{
    s.as_str().unicode_len()
}

/// Tests whether `p` is a prefix of `s`.
pub fn has_prefix(s: &String, p: &String) -> (r: bool)
    ensures
        r == is_prefix(p@, s@),
{
    let n: usize = char_count(p);
    let m: usize = char_count(s);
    if n > m {
        return false;
    }
    let mut i: usize = 0;
    while i < n
        invariant
            i <= n,
            n == p@.len(),
            m == s@.len(),
            n <= m,
            s@.subrange(0, i as int) == p@.subrange(0, i as int),
        decreases n - i,
    {
        let a: char = s.as_str().get_char(i);
        let b: char = p.as_str().get_char(i);
        if a != b {
            assert(s@.subrange(0, n as int)[i as int] != p@[i as int]);
            return false;
        }
        assert(s@.subrange(0, i + 1) =~= s@.subrange(0, i as int).push(a));
        assert(p@.subrange(0, i + 1) =~= p@.subrange(0, i as int).push(b));
        i += 1;
    }
    assert(p@.subrange(0, n as int) =~= p@);
    true
}

proof fn lex_less_skip(a: Seq<char>, b: Seq<char>, i: int)
    requires
        0 <= i <= a.len(),
        i <= b.len(),
        a.subrange(0, i) == b.subrange(0, i),
    ensures
        lex_less(a, b) == lex_less(a.skip(i), b.skip(i)),
    decreases i,
{
    if i == 0 {
        assert(a.skip(0) =~= a);
        assert(b.skip(0) =~= b);
    } else {
        assert(a[0] == a.subrange(0, i)[0]);
        assert(b[0] == b.subrange(0, i)[0]);
        assert(a.skip(1).subrange(0, i - 1) =~= b.skip(1).subrange(0, i - 1)) by {
            assert forall|k: int| 0 <= k < i - 1 implies #[trigger] a.skip(1).subrange(0, i - 1)[k]
                == b.skip(1).subrange(0, i - 1)[k] by {
                assert(a.skip(1).subrange(0, i - 1)[k] == a[k + 1]);
                assert(b.skip(1).subrange(0, i - 1)[k] == b[k + 1]);
                assert(a[k + 1] == a.subrange(0, i)[k + 1]);
                assert(b[k + 1] == b.subrange(0, i)[k + 1]);
            }
        }
        lex_less_skip(a.skip(1), b.skip(1), i - 1);
        assert(a.skip(1).skip(i - 1) =~= a.skip(i));
        assert(b.skip(1).skip(i - 1) =~= b.skip(i));
    }
}

/// Tests whether `a` comes strictly before `b` in character order.
pub fn text_less(a: &String, b: &String) -> (r: bool)
    ensures
        r == lex_less(a@, b@),
{
    let n: usize = char_count(a);
    let m: usize = char_count(b);
    let mut i: usize = 0;
    while i < n && i < m
        invariant
            i <= n,
            i <= m,
            n == a@.len(),
            m == b@.len(),
            a@.subrange(0, i as int) == b@.subrange(0, i as int),
        decreases n - i,
    {
        let x: char = a.as_str().get_char(i);
        let y: char = b.as_str().get_char(i);
        if x != y {
            proof {
                lex_less_skip(a@, b@, i as int);
            }
            return x < y;
        }
        assert(a@.subrange(0, i + 1) =~= a@.subrange(0, i as int).push(x));
        assert(b@.subrange(0, i + 1) =~= b@.subrange(0, i as int).push(y));
        i += 1;
    }
    proof {
        lex_less_skip(a@, b@, i as int);
    }
    i < m
}

proof fn last_segment_split(s: Seq<char>, sep: char, i: int)
    requires
        0 <= i <= s.len(),
        forall|k: int| i <= k < s.len() ==> s[k] != sep,
    ensures
        last_segment(s, sep) == last_segment(s.subrange(0, i), sep) + s.subrange(i, s.len() as int),
    decreases s.len() - i,
{
    if i == s.len() {
        assert(s.subrange(0, i) =~= s);
        assert(last_segment(s, sep) + s.subrange(i, s.len() as int) =~= last_segment(s, sep));
    } else {
        let t = s.drop_last();
        assert(s.last() != sep);
        last_segment_split(t, sep, i);
        assert(t.subrange(0, i) =~= s.subrange(0, i));
        assert((last_segment(t.subrange(0, i), sep) + t.subrange(i, t.len() as int)).push(s.last())
            =~= last_segment(s.subrange(0, i), sep) + s.subrange(i, s.len() as int));
    }
}

proof fn number_of_prefix(s: Seq<char>, k: int)
    requires
        all_digits(s),
        0 <= k <= s.len(),
    ensures
        0 <= number_of(s.subrange(0, k)) <= number_of(s),
    decreases s.len() - k,
{
    if k == s.len() {
        assert(s.subrange(0, k) =~= s);
        number_of_nonnegative(s);
    } else {
        number_of_prefix(s.drop_last(), k);
        assert(s.drop_last().subrange(0, k) =~= s.subrange(0, k));
        assert(is_digit(s[s.len() - 1]));
    }
}

proof fn number_of_nonnegative(s: Seq<char>)
    requires
        all_digits(s),
    ensures
        0 <= number_of(s),
    decreases s.len(),
{
    if s.len() > 0 {
        number_of_nonnegative(s.drop_last());
        assert(is_digit(s[s.len() - 1]));
    }
}

/// Reads the number that follows the last `-` of a text.
pub fn trailing_number(s: &String) -> (r: Option<i64>)
    ensures
        r is Some <==> parsed_number(last_segment(s@, '-')) is Some,
        r is Some ==> r->0 == parsed_number(last_segment(s@, '-'))->0,
        r is Some ==> 0 <= r->0 <= i32::MAX,
{
    let n: usize = char_count(s);
    let mut i: usize = n;
    while i > 0 && s.as_str().get_char(i - 1) != '-'
        invariant
            i <= n,
            n == s@.len(),
            forall|k: int| i <= k < n ==> s@[k] != '-',
        decreases i,
    {
        i -= 1;
    }
    let ghost seg = s@.subrange(i as int, n as int);
    proof {
        last_segment_split(s@, '-', i as int);
        if i > 0 {
            assert(s@.subrange(0, i as int).last() == '-');
        }
        assert(last_segment(s@.subrange(0, i as int), '-') =~= Seq::<char>::empty());
        assert(last_segment(s@, '-') =~= seg);
    }
    if i == n {
        return None;
    }
    let mut acc: i64 = 0;
    let mut j: usize = i;
    while j < n
        invariant
            i <= j <= n,
            n == s@.len(),
            seg == s@.subrange(i as int, n as int),
            last_segment(s@, '-') == seg,
            forall|k: int| 0 <= k < j - i ==> is_digit(#[trigger] seg[k]),
            acc == number_of(seg.subrange(0, j - i)),
            0 <= acc <= i32::MAX,
        decreases n - j,
    {
        let c: char = s.as_str().get_char(j);
        assert(c == seg[j - i]);
        if !(c >= '0' && c <= '9') {
            assert(!is_digit(seg[j - i]));
            return None;
        }
        let d: i64 = ((c as u32) - 48) as i64;
        let next: i64 = acc * 10 + d;
        proof {
            assert(seg.subrange(0, j - i + 1).drop_last() =~= seg.subrange(0, j - i));
            assert(seg.subrange(0, j - i + 1).last() == c);
            assert(next == number_of(seg.subrange(0, j - i + 1)));
        }
        if next > 2147483647 {
            proof {
                if all_digits(seg) {
                    number_of_prefix(seg, j - i + 1);
                }
            }
            return None;
        }
        acc = next;
        j += 1;
    }
    proof {
        assert(seg.subrange(0, n - i) =~= seg);
    }
    Some(acc)
}

/// The text of one decimal digit.
pub fn digit_text(d: u64) -> (t: &'static str)
    requires
        d < 10,
    ensures
        t@ == seq![digit_char(d as int)],
{
    proof {
        reveal_strlit("0");
        reveal_strlit("1");
        reveal_strlit("2");
        reveal_strlit("3");
        reveal_strlit("4");
        reveal_strlit("5");
        reveal_strlit("6");
        reveal_strlit("7");
        reveal_strlit("8");
        reveal_strlit("9");
    }
    let t: &'static str = if d == 0 {
        "0"
    } else if d == 1 {
        "1"
    } else if d == 2 {
        "2"
    } else if d == 3 {
        "3"
    } else if d == 4 {
        "4"
    } else if d == 5 {
        "5"
    } else if d == 6 {
        "6"
    } else if d == 7 {
        "7"
    } else if d == 8 {
        "8"
    } else {
        "9"
    };
    assert(t@ =~= seq![digit_char(d as int)]);
    t
}

/// Writes a number in decimal digits.
pub fn render_number(n: u64) -> (s: String)
    ensures
        s@ == digits_of(n as int),
    decreases n,
{
    if n < 10 {
        String::from_str(digit_text(n))
    } else {
        let mut s = render_number(n / 10);
        s.append(digit_text(n % 10));
        assert(s@ =~= digits_of(n as int));
        s
    }
}

/// Writes a number in decimal digits, with zeros in front up to three places.
pub fn render_padded3(n: u64) -> (s: String)
    ensures
        s@ == padded3(n as int),
{
    proof {
        reveal_strlit("00");
        reveal_strlit("0");
        reveal_strlit("");
    }
    let mut s = if n < 10 {
        String::from_str("00")
    } else if n < 100 {
        String::from_str("0")
    } else {
        String::from_str("")
    };
    let digits = render_number(n);
    s.append(digits.as_str());
    assert(s@ =~= padded3(n as int));
    s
}

/// No text comes before itself.
pub proof fn lex_less_irreflexive(a: Seq<char>)
    ensures
        !lex_less(a, a),
    decreases a.len(),
{
    if a.len() > 0 {
        lex_less_irreflexive(a.skip(1));
    }
}

/// The order of texts is transitive.
pub proof fn lex_less_transitive(a: Seq<char>, b: Seq<char>, c: Seq<char>)
    requires
        lex_less(a, b),
        lex_less(b, c),
    ensures
        lex_less(a, c),
    decreases a.len(),
{
    if a.len() > 0 && b.len() > 0 && c.len() > 0 {
        if a[0] == b[0] && b[0] == c[0] {
            lex_less_transitive(a.skip(1), b.skip(1), c.skip(1));
        }
    }
}

/// Of two different texts one comes before the other.
pub proof fn lex_less_connected(a: Seq<char>, b: Seq<char>)
    requires
        a != b,
    ensures
        lex_less(a, b) || lex_less(b, a),
    decreases a.len(),
{
    if a.len() > 0 && b.len() > 0 {
        if a[0] == b[0] {
            if a.skip(1) == b.skip(1) {
                assert(a =~= b) by {
                    assert(a.skip(1).len() == b.skip(1).len());
                    assert forall|k: int| 0 <= k < a.len() implies a[k] == b[k] by {
                        if k > 0 {
                            assert(a[k] == a.skip(1)[k - 1]);
                            assert(b[k] == b.skip(1)[k - 1]);
                        }
                    }
                }
            }
            lex_less_connected(a.skip(1), b.skip(1));
        }
    } else {
        if a.len() == 0 && b.len() == 0 {
            assert(a =~= b);
        }
    }
}

/// Putting one more element into a run adds it to what the run holds.
pub proof fn insert_adds_one<A>(s: Seq<A>, i: int, x: A)
    requires
        0 <= i <= s.len(),
    ensures
        s.insert(i, x).to_multiset() == s.to_multiset().insert(x),
{
    let t = s.insert(i, x);
    assert(t.remove(i) =~= s);
    assert(t[i] == x);
    vstd::seq_lib::to_multiset_remove(t, i);
    assert(t.contains(x));
    t.to_multiset_ensures();
    assert(t.to_multiset() =~= s.to_multiset().insert(x));
}

} // verus!
