//! Decimal rendering, substring search and ordering of text.

use vstd::prelude::*;
use vstd::string::*;

verus! {

/// The character of one decimal digit.
pub open spec fn digit_char(d: nat) -> char {
    (48 + d) as char
}

/// The decimal numeral of `n`, without leading zeros.
pub open spec fn decimal(n: nat) -> Seq<char>
    decreases n,
{
    if n < 10 {
        seq![digit_char(n)]
    } else {
        decimal(n / 10).push(digit_char(n % 10))
    }
}

/// The decimal numeral of an integer, with a leading minus sign below zero.
pub open spec fn signed_decimal(i: int) -> Seq<char> {
    if i < 0 {
        seq!['-'] + decimal((-i) as nat)
    } else {
        decimal(i as nat)
    }
}

fn digit_text(d: u64) -> (text: &'static str)
    requires
        d < 10,
    ensures
        text@ == seq![digit_char(d as nat)],
{
    proof {
        reveal_strlit("0");
        reveal_strlit("1");
        reveal_strlit("2");
        reveal_strlit("3");
        reveal_strlit("4");
        reveal_strlit("5");
        reveal_strlit("6");
        reveal_strlit("7");
        reveal_strlit("8");
        reveal_strlit("9");
    }
    let text = match d {
        0 => "0",
        1 => "1",
        2 => "2",
        3 => "3",
        4 => "4",
        5 => "5",
        6 => "6",
        7 => "7",
        8 => "8",
        _ => "9",
    };
    assert(text@ =~= seq![digit_char(d as nat)]);
    text
}

/// Appends the decimal numeral of `n` to `out`.
pub fn push_decimal(out: &mut String, n: u64)
    ensures
        final(out)@ == old(out)@ + decimal(n as nat),
    decreases n,
{
    if n >= 10 {
        push_decimal(out, n / 10);
        out.append(digit_text(n % 10));
        assert(out@ =~= old(out)@ + decimal(n as nat));
    } else {
        out.append(digit_text(n));
    }
}

/// Appends the decimal numeral of `i`, signed, to `out`.
pub fn push_signed_decimal(out: &mut String, i: i64)
    ensures
        final(out)@ == old(out)@ + signed_decimal(i as int),
{
    if i < 0 {
        proof {
            reveal_strlit("-");
        }
        out.append("-");
        assert("-"@ =~= seq!['-']);
        let magnitude: u64 = if i == i64::MIN {
            9223372036854775808
        } else {
            (-i) as u64
        };
        push_decimal(out, magnitude);
        assert(out@ =~= old(out)@ + signed_decimal(i as int));
    } else {
        push_decimal(out, i as u64);
    }
}

/// A prefix followed by a decimal numeral.
pub fn numbered(prefix: &str, n: u64) -> (text: String)
    ensures
        text@ == prefix@ + decimal(n as nat),
{
    let mut text = prefix.to_owned();
    push_decimal(&mut text, n);
    text
}

/// The characters of a string, in order.
pub fn chars_of(text: &str) -> (chars: Vec<char>)
    ensures
        chars@ == text@,
{
    let mut out: Vec<char> = Vec::new();
    for c in iter: text.chars()
        invariant
            iter.seq() == text@,
            out@ == text@.take(iter.index()),
    {
        out.push(c);
        assert(text@.take(iter.index() + 1) =~= text@.take(iter.index()).push(c));
    }
    assert(text@.take(text@.len() as int) =~= text@);
    out
}

/// `needle` occurs in `haystack` as a run of consecutive characters.
pub open spec fn has_run(haystack: Seq<char>, needle: Seq<char>) -> bool {
    exists|i: int| run_at(haystack, needle, i)
}

/// `needle` stands at position `i` of `haystack`.
pub open spec fn run_at(haystack: Seq<char>, needle: Seq<char>, i: int) -> bool {
    &&& 0 <= i <= haystack.len() - needle.len()
    &&& haystack.subrange(i, i + needle.len()) == needle
}

/// Tells whether `needle` occurs in `haystack`.
pub fn contains_run(haystack: &Vec<char>, needle: &str) -> (found: bool)
    ensures
        found == has_run(haystack@, needle@),
{
    let wanted = chars_of(needle);
    let n: usize = wanted.len();
    if n > haystack.len() {
        return false;
    }
    if n == 0 {
        assert(haystack@.subrange(0, 0) =~= needle@);
        assert(run_at(haystack@, needle@, 0));
        return true;
    }
    let last: usize = haystack.len() - n;
    let mut i: usize = 0;
    while i <= last
        invariant
            wanted@ == needle@,
            n == wanted@.len(),
            0 < n,
            last + n == haystack.len(),
            i <= last + 1,
            forall|k: int| 0 <= k < i ==> !#[trigger] run_at(haystack@, needle@, k),
        decreases last + 1 - i,
    {
        let mut j: usize = 0;
        while j < n && haystack[i + j] == wanted[j]
            invariant
                wanted@ == needle@,
                n == wanted@.len(),
                i <= last,
                last + n == haystack.len(),
                j <= n,
                forall|k: int| 0 <= k < j ==> haystack@[i + k] == wanted@[k],
            decreases n - j,
        {
            j = j + 1;
        }
        if j == n {
            assert(haystack@.subrange(i as int, i + n) =~= needle@);
            assert(run_at(haystack@, needle@, i as int));
            return true;
        }
        assert(!run_at(haystack@, needle@, i as int)) by {
            if run_at(haystack@, needle@, i as int) {
                assert(haystack@.subrange(i as int, i + n)[j as int] == needle@[j as int]);
            }
        }
        i = i + 1;
    }
    false
}

/// The ASCII lower-case form of a character; other characters are kept.
pub open spec fn ascii_lower(c: char) -> char {
    if 'A' <= c && c <= 'Z' {
        ((c as int) + 32) as char
    } else {
        c
    }
}

/// The ASCII lower-case form of a text.
pub open spec fn ascii_lower_text(text: Seq<char>) -> Seq<char> {
    Seq::new(text.len(), |i: int| ascii_lower(text[i]))
}

/// The characters of a text with ASCII letters in lower case.
pub fn ascii_lowered(text: &str) -> (chars: Vec<char>)
    ensures
        chars@ == ascii_lower_text(text@),
{
    let given = chars_of(text);
    let mut out: Vec<char> = Vec::new();
    let mut i: usize = 0;
    while i < given.len()
        invariant
            given@ == text@,
            i <= given@.len(),
            out@.len() == i,
            forall|k: int| 0 <= k < i ==> out@[k] == ascii_lower(text@[k]),
        decreases given@.len() - i,
    {
        let c: char = given[i];
        let lowered: char = if 'A' <= c && c <= 'Z' {
            let code: u8 = c as u8;
            (code + 32) as char
        } else {
            c
        };
        out.push(lowered);
        i = i + 1;
    }
    assert(out@ =~= ascii_lower_text(text@));
    out
}

/// The Unicode White_Space property.
pub open spec fn white_space(c: char) -> bool {
    let v = c as int;
    ||| 0x09 <= v <= 0x0d
    ||| v == 0x20
    ||| v == 0x85
    ||| v == 0xa0
    ||| v == 0x1680
    ||| 0x2000 <= v <= 0x200a
    ||| v == 0x2028
    ||| v == 0x2029
    ||| v == 0x202f
    ||| v == 0x205f
    ||| v == 0x3000
}

/// Every character is white space; so of the empty text too.
pub open spec fn blank(text: Seq<char>) -> bool {
    forall|i: int| 0 <= i < text.len() ==> white_space(#[trigger] text[i])
}

/// Tells whether nothing is left of a text once white space is trimmed away.
pub fn is_blank(text: &str) -> (r: bool)
    ensures
        r == blank(text@),
{
    let chars = chars_of(text);
    let mut i: usize = 0;
    while i < chars.len()
        invariant
            chars@ == text@,
            i <= chars@.len(),
            forall|k: int| 0 <= k < i ==> white_space(#[trigger] text@[k]),
        decreases chars@.len() - i,
    {
        let c: char = chars[i];
        let white = ('\u{9}' <= c && c <= '\u{d}') || c == ' ' || c == '\u{85}' || c == '\u{a0}'
            || c == '\u{1680}' || ('\u{2000}' <= c && c <= '\u{200a}') || c == '\u{2028}' || c
            == '\u{2029}' || c == '\u{202f}' || c == '\u{205f}' || c == '\u{3000}';
        if !white {
            assert(!white_space(text@[i as int]));
            return false;
        }
        assert(white_space(text@[i as int]));
        i = i + 1;
    }
    true
}

/// Lexicographic order by code point: `a` comes strictly before `b`.
pub open spec fn text_before(a: Seq<char>, b: Seq<char>) -> bool {
    exists|i: int| before_at(a, b, i)
}

/// The first `i` characters agree and the next one decides for `a`.
pub open spec fn before_at(a: Seq<char>, b: Seq<char>, i: int) -> bool {
    &&& 0 <= i <= a.len()
    &&& i < b.len()
    &&& a.take(i) == b.take(i)
    &&& (i == a.len() || a[i] < b[i])
}

/// Tells whether `a` comes strictly before `b`.
pub fn is_before(a: &str, b: &str) -> (r: bool)
    ensures
        r == text_before(a@, b@),
{
    let x = chars_of(a);
    let y = chars_of(b);
    let mut i: usize = 0;
    while i < x.len() && i < y.len() && x[i] == y[i]
        invariant
            x@ == a@,
            y@ == b@,
            i <= x@.len(),
            i <= y@.len(),
            forall|k: int| 0 <= k < i ==> x@[k] == y@[k],
        decreases x@.len() - i,
    {
        i = i + 1;
    }
    let ghost at = i as int;
    assert(a@.take(at) =~= b@.take(at));
    let r = i < y.len() && (i == x.len() || x[i] < y[i]);
    proof {
        if r {
            assert(before_at(a@, b@, at));
        } else {
            assert forall|k: int| !before_at(a@, b@, k) by {
                if before_at(a@, b@, k) {
                    if k < at {
                        assert(a@[k] == b@[k]);
                    } else if k > at {
                        assert(a@.take(k)[at] == b@.take(k)[at]);
                    }
                }
            }
        }
    }
    r
}

/// No text comes before itself.
pub proof fn lemma_text_before_irreflexive(a: Seq<char>)
    ensures
        !text_before(a, a),
{
}

/// The order of texts is transitive.
pub proof fn lemma_text_before_transitive(a: Seq<char>, b: Seq<char>, c: Seq<char>)
    requires
        text_before(a, b),
        text_before(b, c),
    ensures
        text_before(a, c),
{
    let i = choose|i: int| before_at(a, b, i);
    let j = choose|j: int| before_at(b, c, j);
    if i < j {
        assert(b.take(j)[i] == c.take(j)[i]);
        assert(a.take(i) =~= c.take(i)) by {
            assert forall|k: int| 0 <= k < i implies a[k] == c[k] by {
                assert(a.take(i)[k] == b.take(i)[k]);
                assert(b.take(j)[k] == c.take(j)[k]);
            }
        }
        assert(before_at(a, c, i));
    } else {
        assert(a.take(j) =~= c.take(j)) by {
            assert forall|k: int| 0 <= k < j implies a[k] == c[k] by {
                assert(a.take(i)[k] == b.take(i)[k]);
                assert(b.take(j)[k] == c.take(j)[k]);
            }
        }
        if j < i {
            assert(a.take(i)[j] == b.take(i)[j]);
        }
        assert(before_at(a, c, j));
    }
}

proof fn lemma_text_before_total_from(a: Seq<char>, b: Seq<char>, n: int)
    requires
        a != b,
        0 <= n <= a.len(),
        n <= b.len(),
        a.take(n) == b.take(n),
    ensures
        text_before(a, b) || text_before(b, a),
    decreases a.len() - n,
{
    if n == a.len() {
        if n == b.len() {
            assert(a.take(n) =~= a);
            assert(b.take(n) =~= b);
        } else {
            assert(before_at(a, b, n));
        }
    } else if n == b.len() {
        assert(before_at(b, a, n));
    } else if a[n] < b[n] {
        assert(before_at(a, b, n));
    } else if b[n] < a[n] {
        assert(before_at(b, a, n));
    } else {
        assert(a.take(n + 1) =~= a.take(n).push(a[n]));
        assert(b.take(n + 1) =~= b.take(n).push(b[n]));
        lemma_text_before_total_from(a, b, n + 1);
    }
}

/// Of two different texts one comes before the other.
pub proof fn lemma_text_before_total(a: Seq<char>, b: Seq<char>)
    requires
        a != b,
    ensures
        text_before(a, b) || text_before(b, a),
{
    assert(a.take(0) =~= b.take(0));
    lemma_text_before_total_from(a, b, 0);
}

/// Texts are ordered by the first place at which they differ: the one that is
/// over there comes first, otherwise the one with the lesser character.
pub proof fn law_the_first_difference_orders_texts(
    shared: Seq<char>,
    a: Seq<char>,
    b: Seq<char>,
)
    ensures
        b.len() > 0 ==> text_before(shared, shared + b),
        a.len() > 0 && b.len() > 0 && a[0] < b[0] ==> text_before(shared + a, shared + b),
        a.len() > 0 && b.len() > 0 && b[0] < a[0] ==> !text_before(shared + a, shared + b),
        a.len() > 0 ==> !text_before(shared + a, shared),
{
    let n = shared.len() as int;
    let x = shared + a;
    let y = shared + b;
    assert(x.take(n) =~= shared);
    assert(y.take(n) =~= shared);
    assert(shared.take(n) =~= shared);
    if b.len() > 0 {
        assert(before_at(shared, y, n));
    }
    if a.len() > 0 && b.len() > 0 {
        assert(x[n] == a[0] && y[n] == b[0]);
        if a[0] < b[0] {
            assert(before_at(x, y, n));
        }
        if b[0] < a[0] {
            assert(before_at(y, x, n));
            if text_before(x, y) {
                lemma_text_before_transitive(x, y, x);
                lemma_text_before_irreflexive(x);
            }
        }
    }
    if a.len() > 0 {
        assert(before_at(shared, x, n));
        if text_before(x, shared) {
            lemma_text_before_transitive(x, shared, x);
            lemma_text_before_irreflexive(x);
        }
    }
}

/// The number that a decimal numeral stands for.
pub open spec fn numeral_value(text: Seq<char>) -> int
    decreases text.len(),
{
    if text.len() == 0 {
        0
    } else {
        numeral_value(text.drop_last()) * 10 + (text.last() as int - '0' as int)
    }
}

/// A numeral is made of digits, stands for its number and starts with a zero only
/// if it is zero.
pub proof fn law_numerals_stand_for_their_numbers(n: nat)
    ensures
        numeral_value(decimal(n)) == n,
        decimal(n).len() > 0,
        forall|i: int|
            0 <= i < decimal(n).len() ==> '0' <= #[trigger] decimal(n)[i] && decimal(n)[i] <= '9',
        n > 0 ==> decimal(n)[0] != '0',
    decreases n,
{
    if n < 10 {
        assert(decimal(n).drop_last() =~= Seq::empty());
        assert(numeral_value(decimal(n).drop_last()) == 0);
    } else {
        law_numerals_stand_for_their_numbers(n / 10);
        let front = decimal(n / 10);
        assert(decimal(n).drop_last() =~= front);
        assert forall|i: int| 0 <= i < decimal(n).len() implies '0' <= #[trigger] decimal(n)[i]
            && decimal(n)[i] <= '9' by {
            if i < front.len() {
                assert(decimal(n)[i] == front[i]);
            }
        }
        assert(decimal(n)[0] == front[0]);
    }
}

/// A negative number is written as a minus sign and its numeral.
pub proof fn law_signed_numerals_have_a_sign(n: int)
    ensures
        n >= 0 ==> signed_decimal(n) == decimal(n as nat),
        n < 0 ==> signed_decimal(n) == "-"@ + decimal((-n) as nat),
{
    reveal_strlit("-");
    if n < 0 {
        assert(signed_decimal(n) =~= "-"@ + decimal((-n) as nat));
    }
}

/// White space is what separates words and lines in any script: the controls from
/// tab to carriage return, the space, the next line, and the spaces and separators
/// beyond ASCII.
pub proof fn law_what_white_space_is(c: char)
    ensures
        white_space(c) <==> {
            let v = c as int;
            (9 <= v && v <= 13) || v == 32 || v == 133 || v == 160 || v == 5760 || (8192 <= v && v
                <= 8202) || v == 8232 || v == 8233 || v == 8239 || v == 8287 || v == 12288
        },
{
}

/// Only the letters from A to Z change in lower case, each to its own small
/// letter.
pub proof fn law_lower_case_changes_capitals_only(text: Seq<char>, i: int)
    requires
        0 <= i < text.len(),
    ensures
        ascii_lower_text(text).len() == text.len(),
        'A' <= text[i] && text[i] <= 'Z' ==> ascii_lower_text(text)[i] as int - 'a' as int
            == text[i] as int - 'A' as int,
        !('A' <= text[i] && text[i] <= 'Z') ==> ascii_lower_text(text)[i] == text[i],
{
}

/// A text is found wherever it stands, at the start, at the end or between.
pub proof fn law_texts_are_found_anywhere(
    before: Seq<char>,
    needle: Seq<char>,
    after: Seq<char>,
)
    ensures
        has_run(before + needle + after, needle),
{
    let text = before + needle + after;
    let at = before.len() as int;
    assert(text.subrange(at, at + needle.len()) =~= needle);
    assert(run_at(text, needle, at));
}

/// A text that is found stands somewhere.
pub proof fn law_what_is_found_stands_somewhere(haystack: Seq<char>, needle: Seq<char>)
    requires
        has_run(haystack, needle),
    ensures
        exists|before: Seq<char>, after: Seq<char>|
            haystack == #[trigger] (before + needle + after),
{
    let at = choose|i: int| run_at(haystack, needle, i);
    let before = haystack.take(at);
    let after = haystack.skip(at + needle.len());
    assert(haystack =~= before + needle + after) by {
        assert forall|i: int| 0 <= i < haystack.len() implies haystack[i] == (before + needle
            + after)[i] by {
            if at <= i < at + needle.len() {
                assert(haystack.subrange(at, at + needle.len())[i - at] == haystack[i]);
            }
        }
    }
}

} // verus!
