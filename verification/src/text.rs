//! Small verified operations on text, stated over sequences of characters.

use vstd::prelude::*;
use vstd::string::StrSliceExecFns;
use vstd::string::StringExecFns;

verus! {

/// Whether `prefix` is an initial segment of `text`.
pub open spec fn is_prefix(prefix: Seq<char>, text: Seq<char>) -> bool {
    prefix.len() <= text.len() && text.subrange(0, prefix.len() as int) == prefix
}

/// The bytes that `text` takes in UTF-8.
pub open spec fn byte_len(text: Seq<char>) -> nat {
    vstd::utf8::encode_utf8(text).len()
}

/// The characters of each name and value of `pairs`.
pub open spec fn pairs_text(pairs: Seq<(String, String)>) -> Seq<(Seq<char>, Seq<char>)> {
    Seq::new(pairs.len(), |i: int| (pairs[i].0@, pairs[i].1@))
}

/// The bytes that the names and values of `pairs` take together.
pub open spec fn pairs_bytes(pairs: Seq<(Seq<char>, Seq<char>)>) -> nat
    decreases pairs.len(),
{
    if pairs.len() == 0 {
        0
    } else {
        pairs_bytes(pairs.drop_last()) + byte_len(pairs.last().0) + byte_len(pairs.last().1)
    }
}

/// Whether `c` is white space as Unicode defines it (`White_Space`).
pub open spec fn white_space(c: char) -> bool {
    let n = c as u32;
    ||| 0x09 <= n <= 0x0D
    ||| n == 0x20
    ||| n == 0x85
    ||| n == 0xA0
    ||| n == 0x1680
    ||| 0x2000 <= n <= 0x200A
    ||| n == 0x2028
    ||| n == 0x2029
    ||| n == 0x202F
    ||| n == 0x205F
    ||| n == 0x3000
}

/// Whether `text` holds nothing but white space; the empty text is blank.
pub open spec fn blank(text: Seq<char>) -> bool {
    forall|i: int| 0 <= i < text.len() ==> white_space(#[trigger] text[i])
}

/// `text` without the run of `c` at its end.
pub open spec fn without_trailing(text: Seq<char>, c: char) -> Seq<char>
    decreases text.len(),
{
    if text.len() > 0 && text.last() == c {
        without_trailing(text.drop_last(), c)
    } else {
        text
    }
}

/// `text` without the run of `c` at its start.
pub open spec fn without_leading(text: Seq<char>, c: char) -> Seq<char>
    decreases text.len(),
{
    if text.len() > 0 && text.first() == c {
        without_leading(text.drop_first(), c)
    } else {
        text
    }
}

/// The first `n` characters of `text`, or all of it where it has fewer.
pub open spec fn leading(text: Seq<char>, n: nat) -> Seq<char> {
    if n <= text.len() {
        text.subrange(0, n as int)
    } else {
        text
    }
}

/// The character that writes the digit `d`.
pub open spec fn digit_char(d: nat) -> char {
    if d == 0 {
        '0'
    } else if d == 1 {
        '1'
    } else if d == 2 {
        '2'
    } else if d == 3 {
        '3'
    } else if d == 4 {
        '4'
    } else if d == 5 {
        '5'
    } else if d == 6 {
        '6'
    } else if d == 7 {
        '7'
    } else if d == 8 {
        '8'
    } else {
        '9'
    }
}

/// `n` written in base ten, without leading zeros.
pub open spec fn decimal_text(n: nat) -> Seq<char>
    decreases n,
{
    if n < 10 {
        seq![digit_char(n)]
    } else {
        decimal_text(n / 10).push(digit_char(n % 10))
    }
}

/// `n` written in base ten, with a minus sign where it is negative.
pub open spec fn signed_decimal_text(n: int) -> Seq<char> {
    if n < 0 {
        seq!['-'] + decimal_text((-n) as nat)
    } else {
        decimal_text(n as nat)
    }
}

/// The number of bytes that `text` takes in UTF-8.
pub fn byte_count(text: &str) -> (count: usize)
    ensures
        count == byte_len(text@),
{
    text.as_bytes().len()
}

/// Compares two string slices character by character.
pub fn same_text(a: &str, b: &str) -> (same: bool)
    ensures
        same == (a@ == b@),
{
    let x = a.to_owned();
    let y = b.to_owned();
    x == y
}

/// Whether `text` begins with `prefix`.
pub fn starts_with(text: &str, prefix: &str) -> (found: bool)
    ensures
        found == is_prefix(prefix@, text@),
{
    let n = prefix.unicode_len();
    if n > text.unicode_len() {
        return false;
    }
    same_text(text.substring_char(0, n), prefix)
}

/// The concatenation of two string slices.
pub fn join2(a: &str, b: &str) -> (joined: String)
    ensures
        joined@ == a@ + b@,
{
    let mut joined = String::from_str(a);
    joined.append(b);
    joined
}

/// The concatenation of three string slices.
pub fn join3(a: &str, b: &str, c: &str) -> (joined: String)
    ensures
        joined@ == a@ + b@ + c@,
{
    let mut joined = String::from_str(a);
    joined.append(b);
    joined.append(c);
    joined
}

/// Whether `c` is a white space character.
pub fn is_white_space(c: char) -> (found: bool)
    ensures
        found == white_space(c),
{
    let n: u32 = c as u32;
    (0x09 <= n && n <= 0x0D) || n == 0x20 || n == 0x85 || n == 0xA0 || n == 0x1680 || (0x2000 <= n
        && n <= 0x200A) || n == 0x2028 || n == 0x2029 || n == 0x202F || n == 0x205F || n == 0x3000
}

/// Whether `text` is empty or holds white space only.
pub fn is_blank(text: &str) -> (found: bool)
    ensures
        found == blank(text@),
{
    let mut found = true;
    for c in it: text.chars()
        invariant
            it.seq() == text@,
            found == (forall|i: int| 0 <= i < it.index() ==> white_space(#[trigger] text@[i])),
    {
        if !is_white_space(c) {
            found = false;
        }
    }
    found
}

/// A text whose characters from `end` on are all `c`, and whose character
/// before `end` is not, loses exactly those characters.
pub proof fn lemma_without_trailing(text: Seq<char>, c: char, end: int)
    requires
        0 <= end <= text.len(),
        forall|i: int| end <= i < text.len() ==> text[i] == c,
        end > 0 ==> text[end - 1] != c,
    ensures
        without_trailing(text, c) == text.subrange(0, end),
    decreases text.len(),
{
    if end < text.len() {
        lemma_without_trailing(text.drop_last(), c, end);
    }
}

/// A text whose characters before `start` are all `c`, and whose character
/// at `start` is not, loses exactly those characters.
pub proof fn lemma_without_leading(text: Seq<char>, c: char, start: int)
    requires
        0 <= start <= text.len(),
        forall|i: int| 0 <= i < start ==> text[i] == c,
        start < text.len() ==> text[start] != c,
    ensures
        without_leading(text, c) == text.subrange(start, text.len() as int),
    decreases text.len(),
{
    if start > 0 {
        let shorter = text.drop_first();
        lemma_without_leading(shorter, c, start - 1);
        assert(shorter.subrange(start - 1, shorter.len() as int) =~= text.subrange(
            start,
            text.len() as int,
        ));
    }
}

/// Removes every `c` from the end of `text`.
pub fn trim_end(text: &str, c: char) -> (kept: &str)
    ensures
        kept@ == without_trailing(text@, c),
{
    let total = text.unicode_len();
    let mut end: usize = 0;
    let mut seen: usize = 0;
    for x in it: text.chars()
        invariant
            it.seq() == text@,
            total == text@.len(),
            seen == it.index(),
            end <= seen,
            end > 0 ==> text@[end - 1] != c,
            forall|i: int| end <= i < seen ==> text@[i] == c,
    {
        seen = seen + 1;
        if x != c {
            end = seen;
        }
    }
    proof {
        lemma_without_trailing(text@, c, end as int);
    }
    text.substring_char(0, end)
}

/// Removes every `c` from the start of `text`.
pub fn trim_start(text: &str, c: char) -> (kept: &str)
    ensures
        kept@ == without_leading(text@, c),
{
    let total = text.unicode_len();
    let mut start: usize = 0;
    let mut leading_run = true;
    for x in it: text.chars()
        invariant
            it.seq() == text@,
            total == text@.len(),
            start <= it.index(),
            leading_run ==> start == it.index(),
            !leading_run ==> text@[start as int] != c,
            forall|i: int| 0 <= i < start ==> text@[i] == c,
    {
        if leading_run {
            if x == c {
                start = start + 1;
            } else {
                leading_run = false;
            }
        }
    }
    proof {
        lemma_without_leading(text@, c, start as int);
    }
    text.substring_char(start, total)
}

/// The first `n` characters of `text`, or all of it where it has fewer.
pub fn first_chars(text: &str, n: usize) -> (kept: &str)
    ensures
        kept@ == leading(text@, n as nat),
{
    if n <= text.unicode_len() {
        text.substring_char(0, n)
    } else {
        text
    }
}

/// The digit `d` as text.
fn digit(d: u64) -> (text: &'static str)
    requires
        d < 10,
    ensures
        text@ == seq![digit_char(d as nat)],
{
    proof {
        reveal_strlit("0");
        reveal_strlit("1");
        reveal_strlit("2");
        reveal_strlit("3");
        reveal_strlit("4");
        reveal_strlit("5");
        reveal_strlit("6");
        reveal_strlit("7");
        reveal_strlit("8");
        reveal_strlit("9");
    }
    if d == 0 {
        "0"
    } else if d == 1 {
        "1"
    } else if d == 2 {
        "2"
    } else if d == 3 {
        "3"
    } else if d == 4 {
        "4"
    } else if d == 5 {
        "5"
    } else if d == 6 {
        "6"
    } else if d == 7 {
        "7"
    } else if d == 8 {
        "8"
    } else {
        "9"
    }
}

/// Writes `n` in base ten.
pub fn decimal(n: u64) -> (text: String)
    ensures
        text@ == decimal_text(n as nat),
    decreases n,
{
    if n < 10 {
        String::from_str(digit(n))
    } else {
        let mut text = decimal(n / 10);
        let last = digit(n % 10);
        text.append(last);
        text
    }
}

/// Writes `n` in base ten, with a minus sign where it is negative.
pub fn signed_decimal(n: i64) -> (text: String)
    ensures
        text@ == signed_decimal_text(n as int),
{
    if n < 0 {
        let magnitude: u64 = if n == i64::MIN {
            0x8000_0000_0000_0000u64
        } else {
            (-n) as u64
        };
        let digits = decimal(magnitude);
        proof {
            reveal_strlit("-");
        }
        join2("-", digits.as_str())
    } else {
        decimal(n as u64)
    }
}

} // verus!
