use crate::point::Point;
use vstd::prelude::*;

verus! {

/// Whether a character is one of the ten decimal digits.
pub open spec fn is_digit(c: char) -> bool {
    '0' <= c && c <= '9'
}

/// The value of a run of decimal digits, most significant digit first.
pub open spec fn digits_value(digits: Seq<char>) -> int
    decreases digits.len(),
{
    if digits.len() == 0 {
        0
    } else {
        10 * digits_value(digits.drop_last()) + (digits.last() as int - '0' as int)
    }
}

/// What is left of a token once a leading sign is taken off.
pub open spec fn unsigned_part(token: Seq<char>) -> Seq<char> {
    if token.len() > 0 && (token[0] == '-' || token[0] == '+') {
        token.skip(1)
    } else {
        token
    }
}

/// Whether a token is written as an integer: an optional `+` or `-`, then
/// one or more decimal digits and nothing else.
pub open spec fn is_number(token: Seq<char>) -> bool {
    let digits = unsigned_part(token);
    digits.len() > 0 && forall|i: int| 0 <= i < digits.len() ==> is_digit(#[trigger] digits[i])
}

/// The integer that a token is written as.
pub open spec fn number_value(token: Seq<char>) -> int {
    if token.len() > 0 && token[0] == '-' {
        -digits_value(unsigned_part(token))
    } else {
        digits_value(unsigned_part(token))
    }
}

/// The coordinate that a token stands for: its value where that fits in 32
/// bits, and 0 where it does not.
pub open spec fn coordinate_of(token: Seq<char>) -> int {
    let value = number_value(token);
    if i32::MIN <= value <= i32::MAX {
        value
    } else {
        0
    }
}

/// The index of the first occurrence of `c` at or after `from`, or the
/// length of the text where there is none.
pub open spec fn first_from(text: Seq<char>, c: char, from: int) -> int
    decreases text.len() - from,
{
    if from >= text.len() {
        text.len() as int
    } else if text[from] == c {
        from
    } else {
        first_from(text, c, from + 1)
    }
}

/// The index of the first occurrence of `c`, or the length of the text
/// where there is none.
pub open spec fn first_of(text: Seq<char>, c: char) -> int {
    first_from(text, c, 0)
}

/// Whether a text is a coordinate group: two integers with a single
/// space between them.
pub open spec fn is_group(text: Seq<char>) -> bool {
    let space = first_of(text, ' ');
    &&& 0 <= space < text.len()
    &&& is_number(text.take(space))
    &&& is_number(text.skip(space + 1))
}

/// The point that a coordinate group stands for: row, then column.
pub open spec fn group_point(text: Seq<char>) -> Seq<int> {
    let space = first_of(text, ' ');
    seq![coordinate_of(text.take(space)), coordinate_of(text.skip(space + 1))]
}

/// Whether a text is a move command: a coordinate group, the arrow
/// `" -> "`, and a second coordinate group.
pub open spec fn is_command(text: Seq<char>) -> bool {
    let tip = first_of(text, '>');
    &&& 2 <= tip
    &&& tip + 1 < text.len()
    &&& text[tip - 2] == ' '
    &&& text[tip - 1] == '-'
    &&& text[tip + 1] == ' '
    &&& is_group(text.take(tip - 2))
    &&& is_group(text.skip(tip + 2))
}

/// The square that a move command starts from.
pub open spec fn command_start(text: Seq<char>) -> Seq<int> {
    group_point(text.take(first_of(text, '>') - 2))
}

/// The square that a move command leads to.
pub open spec fn command_end(text: Seq<char>) -> Seq<int> {
    group_point(text.skip(first_of(text, '>') + 2))
}

/// `first_from` is the least index at or after `from` that holds `c`.
pub proof fn lemma_first_from(text: Seq<char>, c: char, from: int, at: int)
    requires
        0 <= from <= at <= text.len(),
        forall|i: int| from <= i < at ==> text[i] != c,
        at < text.len() ==> text[at] == c,
    ensures
        first_from(text, c, from) == at,
    decreases at - from,
{
    if from < at {
        lemma_first_from(text, c, from + 1, at);
    }
}

/// The characters of a text, in order.
pub fn chars_of(text: &str) -> (chars: Vec<char>)
    ensures
        chars@ == text@,
{
    let mut chars: Vec<char> = Vec::new();
    for c in it: text.chars()
        invariant
            it.seq() == text@,
            chars@ == text@.take(it.index() as int),
    {
        chars.push(c);
        proof {
            assert(chars@ =~= text@.take(it.index() + 1));
        }
    }
    proof {
        assert(chars@ =~= text@);
    }
    chars
}

/// Finds the first occurrence of `c` in `chars[lo..hi]`; the result is `hi`
/// where there is none.
pub fn find_first(chars: &Vec<char>, lo: usize, hi: usize, c: char) -> (at: usize)
    requires
        lo <= hi <= chars.len(),
    ensures
        lo <= at <= hi,
        at - lo == first_of(chars@.subrange(lo as int, hi as int), c),
        forall|i: int| lo <= i < at ==> chars[i] != c,
        at < hi ==> chars[at as int] == c,
{
    let mut at: usize = lo;
    while at < hi && chars[at] != c
        invariant
            lo <= at <= hi <= chars.len(),
            forall|i: int| lo <= i < at ==> chars[i] != c,
        decreases hi - at,
    {
        at += 1;
    }
    proof {
        lemma_first_from(chars@.subrange(lo as int, hi as int), c, 0, at - lo);
    }
    at
}

/// Whether `chars[lo..hi]` is written as an integer.
pub fn number_in(chars: &Vec<char>, lo: usize, hi: usize) -> (yes: bool)
    requires
        lo <= hi <= chars.len(),
    ensures
        yes == is_number(chars@.subrange(lo as int, hi as int)),
{
    let ghost token = chars@.subrange(lo as int, hi as int);
    let signed: bool = lo < hi && (chars[lo] == '-' || chars[lo] == '+');
    let first: usize = if signed { lo + 1 } else { lo };
    proof {
        assert(unsigned_part(token) =~= chars@.subrange(first as int, hi as int));
    }
    if first >= hi {
        return false;
    }
    let mut i: usize = first;
    while i < hi
        invariant
            first <= i <= hi <= chars.len(),
            first < hi,
            unsigned_part(token) == chars@.subrange(first as int, hi as int),
            token == chars@.subrange(lo as int, hi as int),
            forall|j: int| first <= j < i ==> is_digit(chars[j]),
        decreases hi - i,
    {
        let c: char = chars[i];
        if !(c >= '0' && c <= '9') {
            proof {
                assert(!is_digit(unsigned_part(token)[i - first]));
            }
            return false;
        }
        i += 1;
    }
    true
}

/// Whether `chars[lo..hi]` is a coordinate group.
pub fn group_in(chars: &Vec<char>, lo: usize, hi: usize) -> (yes: bool)
    requires
        lo <= hi <= chars.len(),
    ensures
        yes == is_group(chars@.subrange(lo as int, hi as int)),
{
    let ghost text = chars@.subrange(lo as int, hi as int);
    let space: usize = find_first(chars, lo, hi, ' ');
    if space >= hi {
        return false;
    }
    proof {
        assert(text.take(space - lo) =~= chars@.subrange(lo as int, space as int));
        assert(text.skip(space - lo + 1) =~= chars@.subrange(space + 1, hi as int));
    }
    number_in(chars, lo, space) && number_in(chars, space + 1, hi)
}

/// Decodes a coordinate group by glucose's conversion of a `String` into
/// a matrix, `impl From<String> for Matrix`, taken at the two-dimensional
/// integer point `Point<i32, 2>`.
///
/// This contract is not proved; it states what the source of glucose
/// shows. The conversion cuts the text at each `;` and each piece at each
/// space, reads every part with `str::parse::<i32>`, puts 0 where the
/// parser fails, and stops the program on a second piece or a third part.
/// A group has no `;` and one space, so it has one piece of two parts;
/// each part is written as an integer, which the parser refuses only where
/// the value does not fit in 32 bits. So the result holds the coordinates
/// of the two parts, row first.
#[verifier::external_body]
fn decode_group(group: &str) -> (point: Point<2>)
    requires
        is_group(group@),
    ensures
        point@ == group_point(group@),
{
    let decoded = glucose::algebra::linear::Point::<i32, 2>::from(group.to_string());
    Point { coords: [decoded[0], decoded[1]] }
}

/// Reads a move command: `Some` of its two squares where the text is a
/// command, `None` where it is not.
pub fn read_command(input: &str) -> (squares: Option<(Point<2>, Point<2>)>)
    ensures
        squares is Some <==> is_command(input@),
        squares matches Some((start, end)) ==> start@ == command_start(input@) && end@
            == command_end(input@),
{
    let chars = chars_of(input);
    let len: usize = chars.len();
    let tip: usize = find_first(&chars, 0, len, '>');
    proof {
        assert(chars@.subrange(0, len as int) =~= input@);
    }
    if tip < 2 || tip >= len - 1 {
        return None;
    }
    if chars[tip - 2] != ' ' || chars[tip - 1] != '-' || chars[tip + 1] != ' ' {
        return None;
    }
    proof {
        assert(input@.take(tip - 2) =~= chars@.subrange(0, tip - 2));
        assert(input@.skip(tip + 2) =~= chars@.subrange(tip + 2, len as int));
    }
    if !group_in(&chars, 0, tip - 2) || !group_in(&chars, tip + 2, len) {
        return None;
    }
    let start = decode_group(input.substring_char(0, tip - 2));
    let end = decode_group(input.substring_char(tip + 2, len));
    Some((start, end))
}

} // verus!
