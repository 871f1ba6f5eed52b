//! Reading the text that system tools print: lines, fields and numbers.

use vstd::prelude::*;
use crate::text::{chars_of, decimal, digit_char, is_white_space, white_space};

verus! {

/// A blank: white space as Unicode defines it, which is what parts the
/// fields of a line.
pub open spec fn is_blank(c: char) -> bool {
    is_white_space(c)
}

/// Whether `c` is a blank.
pub fn blank(c: char) -> (b: bool)
    ensures
        b == is_blank(c),
{
    white_space(c)
}

/// The fields of a line: the longest runs of characters that are no blanks,
/// in their order.
pub open spec fn fields_of(line: Seq<char>) -> Seq<Seq<char>>
    decreases line.len(),
{
    if line.len() == 0 {
        Seq::empty()
    } else {
        let before = fields_of(line.drop_last());
        if is_blank(line.last()) {
            before
        } else if line.len() >= 2 && !is_blank(line[line.len() - 2]) {
            before.drop_last().push(before.last().push(line.last()))
        } else {
            before.push(seq![line.last()])
        }
    }
}

/// A line that ends in a character that is no blank has a last field.
pub proof fn lemma_fields_nonempty(line: Seq<char>)
    requires
        line.len() > 0,
        !is_blank(line.last()),
    ensures
        fields_of(line).len() > 0,
    decreases line.len(),
{
    if line.len() >= 2 && !is_blank(line[line.len() - 2]) {
        assert(line.drop_last().last() == line[line.len() - 2]);
        lemma_fields_nonempty(line.drop_last());
    }
}

/// The fields of a line.
pub fn fields(line: &Vec<char>) -> (parts: Vec<Vec<char>>)
    ensures
        parts@.len() == fields_of(line@).len(),
        forall|i: int| 0 <= i < parts@.len() ==> (#[trigger] parts@[i])@ == fields_of(line@)[i],
{
    let mut parts: Vec<Vec<char>> = Vec::new();
    let mut current: Vec<char> = Vec::new();
    let mut in_field = false;
    let mut i: usize = 0;
    assert(line@.take(0) =~= Seq::<char>::empty());
    while i < line.len()
        invariant
            i <= line@.len(),
            in_field == (i > 0 && !is_blank(line@[i - 1])),
            in_field ==> parts@.len() + 1 == fields_of(line@.take(i as int)).len() && current@
                == fields_of(line@.take(i as int)).last(),
            !in_field ==> parts@.len() == fields_of(line@.take(i as int)).len(),
            forall|k: int|
                0 <= k < parts@.len() ==> (#[trigger] parts@[k])@ == fields_of(
                    line@.take(i as int),
                )[k],
        decreases line@.len() - i,
    {
        let ghost seen = line@.take(i as int);
        let ghost next = line@.take(i + 1);
        assert(next.drop_last() =~= seen);
        assert(next.last() == line@[i as int]);
        assert(i > 0 ==> next[next.len() - 2] == line@[i - 1]);
        proof {
            if in_field {
                assert(seen.last() == line@[i - 1]);
                lemma_fields_nonempty(seen);
            }
        }
        let c = line[i];
        if blank(c) {
            if in_field {
                parts.push(current);
                current = Vec::new();
                in_field = false;
            }
        } else if in_field {
            current.push(c);
        } else {
            current = Vec::new();
            current.push(c);
            assert(current@ =~= seq![c]);
            in_field = true;
        }
        i = i + 1;
    }
    assert(line@.take(line@.len() as int) =~= line@);
    if in_field {
        parts.push(current);
    }
    parts
}

/// The value of a decimal digit.
pub open spec fn digit_value(c: char) -> Option<nat> {
    if '0' <= c && c <= '9' {
        Some((c as u32 - 48) as nat)
    } else {
        None
    }
}

/// The number that a text of decimal digits stands for; nothing for the
/// empty text and for a text that holds anything but digits.
pub open spec fn decimal_value(digits: Seq<char>) -> Option<nat>
    decreases digits.len(),
{
    if digits.len() == 0 {
        None
    } else {
        match digit_value(digits.last()) {
            None => None,
            Some(last) => if digits.len() == 1 {
                Some(last)
            } else {
                match decimal_value(digits.drop_last()) {
                    Some(front) => Some(front * 10 + last),
                    None => None,
                }
            },
        }
    }
}

/// Reading a numeral gives back the number that it was written from.
pub proof fn lemma_decimal_round_trip(n: nat)
    ensures
        decimal_value(decimal(n)) == Some(n),
    decreases n,
{
    if n < 10 {
        assert(decimal(n) =~= seq![digit_char(n)]);
        assert(decimal(n).last() == digit_char(n));
    } else {
        lemma_decimal_round_trip(n / 10);
        let numeral = decimal(n);
        assert(numeral.drop_last() =~= decimal(n / 10));
        assert(numeral.last() == digit_char(n % 10));
        assert(decimal(n / 10).len() >= 1) by {
            lemma_decimal_nonempty(n / 10);
        }
    }
}

/// A numeral has at least one digit.
pub proof fn lemma_decimal_nonempty(n: nat)
    ensures
        decimal(n).len() >= 1,
    decreases n,
{
    if n >= 10 {
        lemma_decimal_nonempty(n / 10);
    }
}

/// The number that a text of decimal digits stands for, where it is one and
/// does not exceed `limit`.
pub fn parse_bounded(digits: &Vec<char>, limit: u64) -> (value: Option<u64>)
    ensures
        value is Some <==> (decimal_value(digits@) matches Some(n) && n <= limit),
        value matches Some(v) ==> decimal_value(digits@) == Some(v as nat),
{
    if digits.len() == 0 {
        return None;
    }
    let mut value: u64 = 0;
    let mut i: usize = 0;
    while i < digits.len()
        invariant
            i <= digits@.len(),
            digits@.len() > 0,
            value <= limit,
            i == 0 ==> value == 0,
            i > 0 ==> decimal_value(digits@.take(i as int)) == Some(value as nat),
        decreases digits@.len() - i,
    {
        let ghost seen = digits@.take(i as int);
        let ghost next = digits@.take(i + 1);
        assert(next.drop_last() =~= seen);
        assert(next.last() == digits@[i as int]);
        let c = digits[i];
        if !('0' <= c && c <= '9') {
            proof {
                lemma_bad_digit_spoils(digits@, i as int);
            }
            return None;
        }
        let digit: u64 = (c as u32 - 48) as u64;
        if digit > limit {
            proof {
                lemma_prefix_bounds(digits@, i + 1);
            }
            return None;
        }
        if value > (limit - digit) / 10 {
            proof {
                assert(value * 10 + digit > limit) by (nonlinear_arith)
                    requires
                        value > (limit - digit) / 10,
                        digit <= 9,
                        digit <= limit,
                ;
                lemma_prefix_bounds(digits@, i + 1);
            }
            return None;
        }
        assert(value * 10 + digit <= limit) by (nonlinear_arith)
            requires
                value <= (limit - digit) / 10,
                digit <= limit,
        ;
        value = value * 10 + digit;
        i = i + 1;
    }
    assert(digits@.take(digits@.len() as int) =~= digits@);
    Some(value)
}

proof fn lemma_bad_digit_spoils(digits: Seq<char>, at: int)
    requires
        0 <= at < digits.len(),
        digit_value(digits[at]) is None,
    ensures
        decimal_value(digits) is None,
    decreases digits.len(),
{
    if at < digits.len() - 1 {
        lemma_bad_digit_spoils(digits.drop_last(), at);
    }
}

proof fn lemma_prefix_bounds(digits: Seq<char>, n: int)
    requires
        1 <= n <= digits.len(),
    ensures
        decimal_value(digits) matches Some(whole) ==> (decimal_value(digits.take(n)) matches Some(
            front,
        ) && front <= whole),
    decreases digits.len() - n,
{
    if n == digits.len() {
        assert(digits.take(n) =~= digits);
    } else {
        assert(digits.drop_last().take(n) =~= digits.take(n));
        lemma_prefix_bounds(digits.drop_last(), n);
        if decimal_value(digits) is Some {
            assert(decimal_value(digits.drop_last()) is Some);
        }
    }
}

/// The number that a text of decimal digits stands for, where it fits.
pub fn parse_u64(digits: &Vec<char>) -> (value: Option<u64>)
    ensures
        value is Some <==> (decimal_value(digits@) matches Some(n) && n <= u64::MAX),
        value matches Some(v) ==> decimal_value(digits@) == Some(v as nat),
{
    parse_bounded(digits, u64::MAX)
}

/// The number that a string of decimal digits stands for, where it fits.
pub fn parse_number(text: &str) -> (value: Option<u64>)
    ensures
        value is Some <==> (decimal_value(text@) matches Some(n) && n <= u64::MAX),
        value matches Some(v) ==> decimal_value(text@) == Some(v as nat),
{
    let digits = chars_of(text);
    parse_u64(&digits)
}

/// The segments of `s` between the occurrences of `separator`. A text
/// without the separator is one segment, and so is the empty text.
pub open spec fn split_on(s: Seq<char>, separator: char) -> Seq<Seq<char>>
    decreases s.len(),
{
    if s.len() == 0 {
        seq![Seq::<char>::empty()]
    } else {
        let before = split_on(s.drop_last(), separator);
        if s.last() == separator {
            before.push(Seq::<char>::empty())
        } else {
            before.drop_last().push(before.last().push(s.last()))
        }
    }
}

/// The segments of `s` between the occurrences of `separator`.
pub fn split_chars(s: &Vec<char>, separator: char) -> (parts: Vec<Vec<char>>)
    ensures
        parts@.len() == split_on(s@, separator).len(),
        forall|i: int| 0 <= i < parts@.len() ==> (#[trigger] parts@[i])@ == split_on(s@, separator)[i],
{
    let mut parts: Vec<Vec<char>> = Vec::new();
    let mut current: Vec<char> = Vec::new();
    let mut i: usize = 0;
    assert(s@.take(0) =~= Seq::<char>::empty());
    while i < s.len()
        invariant
            i <= s@.len(),
            parts@.len() + 1 == split_on(s@.take(i as int), separator).len(),
            forall|k: int|
                0 <= k < parts@.len() ==> (#[trigger] parts@[k])@ == split_on(
                    s@.take(i as int),
                    separator,
                )[k],
            current@ == split_on(s@.take(i as int), separator).last(),
        decreases s@.len() - i,
    {
        let ghost before = split_on(s@.take(i as int), separator);
        assert(s@.take(i + 1).drop_last() =~= s@.take(i as int));
        assert(s@.take(i + 1).last() == s@[i as int]);
        let c = s[i];
        if c == separator {
            parts.push(current);
            current = Vec::new();
            assert(split_on(s@.take(i + 1), separator) == before.push(Seq::<char>::empty()));
        } else {
            current.push(c);
            assert(split_on(s@.take(i + 1), separator) == before.drop_last().push(
                before.last().push(c),
            ));
        }
        i = i + 1;
    }
    assert(s@.take(s@.len() as int) =~= s@);
    parts.push(current);
    parts
}

/// `piece` without one carriage return at its end.
pub open spec fn without_return(piece: Seq<char>) -> Seq<char> {
    if piece.len() > 0 && piece.last() == '\r' {
        piece.drop_last()
    } else {
        piece
    }
}

/// The lines that a list of pieces between line feeds stands for. A piece
/// that a line feed ends is a line without the carriage return that may
/// stand before the line feed; the piece after the last line feed is a line
/// as it is, unless it is empty.
pub open spec fn lines_from(pieces: Seq<Seq<char>>) -> Seq<Seq<char>> {
    let ended = pieces.drop_last().map_values(|piece: Seq<char>| without_return(piece));
    if pieces.len() == 0 {
        Seq::empty()
    } else if pieces.last().len() == 0 {
        ended
    } else {
        ended.push(pieces.last())
    }
}

/// The lines of a text.
pub open spec fn lines_of(text: Seq<char>) -> Seq<Seq<char>> {
    lines_from(split_on(text, '\n'))
}

/// The lines of a text.
pub fn lines(text: &str) -> (out: Vec<Vec<char>>)
    ensures
        out@.len() == lines_of(text@).len(),
        forall|i: int| 0 <= i < out@.len() ==> (#[trigger] out@[i])@ == lines_of(text@)[i],
{
    let chars = chars_of(text);
    let mut pieces = split_chars(&chars, '\n');
    let ghost all = split_on(text@, '\n');
    let n = pieces.len();
    proof {
        lemma_split_nonempty(text@, '\n');
    }
    let mut out: Vec<Vec<char>> = Vec::new();
    let mut i: usize = 0;
    while i + 1 < n
        invariant
            n == pieces@.len(),
            n == all.len(),
            n >= 1,
            i + 1 <= n,
            forall|k: int| 0 <= k < n ==> (#[trigger] pieces@[k])@ == all[k],
            out@.len() == i,
            forall|k: int| 0 <= k < i ==> (#[trigger] out@[k])@ == without_return(all[k]),
        decreases n - i,
    {
        let piece = &pieces[i];
        let mut line: Vec<char> = Vec::new();
        let keep: usize = if piece.len() > 0 && piece[piece.len() - 1] == '\r' {
            piece.len() - 1
        } else {
            piece.len()
        };
        let mut j: usize = 0;
        while j < keep
            invariant
                j <= keep <= piece@.len(),
                line@ == piece@.take(j as int),
            decreases keep - j,
        {
            line.push(piece[j]);
            j = j + 1;
            assert(line@ =~= piece@.take(j as int));
        }
        assert(line@ =~= without_return(all[i as int]));
        out.push(line);
        i = i + 1;
    }
    let last = pieces.pop();
    match last {
        Some(piece) => {
            if piece.len() > 0 {
                out.push(piece);
            }
        },
        None => {},
    }
    assert(out@.len() == lines_of(text@).len());
    assert forall|k: int| 0 <= k < out@.len() implies (#[trigger] out@[k])@ == lines_of(text@)[k] by {
        if k < n - 1 {
            assert(all.drop_last()[k] == all[k]);
        }
    }
    out
}

/// The lines after the first `headings` ones; none where there are no more.
pub open spec fn after_headings(lines: Seq<Seq<char>>, headings: nat) -> Seq<Seq<char>> {
    if lines.len() <= headings {
        Seq::empty()
    } else {
        lines.subrange(headings as int, lines.len() as int)
    }
}

/// The lines after the first one, which is a heading.
pub open spec fn after_heading(lines: Seq<Seq<char>>) -> Seq<Seq<char>> {
    after_headings(lines, 1)
}

/// A text has at least one piece between its separators.
pub proof fn lemma_split_nonempty(s: Seq<char>, separator: char)
    ensures
        split_on(s, separator).len() >= 1,
    decreases s.len(),
{
    if s.len() > 0 {
        lemma_split_nonempty(s.drop_last(), separator);
    }
}

/// `field` without the percent signs at its end.
pub open spec fn without_percent(field: Seq<char>) -> Seq<char>
    decreases field.len(),
{
    if field.len() > 0 && field.last() == '%' {
        without_percent(field.drop_last())
    } else {
        field
    }
}

/// `field` without the percent signs at its end.
pub fn strip_percent(field: &Vec<char>) -> (digits: Vec<char>)
    ensures
        digits@ == without_percent(field@),
{
    let mut end: usize = field.len();
    assert(field@.take(end as int) =~= field@);
    while end > 0 && field[end - 1] == '%'
        invariant
            end <= field@.len(),
            without_percent(field@) == without_percent(field@.take(end as int)),
        decreases end,
    {
        assert(field@.take(end as int).drop_last() =~= field@.take(end - 1));
        assert(field@.take(end as int).last() == field@[end - 1]);
        end = end - 1;
    }
    proof {
        if end > 0 {
            assert(field@.take(end as int).last() == field@[end - 1]);
        }
    }
    let mut digits: Vec<char> = Vec::new();
    let mut i: usize = 0;
    while i < end
        invariant
            i <= end <= field@.len(),
            digits@ == field@.take(i as int),
        decreases end - i,
    {
        digits.push(field[i]);
        i = i + 1;
        assert(digits@ =~= field@.take(i as int));
    }
    digits
}

} // verus!
