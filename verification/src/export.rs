//! Helpers for rendering a scan as a report.

use vstd::prelude::*;
use crate::text::{chars_of, replace_each, replacing, string_of};

verus! {

/// A field as it stands in a line of comma-separated values: every double
/// quote doubled, every line feed a blank, every carriage return left out,
/// and the whole between double quotes.
pub open spec fn csv_field_of(field: Seq<char>) -> Seq<char> {
    seq!['"'] + replacing(replacing(doubling_quotes(field), seq!['\n'], Some(' ')), seq!['\r'], None)
        + seq!['"']
}

/// `s` with every double quote doubled.
pub open spec fn doubling_quotes(s: Seq<char>) -> Seq<char>
    decreases s.len(),
{
    if s.len() == 0 {
        s
    } else if s.last() == '"' {
        doubling_quotes(s.drop_last()).push('"').push('"')
    } else {
        doubling_quotes(s.drop_last()).push(s.last())
    }
}

/// A field as it stands in a line of comma-separated values.
pub fn escape_csv_field(field: &str) -> (escaped: String)
    ensures
        escaped@ == csv_field_of(field@),
{
    let chars = chars_of(field);
    let mut doubled: Vec<char> = Vec::new();
    let mut i: usize = 0;
    assert(chars@.take(0) =~= Seq::<char>::empty());
    while i < chars.len()
        invariant
            i <= chars@.len(),
            doubled@ == doubling_quotes(chars@.take(i as int)),
        decreases chars@.len() - i,
    {
        assert(chars@.take(i + 1).drop_last() =~= chars@.take(i as int));
        assert(chars@.take(i + 1).last() == chars@[i as int]);
        let c = chars[i];
        doubled.push(c);
        if c == '"' {
            doubled.push('"');
        }
        i = i + 1;
    }
    assert(chars@.take(chars@.len() as int) =~= chars@);
    let mut feeds: Vec<char> = Vec::new();
    feeds.push('\n');
    assert(feeds@ =~= seq!['\n']);
    let mut carriage: Vec<char> = Vec::new();
    carriage.push('\r');
    assert(carriage@ =~= seq!['\r']);
    let one_line = replace_each(&doubled, &feeds, Some(' '));
    let mut cleaned = replace_each(&one_line, &carriage, None);
    let mut quoted: Vec<char> = Vec::new();
    quoted.push('"');
    quoted.append(&mut cleaned);
    quoted.push('"');
    assert(quoted@ =~= csv_field_of(field@));
    string_of(&quoted)
}

/// The colour that a score is shown in: green from 80, amber from 60, red
/// below.
pub open spec fn score_color_of(score: u8) -> Seq<char> {
    if score >= 80 {
        "#22c55e"@
    } else if score >= 60 {
        "#f59e0b"@
    } else {
        "#ef4444"@
    }
}

/// The colour that a score is shown in.
pub fn get_score_color(score: u8) -> (color: &'static str)
    ensures
        color@ == score_color_of(score),
{
    if score >= 80 {
        "#22c55e"
    } else if score >= 60 {
        "#f59e0b"
    } else {
        "#ef4444"
    }
}

} // verus!
