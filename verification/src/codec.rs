//! The one-line text form of a message: four comma-separated fields.

use vstd::prelude::*;
use crate::decimal::{all_digits, decimal, lemma_decimal_denotes, lemma_parse_decimal, parse_u128};
use crate::escape::{escape, has_escape, lemma_escape_has_no_newline, lemma_unescape_escape, unescape};
use crate::types::MessageView;

verus! {

/// Whether index `i` holds the first occurrence of `c` in `s`.
pub open spec fn is_first(s: Seq<char>, c: char, i: int) -> bool {
    &&& 0 <= i < s.len()
    &&& s[i] == c
    &&& forall|k: int| 0 <= k < i ==> s[k] != c
}

/// The index of the first occurrence of `c` in `s`, where `c` occurs in `s`.
pub open spec fn first_index(s: Seq<char>, c: char) -> int {
    choose|i: int| is_first(s, c, i)
}

/// The fields of `s`: it is cut at its commas, from the left, until `limit` fields are
/// reached; the last field keeps the commas that are left.
pub open spec fn split_fields(s: Seq<char>, limit: nat) -> Seq<Seq<char>>
    decreases limit,
{
    if limit <= 1 || !s.contains(',') {
        seq![s]
    } else {
        let i = first_index(s, ',');
        seq![s.take(i)] + split_fields(s.skip(i + 1), (limit - 1) as nat)
    }
}

/// The line that stands for a message: identifier, sender and creation time in decimal,
/// then the content with its newlines escaped.
pub open spec fn encode(m: MessageView) -> Seq<char> {
    decimal(m.id as nat) + seq![','] + decimal(m.sender as nat) + seq![','] + decimal(
        m.created as nat,
    ) + seq![','] + escape(m.content)
}

/// The message that a line stands for, if any: the line has four fields, the first three
/// are numbers, and the fourth is the escaped content.
pub open spec fn decode(line: Seq<char>) -> Option<MessageView> {
    let fields = split_fields(line, 4);
    if fields.len() == 4 && parse_u128(fields[0]) is Some && parse_u128(fields[1]) is Some
        && parse_u128(fields[2]) is Some {
        Some(
            MessageView {
                id: parse_u128(fields[0])->0,
                sender: parse_u128(fields[1])->0,
                created: parse_u128(fields[2])->0,
                content: unescape(fields[3]),
            },
        )
    } else {
        None
    }
}

/// There is only one first occurrence.
pub proof fn lemma_first_index(s: Seq<char>, c: char, i: int)
    requires
        is_first(s, c, i),
    ensures
        s.contains(c),
        first_index(s, c) == i,
{
    let j = first_index(s, c);
    assert(is_first(s, c, j));
    if j < i {
        assert(s[j] != c);
    }
    if i < j {
        assert(s[i] != c);
    }
}

/// A line that begins with a number and a comma has that number as its first field.
pub proof fn lemma_split_number(digits: Seq<char>, rest: Seq<char>, limit: nat)
    requires
        all_digits(digits),
        limit >= 2,
    ensures
        split_fields(digits + seq![','] + rest, limit) == seq![digits] + split_fields(
            rest,
            (limit - 1) as nat,
        ),
{
    let line = digits + seq![','] + rest;
    let i = digits.len() as int;
    assert(line[i] == ',');
    assert forall|k: int| 0 <= k < i implies line[k] != ',' by {
        assert(line[k] == digits[k]);
    }
    lemma_first_index(line, ',', i);
    assert(line.take(i) == digits);
    assert(line.skip(i + 1) == rest);
}

/// Decoding undoes encoding for every message whose content does not hold the
/// two-character escape already.
pub proof fn lemma_decode_encode(m: MessageView)
    requires
        !has_escape(m.content),
    ensures
        decode(encode(m)) == Some(m),
{
    let id = decimal(m.id as nat);
    let sender = decimal(m.sender as nat);
    let created = decimal(m.created as nat);
    let content = escape(m.content);
    lemma_decimal_denotes(m.id as nat);
    lemma_decimal_denotes(m.sender as nat);
    lemma_decimal_denotes(m.created as nat);
    let rest2 = created + seq![','] + content;
    let rest1 = sender + seq![','] + rest2;
    assert(encode(m) == id + seq![','] + rest1);
    lemma_split_number(id, rest1, 4);
    lemma_split_number(sender, rest2, 3);
    lemma_split_number(created, content, 2);
    assert(split_fields(content, 1) == seq![content]);
    let fields = split_fields(encode(m), 4);
    assert(fields == seq![id, sender, created, content]);
    lemma_parse_decimal(m.id);
    lemma_parse_decimal(m.sender);
    lemma_parse_decimal(m.created);
    lemma_unescape_escape(m.content);
}

/// An encoded message holds no newline: it is one line.
pub proof fn lemma_encode_one_line(m: MessageView)
    ensures
        !encode(m).contains('\n'),
{
    lemma_decimal_denotes(m.id as nat);
    lemma_decimal_denotes(m.sender as nat);
    lemma_decimal_denotes(m.created as nat);
    lemma_escape_has_no_newline(m.content);
    let id = decimal(m.id as nat);
    let sender = decimal(m.sender as nat);
    let created = decimal(m.created as nat);
    let content = escape(m.content);
    let line = encode(m);
    assert forall|i: int| 0 <= i < line.len() implies line[i] != '\n' by {
        if i < id.len() {
            assert(line[i] == id[i]);
        } else if i == id.len() {
        } else if i < id.len() + 1 + sender.len() {
            assert(line[i] == sender[i - id.len() - 1]);
        } else if i == id.len() + 1 + sender.len() {
        } else if i < id.len() + 1 + sender.len() + 1 + created.len() {
            assert(line[i] == created[i - id.len() - sender.len() - 2]);
        } else if i == id.len() + 1 + sender.len() + 1 + created.len() {
        } else {
            let k = i - id.len() - sender.len() - created.len() - 3;
            assert(line[i] == content[k]);
            assert(content.contains(content[k]));
        }
    }
}

/// Cutting the rest of a line at its first comma gives the field before the comma and
/// the fields of what follows it.
pub proof fn lemma_split_at(line: Seq<char>, from: int, comma: int, limit: nat)
    requires
        0 <= from <= comma < line.len(),
        is_first(line.skip(from), ',', comma - from),
        limit >= 2,
    ensures
        split_fields(line.skip(from), limit) == seq![line.subrange(from, comma)] + split_fields(
            line.skip(comma + 1),
            (limit - 1) as nat,
        ),
{
    let rest = line.skip(from);
    lemma_first_index(rest, ',', comma - from);
    assert(rest.take(comma - from) == line.subrange(from, comma));
    assert(rest.skip(comma - from + 1) == line.skip(comma + 1));
}

/// The index of the first comma at or after `from`, if there is one.
fn find_comma(chars: &Vec<char>, from: usize) -> (r: Option<usize>)
    requires
        from <= chars.len(),
    ensures
        match r {
            Some(j) => from <= j < chars.len() && is_first(chars@.skip(from as int), ',', j - from),
            None => !chars@.skip(from as int).contains(','),
        },
{
    let ghost rest = chars@.skip(from as int);
    let mut j: usize = from;
    while j < chars.len()
        invariant
            from <= j <= chars.len(),
            rest == chars@.skip(from as int),
            forall|k: int| 0 <= k < j - from ==> rest[k] != ',',
        decreases chars.len() - j,
    {
        if chars[j] == ',' {
            assert(rest[j - from] == ',');
            return Some(j);
        }
        j += 1;
    }
    None
}

/// The places of the three commas that cut a line into its four fields; nothing where the
/// line has fewer fields.
pub(crate) fn find_fields(chars: &Vec<char>) -> (r: Option<(usize, usize, usize)>)
    ensures
        match r {
            Some((first, second, third)) => {
                &&& first < second < third < chars.len()
                &&& split_fields(chars@, 4) == seq![
                    chars@.subrange(0, first as int),
                    chars@.subrange(first + 1, second as int),
                    chars@.subrange(second + 1, third as int),
                    chars@.skip(third + 1),
                ]
            },
            None => split_fields(chars@, 4).len() < 4,
        },
{
    let ghost line = chars@;
    assert(line.skip(0) == line);
    let first = match find_comma(chars, 0) {
        Some(j) => j,
        None => {
            return None;
        },
    };
    proof {
        lemma_split_at(line, 0, first as int, 4);
    }
    let second = match find_comma(chars, first + 1) {
        Some(j) => j,
        None => {
            assert(split_fields(line.skip(first + 1), 3) == seq![line.skip(first + 1)]);
            return None;
        },
    };
    proof {
        lemma_split_at(line, first + 1, second as int, 3);
    }
    let third = match find_comma(chars, second + 1) {
        Some(j) => j,
        None => {
            assert(split_fields(line.skip(second + 1), 2) == seq![line.skip(second + 1)]);
            return None;
        },
    };
    proof {
        lemma_split_at(line, second + 1, third as int, 2);
        assert(split_fields(line.skip(third + 1), 1) == seq![line.skip(third + 1)]);
    }
    Some((first, second, third))
}

} // verus!
