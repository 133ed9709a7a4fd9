use vstd::prelude::*;
use crate::editor::edit;
use crate::key::Key;

verus! {

/// The byte that introduces an escape sequence.
pub const ESC: u8 = 27;

/// How many bytes after an escape byte are read before the sequence is given
/// up: the longest sequence of the table, plus one.
pub const ESC_READ_BUDGET: usize = 6;

/// The recognised escape sequences, without their leading escape byte, in
/// priority order.
pub open spec fn esc_table() -> Seq<(Key, Seq<u8>)> {
    seq![
        (Key::ArrowUp, seq![91u8, 65u8]),
        (Key::ArrowDown, seq![91u8, 66u8]),
        (Key::ArrowRight, seq![91u8, 67u8]),
        (Key::ArrowLeft, seq![91u8, 68u8]),
        (Key::CtrlArrowRight, seq![91u8, 49u8, 59u8, 53u8, 67u8]),
        (Key::CtrlArrowLeft, seq![91u8, 49u8, 59u8, 53u8, 68u8]),
    ]
}

/// A sequence is completed at position `pos` by byte `b` when `pos` is its
/// last index and `b` is its last byte.
pub open spec fn completes(s: Seq<u8>, pos: int, b: u8) -> bool {
    pos == s.len() - 1 && s[pos] == b
}

/// The key of the first entry, from index `i` of the table on, that byte `b`
/// completes at position `pos`.
pub open spec fn completion_from(pos: int, b: u8, i: int) -> Option<Key>
    decreases esc_table().len() - i,
{
    if i < 0 || i >= esc_table().len() {
        None
    } else if completes(esc_table()[i].1, pos, b) {
        Some(esc_table()[i].0)
    } else {
        completion_from(pos, b, i + 1)
    }
}

/// The key that byte `b` completes at position `pos`, the earliest entry of
/// the table winning.
pub open spec fn completion(pos: int, b: u8) -> Option<Key> {
    completion_from(pos, b, 0)
}

/// What the bytes `body` that followed an escape byte decode to, looking
/// from position `pos` on: the key and how many bytes of `body` it took, or
/// `None` while more bytes are needed.
pub open spec fn esc_outcome_from(body: Seq<u8>, pos: usize) -> Option<(Key, usize)>
    decreases ESC_READ_BUDGET - pos,
{
    if pos >= ESC_READ_BUDGET {
        Some((Key::NA, ESC_READ_BUDGET))
    } else if pos >= body.len() {
        None
    } else {
        match completion(pos as int, body[pos as int]) {
            Some(k) => Some((k, (pos + 1) as usize)),
            None => esc_outcome_from(body, (pos + 1) as usize),
        }
    }
}

/// What the bytes that followed an escape byte decode to.
pub open spec fn esc_outcome(body: Seq<u8>) -> Option<(Key, usize)> {
    esc_outcome_from(body, 0)
}

/// The key that a single byte other than the escape byte stands for.
pub open spec fn direct_key(b: u8) -> Key {
    if b == 8 || b == 23 {
        Key::CtrlBackspace
    } else if b == 10 {
        Key::Enter
    } else if b == 127 {
        Key::Backspace
    } else if b > 31 {
        Key::Char(b as char)
    } else {
        Key::NA
    }
}

/// What a stream of input bytes starts with: the key and the number of bytes
/// it took, or `None` while more bytes are needed to decide.
pub open spec fn key_outcome(input: Seq<u8>) -> Option<(Key, usize)> {
    if input.len() == 0 {
        None
    } else if input[0] == ESC {
        match esc_outcome(input.drop_first()) {
            Some((k, n)) => Some((k, (n + 1) as usize)),
            None => None,
        }
    } else {
        Some((direct_key(input[0]), 1))
    }
}

fn esc_sequences() -> (t: Vec<(Key, Vec<u8>)>)
    ensures
        t@.len() == esc_table().len(),
        forall|i: int|
            0 <= i < t@.len() ==> (#[trigger] t@[i]).0 == esc_table()[i].0 && t@[i].1@
                == esc_table()[i].1,
{
    let t = vec![
        (Key::ArrowUp, vec![91u8, 65u8]),
        (Key::ArrowDown, vec![91u8, 66u8]),
        (Key::ArrowRight, vec![91u8, 67u8]),
        (Key::ArrowLeft, vec![91u8, 68u8]),
        (Key::CtrlArrowRight, vec![91u8, 49u8, 59u8, 53u8, 67u8]),
        (Key::CtrlArrowLeft, vec![91u8, 49u8, 59u8, 53u8, 68u8]),
    ];
    assert(t@[4].1@ =~= esc_table()[4].1);
    t
}

fn completion_at(table: &Vec<(Key, Vec<u8>)>, pos: usize, b: u8) -> (r: Option<Key>)
    requires
        table@.len() == esc_table().len(),
        forall|i: int|
            0 <= i < table@.len() ==> (#[trigger] table@[i]).0 == esc_table()[i].0
                && table@[i].1@ == esc_table()[i].1,
    ensures
        r == completion(pos as int, b),
{
    let mut i: usize = 0;
    while i < table.len()
        invariant
            i <= table@.len(),
            table@.len() == esc_table().len(),
            forall|j: int|
                0 <= j < table@.len() ==> (#[trigger] table@[j]).0 == esc_table()[j].0
                    && table@[j].1@ == esc_table()[j].1,
            completion(pos as int, b) == completion_from(pos as int, b, i as int),
        decreases table@.len() - i,
    {
        let s = &table[i].1;
        if pos < s.len() && pos == s.len() - 1 && s[pos] == b {
            return Some(table[i].0);
        }
        i += 1;
    }
    None
}

/// Decodes the bytes that followed an escape byte. A sequence of the table
/// wins at the first position where its last byte is read at its last index;
/// after `ESC_READ_BUDGET` bytes with no winner the result is `Key::NA`, and
/// the bytes read are dropped. `None` means that more bytes are needed.
pub fn parse_esc_seq(body: &[u8]) -> (r: Option<(Key, usize)>)
    ensures
        r == esc_outcome(body@),
        r matches Some((_, n)) ==> 1 <= n <= ESC_READ_BUDGET,
{
    let table = esc_sequences();
    let mut pos: usize = 0;
    while pos < ESC_READ_BUDGET
        invariant
            pos <= ESC_READ_BUDGET,
            pos <= body@.len(),
            table@.len() == esc_table().len(),
            forall|i: int|
                0 <= i < table@.len() ==> (#[trigger] table@[i]).0 == esc_table()[i].0
                    && table@[i].1@ == esc_table()[i].1,
            esc_outcome(body@) == esc_outcome_from(body@, pos),
        decreases ESC_READ_BUDGET - pos,
    {
        if pos >= body.len() {
            return None;
        }
        if let Some(k) = completion_at(&table, pos, body[pos]) {
            return Some((k, pos + 1));
        }
        pos += 1;
    }
    Some((Key::NA, ESC_READ_BUDGET))
}

/// Decodes the key that the input bytes start with, and says how many bytes
/// it took; `None` means that more bytes are needed to decide.
pub fn read_key(input: &[u8]) -> (r: Option<(Key, usize)>)
    ensures
        r == key_outcome(input@),
{
    if input.len() == 0 {
        return None;
    }
    let b = input[0];
    if b == ESC {
        let body = &input[1..input.len()];
        assert(body@ =~= input@.drop_first());
        match parse_esc_seq(body) {
            Some((k, n)) => Some((k, n + 1)),
            None => None,
        }
    } else if b == 8 || b == 23 {
        Some((Key::CtrlBackspace, 1))
    } else if b == 10 {
        Some((Key::Enter, 1))
    } else if b == 127 {
        Some((Key::Backspace, 1))
    } else if b > 31 {
        Some((Key::Char(b as char), 1))
    } else {
        Some((Key::NA, 1))
    }
}

/// An escape byte and `[` followed by bytes that complete no sequence at
/// their position decode to `Key::NA`, with every byte read taken and none
/// of them turned into a character.
pub proof fn lemma_unmatched_escape(input: Seq<u8>)
    requires
        input.len() >= ESC_READ_BUDGET + 1,
        input[0] == ESC,
        input[1] == 91u8,
        forall|pos: int| 1 <= pos < ESC_READ_BUDGET ==> #[trigger] completion(pos, input[pos + 1]) is None,
    ensures
        key_outcome(input) == Some((Key::NA, (ESC_READ_BUDGET + 1) as usize)),
        forall|b: Seq<char>, p: int| #[trigger] edit(b, p, Key::NA) == (b, p),
{
    let body = input.drop_first();
    assert(completion(0, body[0]) is None) by {
        reveal_with_fuel(completion_from, 7);
    }
    assert(completion(1, body[1]) is None);
    assert(completion(2, body[2]) is None);
    assert(completion(3, body[3]) is None);
    assert(completion(4, body[4]) is None);
    assert(completion(5, body[5]) is None);
    reveal_with_fuel(esc_outcome_from, 7);
}

} // verus!
