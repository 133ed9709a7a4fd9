use vstd::prelude::*;
use crate::key::Key;

verus! {

/// The index of the last space in `b[0..p]`, or -1 when there is none.
pub open spec fn last_space_before(b: Seq<char>, p: int) -> int
    decreases p,
{
    if p <= 0 {
        -1
    } else if b[p - 1] == ' ' {
        p - 1
    } else {
        last_space_before(b, p - 1)
    }
}

/// Where the word that ends at `p` starts: just after the last space before
/// `p`, or at 0.
pub open spec fn word_start(b: Seq<char>, p: int) -> int {
    last_space_before(b, p) + 1
}

/// Where a move one word to the left from `p` lands: on the last space
/// before `p`, or at 0.
pub open spec fn word_left(b: Seq<char>, p: int) -> int {
    if last_space_before(b, p) < 0 {
        0
    } else {
        last_space_before(b, p)
    }
}

/// Where a move one word to the right from `p` lands: on the first space
/// after `p`, or at the end of `b`.
pub open spec fn word_right(b: Seq<char>, p: int) -> int
    decreases b.len() - p,
{
    if p >= b.len() {
        b.len() as int
    } else if p + 1 < b.len() && b[p + 1] == ' ' {
        p + 1
    } else {
        word_right(b, p + 1)
    }
}

/// The buffer and cursor after `key` is applied to buffer `b` with the
/// cursor at `p`. Keys that do not edit leave both as they are.
pub open spec fn edit(b: Seq<char>, p: int, key: Key) -> (Seq<char>, int) {
    match key {
        Key::Char(c) => (b.insert(p, c), p + 1),
        Key::Backspace => if p > 0 {
            (b.remove(p - 1), p - 1)
        } else {
            (b, p)
        },
        Key::ArrowLeft => if p > 0 {
            (b, p - 1)
        } else {
            (b, p)
        },
        Key::ArrowRight => if p < b.len() {
            (b, p + 1)
        } else {
            (b, p)
        },
        Key::CtrlBackspace => (
            b.subrange(0, word_start(b, p)) + b.subrange(p, b.len() as int),
            word_start(b, p),
        ),
        Key::CtrlArrowLeft => (b, word_left(b, p)),
        Key::CtrlArrowRight => (b, word_right(b, p)),
        _ => (b, p),
    }
}

fn word_start_at(buf: &Vec<char>, p: usize) -> (r: usize)
    requires
        p <= buf@.len(),
    ensures
        r == word_start(buf@, p as int),
        r <= p,
{
    let mut i: usize = p;
    while i > 0 && buf[i - 1] != ' '
        invariant
            i <= p <= buf@.len(),
            last_space_before(buf@, p as int) == last_space_before(buf@, i as int),
        decreases i,
    {
        i -= 1;
    }
    i
}

fn remove_range(buf: &mut Vec<char>, from: usize, to: usize)
    requires
        from <= to <= old(buf)@.len(),
    ensures
        final(buf)@ == old(buf)@.subrange(0, from as int) + old(buf)@.subrange(
            to as int,
            old(buf)@.len() as int,
        ),
{
    let ghost orig = buf@;
    let mut k: usize = from;
    while k < to
        invariant
            from <= k <= to <= orig.len(),
            buf@ == orig.subrange(0, from as int) + orig.subrange(k as int, orig.len() as int),
        decreases to - k,
    {
        buf.remove(from);
        k += 1;
        assert(buf@ =~= orig.subrange(0, from as int) + orig.subrange(k as int, orig.len() as int));
    }
}

/// Applies `key` to the buffer `buf` with the cursor at `*pos`, and returns
/// the key. The cursor counts characters (code points), so it always lies
/// between two characters. Space is the only word delimiter.
pub fn readch(buf: &mut Vec<char>, pos: &mut usize, key: Key) -> (r: Key)
    requires
        *old(pos) <= old(buf)@.len(),
    ensures
        r == key,
        (final(buf)@, *final(pos) as int) == edit(old(buf)@, *old(pos) as int, key),
        *final(pos) <= final(buf)@.len(),
{
    match key {
        Key::Char(ch) => {
            buf.insert(*pos, ch);
            let n = buf.len();
            assert(*pos < n);
            *pos = *pos + 1;
        },
        Key::Backspace => {
            if *pos > 0 {
                *pos = *pos - 1;
                buf.remove(*pos);
            }
        },
        Key::ArrowLeft => {
            if *pos > 0 {
                *pos = *pos - 1;
            }
        },
        Key::ArrowRight => {
            if *pos < buf.len() {
                *pos = *pos + 1;
            }
        },
        Key::CtrlBackspace => {
            let idx = word_start_at(buf, *pos);
            remove_range(buf, idx, *pos);
            *pos = idx;
        },
        Key::CtrlArrowLeft => {
            let idx = word_start_at(buf, *pos);
            *pos = if idx > 0 {
                idx - 1
            } else {
                0
            };
        },
        Key::CtrlArrowRight => {
            let ghost b = buf@;
            while *pos < buf.len()
                invariant_except_break
                    word_right(b, *old(pos) as int) == word_right(b, *pos as int),
                invariant
                    buf@ == b,
                    *pos <= b.len(),
                ensures
                    *pos as int == word_right(b, *old(pos) as int),
                decreases b.len() - *pos,
            {
                *pos = *pos + 1;
                if *pos < buf.len() && buf[*pos] == ' ' {
                    break;
                }
            }
        },
        _ => {},
    }
    key
}

/// The buffer and cursor after `keys` are applied in order to buffer `b`
/// with the cursor at `p`.
pub open spec fn edit_all(b: Seq<char>, p: int, keys: Seq<Key>) -> (Seq<char>, int)
    decreases keys.len(),
{
    if keys.len() == 0 {
        (b, p)
    } else {
        let (b1, p1) = edit_all(b, p, keys.drop_last());
        edit(b1, p1, keys.last())
    }
}

/// The characters that a sequence of character-insert keys carries, in
/// order.
pub open spec fn inserted(keys: Seq<Key>) -> Seq<char>
    decreases keys.len(),
{
    if keys.len() == 0 {
        Seq::empty()
    } else {
        inserted(keys.drop_last()).push(keys.last()->Char_0)
    }
}

/// Typing into an empty buffer with character-insert keys alone leaves
/// exactly their characters in order, with the cursor at the end.
pub proof fn lemma_typing_appends(keys: Seq<Key>)
    requires
        forall|i: int| 0 <= i < keys.len() ==> keys[i] is Char,
    ensures
        edit_all(Seq::empty(), 0, keys) == (inserted(keys), keys.len() as int),
        inserted(keys).len() == keys.len(),
    decreases keys.len(),
{
    if keys.len() > 0 {
        let rest = keys.drop_last();
        assert(forall|i: int| 0 <= i < rest.len() ==> rest[i] == keys[i]);
        lemma_typing_appends(rest);
        let t = inserted(rest);
        assert(keys.last() is Char);
        assert(t.insert(t.len() as int, keys.last()->Char_0) =~= t.push(keys.last()->Char_0));
    }
}

/// A move left followed by a move right, from any cursor position but the
/// start, gives back the same buffer and cursor.
pub proof fn lemma_left_then_right(b: Seq<char>, p: int)
    requires
        0 < p <= b.len(),
    ensures
        ({
            let (b1, p1) = edit(b, p, Key::ArrowLeft);
            edit(b1, p1, Key::ArrowRight)
        }) == (b, p),
{
}

proof fn lemma_last_space(b: Seq<char>, p: int)
    requires
        0 <= p <= b.len(),
    ensures
        -1 <= last_space_before(b, p) < p,
        last_space_before(b, p) >= 0 ==> b[last_space_before(b, p)] == ' ',
        forall|i: int| last_space_before(b, p) < i < p ==> b[i] != ' ',
    decreases p,
{
    if p > 0 {
        lemma_last_space(b, p - 1);
    }
}

/// Deleting a word backward from `p` removes exactly the longest run of
/// non-space characters that ends at `p`, and leaves the cursor where that
/// run started.
pub proof fn lemma_delete_word(b: Seq<char>, p: int)
    requires
        0 <= p <= b.len(),
    ensures
        ({
            let w = word_start(b, p);
            &&& 0 <= w <= p
            &&& forall|i: int| w <= i < p ==> b[i] != ' '
            &&& w == 0 || b[w - 1] == ' '
            &&& edit(b, p, Key::CtrlBackspace) == (b.subrange(0, w) + b.subrange(p, b.len() as int), w)
        }),
{
    lemma_last_space(b, p);
}

} // verus!
