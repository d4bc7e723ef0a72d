//! Building text: characters, decimal numbers, padding and lines.

use vstd::prelude::*;
use vstd::string::StringExecFns;

verus! {

/// `String::push` puts one character at the end of the string and leaves
/// the rest as it was.
pub assume_specification[ String::push ](s: &mut String, c: char)
    ensures
        final(s)@ == old(s)@.push(c),
;

/// The character `c`, `count` times.
pub open spec fn repeated(c: char, count: nat) -> Seq<char> {
    Seq::new(count, |i: int| c)
}

/// The decimal digit that stands for `d`, for `d` below ten.
pub open spec fn digit(d: nat) -> char {
    if d == 0 {
        '0'
    } else if d == 1 {
        '1'
    } else if d == 2 {
        '2'
    } else if d == 3 {
        '3'
    } else if d == 4 {
        '4'
    } else if d == 5 {
        '5'
    } else if d == 6 {
        '6'
    } else if d == 7 {
        '7'
    } else if d == 8 {
        '8'
    } else {
        '9'
    }
}

/// The decimal numeral of `n`, without sign or leading zeros.
pub open spec fn decimal(n: nat) -> Seq<char>
    decreases n,
{
    if n < 10 {
        seq![digit(n)]
    } else {
        decimal(n / 10).push(digit(n % 10))
    }
}

/// `text` moved to the right edge of a field of `width` characters: spaces
/// fill the field on the left, and a text longer than the field is kept whole.
pub open spec fn right_aligned(text: Seq<char>, width: nat) -> Seq<char> {
    if text.len() < width {
        repeated(' ', (width - text.len()) as nat) + text
    } else {
        text
    }
}

/// The pieces of `s` between its newline characters, in order. There is
/// always at least one piece, and a newline at the end leaves an empty last
/// piece.
pub open spec fn split_lines(s: Seq<char>) -> Seq<Seq<char>>
    decreases s.len(),
{
    if s.len() == 0 {
        seq![Seq::<char>::empty()]
    } else {
        let before = split_lines(s.drop_last());
        if s.last() == '\n' {
            before.push(Seq::<char>::empty())
        } else {
            before.update(before.len() - 1, before.last().push(s.last()))
        }
    }
}

/// The lines of a text: the pieces between its newlines, but for an empty
/// piece behind the last newline, which is no line. So a text that ends in
/// a newline has as many lines as newlines, and the empty text has none.
pub open spec fn source_lines(s: Seq<char>) -> Seq<Seq<char>> {
    let pieces = split_lines(s);
    if pieces.last().len() == 0 {
        pieces.drop_last()
    } else {
        pieces
    }
}

/// A newline at the end of a text adds no line to it.
pub proof fn lemma_final_newline_adds_no_line(s: Seq<char>)
    requires
        s.len() > 0,
        s.last() != '\n',
    ensures
        source_lines(s.push('\n')) == source_lines(s),
{
    let longer = s.push('\n');
    lemma_lines_nonempty(s.drop_last());
    assert(longer.drop_last() == s);
    assert(split_lines(longer) == split_lines(s).push(Seq::<char>::empty()));
    assert(split_lines(longer).drop_last() =~= split_lines(s));
    assert(split_lines(s).last().len() > 0);
}

/// The empty text has no line.
pub proof fn lemma_empty_text_has_no_line()
    ensures
        source_lines(Seq::<char>::empty()).len() == 0,
{
}

/// The lines put together again, with a newline between each two.
pub open spec fn join_lines(lines: Seq<Seq<char>>) -> Seq<char>
    decreases lines.len(),
{
    if lines.len() == 0 {
        Seq::<char>::empty()
    } else if lines.len() == 1 {
        lines[0]
    } else {
        join_lines(lines.drop_last()).push('\n') + lines.last()
    }
}

/// No line of a text holds a newline.
pub proof fn lemma_lines_hold_no_newline(s: Seq<char>)
    ensures
        forall|k: int, i: int|
            0 <= k < split_lines(s).len() && 0 <= i < split_lines(s)[k].len() ==> split_lines(
                s,
            )[k][i] != '\n',
    decreases s.len(),
{
    if s.len() > 0 {
        lemma_lines_hold_no_newline(s.drop_last());
        lemma_lines_nonempty(s.drop_last());
    }
}

/// The lines of a text, put together again with newlines between them,
/// are the text.
pub proof fn lemma_lines_join_back(s: Seq<char>)
    ensures
        join_lines(split_lines(s)) == s,
    decreases s.len(),
{
    if s.len() == 0 {
        assert(split_lines(s)[0] =~= s);
    } else {
        let before = split_lines(s.drop_last());
        let lines = split_lines(s);
        lemma_lines_join_back(s.drop_last());
        lemma_lines_nonempty(s.drop_last());
        if s.last() == '\n' {
            assert(lines.drop_last() =~= before);
            assert(join_lines(lines) =~= s);
        } else if before.len() == 1 {
            assert(join_lines(lines) =~= s);
        } else {
            let head = join_lines(before.drop_last()).push('\n');
            assert(lines.drop_last() =~= before.drop_last());
            assert(lines.last() == before.last().push(s.last()));
            assert(join_lines(before) == head + before.last());
            assert(join_lines(lines) == head + before.last().push(s.last()));
            assert(head + before.last().push(s.last()) =~= (head + before.last()).push(s.last()));
            assert(s.drop_last().push(s.last()) =~= s);
        }
    }
}

/// The characters of `s`, one by one.
pub fn chars_of(s: &str) -> (v: Vec<char>)
    ensures
        v@ == s@,
{
    let mut v: Vec<char> = Vec::new();
    for c in it: s.chars()
        invariant
            it.seq() == s@,
            v@ == s@.take(it.index() as int),
    {
        v.push(c);
        assert(s@.take(it.index() + 1) == s@.take(it.index() as int).push(c));
    }
    assert(s@.take(s@.len() as int) == s@);
    v
}

/// Appends the characters of `chars` from `from` up to, not including, `to`.
pub(crate) fn push_range(out: &mut String, chars: &Vec<char>, from: usize, to: usize)
    requires
        from <= to <= chars.len(),
    ensures
        final(out)@ == old(out)@ + chars@.subrange(from as int, to as int),
{
    let mut i: usize = from;
    while i < to
        invariant
            from <= i <= to <= chars.len(),
            out@ == old(out)@ + chars@.subrange(from as int, i as int),
        decreases to - i,
    {
        out.push(chars[i]);
        assert(chars@.subrange(from as int, i + 1) == chars@.subrange(from as int, i as int).push(
            chars@[i as int],
        ));
        i = i + 1;
    }
}

/// Appends `c` to `out`, `count` times.
pub fn push_repeated(out: &mut String, c: char, count: usize)
    ensures
        final(out)@ == old(out)@ + repeated(c, count as nat),
{
    let mut i: usize = 0;
    while i < count
        invariant
            i <= count,
            out@ == old(out)@ + repeated(c, i as nat),
        decreases count - i,
    {
        out.push(c);
        assert(repeated(c, (i + 1) as nat) == repeated(c, i as nat).push(c));
        i = i + 1;
    }
}

/// The decimal digit of `d`.
fn digit_of(d: u128) -> (c: char)
    requires
        d < 10,
    ensures
        c == digit(d as nat),
{
    if d == 0 {
        '0'
    } else if d == 1 {
        '1'
    } else if d == 2 {
        '2'
    } else if d == 3 {
        '3'
    } else if d == 4 {
        '4'
    } else if d == 5 {
        '5'
    } else if d == 6 {
        '6'
    } else if d == 7 {
        '7'
    } else if d == 8 {
        '8'
    } else {
        '9'
    }
}

/// The decimal numeral of `n`, as characters.
pub fn decimal_text(n: u128) -> (v: Vec<char>)
    ensures
        v@ == decimal(n as nat),
    decreases n,
{
    if n >= 10 {
        let mut v = decimal_text(n / 10);
        v.push(digit_of(n % 10));
        v
    } else {
        let mut v: Vec<char> = Vec::new();
        v.push(digit_of(n));
        assert(v@ == seq![digit(n as nat)]);
        v
    }
}

/// Appends `text`, moved to the right edge of a field of `width` characters.
pub fn push_right_aligned(out: &mut String, text: &Vec<char>, width: usize)
    ensures
        final(out)@ == old(out)@ + right_aligned(text@, width as nat),
{
    if text.len() < width {
        push_repeated(out, ' ', width - text.len());
    }
    push_range(out, text, 0, text.len());
    assert(text@.subrange(0, text@.len() as int) == text@);
    assert(final(out)@ == old(out)@ + right_aligned(text@, width as nat)) by {
        if text@.len() < width {
            let pad = repeated(' ', (width - text@.len()) as nat);
            assert((old(out)@ + pad) + text@ == old(out)@ + (pad + text@));
        }
    }
}

/// Where piece number `index + 1` of `chars` lies, of the pieces between
/// its newlines: the position of its first character and the position just
/// behind its last. `None` where the text has no such piece. The last piece
/// is the one that ends where the text ends.
pub fn line_at(chars: &Vec<char>, index: usize) -> (r: Option<(usize, usize)>)
    ensures
        r is Some <==> index < split_lines(chars@).len(),
        r matches Some((from, to)) ==> from <= to <= chars.len() && chars@.subrange(
            from as int,
            to as int,
        ) == split_lines(chars@)[index as int] && (to == chars.len() <==> index + 1
            == split_lines(chars@).len()),
{
    let mut i: usize = 0;
    let mut current: usize = 0;
    let mut from: usize = 0;
    while i < chars.len()
        invariant
            i <= chars.len(),
            from <= i,
            current <= index,
            split_lines(chars@.take(i as int)).len() == current + 1,
            split_lines(chars@.take(i as int)).last() == chars@.subrange(from as int, i as int),
        decreases chars.len() - i,
    {
        proof {
            let before = chars@.take(i as int);
            let after = chars@.take(i + 1);
            assert(after.drop_last() == before);
            assert(after.last() == chars@[i as int]);
            assert(chars@.subrange(from as int, i + 1) == chars@.subrange(
                from as int,
                i as int,
            ).push(chars@[i as int]));
        }
        if chars[i] == '\n' {
            if current == index {
                proof {
                    lemma_lines_of_prefix(chars@, i as int);
                }
                return Some((from, i));
            }
            current = current + 1;
            from = i + 1;
            assert(chars@.subrange(from as int, from as int) == Seq::<char>::empty());
        }
        i = i + 1;
    }
    assert(chars@.take(i as int) == chars@);
    if current == index {
        Some((from, i))
    } else {
        None
    }
}

/// Where line number `index + 1` of `chars` lies: the position of its first
/// character and the position just behind its last. `None` where the text
/// has no such line.
pub fn source_line_at(chars: &Vec<char>, index: usize) -> (r: Option<(usize, usize)>)
    ensures
        r is Some <==> index < source_lines(chars@).len(),
        r matches Some((from, to)) ==> from <= to <= chars.len() && chars@.subrange(
            from as int,
            to as int,
        ) == source_lines(chars@)[index as int],
{
    proof {
        lemma_lines_nonempty(chars@);
    }
    match line_at(chars, index) {
        Some((from, to)) => {
            if from == to && to == chars.len() {
                None
            } else {
                Some((from, to))
            }
        },
        None => None,
    }
}

/// Every line of a prefix but its last is a line of the whole text, at the
/// same place; so is the last, where a newline follows the prefix.
pub proof fn lemma_lines_of_prefix(s: Seq<char>, n: int)
    requires
        0 <= n <= s.len(),
    ensures
        1 <= split_lines(s.take(n)).len() <= split_lines(s).len(),
        forall|k: int|
            0 <= k < split_lines(s.take(n)).len() - 1 ==> split_lines(s)[k] == split_lines(
                s.take(n),
            )[k],
        n < s.len() && s[n] == '\n' ==> split_lines(s)[split_lines(s.take(n)).len() - 1]
            == split_lines(s.take(n)).last() && split_lines(s.take(n)).len() < split_lines(s).len(),
    decreases s.len() - n,
{
    lemma_lines_nonempty(s.take(n));
    if n == s.len() {
        assert(s.take(n) == s);
    } else {
        let shorter = s.drop_last();
        assert(shorter.take(n) == s.take(n));
        lemma_lines_of_prefix(shorter, n);
        if n == shorter.len() {
            assert(shorter.take(n) == shorter);
        }
    }
}

/// A text has at least one line.
pub proof fn lemma_lines_nonempty(s: Seq<char>)
    ensures
        split_lines(s).len() >= 1,
    decreases s.len(),
{
    if s.len() > 0 {
        lemma_lines_nonempty(s.drop_last());
    }
}

} // verus!
