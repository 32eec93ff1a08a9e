//! Text helpers shared by the message and command builders.

use vstd::prelude::*;
use vstd::string::*;

verus! {

/// The views of a sequence of values, element by element.
pub open spec fn views<T: View>(items: Seq<T>) -> Seq<T::V> {
    items.map_values(|item: T| item@)
}

/// The views of two sequences written one after the other are the views
/// of the sequences, written one after the other.
pub proof fn views_of_concat<T: View>(first: Seq<T>, second: Seq<T>)
    ensures
        views(first + second) == views(first) + views(second),
{
    assert(views(first + second) =~= views(first) + views(second));
}

/// The views of a sequence with one more value at its end.
pub proof fn views_of_push<T: View>(items: Seq<T>, item: T)
    ensures
        views(items.push(item)) == views(items).push(item@),
{
    assert(views(items.push(item)) =~= views(items).push(item@));
}

/// The character that writes the decimal digit `d`.
pub open spec fn digit_char(d: nat) -> char {
    if d == 0 {
        '0'
    } else if d == 1 {
        '1'
    } else if d == 2 {
        '2'
    } else if d == 3 {
        '3'
    } else if d == 4 {
        '4'
    } else if d == 5 {
        '5'
    } else if d == 6 {
        '6'
    } else if d == 7 {
        '7'
    } else if d == 8 {
        '8'
    } else {
        '9'
    }
}

/// The decimal notation of `n`, without sign or leading zeros.
pub open spec fn decimal(n: nat) -> Seq<char>
    decreases n,
{
    if n < 10 {
        seq![digit_char(n)]
    } else {
        decimal(n / 10).push(digit_char(n % 10))
    }
}

/// The parts written one after another with `separator` between neighbours.
pub open spec fn joined(parts: Seq<Seq<char>>, separator: Seq<char>) -> Seq<char>
    decreases parts.len(),
{
    if parts.len() == 0 {
        Seq::empty()
    } else if parts.len() == 1 {
        parts[0]
    } else {
        joined(parts.drop_last(), separator) + separator + parts.last()
    }
}

fn digit_text(d: u64) -> (text: &'static str)
    requires
        d < 10,
    ensures
        text@ == seq![digit_char(d as nat)],
{
    proof {
        reveal_strlit("0");
        reveal_strlit("1");
        reveal_strlit("2");
        reveal_strlit("3");
        reveal_strlit("4");
        reveal_strlit("5");
        reveal_strlit("6");
        reveal_strlit("7");
        reveal_strlit("8");
        reveal_strlit("9");
    }
    let text = if d == 0 {
        "0"
    } else if d == 1 {
        "1"
    } else if d == 2 {
        "2"
    } else if d == 3 {
        "3"
    } else if d == 4 {
        "4"
    } else if d == 5 {
        "5"
    } else if d == 6 {
        "6"
    } else if d == 7 {
        "7"
    } else if d == 8 {
        "8"
    } else {
        "9"
    };
    assert(text@ =~= seq![digit_char(d as nat)]);
    text
}

/// Appends the decimal notation of `n` to `out`.
pub fn push_decimal(out: &mut String, n: u64)
    ensures
        final(out)@ == old(out)@ + decimal(n as nat),
    decreases n,
{
    if n >= 10 {
        push_decimal(out, n / 10);
    }
    out.append(digit_text(n % 10));
    assert(out@ =~= old(out)@ + decimal(n as nat));
}

/// The decimal notation of `n` as a string.
pub fn decimal_string(n: u64) -> (text: String)
    ensures
        text@ == decimal(n as nat),
{
    let mut text = String::new();
    push_decimal(&mut text, n);
    assert(text@ =~= decimal(n as nat));
    text
}

/// `first` followed by `second`.
pub fn chain(first: &str, second: &str) -> (text: String)
    ensures
        text@ == first@ + second@,
{
    let mut text = String::from_str(first);
    text.append(second);
    text
}

/// The strings of `parts` written one after another with `separator`
/// between neighbours; the empty string when there are none.
pub fn join(parts: &Vec<String>, separator: &str) -> (text: String)
    ensures
        text@ == joined(views(parts@), separator@),
{
    let mut text = String::new();
    let mut i: usize = 0;
    while i < parts.len()
        invariant
            i <= parts.len(),
            text@ == joined(views(parts@).take(i as int), separator@),
        decreases parts.len() - i,
    {
        let ghost before = views(parts@).take(i as int);
        let ghost after = views(parts@).take(i + 1);
        assert(after.drop_last() =~= before);
        assert(after.last() == parts@[i as int]@);
        if i > 0 {
            text.append(separator);
        }
        text.append(parts[i].as_str());
        assert(text@ =~= joined(after, separator@)) by {
            if i == 0 {
                assert(before =~= Seq::<Seq<char>>::empty());
            }
        }
        i += 1;
    }
    assert(views(parts@).take(parts.len() as int) =~= views(parts@));
    text
}

/// The lowercase form of a text, as `str::to_lowercase` of the standard
/// library gives it.
pub uninterp spec fn lowercased(text: Seq<char>) -> Seq<char>;

/// Calls `str::to_lowercase`, which maps each character by the Unicode
/// lowercase rules. Its result depends on the text alone; the contract
/// gives that result its name and claims nothing more of it.
#[verifier::external_body]
pub(crate) fn lowercase(text: &str) -> (lower: String)
    ensures
        lower@ == lowercased(text@),
{
    text.to_lowercase()
}

/// Whether `c` is white space: one of the characters that have the
/// Unicode property `White_Space`.
pub open spec fn is_white_space(c: char) -> bool {
    let n = c as u32;
    ||| 0x09 <= n <= 0x0D
    ||| n == 0x20
    ||| n == 0x85
    ||| n == 0xA0
    ||| n == 0x1680
    ||| 0x2000 <= n <= 0x200A
    ||| n == 0x2028
    ||| n == 0x2029
    ||| n == 0x202F
    ||| n == 0x205F
    ||| n == 0x3000
}

/// Whether `c` is white space.
pub fn white_space(c: char) -> (white: bool)
    ensures
        white == is_white_space(c),
{
    let n: u32 = c as u32;
    (0x09 <= n && n <= 0x0D) || n == 0x20 || n == 0x85 || n == 0xA0 || n == 0x1680 || (0x2000 <= n
        && n <= 0x200A) || n == 0x2028 || n == 0x2029 || n == 0x202F || n == 0x205F || n == 0x3000
}

/// A text without the white space at its start.
pub open spec fn trimmed_start(text: Seq<char>) -> Seq<char>
    decreases text.len(),
{
    if text.len() > 0 && is_white_space(text[0]) {
        trimmed_start(text.drop_first())
    } else {
        text
    }
}

/// A text without the white space at its end.
pub open spec fn trimmed_end(text: Seq<char>) -> Seq<char>
    decreases text.len(),
{
    if text.len() > 0 && is_white_space(text.last()) {
        trimmed_end(text.drop_last())
    } else {
        text
    }
}

/// A text without the white space at its start and at its end.
pub open spec fn trimmed(text: Seq<char>) -> Seq<char> {
    trimmed_end(trimmed_start(text))
}

proof fn trimmed_start_at(text: Seq<char>, start: int)
    requires
        0 <= start <= text.len(),
        forall|j: int| 0 <= j < start ==> is_white_space(text[j]),
        start < text.len() ==> !is_white_space(text[start]),
    ensures
        trimmed_start(text) == text.skip(start),
    decreases text.len(),
{
    if start == 0 {
        assert(text.skip(0) =~= text);
    } else {
        let rest = text.drop_first();
        assert(is_white_space(text[0]));
        assert forall|j: int| 0 <= j < start - 1 implies is_white_space(rest[j]) by {
            assert(rest[j] == text[j + 1]);
        }
        trimmed_start_at(rest, start - 1);
        assert(rest.skip(start - 1) =~= text.skip(start));
    }
}

proof fn trimmed_end_at(text: Seq<char>, end: int)
    requires
        0 <= end <= text.len(),
        forall|j: int| end <= j < text.len() ==> is_white_space(text[j]),
        end > 0 ==> !is_white_space(text[end - 1]),
    ensures
        trimmed_end(text) == text.take(end),
    decreases text.len(),
{
    if end == text.len() {
        assert(text.take(end) =~= text);
    } else {
        let rest = text.drop_last();
        assert(is_white_space(text.last()));
        trimmed_end_at(rest, end);
        assert(rest.take(end) =~= text.take(end));
    }
}

/// The text without the white space at its start and at its end.
pub fn trim(text: &str) -> (inner: &str)
    ensures
        inner@ == trimmed(text@),
{
    let length = text.unicode_len();
    let mut start: usize = 0;
    while start < length && white_space(text.get_char(start))
        invariant
            start <= length,
            length == text@.len(),
            forall|j: int| 0 <= j < start ==> is_white_space(text@[j]),
        decreases length - start,
    {
        start += 1;
    }
    let mut end: usize = length;
    while end > start && white_space(text.get_char(end - 1))
        invariant
            start <= end <= length,
            length == text@.len(),
            forall|j: int| end <= j < length ==> is_white_space(text@[j]),
        decreases end,
    {
        end -= 1;
    }
    proof {
        trimmed_start_at(text@, start as int);
        let rest = text@.skip(start as int);
        assert forall|j: int| end - start <= j < rest.len() implies is_white_space(rest[j]) by {
            assert(rest[j] == text@[j + start]);
        }
        if end > start {
            assert(rest[end - start - 1] == text@[end - 1]);
        }
        trimmed_end_at(rest, end - start);
        assert(rest.take(end - start) =~= text@.subrange(start as int, end as int));
    }
    text.substring_char(start, end)
}

/// Whether `text` begins with `prefix`.
pub open spec fn starts_with(text: Seq<char>, prefix: Seq<char>) -> bool {
    prefix.len() <= text.len() && text.take(prefix.len() as int) == prefix
}

/// `text` with `between` before its first character, between every two
/// neighbours, and after its last character.
pub open spec fn interleaved(text: Seq<char>, between: Seq<char>) -> Seq<char>
    decreases text.len(),
{
    if text.len() == 0 {
        between
    } else {
        between + seq![text[0]] + interleaved(text.drop_first(), between)
    }
}

/// `text` in which every occurrence of `from` is replaced by `to`. The
/// occurrences are found from left to right and do not overlap. An empty
/// `from` occurs before every character and at the end.
pub open spec fn replaced(text: Seq<char>, from: Seq<char>, to: Seq<char>) -> Seq<char>
    decreases text.len(),
{
    if from.len() == 0 {
        interleaved(text, to)
    } else if text.len() == 0 {
        Seq::empty()
    } else if starts_with(text, from) {
        to + replaced(text.skip(from.len() as int), from, to)
    } else {
        seq![text[0]] + replaced(text.drop_first(), from, to)
    }
}

/// Whether `from`, which has `width` characters, occurs in `text`, which
/// has `length` characters, at the index `at`.
fn occurs_at(text: &str, length: usize, from: &str, width: usize, at: usize) -> (occurs: bool)
    requires
        length == text@.len(),
        width == from@.len(),
        at <= length,
    ensures
        occurs == starts_with(text@.skip(at as int), from@),
{
    if width > length - at {
        return false;
    }
    let ghost rest = text@.skip(at as int);
    let mut j: usize = 0;
    while j < width
        invariant
            j <= width,
            width <= length - at,
            length == text@.len(),
            width == from@.len(),
            rest == text@.skip(at as int),
            forall|k: int| 0 <= k < j ==> rest[k] == from@[k],
        decreases width - j,
    {
        if text.get_char(at + j) != from.get_char(j) {
            assert(rest[j as int] == text@[at + j]);
            assert(rest.take(width as int)[j as int] != from@[j as int]);
            return false;
        }
        assert(rest[j as int] == text@[at + j]);
        j += 1;
    }
    assert(rest.take(width as int) =~= from@);
    true
}

/// The text in which every occurrence of `from` is replaced by `to`.
pub fn replace(text: &str, from: &str, to: &str) -> (changed: String)
    ensures
        changed@ == replaced(text@, from@, to@),
{
    let length = text.unicode_len();
    let width = from.unicode_len();
    let mut changed = String::new();
    let mut at: usize = 0;
    assert(text@.skip(0) =~= text@);
    while at < length
        invariant
            at <= length,
            length == text@.len(),
            width == from@.len(),
            changed@ + replaced(text@.skip(at as int), from@, to@) == replaced(
                text@,
                from@,
                to@,
            ),
        decreases length - at,
    {
        let ghost rest = text@.skip(at as int);
        let ghost before = changed@;
        assert(rest.len() > 0);
        assert(rest[0] == text@[at as int]);
        if width == 0 {
            changed.append(to);
            changed.append(text.substring_char(at, at + 1));
            assert(text@.subrange(at as int, at + 1) =~= seq![rest[0]]);
            assert(rest.drop_first() =~= text@.skip(at + 1));
            assert(changed@ + interleaved(rest.drop_first(), to@) =~= before + (to@ + seq![
                rest[0],
            ] + interleaved(rest.drop_first(), to@)));
            at += 1;
        } else if occurs_at(text, length, from, width, at) {
            changed.append(to);
            assert(rest.skip(width as int) =~= text@.skip(at + width));
            assert(changed@ + replaced(rest.skip(width as int), from@, to@) =~= before + (to@
                + replaced(rest.skip(width as int), from@, to@)));
            at += width;
        } else {
            changed.append(text.substring_char(at, at + 1));
            assert(text@.subrange(at as int, at + 1) =~= seq![rest[0]]);
            assert(rest.drop_first() =~= text@.skip(at + 1));
            assert(changed@ + replaced(rest.drop_first(), from@, to@) =~= before + (seq![rest[0]]
                + replaced(rest.drop_first(), from@, to@)));
            at += 1;
        }
    }
    let ghost done = changed@;
    assert(text@.skip(length as int) =~= Seq::<char>::empty());
    if width == 0 {
        changed.append(to);
        assert(changed@ =~= done + interleaved(Seq::<char>::empty(), to@));
    } else {
        assert(changed@ =~= done + replaced(Seq::<char>::empty(), from@, to@));
    }
    changed
}

/// The part of `text` before the first `mark`; all of it where there is
/// none.
pub open spec fn before(text: Seq<char>, mark: char) -> Seq<char>
    decreases text.len(),
{
    if text.len() == 0 || text[0] == mark {
        Seq::empty()
    } else {
        seq![text[0]] + before(text.drop_first(), mark)
    }
}

/// The part of `text` after the first `mark`; nothing where there is
/// none.
pub open spec fn after(text: Seq<char>, mark: char) -> Seq<char>
    decreases text.len(),
{
    if text.len() == 0 {
        Seq::empty()
    } else if text[0] == mark {
        text.drop_first()
    } else {
        after(text.drop_first(), mark)
    }
}

proof fn split_at_first_mark(text: Seq<char>, mark: char, at: int)
    requires
        0 <= at <= text.len(),
        forall|j: int| 0 <= j < at ==> text[j] != mark,
        at < text.len() ==> text[at] == mark,
    ensures
        before(text, mark) == text.take(at),
        after(text, mark) == if at < text.len() {
            text.skip(at + 1)
        } else {
            Seq::empty()
        },
        text.contains(mark) == (at < text.len()),
    decreases text.len(),
{
    if text.len() == 0 {
        assert(text.take(at) =~= Seq::<char>::empty());
        assert(!text.contains(mark));
    } else if at == 0 {
        assert(text.take(0) =~= Seq::<char>::empty());
        assert(text.drop_first() =~= text.skip(1));
        assert(text[0] == mark);
    } else {
        let rest = text.drop_first();
        assert forall|j: int| 0 <= j < at - 1 implies rest[j] != mark by {
            assert(rest[j] == text[j + 1]);
        }
        split_at_first_mark(rest, mark, at - 1);
        assert(seq![text[0]] + rest.take(at - 1) =~= text.take(at));
        if at < text.len() {
            assert(rest.skip(at) =~= text.skip(at + 1));
            assert(text[at] == mark);
        } else {
            assert(!rest.contains(mark));
            if text.contains(mark) {
                let j = choose|j: int| 0 <= j < text.len() && text[j] == mark;
                assert(rest[j - 1] == mark);
            }
        }
    }
}

/// Splits `text` at its first `mark`: the part before it, and the part
/// after it where there is one.
pub fn split_once(text: &str, mark: char) -> (parts: (&str, Option<&str>))
    ensures
        parts.0@ == before(text@, mark),
        match parts.1 {
            Some(rest) => text@.contains(mark) && rest@ == after(text@, mark),
            None => !text@.contains(mark),
        },
{
    let length = text.unicode_len();
    let mut at: usize = 0;
    while at < length && text.get_char(at) != mark
        invariant
            at <= length,
            length == text@.len(),
            forall|j: int| 0 <= j < at ==> text@[j] != mark,
        decreases length - at,
    {
        at += 1;
    }
    proof {
        split_at_first_mark(text@, mark, at as int);
    }
    let head = text.substring_char(0, at);
    assert(text@.subrange(0, at as int) =~= text@.take(at as int));
    if at < length {
        let rest = text.substring_char(at + 1, length);
        assert(text@.subrange(at + 1, length as int) =~= text@.skip(at + 1));
        (head, Some(rest))
    } else {
        (head, None)
    }
}

/// The decimal notation of `n`, with a minus sign before it where `n` is
/// negative.
pub open spec fn signed_decimal(n: int) -> Seq<char> {
    if n < 0 {
        "-"@ + decimal((-n) as nat)
    } else {
        decimal(n as nat)
    }
}

/// Appends the decimal notation of `n` to `out`.
pub fn push_signed_decimal(out: &mut String, n: i64)
    ensures
        final(out)@ == old(out)@ + signed_decimal(n as int),
{
    if n < 0 {
        out.append("-");
        let magnitude: u64 = (-(n + 1)) as u64 + 1;
        push_decimal(out, magnitude);
        assert(out@ =~= old(out)@ + signed_decimal(n as int));
    } else {
        push_decimal(out, n as u64);
    }
}

/// Whether the two strings hold the same characters.
pub fn same_text(first: &str, second: &str) -> (same: bool)
    ensures
        same == (first@ == second@),
{
    let a = String::from_str(first);
    let b = String::from_str(second);
    a == b
}

} // verus!
