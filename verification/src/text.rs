//! Text as sequences of characters: splitting, joining, numbers in decimal
//! and hexadecimal. Contracts speak of `Seq<char>`, the view of `str`.

use vstd::prelude::*;

verus! {

/// The characters of an optional text.
pub open spec fn opt_text(o: Option<String>) -> Option<Seq<char>> {
    match o {
        Some(s) => Some(s@),
        None => None,
    }
}

/// The texts of a list, as sequences of characters.
pub open spec fn texts_view(texts: Seq<String>) -> Seq<Seq<char>> {
    Seq::new(texts.len(), |k: int| texts[k]@)
}

/// The character that stands for the digit `d` in bases up to sixteen.
pub open spec fn digit_char(d: int) -> char {
    if d == 0 {
        '0'
    } else if d == 1 {
        '1'
    } else if d == 2 {
        '2'
    } else if d == 3 {
        '3'
    } else if d == 4 {
        '4'
    } else if d == 5 {
        '5'
    } else if d == 6 {
        '6'
    } else if d == 7 {
        '7'
    } else if d == 8 {
        '8'
    } else if d == 9 {
        '9'
    } else if d == 10 {
        'a'
    } else if d == 11 {
        'b'
    } else if d == 12 {
        'c'
    } else if d == 13 {
        'd'
    } else if d == 14 {
        'e'
    } else {
        'f'
    }
}

/// Whether `c` is one of the ten ASCII digits.
pub open spec fn is_digit(c: char) -> bool {
    '0' <= c && c <= '9'
}

/// The value of the ASCII digit `c`.
pub open spec fn digit_value(c: char) -> int {
    c as int - '0' as int
}

/// `n` in decimal, without sign and without leading zeros.
pub open spec fn decimal(n: nat) -> Seq<char>
    decreases n,
{
    if n < 10 {
        seq![digit_char(n as int)]
    } else {
        decimal(n / 10).push(digit_char((n % 10) as int))
    }
}

/// `n` in decimal, with a leading `-` when it is negative.
pub open spec fn signed_decimal(n: int) -> Seq<char> {
    if n < 0 {
        seq!['-'] + decimal((-n) as nat)
    } else {
        decimal(n as nat)
    }
}

/// The last `width` digits of `n` in the given base, most significant
/// first, with zeros where `n` has fewer digits.
pub open spec fn fixed_width(n: nat, base: nat, width: nat) -> Seq<char>
    decreases width,
{
    if width == 0 || base == 0 {
        Seq::<char>::empty()
    } else {
        fixed_width(n / base, base, (width - 1) as nat).push(digit_char((n % base) as int))
    }
}

/// Whether `c` is a digit of base sixteen, in lower case.
pub open spec fn is_hex_digit(c: char) -> bool {
    ('0' <= c && c <= '9') || ('a' <= c && c <= 'f')
}

/// Whether every character of `s` is a lower-case digit of base sixteen.
pub open spec fn all_hex_digits(s: Seq<char>) -> bool {
    forall|i: int| 0 <= i < s.len() ==> is_hex_digit(#[trigger] s[i])
}

/// A number written at a fixed width has that many characters.
pub proof fn lemma_fixed_width_len(n: nat, base: nat, width: nat)
    requires
        base > 0,
    ensures
        fixed_width(n, base, width).len() == width,
    decreases width,
{
    if width > 0 {
        lemma_fixed_width_len(n / base, base, (width - 1) as nat);
    }
}

/// A number written at a fixed width in base ten is all digits.
pub proof fn lemma_fixed_width_decimal(n: nat, width: nat)
    ensures
        all_digits(fixed_width(n, 10, width)),
    decreases width,
{
    if width > 0 {
        lemma_fixed_width_decimal(n / 10, (width - 1) as nat);
    }
}

/// A number written at a fixed width in base sixteen is all digits of that
/// base.
pub proof fn lemma_fixed_width_hex(n: nat, width: nat)
    ensures
        all_hex_digits(fixed_width(n, 16, width)),
    decreases width,
{
    if width > 0 {
        lemma_fixed_width_hex(n / 16, (width - 1) as nat);
    }
}

/// The characters of a string, in order.
pub fn chars_of(s: &str) -> (out: Vec<char>)
    ensures
        out@ == s@,
{
    let mut out: Vec<char> = Vec::new();
    for c in it: s.chars()
        invariant
            it.seq() == s@,
            out@ == s@.take(it.index() as int),
    {
        out.push(c);
        assert(out@ =~= s@.take(it.index() + 1));
    }
    assert(s@.take(s@.len() as int) =~= s@);
    out
}

/// The one-character string of a digit below sixteen.
pub(crate) fn digit_str(d: u8) -> (s: &'static str)
    requires
        d < 16,
    ensures
        s@ == seq![digit_char(d as int)],
{
    proof {
        reveal_strlit("0");
        reveal_strlit("1");
        reveal_strlit("2");
        reveal_strlit("3");
        reveal_strlit("4");
        reveal_strlit("5");
        reveal_strlit("6");
        reveal_strlit("7");
        reveal_strlit("8");
        reveal_strlit("9");
        reveal_strlit("a");
        reveal_strlit("b");
        reveal_strlit("c");
        reveal_strlit("d");
        reveal_strlit("e");
        reveal_strlit("f");
    }
    let s = match d {
        0 => "0",
        1 => "1",
        2 => "2",
        3 => "3",
        4 => "4",
        5 => "5",
        6 => "6",
        7 => "7",
        8 => "8",
        9 => "9",
        10 => "a",
        11 => "b",
        12 => "c",
        13 => "d",
        14 => "e",
        _ => "f",
    };
    assert(s@ =~= seq![digit_char(d as int)]);
    s
}

/// Appends `n` in decimal to `out`.
pub fn push_decimal(out: &mut String, n: u64)
    ensures
        final(out)@ == old(out)@ + decimal(n as nat),
    decreases n,
{
    if n >= 10 {
        push_decimal(out, n / 10);
    }
    let d: u8 = (n % 10) as u8;
    out.append(digit_str(d));
    assert(final(out)@ =~= old(out)@ + decimal(n as nat));
}

/// `n` in decimal.
pub fn decimal_string(n: u64) -> (s: String)
    ensures
        s@ == decimal(n as nat),
{
    let mut s = String::new();
    push_decimal(&mut s, n);
    assert(s@ =~= decimal(n as nat));
    s
}

/// `n` in decimal, with a leading `-` when it is negative.
pub fn signed_decimal_string(n: i32) -> (s: String)
    ensures
        s@ == signed_decimal(n as int),
{
    let mut s = String::new();
    if n < 0 {
        proof {
            reveal_strlit("-");
        }
        s.append("-");
        let m: u64 = (-(n as i64)) as u64;
        push_decimal(&mut s, m);
        assert(s@ =~= signed_decimal(n as int));
    } else {
        push_decimal(&mut s, n as u64);
        assert(s@ =~= signed_decimal(n as int));
    }
    s
}

/// Appends the last `width` digits of `n` in base ten or sixteen to `out`.
pub(crate) fn push_fixed_width(out: &mut String, n: u64, base: u64, width: u8)
    requires
        base == 10 || base == 16,
    ensures
        final(out)@ == old(out)@ + fixed_width(n as nat, base as nat, width as nat),
    decreases width,
{
    if width > 0 {
        push_fixed_width(out, n / base, base, width - 1);
        let d: u8 = (n % base) as u8;
        out.append(digit_str(d));
    }
    assert(final(out)@ =~= old(out)@ + fixed_width(n as nat, base as nat, width as nat));
}

/// Where `c` first stands in `s`; the length of `s` if it stands nowhere.
pub open spec fn first_index(s: Seq<char>, c: char) -> int
    decreases s.len(),
{
    if s.len() == 0 {
        0
    } else if s[0] == c {
        0
    } else {
        1 + first_index(s.drop_first(), c)
    }
}

/// The first place of `c` in `s` is the place before which it does not
/// stand and at which it stands or `s` ends.
pub proof fn lemma_first_index(s: Seq<char>, c: char, k: int)
    requires
        0 <= k <= s.len(),
        forall|j: int| 0 <= j < k ==> s[j] != c,
        k < s.len() ==> s[k] == c,
    ensures
        first_index(s, c) == k,
    decreases s.len(),
{
    if s.len() > 0 && s[0] != c {
        assert forall|j: int| 0 <= j < k - 1 implies s.drop_first()[j] != c by {
            assert(s.drop_first()[j] == s[j + 1]);
        }
        lemma_first_index(s.drop_first(), c, k - 1);
    }
}

/// The pieces of `s` between occurrences of `sep`, read from left to right:
/// a separator opens a new piece, any other character extends the last one.
/// There is always at least one piece, and pieces may be empty.
pub open spec fn split(s: Seq<char>, sep: char) -> Seq<Seq<char>>
    decreases s.len(),
{
    if s.len() == 0 {
        seq![Seq::<char>::empty()]
    } else {
        let before = split(s.drop_last(), sep);
        if s.last() == sep {
            before.push(Seq::<char>::empty())
        } else {
            before.drop_last().push(before.last().push(s.last()))
        }
    }
}

/// The texts of a list in a row, with `sep` between each two.
pub open spec fn joined(items: Seq<Seq<char>>, sep: char) -> Seq<char>
    decreases items.len(),
{
    if items.len() == 0 {
        Seq::empty()
    } else if items.len() == 1 {
        items[0]
    } else {
        joined(items.drop_last(), sep) + seq![sep] + items.last()
    }
}

/// A text has at least one piece, and no piece holds the separator.
pub proof fn lemma_split_pieces(s: Seq<char>, sep: char)
    ensures
        split(s, sep).len() >= 1,
        forall|k: int|
            0 <= k < split(s, sep).len() ==> !(#[trigger] split(s, sep)[k]).contains(sep),
    decreases s.len(),
{
    if s.len() > 0 {
        lemma_split_pieces(s.drop_last(), sep);
        let before = split(s.drop_last(), sep);
        let after = split(s, sep);
        assert forall|k: int| 0 <= k < after.len() implies !(#[trigger] after[k]).contains(sep) by {
            if k < before.len() - 1 {
                assert(after[k] == before[k]);
            } else if s.last() == sep {
                if k == before.len() - 1 {
                    assert(after[k] == before[k]);
                }
            } else {
                let grown = before.last().push(s.last());
                assert(after[k] == grown);
                if grown.contains(sep) {
                    let i = choose|i: int| 0 <= i < grown.len() && grown[i] == sep;
                    assert(before.last()[i] == sep);
                    assert(before.last().contains(sep));
                }
            }
        }
    }
}

/// The pieces of a text, put in a row with the separator between each two,
/// give the text back.
pub proof fn lemma_split_joins_back(s: Seq<char>, sep: char)
    ensures
        joined(split(s, sep), sep) == s,
    decreases s.len(),
{
    if s.len() == 0 {
        assert(joined(split(s, sep), sep) =~= s);
    } else {
        let t = s.drop_last();
        let before = split(t, sep);
        lemma_split_joins_back(t, sep);
        lemma_split_pieces(t, sep);
        assert(s =~= t.push(s.last()));
        if s.last() == sep {
            let after = before.push(Seq::<char>::empty());
            assert(after.drop_last() =~= before);
            assert(joined(after, sep) =~= t + seq![sep] + Seq::<char>::empty());
            assert(joined(after, sep) =~= s);
        } else {
            let grown = before.last().push(s.last());
            let after = before.drop_last().push(grown);
            assert(after.drop_last() =~= before.drop_last());
            if before.len() == 1 {
                assert(joined(after, sep) =~= joined(before, sep).push(s.last()));
            } else {
                assert(joined(after, sep) =~= (joined(before.drop_last(), sep) + seq![sep]
                    + before.last()).push(s.last()));
            }
            assert(joined(after, sep) =~= s);
        }
    }
}

/// The pieces of a text that is followed by a text without separators: the
/// last piece grows by that text.
pub proof fn lemma_split_grows(s: Seq<char>, tail: Seq<char>, sep: char)
    requires
        !tail.contains(sep),
    ensures
        split(s + tail, sep) == split(s, sep).drop_last().push(split(s, sep).last() + tail),
    decreases tail.len(),
{
    lemma_split_pieces(s, sep);
    let before = split(s, sep);
    if tail.len() == 0 {
        assert(s + tail =~= s);
        assert(before.last() + tail =~= before.last());
        assert(before.drop_last().push(before.last()) =~= before);
    } else {
        let shorter = tail.drop_last();
        assert(tail[tail.len() - 1] != sep);
        assert forall|i: int| 0 <= i < shorter.len() implies shorter[i] != sep by {
            assert(shorter[i] == tail[i]);
        }
        lemma_split_grows(s, shorter, sep);
        let whole = s + tail;
        assert(whole.drop_last() =~= s + shorter);
        assert(whole.last() == tail.last());
        let mid = split(s + shorter, sep);
        assert(mid.last() == before.last() + shorter);
        assert(mid.drop_last() =~= before.drop_last());
        assert(mid.last().push(tail.last()) =~= before.last() + tail);
    }
}

/// Texts without separators, put in a row with the separator between each
/// two, are the pieces of the row.
pub proof fn lemma_join_splits_back(items: Seq<Seq<char>>, sep: char)
    requires
        items.len() >= 1,
        forall|k: int| 0 <= k < items.len() ==> !(#[trigger] items[k]).contains(sep),
    ensures
        split(joined(items, sep), sep) == items,
    decreases items.len(),
{
    let empty = Seq::<char>::empty();
    if items.len() == 1 {
        lemma_split_grows(empty, items[0], sep);
        assert(empty + items[0] =~= items[0]);
        assert(split(empty, sep) =~= seq![empty]);
        assert(split(empty, sep).drop_last().push(empty + items[0]) =~= items);
    } else {
        let front = items.drop_last();
        assert forall|k: int| 0 <= k < front.len() implies !(#[trigger] front[k]).contains(
            sep,
        ) by {
            assert(front[k] == items[k]);
        }
        lemma_join_splits_back(front, sep);
        let row = joined(front, sep);
        let cut = row + seq![sep];
        assert(cut.drop_last() =~= row);
        assert(split(cut, sep) == front.push(empty));
        lemma_split_grows(cut, items.last(), sep);
        assert(front.push(empty).drop_last() =~= front);
        assert(empty + items.last() =~= items.last());
        assert(front.push(items.last()) =~= items);
        assert(joined(items, sep) =~= cut + items.last());
    }
}

/// The parts of `s` that the index pairs in `ranges` cut out.
pub open spec fn pieces(s: Seq<char>, ranges: Seq<(usize, usize)>) -> Seq<Seq<char>> {
    Seq::new(ranges.len(), |k: int| s.subrange(ranges[k].0 as int, ranges[k].1 as int))
}

/// Whether each pair in `ranges` is an interval inside `from..to`.
pub open spec fn ranges_within(ranges: Seq<(usize, usize)>, from: int, to: int) -> bool {
    forall|k: int|
        0 <= k < ranges.len() ==> from <= (#[trigger] ranges[k]).0 <= ranges[k].1 <= to
}

/// Splits the part `from..to` of `text` at each `sep`, giving the pieces as
/// index pairs into `text`.
pub(crate) fn split_ranges(text: &Vec<char>, from: usize, to: usize, sep: char) -> (out: Vec<
    (usize, usize),
>)
    requires
        from <= to <= text.len(),
    ensures
        pieces(text@, out@) == split(text@.subrange(from as int, to as int), sep),
        ranges_within(out@, from as int, to as int),
        out.len() >= 1,
{
    let mut out: Vec<(usize, usize)> = Vec::new();
    let mut start: usize = from;
    let mut i: usize = from;
    assert(text@.subrange(from as int, from as int) =~= Seq::<char>::empty());
    assert(pieces(text@, out@).push(Seq::<char>::empty()) =~= seq![Seq::<char>::empty()]);
    while i < to
        invariant
            from <= start <= i <= to <= text.len(),
            ranges_within(out@, from as int, to as int),
            pieces(text@, out@).push(text@.subrange(start as int, i as int)) == split(
                text@.subrange(from as int, i as int),
                sep,
            ),
        decreases to - i,
    {
        let ghost done = text@.subrange(from as int, i as int);
        let ghost next = text@.subrange(from as int, i + 1);
        let ghost old_pieces = pieces(text@, out@);
        assert(next.drop_last() =~= done);
        assert(next.last() == text@[i as int]);
        if text[i] == sep {
            out.push((start, i));
            start = i + 1;
            assert(pieces(text@, out@) =~= old_pieces.push(
                text@.subrange(out@.last().0 as int, i as int),
            ));
            assert(text@.subrange(start as int, i + 1) =~= Seq::<char>::empty());
        } else {
            let ghost before = old_pieces.push(text@.subrange(start as int, i as int));
            assert(before.drop_last() =~= old_pieces);
            assert(before.last().push(text@[i as int]) =~= text@.subrange(start as int, i + 1));
        }
        i = i + 1;
    }
    let ghost old_pieces = pieces(text@, out@);
    out.push((start, to));
    assert(pieces(text@, out@) =~= old_pieces.push(text@.subrange(start as int, to as int)));
    out
}

/// Whether the part `from..to` of `text` is `pattern`.
pub(crate) fn range_equals(
    text: &Vec<char>,
    from: usize,
    to: usize,
    pattern: &Vec<char>,
) -> (same: bool)
    requires
        from <= to <= text.len(),
    ensures
        same == (text@.subrange(from as int, to as int) == pattern@),
{
    if to - from != pattern.len() {
        return false;
    }
    let n: usize = pattern.len();
    let mut i: usize = 0;
    while i < n
        invariant
            from <= to <= text.len(),
            n == pattern.len(),
            n == to - from,
            i <= n,
            forall|j: int| 0 <= j < i ==> text@[from + j] == pattern@[j],
        decreases n - i,
    {
        if text[from + i] != pattern[i] {
            assert(text@.subrange(from as int, to as int)[i as int] != pattern@[i as int]);
            return false;
        }
        i = i + 1;
    }
    assert(text@.subrange(from as int, to as int) =~= pattern@);
    true
}

/// Whether `pattern` occurs in `s` as a run of consecutive characters.
pub open spec fn contains_text(s: Seq<char>, pattern: Seq<char>) -> bool {
    exists|i: int|
        0 <= i && i + pattern.len() <= s.len() && #[trigger] s.subrange(i, i + pattern.len())
            == pattern
}

/// Whether `pattern` occurs in `text` as a run of consecutive characters.
pub fn find_text(text: &Vec<char>, pattern: &Vec<char>) -> (found: bool)
    ensures
        found == contains_text(text@, pattern@),
{
    if pattern.len() > text.len() {
        return false;
    }
    let last: usize = text.len() - pattern.len();
    let mut i: usize = 0;
    loop
        invariant
            last == text.len() - pattern.len(),
            i <= last,
            forall|j: int|
                0 <= j < i ==> #[trigger] text@.subrange(j, j + pattern.len()) != pattern@,
        decreases last - i,
    {
        if range_equals(text, i, i + pattern.len(), pattern) {
            return true;
        }
        if i == last {
            return false;
        }
        i = i + 1;
    }
}

/// Whether every character of `s` is an ASCII digit.
pub open spec fn all_digits(s: Seq<char>) -> bool {
    forall|i: int| 0 <= i < s.len() ==> is_digit(#[trigger] s[i])
}

/// The number that the digits of `s` spell in decimal; zero for no digits.
pub open spec fn digits_value(s: Seq<char>) -> nat
    decreases s.len(),
{
    if s.len() == 0 {
        0
    } else {
        (digits_value(s.drop_last()) * 10 + digit_value(s.last())) as nat
    }
}

/// The unsigned number that `s` spells: an optional `+`, then one or more
/// ASCII digits whose value fits 64 bits. Anything else spells no number.
pub open spec fn parse_u64(s: Seq<char>) -> Option<u64> {
    let digits = if s.len() > 0 && s[0] == '+' {
        s.skip(1)
    } else {
        s
    };
    if digits.len() > 0 && all_digits(digits) && digits_value(digits) <= u64::MAX {
        Some(digits_value(digits) as u64)
    } else {
        None
    }
}

/// A number in decimal is all digits, and the digits spell the number.
pub proof fn lemma_decimal_spells(n: nat)
    ensures
        all_digits(decimal(n)),
        digits_value(decimal(n)) == n,
        decimal(n).len() >= 1,
    decreases n,
{
    let d = (n % 10) as int;
    assert(is_digit(digit_char(d)) && digit_value(digit_char(d)) == d);
    if n >= 10 {
        lemma_decimal_spells(n / 10);
        let s = decimal(n);
        assert(s.drop_last() =~= decimal(n / 10));
        assert(s.last() == digit_char(d));
    } else {
        let s = decimal(n);
        assert(s.drop_last() =~= Seq::<char>::empty());
        assert(digits_value(s.drop_last()) == 0);
    }
}

/// A number in decimal is read back as that number.
pub proof fn lemma_decimal_round_trip(n: u64)
    ensures
        parse_u64(decimal(n as nat)) == Some(n),
{
    lemma_decimal_spells(n as nat);
    let s = decimal(n as nat);
    assert(is_digit(s[0]));
}

/// A prefix of a run of digits spells no more than the whole run.
pub proof fn lemma_digits_value_grows(s: Seq<char>, i: int)
    requires
        all_digits(s),
        0 <= i <= s.len(),
    ensures
        digits_value(s.take(i)) <= digits_value(s),
    decreases s.len() - i,
{
    if i < s.len() {
        lemma_digits_value_grows(s, i + 1);
        assert(s.take(i + 1).drop_last() =~= s.take(i));
        assert(is_digit(s[i]));
        assert(s.take(i + 1).last() == s[i]);
    } else {
        assert(s.take(i) =~= s);
    }
}

/// Reads an unsigned decimal number.
pub fn parse_decimal(s: &str) -> (value: Option<u64>)
    ensures
        value == parse_u64(s@),
{
    let text = chars_of(s);
    let from: usize = if text.len() > 0 && text[0] == '+' {
        1
    } else {
        0
    };
    let ghost digits = text@.skip(from as int);
    if text.len() == from {
        return None;
    }
    let mut value: u64 = 0;
    let mut i: usize = from;
    assert(digits.take(0) =~= Seq::<char>::empty());
    assert(text@.skip(0) =~= text@);
    while i < text.len()
        invariant
            from <= i <= text.len(),
            from < text.len(),
            digits == text@.skip(from as int),
            parse_u64(s@) == (if all_digits(digits) && digits_value(digits) <= u64::MAX {
                Some(digits_value(digits) as u64)
            } else {
                None
            }),
            all_digits(digits.take(i - from)),
            value == digits_value(digits.take(i - from)),
        decreases text.len() - i,
    {
        let c: char = text[i];
        assert(c == digits[i - from]);
        if c < '0' || c > '9' {
            assert(!is_digit(digits[i - from]));
            return None;
        }
        let d: u64 = (c as u64) - ('0' as u64);
        let ghost next = digits.take(i - from + 1);
        assert(next.drop_last() =~= digits.take(i - from));
        assert(next.last() == c);
        assert(all_digits(next)) by {
            assert forall|j: int| 0 <= j < next.len() implies is_digit(#[trigger] next[j]) by {
                if j < next.len() - 1 {
                    assert(next[j] == digits.take(i - from)[j]);
                }
            }
        }
        if value > (u64::MAX - d) / 10 {
            proof {
                assert(digits_value(next) > u64::MAX);
                if all_digits(digits) {
                    lemma_digits_value_grows(digits, i - from + 1);
                }
            }
            return None;
        }
        value = value * 10 + d;
        i = i + 1;
    }
    assert(digits.take(i - from) =~= digits);
    Some(value)
}

/// Whether `a` comes before `b` in dictionary order of their characters.
pub open spec fn lex_less(a: Seq<char>, b: Seq<char>) -> bool
    decreases a.len(),
{
    if b.len() == 0 {
        false
    } else if a.len() == 0 {
        true
    } else if a[0] != b[0] {
        a[0] < b[0]
    } else {
        lex_less(a.drop_first(), b.drop_first())
    }
}

/// If `a` comes before `b`, then `b` does not come before `a`.
pub proof fn lemma_lex_less_one_way(a: Seq<char>, b: Seq<char>)
    requires
        lex_less(a, b),
    ensures
        !lex_less(b, a),
        a != b,
    decreases a.len(),
{
    if a.len() > 0 && b.len() > 0 && a[0] == b[0] {
        lemma_lex_less_one_way(a.drop_first(), b.drop_first());
        if a == b {
            assert(a.drop_first() == b.drop_first());
        }
    }
}

/// If `a` does not come before `b`, nor `b` before `c`, then `a` does not
/// come before `c`.
pub proof fn lemma_lex_not_less_chain(a: Seq<char>, b: Seq<char>, c: Seq<char>)
    requires
        !lex_less(a, b),
        !lex_less(b, c),
    ensures
        !lex_less(a, c),
    decreases a.len(),
{
    if a.len() > 0 && b.len() > 0 && c.len() > 0 && a[0] == b[0] && b[0] == c[0] {
        lemma_lex_not_less_chain(a.drop_first(), b.drop_first(), c.drop_first());
    }
}

/// Whether `a` comes before `b` in dictionary order of their characters.
pub fn text_less(a: &Vec<char>, b: &Vec<char>) -> (less: bool)
    ensures
        less == lex_less(a@, b@),
{
    let mut i: usize = 0;
    assert(a@.skip(0) =~= a@);
    assert(b@.skip(0) =~= b@);
    loop
        invariant
            i <= a.len(),
            i <= b.len(),
            lex_less(a@, b@) == lex_less(a@.skip(i as int), b@.skip(i as int)),
        decreases a.len() - i,
    {
        if i >= b.len() {
            return false;
        }
        if i >= a.len() {
            return true;
        }
        if a[i] != b[i] {
            return a[i] < b[i];
        }
        assert(a@.skip(i as int).drop_first() =~= a@.skip(i + 1));
        assert(b@.skip(i as int).drop_first() =~= b@.skip(i + 1));
        i = i + 1;
    }
}

/// `rel` placed under the directory `base`: `rel` itself when it starts at
/// the root, otherwise `base`, a `/` unless `base` is empty or ends in one,
/// and `rel`.
pub open spec fn join_path(base: Seq<char>, rel: Seq<char>) -> Seq<char> {
    if rel.len() > 0 && rel[0] == '/' {
        rel
    } else if base.len() == 0 || base.last() == '/' {
        base + rel
    } else {
        base + seq!['/'] + rel
    }
}

/// Places `rel` under the directory `base`.
pub fn join(base: &str, rel: &str) -> (path: String)
    ensures
        path@ == join_path(base@, rel@),
{
    let rel_chars = chars_of(rel);
    let base_chars = chars_of(base);
    if rel_chars.len() > 0 && rel_chars[0] == '/' {
        String::from_str(rel)
    } else if base_chars.len() == 0 || base_chars[base_chars.len() - 1] == '/' {
        String::from_str(base).concat(rel)
    } else {
        proof {
            reveal_strlit("/");
        }
        assert("/"@ =~= seq!['/']);
        String::from_str(base).concat("/").concat(rel)
    }
}

/// The pieces of `s` between occurrences of `sep`, each as a string of its
/// own.
pub fn split_text(s: &str, sep: char) -> (out: Vec<String>)
    ensures
        texts_view(out@) == split(s@, sep),
        out.len() >= 1,
{
    let text = chars_of(s);
    let ranges = split_ranges(&text, 0, text.len(), sep);
    assert(text@.subrange(0, text.len() as int) =~= text@);
    let mut out: Vec<String> = Vec::new();
    let mut k: usize = 0;
    while k < ranges.len()
        invariant
            k <= ranges.len(),
            out.len() == k,
            text@ == s@,
            ranges_within(ranges@, 0, text.len() as int),
            forall|j: int| 0 <= j < k ==> out@[j]@ == #[trigger] pieces(text@, ranges@)[j],
        decreases ranges.len() - k,
    {
        let (a, b) = ranges[k];
        assert(0 <= ranges@[k as int].0 <= ranges@[k as int].1 <= text.len());
        out.push(String::from_str(s.substring_char(a, b)));
        k = k + 1;
    }
    assert(texts_view(out@) =~= pieces(text@, ranges@));
    out
}

} // verus!
