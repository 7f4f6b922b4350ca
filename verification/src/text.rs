//! Operations on text, stated over sequences of characters.

use vstd::prelude::*;
use vstd::utf8::{decode_utf8, encode_utf8, encode_utf8_decode_utf8, is_char_boundary};

verus! {

/// `String::push`: appends the character at the end.
pub assume_specification[ String::push ](s: &mut String, c: char)
    ensures
        final(s)@ == old(s)@.push(c),
;

/// The characters with the Unicode property `White_Space`.
pub open spec fn is_white_space(c: char) -> bool {
    ||| 0x09 <= c as u32 <= 0x0d
    ||| c as u32 == 0x20
    ||| c as u32 == 0x85
    ||| c as u32 == 0xa0
    ||| c as u32 == 0x1680
    ||| 0x2000 <= c as u32 <= 0x200a
    ||| c as u32 == 0x2028
    ||| c as u32 == 0x2029
    ||| c as u32 == 0x202f
    ||| c as u32 == 0x205f
    ||| c as u32 == 0x3000
}

/// Whether the character is white space.
pub fn white_space(c: char) -> (r: bool)
    ensures
        r == is_white_space(c),
{
    let n: u32 = c as u32;
    (0x09 <= n && n <= 0x0d) || n == 0x20 || n == 0x85 || n == 0xa0 || n == 0x1680 || (0x2000 <= n
        && n <= 0x200a) || n == 0x2028 || n == 0x2029 || n == 0x202f || n == 0x205f || n == 0x3000
}

/// The characters of a text.
pub fn chars_of(s: &str) -> (r: Vec<char>)
    ensures
        r@ == s@,
{
    let mut r: Vec<char> = Vec::new();
    for c in it: s.chars()
        invariant
            it.seq() == s@,
            r@ == s@.take(it.index()),
    {
        proof {
            assert(s@.take(it.index() + 1) =~= s@.take(it.index()).push(c));
        }
        r.push(c);
    }
    assert(s@.take(s@.len() as int) =~= s@);
    r
}

/// The text made of the characters from `from` up to, and without, `to`.
pub fn string_of(chars: &Vec<char>, from: usize, to: usize) -> (r: String)
    requires
        from <= to <= chars@.len(),
    ensures
        r@ == chars@.subrange(from as int, to as int),
{
    let mut r: String = String::new();
    let mut i: usize = from;
    while i < to
        invariant
            from <= i <= to <= chars@.len(),
            r@ == chars@.subrange(from as int, i as int),
        decreases to - i,
    {
        r.push(chars[i]);
        i = i + 1;
        assert(r@ =~= chars@.subrange(from as int, i as int));
    }
    r
}

/// `needle` stands in `hay` at position `i`.
pub open spec fn occurs_at(hay: Seq<char>, needle: Seq<char>, i: int) -> bool {
    &&& 0 <= i
    &&& i + needle.len() <= hay.len()
    &&& hay.subrange(i, i + needle.len()) == needle
}

/// `needle` stands somewhere in `hay`.
pub open spec fn occurs_in(hay: Seq<char>, needle: Seq<char>) -> bool {
    exists|i: int| occurs_at(hay, needle, i)
}

/// Whether the pattern stands at position `at` of the text.
pub fn stands_at(hay: &Vec<char>, needle: &Vec<char>, at: usize) -> (r: bool)
    ensures
        r == occurs_at(hay@, needle@, at as int),
{
    if needle.len() > hay.len() || at > hay.len() - needle.len() {
        return false;
    }
    let total: usize = hay.len();
    let mut k: usize = 0;
    while k < needle.len()
        invariant
            k <= needle@.len(),
            total == hay@.len(),
            at + needle@.len() <= total,
            forall|j: int| 0 <= j < k ==> hay@[at + j] == #[trigger] needle@[j],
        decreases needle@.len() - k,
    {
        if hay[at + k] != needle[k] {
            assert(hay@.subrange(at as int, at + needle@.len())[k as int] != needle@[k as int]);
            return false;
        }
        k = k + 1;
    }
    assert(hay@.subrange(at as int, at + needle@.len()) =~= needle@);
    true
}

/// Whether the pattern stands anywhere in the text.
pub fn contains(hay: &Vec<char>, needle: &str) -> (r: bool)
    ensures
        r == occurs_in(hay@, needle@),
{
    let pattern = chars_of(needle);
    if pattern.len() > hay.len() {
        assert forall|i: int| !occurs_at(hay@, needle@, i) by {}
        return false;
    }
    let last: usize = hay.len() - pattern.len();
    let mut i: usize = 0;
    while i <= last
        invariant
            pattern@ == needle@,
            last + pattern@.len() == hay@.len(),
            i <= last + 1,
            forall|j: int| 0 <= j < i ==> !occurs_at(hay@, needle@, j),
        decreases last + 1 - i,
    {
        if stands_at(hay, &pattern, i) {
            return true;
        }
        if i == last {
            assert forall|j: int| !occurs_at(hay@, needle@, j) by {}
            return false;
        }
        i = i + 1;
    }
    false
}

/// The characters other than the given one.
pub open spec fn other_than(c: char) -> spec_fn(char) -> bool {
    |x: char| x != c
}

/// The text without every occurrence of the character.
pub open spec fn without(s: Seq<char>, c: char) -> Seq<char> {
    s.filter(other_than(c))
}

/// Removes every occurrence of the character.
pub fn remove_char(s: &str, c: char) -> (r: String)
    ensures
        r@ == without(s@, c),
{
    let chars = chars_of(s);
    let mut r: String = String::new();
    let mut i: usize = 0;
    while i < chars.len()
        invariant
            i <= chars@.len(),
            chars@ == s@,
            r@ == without(chars@.take(i as int), c),
        decreases chars@.len() - i,
    {
        proof {
            reveal(Seq::filter);
            assert(chars@.take(i + 1).drop_last() =~= chars@.take(i as int));
        }
        if chars[i] != c {
            r.push(chars[i]);
        }
        i = i + 1;
    }
    assert(chars@.take(chars@.len() as int) =~= s@);
    r
}

/// The pieces of a text between the separators: one more than there are separators.
pub open spec fn split_on(s: Seq<char>, sep: char) -> Seq<Seq<char>>
    decreases s.len(),
{
    if s.len() == 0 {
        seq![Seq::<char>::empty()]
    } else {
        let pieces = split_on(s.drop_last(), sep);
        if s.last() == sep {
            pieces.push(Seq::<char>::empty())
        } else {
            pieces.drop_last().push(pieces.last().push(s.last()))
        }
    }
}

/// There is always at least one piece.
pub proof fn lemma_split_nonempty(s: Seq<char>, sep: char)
    ensures
        split_on(s, sep).len() > 0,
    decreases s.len(),
{
    if s.len() > 0 {
        lemma_split_nonempty(s.drop_last(), sep);
    }
}

/// A text without the separator is one piece.
pub proof fn lemma_split_whole(s: Seq<char>, sep: char)
    requires
        !s.contains(sep),
    ensures
        split_on(s, sep) == seq![s],
    decreases s.len(),
{
    if s.len() > 0 {
        assert(s.last() == s[s.len() - 1]);
        assert forall|i: int| 0 <= i < s.drop_last().len() implies s.drop_last()[i] != sep by {
            assert(s[i] != sep);
        }
        lemma_split_whole(s.drop_last(), sep);
        assert(s.drop_last().push(s.last()) =~= s);
        assert(split_on(s, sep) =~= seq![s]);
    } else {
        assert(s =~= Seq::<char>::empty());
    }
}

/// The pieces around a separator are those before it and those after it.
pub proof fn lemma_split_around(a: Seq<char>, sep: char, b: Seq<char>)
    ensures
        split_on(a + seq![sep] + b, sep) == split_on(a, sep) + split_on(b, sep),
    decreases b.len(),
{
    let whole = a + seq![sep] + b;
    if b.len() == 0 {
        assert(whole.drop_last() =~= a);
        assert(split_on(whole, sep) =~= split_on(a, sep) + split_on(b, sep));
    } else {
        lemma_split_around(a, sep, b.drop_last());
        lemma_split_nonempty(b.drop_last(), sep);
        assert(whole.drop_last() =~= a + seq![sep] + b.drop_last());
        let left = split_on(a, sep);
        let right = split_on(b.drop_last(), sep);
        assert((left + right).drop_last() =~= left + right.drop_last());
        assert(split_on(whole, sep) =~= left + split_on(b, sep));
    }
}

/// No piece holds the separator.
pub proof fn lemma_pieces_are_whole(s: Seq<char>, sep: char, i: int)
    requires
        0 <= i < split_on(s, sep).len(),
    ensures
        !split_on(s, sep)[i].contains(sep),
    decreases s.len(),
{
    if s.len() > 0 {
        let before = split_on(s.drop_last(), sep);
        lemma_split_nonempty(s.drop_last(), sep);
        if i < before.len() {
            lemma_pieces_are_whole(s.drop_last(), sep, i);
        }
        if s.last() != sep && i == before.len() - 1 {
            let grown = before.last().push(s.last());
            assert forall|k: int| 0 <= k < grown.len() implies grown[k] != sep by {
                if k < before.last().len() {
                    assert(before.last()[k] != sep);
                }
            }
        }
    }
}

/// Splits a text at every separator.
pub fn split(s: &str, sep: char) -> (r: Vec<String>)
    ensures
        r.deep_view() == split_on(s@, sep),
{
    let chars = chars_of(s);
    let mut done: Vec<String> = Vec::new();
    let mut piece: String = String::new();
    let mut i: usize = 0;
    assert(chars@.take(0) =~= Seq::<char>::empty());
    assert(done.deep_view().push(piece@) =~= split_on(chars@.take(0), sep));
    while i < chars.len()
        invariant
            i <= chars@.len(),
            chars@ == s@,
            done.deep_view().push(piece@) == split_on(chars@.take(i as int), sep),
        decreases chars@.len() - i,
    {
        let ghost before = done.deep_view().push(piece@);
        proof {
            assert(chars@.take(i + 1).drop_last() =~= chars@.take(i as int));
            assert(before.drop_last() =~= done.deep_view());
        }
        if chars[i] == sep {
            let full = piece;
            piece = String::new();
            done.push(full);
            assert(done.deep_view() =~= before);
        } else {
            piece.push(chars[i]);
        }
        i = i + 1;
        assert(done.deep_view().push(piece@) =~= split_on(chars@.take(i as int), sep));
    }
    assert(chars@.take(chars@.len() as int) =~= s@);
    let ghost whole = done.deep_view().push(piece@);
    done.push(piece);
    assert(done.deep_view() =~= whole);
    done
}

/// The text without its leading white space.
pub open spec fn left_trimmed(s: Seq<char>) -> Seq<char>
    decreases s.len(),
{
    if s.len() > 0 && is_white_space(s.first()) {
        left_trimmed(s.drop_first())
    } else {
        s
    }
}

/// The text without its trailing white space.
pub open spec fn right_trimmed(s: Seq<char>) -> Seq<char>
    decreases s.len(),
{
    if s.len() > 0 && is_white_space(s.last()) {
        right_trimmed(s.drop_last())
    } else {
        s
    }
}

/// The text without the white space at its two ends.
pub open spec fn trimmed(s: Seq<char>) -> Seq<char> {
    right_trimmed(left_trimmed(s))
}

/// Where the text begins, and where it ends, without the white space at its
/// two ends, within the given range.
pub fn trim_range(chars: &Vec<char>, from: usize, to: usize) -> (r: (usize, usize))
    requires
        from <= to <= chars@.len(),
    ensures
        from <= r.0 <= r.1 <= to,
        chars@.subrange(r.0 as int, r.1 as int) == trimmed(chars@.subrange(from as int, to as int)),
{
    let mut a: usize = from;
    while a < to && white_space(chars[a])
        invariant
            from <= a <= to <= chars@.len(),
            left_trimmed(chars@.subrange(from as int, to as int)) == left_trimmed(
                chars@.subrange(a as int, to as int),
            ),
        decreases to - a,
    {
        assert(chars@.subrange(a as int, to as int).drop_first() =~= chars@.subrange(
            a + 1,
            to as int,
        ));
        a = a + 1;
    }
    let ghost rest = chars@.subrange(a as int, to as int);
    assert(left_trimmed(rest) == rest);
    let mut b: usize = to;
    while b > a && white_space(chars[b - 1])
        invariant
            from <= a <= b <= to <= chars@.len(),
            right_trimmed(rest) == right_trimmed(chars@.subrange(a as int, b as int)),
        decreases b - a,
    {
        assert(chars@.subrange(a as int, b as int).drop_last() =~= chars@.subrange(
            a as int,
            b - 1,
        ));
        b = b - 1;
    }
    assert(right_trimmed(chars@.subrange(a as int, b as int)) == chars@.subrange(
        a as int,
        b as int,
    ));
    (a, b)
}

/// Removes the white space at the two ends.
pub fn trim(s: &str) -> (r: String)
    ensures
        r@ == trimmed(s@),
{
    let chars = chars_of(s);
    let (a, b) = trim_range(&chars, 0, chars.len());
    assert(chars@.subrange(0, chars@.len() as int) =~= s@);
    string_of(&chars, a, b)
}

/// The maximal runs of characters that are not white space, in order.
pub open spec fn words(s: Seq<char>) -> Seq<Seq<char>>
    decreases s.len(),
{
    if s.len() == 0 {
        Seq::<Seq<char>>::empty()
    } else {
        let before = words(s.drop_last());
        if is_white_space(s.last()) {
            before
        } else if s.len() == 1 || is_white_space(s[s.len() - 2]) {
            before.push(seq![s.last()])
        } else {
            before.drop_last().push(before.last().push(s.last()))
        }
    }
}

/// The parts one after the other, with the separator between them.
pub open spec fn joined(parts: Seq<Seq<char>>, sep: Seq<char>) -> Seq<char>
    decreases parts.len(),
{
    if parts.len() == 0 {
        Seq::<char>::empty()
    } else if parts.len() == 1 {
        parts[0]
    } else {
        joined(parts.drop_last(), sep) + sep + parts.last()
    }
}

proof fn lemma_joined_push(parts: Seq<Seq<char>>, sep: Seq<char>, part: Seq<char>)
    ensures
        parts.len() == 0 ==> joined(parts.push(part), sep) == part,
        parts.len() > 0 ==> joined(parts.push(part), sep) == joined(parts, sep) + sep + part,
{
    assert(parts.push(part).drop_last() =~= parts);
}

proof fn lemma_joined_grow(parts: Seq<Seq<char>>, sep: Seq<char>, c: char)
    requires
        parts.len() > 0,
    ensures
        joined(parts.drop_last().push(parts.last().push(c)), sep) == joined(parts, sep).push(c),
{
    let grown = parts.drop_last().push(parts.last().push(c));
    assert(grown.drop_last() =~= parts.drop_last());
    assert(joined(grown, sep) =~= joined(parts, sep).push(c));
}

proof fn lemma_words_open(s: Seq<char>)
    requires
        s.len() > 0,
        !is_white_space(s.last()),
    ensures
        words(s).len() > 0,
    decreases s.len(),
{
    if s.len() > 1 && !is_white_space(s[s.len() - 2]) {
        lemma_words_open(s.drop_last());
    }
}

/// The words of the text with one space between each two.
pub open spec fn single_spaced(s: Seq<char>) -> Seq<char> {
    joined(words(s), seq![' '])
}

/// Collapses every run of white space into one space, and drops it at the ends.
pub fn collapse_spaces(s: &str) -> (r: String)
    ensures
        r@ == single_spaced(s@),
{
    let chars = chars_of(s);
    let mut r: String = String::new();
    let mut any: bool = false;
    let mut i: usize = 0;
    assert(chars@.take(0) =~= Seq::<char>::empty());
    while i < chars.len()
        invariant
            i <= chars@.len(),
            chars@ == s@,
            any == (words(chars@.take(i as int)).len() > 0),
            r@ == joined(words(chars@.take(i as int)), seq![' ']),
        decreases chars@.len() - i,
    {
        let ghost before = words(chars@.take(i as int));
        proof {
            assert(chars@.take(i + 1).drop_last() =~= chars@.take(i as int));
        }
        if !white_space(chars[i]) {
            if i == 0 || white_space(chars[i - 1]) {
                proof {
                    lemma_joined_push(before, seq![' '], seq![chars@[i as int]]);
                }
                let ghost start = r@;
                if any {
                    r.push(' ');
                }
                r.push(chars[i]);
                any = true;
                proof {
                    if before.len() > 0 {
                        assert(r@ =~= start + seq![' '] + seq![chars@[i as int]]);
                    } else {
                        assert(r@ =~= seq![chars@[i as int]]);
                    }
                }
            } else {
                proof {
                    lemma_words_open(chars@.take(i as int));
                    lemma_joined_grow(before, seq![' '], chars@[i as int]);
                }
                r.push(chars[i]);
            }
        }
        i = i + 1;
    }
    assert(chars@.take(chars@.len() as int) =~= s@);
    r
}

/// As many copies of the character as asked for.
pub open spec fn copies(c: char, n: int) -> Seq<char> {
    Seq::new(if n > 0 { n as nat } else { 0 }, |i: int| c)
}

/// The text with spaces before it, up to the width.
pub open spec fn right_aligned(s: Seq<char>, width: int) -> Seq<char> {
    copies(' ', width - s.len()) + s
}

/// The text with spaces after it, up to the width.
pub open spec fn left_aligned(s: Seq<char>, width: int) -> Seq<char> {
    s + copies(' ', width - s.len())
}

/// Appends spaces.
fn push_spaces(r: &mut String, n: usize)
    ensures
        final(r)@ == old(r)@ + copies(' ', n as int),
{
    let mut i: usize = 0;
    let ghost start = r@;
    assert(r@ =~= start + copies(' ', 0));
    while i < n
        invariant
            i <= n,
            r@ == start + copies(' ', i as int),
        decreases n - i,
    {
        r.push(' ');
        i = i + 1;
        assert(r@ =~= start + copies(' ', i as int));
    }
}

/// Appends the text, with spaces before it up to the width.
pub fn push_right_aligned(r: &mut String, s: &str, width: usize)
    ensures
        final(r)@ == old(r)@ + right_aligned(s@, width as int),
{
    let len: usize = s.unicode_len();
    if len < width {
        push_spaces(r, width - len);
    }
    r.append(s);
    assert(r@ =~= old(r)@ + right_aligned(s@, width as int));
}

/// Appends the text, with spaces after it up to the width.
pub fn push_left_aligned(r: &mut String, s: &str, width: usize)
    ensures
        final(r)@ == old(r)@ + left_aligned(s@, width as int),
{
    let len: usize = s.unicode_len();
    r.append(s);
    if len < width {
        push_spaces(r, width - len);
    }
    assert(r@ =~= old(r)@ + left_aligned(s@, width as int));
}

/// The decimal digits of a number.
pub open spec fn digits(n: nat) -> Seq<char>
    decreases n,
{
    if n < 10 {
        seq![digit(n)]
    } else {
        digits(n / 10).push(digit(n % 10))
    }
}

/// The character of a digit.
pub open spec fn digit(n: nat) -> char {
    ('0' as u32 + n) as char
}

/// A whole number as it is written in decimal.
pub open spec fn decimal(n: int) -> Seq<char> {
    if n < 0 {
        seq!['-'] + digits((-n) as nat)
    } else {
        digits(n as nat)
    }
}

/// Appends the decimal digits of a number.
fn push_digits(r: &mut String, n: u64)
    ensures
        final(r)@ == old(r)@ + digits(n as nat),
    decreases n,
{
    if n >= 10 {
        push_digits(r, n / 10);
    }
    let c: char = (48 + (n % 10) as u8) as char;
    r.push(c);
    assert(r@ =~= old(r)@ + digits(n as nat));
}

/// Writes a whole number in decimal.
pub fn decimal_text(n: i64) -> (r: String)
    ensures
        r@ == decimal(n as int),
{
    let mut r: String = String::new();
    if n < 0 {
        r.push('-');
        if n == i64::MIN {
            push_digits(&mut r, 9223372036854775808u64);
        } else {
            push_digits(&mut r, (-n) as u64);
        }
    } else {
        push_digits(&mut r, n as u64);
    }
    assert(r@ =~= decimal(n as int));
    r
}

/// Writes a count in decimal.
pub fn count_text(n: usize) -> (r: String)
    ensures
        r@ == decimal(n as int),
{
    let mut r: String = String::new();
    push_digits(&mut r, n as u64);
    assert(r@ =~= decimal(n as int));
    r
}

/// Whether two texts are the same.
pub fn same(a: &str, b: &str) -> (r: bool)
    ensures
        r == (a@ == b@),
{
    a.to_string() == b.to_string()
}

/// The text begins with the pattern.
pub open spec fn begins_with(s: Seq<char>, p: Seq<char>) -> bool {
    occurs_at(s, p, 0)
}

/// The text ends with the pattern.
pub open spec fn ends_with(s: Seq<char>, p: Seq<char>) -> bool {
    occurs_at(s, p, s.len() - p.len())
}

/// What follows the prefix, where the text begins with it.
pub fn strip_prefix(s: &str, prefix: &str) -> (r: Option<String>)
    ensures
        r.deep_view() == if begins_with(s@, prefix@) {
            Some(s@.skip(prefix@.len() as int))
        } else {
            None
        },
{
    let chars = chars_of(s);
    let pattern = chars_of(prefix);
    if stands_at(&chars, &pattern, 0) {
        assert(chars@.subrange(pattern@.len() as int, chars@.len() as int) =~= s@.skip(
            prefix@.len() as int,
        ));
        Some(string_of(&chars, pattern.len(), chars.len()))
    } else {
        None
    }
}

/// The text after every copy of the pattern that leads it.
pub open spec fn without_leading(s: Seq<char>, p: Seq<char>) -> Seq<char>
    decreases s.len(),
{
    if p.len() > 0 && begins_with(s, p) {
        without_leading(s.skip(p.len() as int), p)
    } else {
        s
    }
}

/// The text before every copy of the pattern that trails it.
pub open spec fn without_trailing(s: Seq<char>, p: Seq<char>) -> Seq<char>
    decreases s.len(),
{
    if p.len() > 0 && ends_with(s, p) {
        without_trailing(s.take(s.len() - p.len()), p)
    } else {
        s
    }
}

proof fn lemma_occurs_in_range(s: Seq<char>, from: int, to: int, p: Seq<char>, i: int)
    requires
        0 <= from <= to <= s.len(),
        0 <= i,
        from + i + p.len() <= to,
    ensures
        occurs_at(s.subrange(from, to), p, i) == occurs_at(s, p, from + i),
{
    assert(s.subrange(from, to).subrange(i, i + p.len()) =~= s.subrange(
        from + i,
        from + i + p.len(),
    ));
}

/// Where a range begins after every copy of the pattern that leads it.
pub fn skip_leading(chars: &Vec<char>, from: usize, to: usize, pattern: &Vec<char>) -> (r: usize)
    requires
        from <= to <= chars@.len(),
        pattern@.len() > 0,
    ensures
        from <= r <= to,
        chars@.subrange(r as int, to as int) == without_leading(
            chars@.subrange(from as int, to as int),
            pattern@,
        ),
{
    let mut a: usize = from;
    loop
        invariant
            from <= a <= to <= chars@.len(),
            pattern@.len() > 0,
            without_leading(chars@.subrange(from as int, to as int), pattern@) == without_leading(
                chars@.subrange(a as int, to as int),
                pattern@,
            ),
        decreases to - a,
    {
        if to - a < pattern.len() {
            return a;
        }
        proof {
            lemma_occurs_in_range(chars@, a as int, to as int, pattern@, 0);
        }
        if !stands_at(chars, pattern, a) {
            return a;
        }
        assert(chars@.subrange(a as int, to as int).skip(pattern@.len() as int) =~= chars@.subrange(
            a + pattern@.len(),
            to as int,
        ));
        a = a + pattern.len();
    }
}

/// Where a range ends before every copy of the pattern that trails it.
pub fn skip_trailing(chars: &Vec<char>, from: usize, to: usize, pattern: &Vec<char>) -> (r: usize)
    requires
        from <= to <= chars@.len(),
        pattern@.len() > 0,
    ensures
        from <= r <= to,
        chars@.subrange(from as int, r as int) == without_trailing(
            chars@.subrange(from as int, to as int),
            pattern@,
        ),
{
    let mut b: usize = to;
    loop
        invariant
            from <= b <= to <= chars@.len(),
            pattern@.len() > 0,
            without_trailing(chars@.subrange(from as int, to as int), pattern@)
                == without_trailing(chars@.subrange(from as int, b as int), pattern@),
        decreases b - from,
    {
        if b - from < pattern.len() {
            return b;
        }
        proof {
            lemma_occurs_in_range(
                chars@,
                from as int,
                b as int,
                pattern@,
                b - from - pattern@.len(),
            );
        }
        if !stands_at(chars, pattern, b - pattern.len()) {
            return b;
        }
        assert(chars@.subrange(from as int, b as int).take(b - from - pattern@.len())
            =~= chars@.subrange(from as int, b - pattern@.len()));
        b = b - pattern.len();
    }
}

/// Byte `n` of the text's UTF-8 form is where a character begins, or the end.
pub open spec fn cuts_at(s: Seq<char>, n: int) -> bool {
    is_char_boundary(encode_utf8(s), n)
}

/// The text that the first `n` bytes hold.
pub open spec fn first_bytes(s: Seq<char>, n: int) -> Seq<char> {
    decode_utf8(encode_utf8(s).subrange(0, n))
}

/// The text that the bytes from byte `n` on hold.
pub open spec fn bytes_from(s: Seq<char>, n: int) -> Seq<char> {
    decode_utf8(encode_utf8(s).subrange(n, encode_utf8(s).len() as int))
}

/// The bytes of two texts, one after the other, are those of the two put together.
pub proof fn lemma_encode_concat(a: Seq<char>, b: Seq<char>)
    ensures
        encode_utf8(a + b) == encode_utf8(a) + encode_utf8(b),
    decreases a.len(),
{
    if a.len() == 0 {
        assert(a + b =~= b);
        assert(encode_utf8(a) + encode_utf8(b) =~= encode_utf8(b));
    } else {
        lemma_encode_concat(a.drop_first(), b);
        assert((a + b).drop_first() =~= a.drop_first() + b);
        assert(encode_utf8(a + b) =~= encode_utf8(a) + encode_utf8(b));
    }
}

/// Cuts the text off at byte `n`.
pub fn take_bytes(s: &str, n: usize) -> (r: String)
    requires
        cuts_at(s@, n as int),
    ensures
        r@ == first_bytes(s@, n as int),
{
    let (head, _tail) = s.split_at(n);
    proof {
        encode_utf8_decode_utf8(head@);
    }
    head.to_string()
}

/// Leaves out what stands before byte `n`.
pub fn skip_bytes(s: &str, n: usize) -> (r: String)
    requires
        cuts_at(s@, n as int),
    ensures
        r@ == bytes_from(s@, n as int),
{
    let (_head, tail) = s.split_at(n);
    proof {
        encode_utf8_decode_utf8(tail@);
    }
    tail.to_string()
}

} // verus!
