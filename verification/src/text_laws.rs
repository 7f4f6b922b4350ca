//! What the operations on text do, told without the way in which they do it.

use vstd::prelude::*;
use vstd::utf8::{
    decode_utf8_encode_utf8, encode_utf8, encode_utf8_valid_utf8, valid_utf8_split,
};

use crate::text::{
    begins_with, bytes_from, copies, cuts_at, decimal, digit, digits, ends_with, first_bytes,
    is_white_space, joined, left_aligned, left_trimmed, occurs_at, occurs_in, other_than,
    right_aligned, right_trimmed, single_spaced, trimmed, without, without_leading,
    without_trailing, words,
};

verus! {

/// White space is what Unicode says it is.
pub proof fn law_white_space(c: char)
    ensures
        is_white_space(c) <==> (c == '\t' || c == '\n' || c == '\u{b}' || c == '\u{c}' || c == '\r'
            || c == ' ' || c == '\u{85}' || c == '\u{a0}' || c == '\u{1680}' || c == '\u{2000}'
            || c == '\u{2001}' || c == '\u{2002}' || c == '\u{2003}' || c == '\u{2004}' || c
            == '\u{2005}' || c == '\u{2006}' || c == '\u{2007}' || c == '\u{2008}' || c
            == '\u{2009}' || c == '\u{200a}' || c == '\u{2028}' || c == '\u{2029}' || c
            == '\u{202f}' || c == '\u{205f}' || c == '\u{3000}'),
{
}

/// Every character is white space.
pub open spec fn blank(s: Seq<char>) -> bool {
    forall|i: int| 0 <= i < s.len() ==> is_white_space(#[trigger] s[i])
}

/// No character is white space.
pub open spec fn solid(s: Seq<char>) -> bool {
    forall|i: int| 0 <= i < s.len() ==> !is_white_space(#[trigger] s[i])
}

/// Trimming takes the white space off both ends, and nothing else.
pub proof fn law_trimmed(a: Seq<char>, t: Seq<char>, b: Seq<char>)
    requires
        blank(a),
        blank(b),
        t.len() > 0 ==> !is_white_space(t.first()) && !is_white_space(t.last()),
    ensures
        trimmed(a + t + b) == t,
{
    lemma_left_trimmed(a, t + b);
    assert(a + (t + b) =~= a + t + b);
    if t.len() > 0 {
        assert((t + b).first() == t.first());
        lemma_right_trimmed(t, b);
    } else {
        assert(t + b =~= b);
        lemma_left_trimmed(b, t);
        assert(b + t =~= b);
        assert(t =~= Seq::<char>::empty());
    }
}

proof fn lemma_left_trimmed(a: Seq<char>, s: Seq<char>)
    requires
        blank(a),
    ensures
        left_trimmed(a + s) == left_trimmed(s),
    decreases a.len(),
{
    if a.len() > 0 {
        assert(is_white_space(a[0]));
        assert((a + s).first() == a[0]);
        assert((a + s).drop_first() =~= a.drop_first() + s);
        assert forall|i: int| 0 <= i < a.drop_first().len() implies is_white_space(
            #[trigger] a.drop_first()[i],
        ) by {
            assert(a.drop_first()[i] == a[i + 1]);
        }
        lemma_left_trimmed(a.drop_first(), s);
    } else {
        assert(a + s =~= s);
    }
}

proof fn lemma_right_trimmed(t: Seq<char>, b: Seq<char>)
    requires
        blank(b),
        t.len() > 0,
        !is_white_space(t.last()),
    ensures
        right_trimmed(t + b) == t,
    decreases b.len(),
{
    if b.len() > 0 {
        assert(is_white_space(b[b.len() - 1]));
        assert((t + b).last() == b[b.len() - 1]);
        assert((t + b).drop_last() =~= t + b.drop_last());
        assert forall|i: int| 0 <= i < b.drop_last().len() implies is_white_space(
            #[trigger] b.drop_last()[i],
        ) by {
            assert(b.drop_last()[i] == b[i]);
        }
        lemma_right_trimmed(t, b.drop_last());
    } else {
        assert(t + b =~= t);
    }
}

/// Removing a character removes each of its occurrences, and keeps everything
/// else in its order.
pub proof fn law_without(a: Seq<char>, x: char, b: Seq<char>, c: char)
    ensures
        without(Seq::<char>::empty(), c) == Seq::<char>::empty(),
        x == c ==> without(a + seq![x] + b, c) == without(a, c) + without(b, c),
        x != c ==> without(a + seq![x] + b, c) == without(a, c) + seq![x] + without(b, c),
{
    reveal(Seq::filter);
    Seq::filter_distributes_over_add(a + seq![x], b, other_than(c));
    Seq::filter_distributes_over_add(a, seq![x], other_than(c));
    let one = seq![x];
    assert(one.drop_last() =~= Seq::<char>::empty());
    assert(one.drop_last().filter(other_than(c)) =~= Seq::<char>::empty());
    assert(one.filter(other_than(c)) =~= if x == c {
        Seq::<char>::empty()
    } else {
        seq![x]
    });
    assert(without(a, c) + Seq::<char>::empty() =~= without(a, c));
}

/// The words of a text are those before any of its white space and those after
/// it; a text without white space is one word.
pub proof fn law_words(a: Seq<char>, w: char, b: Seq<char>)
    requires
        is_white_space(w),
    ensures
        words(a + seq![w] + b) == words(a) + words(b),
        solid(a) && a.len() > 0 ==> words(a) == seq![a],
        words(Seq::<char>::empty()) == Seq::<Seq<char>>::empty(),
{
    lemma_words_around(a, w, b);
    if solid(a) && a.len() > 0 {
        lemma_one_word(a);
    }
}

proof fn lemma_one_word(a: Seq<char>)
    requires
        solid(a),
        a.len() > 0,
    ensures
        words(a) == seq![a],
    decreases a.len(),
{
    assert(!is_white_space(a[a.len() - 1]));
    if a.len() == 1 {
        assert(a.drop_last() =~= Seq::<char>::empty());
        assert(words(a.drop_last()) =~= Seq::<Seq<char>>::empty());
        assert(seq![a.last()] =~= a);
        assert(words(a) =~= seq![a]);
    } else {
        let front = a.drop_last();
        assert forall|i: int| 0 <= i < front.len() implies !is_white_space(#[trigger] front[i]) by {
            assert(front[i] == a[i]);
        }
        assert(!is_white_space(a[a.len() - 2]));
        lemma_one_word(front);
        assert(front.push(a.last()) =~= a);
        assert(words(a) =~= seq![a]);
    }
}

proof fn lemma_words_around(a: Seq<char>, w: char, b: Seq<char>)
    requires
        is_white_space(w),
    ensures
        words(a + seq![w] + b) == words(a) + words(b),
        b.len() > 0 && !is_white_space(b.last()) ==> words(b).len() > 0,
    decreases b.len(),
{
    let whole = a + seq![w] + b;
    if b.len() == 0 {
        assert(whole.drop_last() =~= a);
        assert(whole.last() == w);
        assert(words(b) =~= Seq::<Seq<char>>::empty());
        assert(words(a) + words(b) =~= words(a));
    } else {
        let front = b.drop_last();
        lemma_words_around(a, w, front);
        assert(whole.drop_last() =~= a + seq![w] + front);
        assert(whole.last() == b.last());
        if !is_white_space(b.last()) {
            if b.len() == 1 {
                assert(whole[whole.len() - 2] == w);
                assert(words(front) =~= Seq::<Seq<char>>::empty());
                assert(words(whole) =~= words(a) + words(b));
            } else {
                assert(whole[whole.len() - 2] == b[b.len() - 2]);
                if is_white_space(b[b.len() - 2]) {
                    assert(words(whole) =~= words(a) + words(b));
                } else {
                    assert(front.last() == b[b.len() - 2]);
                    let all = words(a) + words(front);
                    assert(all.drop_last() =~= words(a) + words(front).drop_last());
                    assert(all.last() == words(front).last());
                    assert(words(whole) =~= words(a) + words(b));
                }
            }
        }
    }
}

/// What is joined stands one after the other, with the separator between.
pub proof fn law_joined(front: Seq<Seq<char>>, part: Seq<char>, sep: Seq<char>)
    ensures
        joined(Seq::<Seq<char>>::empty(), sep) == Seq::<char>::empty(),
        joined(seq![part], sep) == part,
        front.len() > 0 ==> joined(front.push(part), sep) == joined(front, sep) + sep + part,
{
    assert(front.push(part).drop_last() =~= front);
}

/// Collapsed white space: of what is blank nothing is left, white space at the end
/// goes, and a word after white space follows what stands before it after one
/// space.
pub proof fn law_single_spaced(s: Seq<char>, w: char, t: Seq<char>)
    requires
        is_white_space(w),
        solid(t),
        t.len() > 0,
    ensures
        blank(s) ==> single_spaced(s) == Seq::<char>::empty(),
        single_spaced(t) == t,
        single_spaced(s + seq![w]) == single_spaced(s),
        blank(s) ==> single_spaced(s + seq![w] + t) == t,
        !blank(s) ==> single_spaced(s + seq![w] + t) == single_spaced(s) + seq![' '] + t,
{
    lemma_one_word(t);
    lemma_words_around(s, w, t);
    lemma_words_around(s, w, Seq::<char>::empty());
    assert(s + seq![w] + Seq::<char>::empty() =~= s + seq![w]);
    assert(words(s) + words(Seq::<char>::empty()) =~= words(s));
    lemma_blank_has_no_words(s);
    let all = words(s) + seq![t];
    assert(all.drop_last() =~= words(s));
    assert(words(s).len() == 0 ==> all =~= seq![t]);
}

proof fn lemma_blank_has_no_words(s: Seq<char>)
    ensures
        words(s).len() == 0 <==> blank(s),
    decreases s.len(),
{
    if s.len() > 0 {
        let front = s.drop_last();
        lemma_blank_has_no_words(front);
        if is_white_space(s.last()) {
            if blank(front) {
                assert forall|i: int| 0 <= i < s.len() implies is_white_space(#[trigger] s[i]) by {
                    if i < front.len() {
                        assert(front[i] == s[i]);
                    }
                }
            } else {
                let i = choose|i: int| 0 <= i < front.len() && !is_white_space(#[trigger] front[i]);
                assert(s[i] == front[i]);
            }
        } else {
            assert(s[s.len() - 1] == s.last());
            lemma_words_around(Seq::<char>::empty(), ' ', s);
        }
    }
}

/// A pattern stands in a text exactly where the text is the pattern with something
/// before it and something after it.
pub proof fn law_occurs(a: Seq<char>, p: Seq<char>, b: Seq<char>, hay: Seq<char>)
    ensures
        occurs_in(a + p + b, p),
        begins_with(p + b, p),
        ends_with(a + p, p),
        occurs_in(hay, p) ==> exists|x: Seq<char>, y: Seq<char>| hay == #[trigger] (x + p + y),
        begins_with(hay, p) ==> hay == p + hay.skip(p.len() as int),
        ends_with(hay, p) ==> hay == hay.take(hay.len() - p.len()) + p,
{
    assert((a + p + b).subrange(a.len() as int, (a.len() + p.len()) as int) =~= p);
    assert(occurs_at(a + p + b, p, a.len() as int));
    assert((p + b).subrange(0, p.len() as int) =~= p);
    assert((a + p).subrange(a.len() as int, (a.len() + p.len()) as int) =~= p);
    if occurs_in(hay, p) {
        let i = choose|i: int| occurs_at(hay, p, i);
        let x = hay.take(i);
        let y = hay.skip(i + p.len());
        assert(hay =~= x + hay.subrange(i, i + p.len()) + y);
        assert(hay == x + p + y);
    }
    if begins_with(hay, p) {
        assert(hay =~= hay.subrange(0, p.len() as int) + hay.skip(p.len() as int));
    }
    if ends_with(hay, p) {
        assert(hay =~= hay.take(hay.len() - p.len()) + hay.subrange(
            hay.len() - p.len(),
            hay.len() as int,
        ));
    }
}

/// Every copy of a pattern that leads, or trails, a text comes off, and nothing
/// else does.
pub proof fn law_without_ends(s: Seq<char>, p: Seq<char>)
    requires
        p.len() > 0,
    ensures
        without_leading(p + s, p) == without_leading(s, p),
        !begins_with(s, p) ==> without_leading(s, p) == s,
        without_trailing(s + p, p) == without_trailing(s, p),
        !ends_with(s, p) ==> without_trailing(s, p) == s,
{
    assert((p + s).subrange(0, p.len() as int) =~= p);
    assert((p + s).skip(p.len() as int) =~= s);
    assert((s + p).subrange(s.len() as int, (s + p).len() as int) =~= p);
    assert((s + p).take((s + p).len() - p.len()) =~= s);
}

/// The number that decimal digits write.
pub open spec fn value(s: Seq<char>) -> int
    decreases s.len(),
{
    if s.len() == 0 {
        0
    } else {
        10 * value(s.drop_last()) + (s.last() as u32 - '0' as u32)
    }
}

/// A whole number is written with decimal digits that make it up, without leading
/// zeros, and with a minus sign where it is below zero.
pub proof fn law_decimal(n: int)
    ensures
        n >= 0 ==> value(decimal(n)) == n && is_decimal(decimal(n)),
        n < 0 ==> decimal(n) == seq!['-'] + decimal(-n),
{
    if n >= 0 {
        lemma_digits(n as nat);
    }
}

/// Decimal digits, without a leading zero unless it is the only digit.
pub open spec fn is_decimal(s: Seq<char>) -> bool {
    &&& s.len() > 0
    &&& s.len() > 1 ==> s[0] != '0'
    &&& forall|i: int| 0 <= i < s.len() ==> '0' <= #[trigger] s[i] <= '9'
}

proof fn lemma_digits(n: nat)
    ensures
        value(digits(n)) == n,
        is_decimal(digits(n)),
        n > 0 ==> digits(n)[0] != '0',
    decreases n,
{
    reveal_with_fuel(value, 2);
    if n < 10 {
        assert(seq![digit(n)].drop_last() =~= Seq::<char>::empty());
        assert(digit(n) as u32 == '0' as u32 + n);
    } else {
        lemma_digits(n / 10);
        let front = digits(n / 10);
        let c = digit(n % 10);
        assert(c as u32 == '0' as u32 + n % 10);
        assert(front.push(c).drop_last() =~= front);
    }
}

/// An aligned text is the text with spaces on one side of it, as many as it takes
/// to fill the width.
pub proof fn law_aligned(s: Seq<char>, width: int)
    requires
        0 <= width,
    ensures
        right_aligned(s, width).len() == if s.len() > width {
            s.len() as int
        } else {
            width
        },
        left_aligned(s, width).len() == right_aligned(s, width).len(),
        left_aligned(s, width).take(s.len() as int) == s,
        right_aligned(s, width).skip(right_aligned(s, width).len() - s.len()) == s,
        forall|i: int|
            s.len() <= i < left_aligned(s, width).len() ==> #[trigger] left_aligned(s, width)[i]
                == ' ',
        forall|i: int|
            0 <= i < right_aligned(s, width).len() - s.len() ==> #[trigger] right_aligned(
                s,
                width,
            )[i] == ' ',
{
    assert(left_aligned(s, width).take(s.len() as int) =~= s);
    assert(right_aligned(s, width).skip(right_aligned(s, width).len() - s.len()) =~= s);
    assert(copies(' ', width - s.len()).len() == if s.len() > width {
        0
    } else {
        width - s.len()
    });
}

/// The first bytes of a text, and the bytes from there on, are those of its UTF-8
/// form.
pub proof fn law_bytes(s: Seq<char>, n: int)
    requires
        cuts_at(s, n),
    ensures
        encode_utf8(first_bytes(s, n)) == encode_utf8(s).subrange(0, n),
        encode_utf8(bytes_from(s, n)) == encode_utf8(s).subrange(n, encode_utf8(s).len() as int),
{
    let bytes = encode_utf8(s);
    encode_utf8_valid_utf8(s);
    valid_utf8_split(bytes, n);
    decode_utf8_encode_utf8(bytes.subrange(0, n));
    decode_utf8_encode_utf8(bytes.subrange(n, bytes.len() as int));
}

} // verus!
