//! What the text operations give, said of the characters themselves.
use vstd::prelude::*;
use vstd::string::*;

use crate::text;

verus! {

/// Trimming takes off white space at the two ends, all of it and nothing else:
/// what is left is a stretch of the text with only white space before and after
/// it, and neither begins nor ends with white space.
pub proof fn law_trimming_takes_the_ends_off(s: Seq<char>) -> (cut: (int, int))
    ensures
        0 <= cut.0 <= cut.1 <= s.len(),
        text::trimmed(s) == s.subrange(cut.0, cut.1),
        forall|k: int| 0 <= k < cut.0 ==> text::white_space(#[trigger] s[k]),
        forall|k: int| cut.1 <= k < s.len() ==> text::white_space(#[trigger] s[k]),
        cut.0 < cut.1 ==> !text::white_space(s[cut.0]) && !text::white_space(s[cut.1 - 1]),
    decreases s.len(),
{
    if s.len() == 0 {
        assert(s =~= s.subrange(0, 0));
        (0, 0)
    } else if text::white_space(s[0]) {
        let (i, j) = law_trimming_takes_the_ends_off(s.drop_first());
        assert(s.drop_first().subrange(i, j) =~= s.subrange(i + 1, j + 1));
        assert forall|k: int| 0 <= k < i + 1 implies text::white_space(#[trigger] s[k]) by {
            if k > 0 {
                assert(s.drop_first()[k - 1] == s[k]);
            }
        }
        assert forall|k: int| j + 1 <= k < s.len() implies text::white_space(#[trigger] s[k]) by {
            assert(s.drop_first()[k - 1] == s[k]);
        }
        (i + 1, j + 1)
    } else if text::white_space(s.last()) {
        let (i, j) = law_trimming_takes_the_ends_off(s.drop_last());
        assert(s.drop_last().subrange(i, j) =~= s.subrange(i, j));
        assert forall|k: int| 0 <= k < i implies text::white_space(#[trigger] s[k]) by {
            assert(s.drop_last()[k] == s[k]);
        }
        assert forall|k: int| j <= k < s.len() implies text::white_space(#[trigger] s[k]) by {
            if k < s.len() - 1 {
                assert(s.drop_last()[k] == s[k]);
            }
        }
        (i, j)
    } else {
        assert(s =~= s.subrange(0, s.len() as int));
        (0, s.len() as int)
    }
}

/// Whether white space was typed around a text makes no difference once it is
/// trimmed.
pub proof fn law_trimming_ignores_padding(before: Seq<char>, s: Seq<char>, after: Seq<char>)
    requires
        forall|k: int| 0 <= k < before.len() ==> text::white_space(#[trigger] before[k]),
        forall|k: int| 0 <= k < after.len() ==> text::white_space(#[trigger] after[k]),
        s.len() > 0,
        !text::white_space(s[0]),
        !text::white_space(s.last()),
    ensures
        text::trimmed(before + s + after) == s,
{
    let all = before + s + after;
    let (i, j) = law_trimming_takes_the_ends_off(all);
    let first = before.len() as int;
    let last = first + s.len() - 1;
    assert(all[first] == s[0]);
    assert(all[last] == s.last());
    assert(i <= first);
    assert(last < j);
    if i < first {
        assert(all[i] == before[i]);
    }
    if j - 1 > last {
        assert(all[j - 1] == after[j - 2 - last]);
    }
    assert(all.subrange(i, j) =~= s);
}

/// A text has a part exactly when it is something, then the part, then
/// something.
pub proof fn law_part_is_in_the_middle(s: Seq<char>, part: Seq<char>)
    ensures
        text::has_part(s, part) <==> exists|before: Seq<char>, after: Seq<char>|
            s == #[trigger] (before + part + after),
{
    if text::has_part(s, part) {
        let i = choose|i: int|
            0 <= i <= s.len() - part.len() && #[trigger] s.subrange(i, i + part.len()) == part;
        let before = s.take(i);
        let after = s.skip(i + part.len());
        assert(s =~= before + s.subrange(i, i + part.len()) + after);
        assert(s == before + part + after);
    }
    if exists|before: Seq<char>, after: Seq<char>| s == #[trigger] (before + part + after) {
        let (before, after) = choose|before: Seq<char>, after: Seq<char>|
            s == #[trigger] (before + part + after);
        let i = before.len() as int;
        assert(s.subrange(i, i + part.len()) =~= part);
    }
}

/// A text begins with another exactly when it is the other, then something.
pub proof fn law_head_comes_first(s: Seq<char>, head: Seq<char>)
    ensures
        text::begins_with(s, head) <==> exists|after: Seq<char>| s == #[trigger] (head + after),
{
    if text::begins_with(s, head) {
        let after = s.skip(head.len() as int);
        assert(s =~= head + after);
    }
    if exists|after: Seq<char>| s == #[trigger] (head + after) {
        let after = choose|after: Seq<char>| s == #[trigger] (head + after);
        assert(s.subrange(0, head.len() as int) =~= head);
    }
}

/// A copy of the head in front makes no difference to what is left without
/// heads; a text that does not begin with the head is left as it is.
pub proof fn law_heads_are_taken_off(s: Seq<char>, head: Seq<char>)
    requires
        head.len() > 0,
    ensures
        text::without_heads(head + s, head) == text::without_heads(s, head),
        !(exists|after: Seq<char>| s == #[trigger] (head + after)) ==> text::without_heads(s, head)
            == s,
{
    let more = head + s;
    assert(more.subrange(0, head.len() as int) =~= head);
    assert(more.skip(head.len() as int) =~= s);
    law_head_comes_first(s, head);
}

/// What is left without heads does not begin with the head.
pub proof fn law_no_head_is_left(s: Seq<char>, head: Seq<char>, after: Seq<char>)
    requires
        head.len() > 0,
    ensures
        text::without_heads(s, head) != head + after,
    decreases s.len(),
{
    law_head_comes_first(s, head);
    if text::begins_with(s, head) {
        law_no_head_is_left(s.skip(head.len() as int), head, after);
    }
}

/// Removing a part takes out its first occurrence and goes on behind it; a text
/// without the part is left as it is.
pub proof fn law_parts_are_removed(before: Seq<char>, part: Seq<char>, after: Seq<char>)
    requires
        part.len() > 0,
    ensures
        !(exists|a: Seq<char>, b: Seq<char>| before == #[trigger] (a + part + b))
            ==> text::without_parts(before, part) == before,
        (forall|a: Seq<char>, b: Seq<char>|
            (before + part + after) == #[trigger] (a + part + b) ==> a.len() >= before.len())
            ==> text::without_parts(before + part + after, part) == before + text::without_parts(
            after,
            part,
        ),
{
    if !(exists|a: Seq<char>, b: Seq<char>| before == #[trigger] (a + part + b)) {
        lemma_no_part(before, part);
    }
    if forall|a: Seq<char>, b: Seq<char>|
        (before + part + after) == #[trigger] (a + part + b) ==> a.len() >= before.len() {
        lemma_first_part(before, part, after);
    }
}

proof fn lemma_no_part(s: Seq<char>, part: Seq<char>)
    requires
        part.len() > 0,
        !(exists|a: Seq<char>, b: Seq<char>| s == #[trigger] (a + part + b)),
    ensures
        text::without_parts(s, part) == s,
    decreases s.len(),
{
    if s.len() > 0 {
        law_head_comes_first(s, part);
        if text::begins_with(s, part) {
            let rest = choose|rest: Seq<char>| s == #[trigger] (part + rest);
            assert(s =~= Seq::<char>::empty() + part + rest);
        } else {
            let rest = s.skip(1);
            if exists|a: Seq<char>, b: Seq<char>| rest == #[trigger] (a + part + b) {
                let (a, b) = choose|a: Seq<char>, b: Seq<char>| rest == #[trigger] (a + part + b);
                assert(s =~= seq![s[0]] + rest);
                assert(s =~= (seq![s[0]] + a) + part + b);
            }
            lemma_no_part(rest, part);
            assert(s =~= seq![s[0]] + rest);
        }
    }
}

proof fn lemma_first_part(before: Seq<char>, part: Seq<char>, after: Seq<char>)
    requires
        part.len() > 0,
        forall|a: Seq<char>, b: Seq<char>|
            (before + part + after) == #[trigger] (a + part + b) ==> a.len() >= before.len(),
    ensures
        text::without_parts(before + part + after, part) == before + text::without_parts(
            after,
            part,
        ),
    decreases before.len(),
{
    let s = before + part + after;
    law_head_comes_first(s, part);
    if before.len() == 0 {
        assert(s =~= part + after);
        assert(s.subrange(0, part.len() as int) =~= part);
        assert(s.skip(part.len() as int) =~= after);
        assert(before + text::without_parts(after, part) =~= text::without_parts(after, part));
    } else {
        if text::begins_with(s, part) {
            let rest = choose|rest: Seq<char>| s == #[trigger] (part + rest);
            assert(s =~= Seq::<char>::empty() + part + rest);
        }
        let less = before.skip(1);
        assert(s.skip(1) =~= less + part + after);
        assert forall|a: Seq<char>, b: Seq<char>|
            (less + part + after) == #[trigger] (a + part + b) implies a.len() >= less.len() by {
            let longer = seq![before[0]] + a;
            assert(s =~= seq![before[0]] + (less + part + after));
            assert(s =~= longer + part + b);
        }
        lemma_first_part(less, part, after);
        assert(before + text::without_parts(after, part) =~= seq![s[0]] + (less
            + text::without_parts(after, part)));
    }
}

/// There is nothing to take off or remove where the head or the part is empty.
pub proof fn law_empty_parts_change_nothing(s: Seq<char>)
    ensures
        text::without_heads(s, Seq::empty()) == s,
        text::without_parts(s, Seq::empty()) == s,
{
}

/// The first word is the first stretch without white space, from its start to
/// the next white space or the end; it is empty only where there is nothing but
/// white space.
pub proof fn law_first_word_is_the_first_stretch(s: Seq<char>) -> (at: (int, int))
    ensures
        0 <= at.0 <= at.1 <= s.len(),
        text::first_word_of(s) == s.subrange(at.0, at.1),
        forall|k: int| 0 <= k < at.0 ==> text::white_space(#[trigger] s[k]),
        forall|k: int| at.0 <= k < at.1 ==> !text::white_space(#[trigger] s[k]),
        at.1 < s.len() ==> text::white_space(s[at.1]),
        at.0 == at.1 ==> at.0 == s.len(),
    decreases s.len(),
{
    if s.len() > 0 && text::white_space(s[0]) {
        let rest = s.drop_first();
        let (i, j) = law_first_word_is_the_first_stretch(rest);
        assert(rest.subrange(i, j) =~= s.subrange(i + 1, j + 1));
        assert forall|k: int| 0 <= k < i + 1 implies text::white_space(#[trigger] s[k]) by {
            if k > 0 {
                assert(rest[k - 1] == s[k]);
            }
        }
        assert forall|k: int| i + 1 <= k < j + 1 implies !text::white_space(#[trigger] s[k]) by {
            assert(rest[k - 1] == s[k]);
        }
        (i + 1, j + 1)
    } else {
        let j = lemma_leading_stretch(s);
        (0, j)
    }
}

proof fn lemma_leading_stretch(s: Seq<char>) -> (j: int)
    ensures
        0 <= j <= s.len(),
        text::leading_word(s) == s.subrange(0, j),
        forall|k: int| 0 <= k < j ==> !text::white_space(#[trigger] s[k]),
        j < s.len() ==> text::white_space(s[j]),
    decreases s.len(),
{
    if s.len() == 0 || text::white_space(s[0]) {
        assert(s.subrange(0, 0) =~= Seq::<char>::empty());
        0
    } else {
        let rest = s.drop_first();
        let j = lemma_leading_stretch(rest);
        assert(s.subrange(0, j + 1) =~= seq![s[0]] + rest.subrange(0, j));
        assert forall|k: int| 0 <= k < j + 1 implies !text::white_space(#[trigger] s[k]) by {
            if k > 0 {
                assert(rest[k - 1] == s[k]);
            }
        }
        if j + 1 < s.len() {
            assert(rest[j] == s[j + 1]);
        }
        j + 1
    }
}

/// Without its tail a text is itself up to some position, from which on there
/// are only copies of the character; it does not end with the character.
pub proof fn law_tail_is_taken_off(s: Seq<char>, last: char) -> (n: int)
    ensures
        0 <= n <= s.len(),
        text::without_tail(s, last) == s.take(n),
        forall|k: int| n <= k < s.len() ==> #[trigger] s[k] == last,
        n > 0 ==> s[n - 1] != last,
    decreases s.len(),
{
    if s.len() > 0 && s.last() == last {
        let n = law_tail_is_taken_off(s.drop_last(), last);
        assert(s.drop_last().take(n) =~= s.take(n));
        assert forall|k: int| n <= k < s.len() implies #[trigger] s[k] == last by {
            if k < s.len() - 1 {
                assert(s.drop_last()[k] == s[k]);
            }
        }
        n
    } else {
        assert(s.take(s.len() as int) =~= s);
        s.len() as int
    }
}

/// In lower case, the capitals from `A` to `Z` are the letters from `a` to `z`
/// and every other character is as it was.
pub proof fn law_capitals_become_small(s: Seq<char>)
    ensures
        text::ascii_lower(s).len() == s.len(),
        forall|k: int|
            0 <= k < s.len() ==> (#[trigger] text::ascii_lower(s)[k]) as int == (if 65 <= s[k] as int
                <= 90 {
                s[k] as int + 32
            } else {
                s[k] as int
            }),
{
}

/// Texts are ordered by the first character in which they differ; a text that
/// another begins with comes before it.
pub proof fn law_texts_are_ordered_by_first_difference(a: Seq<char>, b: Seq<char>, at: int)
    requires
        0 <= at <= a.len(),
        at <= b.len(),
        forall|k: int| 0 <= k < at ==> #[trigger] a[k] == b[k],
    ensures
        at == a.len() ==> text::text_le(a, b),
        at < a.len() && at == b.len() ==> !text::text_le(a, b),
        at < a.len() && at < b.len() && a[at] != b[at] ==> text::text_le(a, b) == ((a[at] as int)
            < (b[at] as int)),
    decreases at,
{
    if at > 0 {
        assert(a[0] == b[0]);
        let x = a.drop_first();
        let y = b.drop_first();
        assert forall|k: int| 0 <= k < at - 1 implies #[trigger] x[k] == y[k] by {
            assert(a[k + 1] == b[k + 1]);
        }
        law_texts_are_ordered_by_first_difference(x, y, at - 1);
    }
}

/// The number that decimal digits stand for.
pub open spec fn value_of(digits: Seq<char>) -> int
    decreases digits.len(),
{
    if digits.len() == 0 {
        0
    } else {
        value_of(digits.drop_last()) * 10 + (digits.last() as int - 48)
    }
}

/// A number is written with decimal digits, without leading zeros, and the
/// digits stand for it.
pub proof fn law_digits_stand_for_the_number(n: nat)
    ensures
        text::decimal(n).len() > 0,
        forall|k: int|
            0 <= k < text::decimal(n).len() ==> 48 <= (#[trigger] text::decimal(n)[k]) as int <= 57,
        text::decimal(n).len() > 1 ==> text::decimal(n)[0] as int != 48,
        value_of(text::decimal(n)) == n,
    decreases n,
{
    reveal_with_fuel(value_of, 2);
    let digits = text::decimal(n);
    if n < 10 {
        assert(digits.drop_last() =~= Seq::<char>::empty());
    } else {
        law_digits_stand_for_the_number(n / 10);
        let front = text::decimal(n / 10);
        assert(digits.drop_last() =~= front);
        assert(digits[0] == front[0]);
        if front.len() == 1 {
            assert(front.drop_last() =~= Seq::<char>::empty());
            assert(front.last() == front[0]);
        }
        assert forall|k: int| 0 <= k < digits.len() implies 48 <= (#[trigger] digits[k]) as int
            <= 57 by {
            if k < front.len() {
                assert(digits[k] == front[k]);
            }
        }
    }
}

/// Joining puts the separator between each two neighbours and nowhere else.
pub proof fn law_joining_separates(parts: Seq<Seq<char>>, more: Seq<char>, separator: Seq<char>)
    ensures
        text::joined(Seq::empty(), separator) == Seq::<char>::empty(),
        text::joined(seq![more], separator) == more,
        parts.len() > 0 ==> text::joined(parts.push(more), separator) == text::joined(
            parts,
            separator,
        ) + separator + more,
{
    assert(parts.push(more).drop_last() =~= parts);
}

}
