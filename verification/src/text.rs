//! Text operations on strings, stated over sequences of characters.
use vstd::prelude::*;
use vstd::string::*;
use vstd::utf8::*;

verus! {

/// Specifies `String::push`, which appends the given character to the end of
/// the string.
pub assume_specification[ String::push ](s: &mut String, ch: char)
    ensures
        final(s)@ == old(s)@.push(ch),
;

/// The characters with the Unicode property `White_Space`.
pub open spec fn white_space(c: char) -> bool {
    let u = c as u32;
    ||| 0x09 <= u <= 0x0d
    ||| u == 0x20
    ||| u == 0x85
    ||| u == 0xa0
    ||| u == 0x1680
    ||| 0x2000 <= u <= 0x200a
    ||| u == 0x2028
    ||| u == 0x2029
    ||| u == 0x202f
    ||| u == 0x205f
    ||| u == 0x3000
}

/// Specifies `char::is_whitespace`, which tells whether a character has the
/// Unicode property `White_Space`.
pub assume_specification[ char::is_whitespace ](c: char) -> (r: bool)
    ensures
        r == white_space(c),
;

/// The text without the white space at its two ends.
pub open spec fn trimmed(s: Seq<char>) -> Seq<char>
    decreases s.len(),
{
    if s.len() == 0 {
        s
    } else if white_space(s[0]) {
        trimmed(s.drop_first())
    } else if white_space(s.last()) {
        trimmed(s.drop_last())
    } else {
        s
    }
}

/// Whether `part` occurs somewhere in `s`.
pub open spec fn has_part(s: Seq<char>, part: Seq<char>) -> bool {
    exists|i: int| 0 <= i <= s.len() - part.len() && #[trigger] s.subrange(i, i + part.len()) == part
}

/// Whether `s` begins with `head`.
pub open spec fn begins_with(s: Seq<char>, head: Seq<char>) -> bool {
    head.len() <= s.len() && s.subrange(0, head.len() as int) == head
}

/// The characters of a string, in order.
pub fn chars_of(s: &str) -> (r: Vec<char>)
    ensures
        r@ == s@,
{
    let mut r: Vec<char> = Vec::new();
    for c in it: s.chars()
        invariant
            it.seq() == s@,
            r@ == s@.take(it.index()),
    {
        r.push(c);
        assert(s@.take(it.index() + 1) =~= s@.take(it.index()).push(c));
    }
    assert(s@.take(s@.len() as int) =~= s@);
    r
}

/// The string made of the characters `chars[from..to]`.
pub fn text_of(chars: &Vec<char>, from: usize, to: usize) -> (r: String)
    requires
        from <= to <= chars@.len(),
    ensures
        r@ == chars@.subrange(from as int, to as int),
{
    let mut r = String::new();
    let mut i: usize = from;
    while i < to
        invariant
            from <= i <= to <= chars@.len(),
            r@ == chars@.subrange(from as int, i as int),
        decreases to - i,
    {
        r.push(chars[i]);
        i += 1;
        assert(chars@.subrange(from as int, i as int) =~= chars@.subrange(
            from as int,
            i - 1,
        ).push(chars@[i - 1]));
    }
    r
}

/// White space at the two ends of a range does not matter to what is left of
/// it.
proof fn lemma_trimmed_ends(s: Seq<char>, i: int, j: int)
    requires
        0 <= i <= j <= s.len(),
        forall|k: int| 0 <= k < i ==> white_space(#[trigger] s[k]),
        forall|k: int| j <= k < s.len() ==> white_space(#[trigger] s[k]),
        i < j ==> !white_space(s[i]) && !white_space(s[j - 1]),
    ensures
        trimmed(s) == s.subrange(i, j),
    decreases s.len(),
{
    if s.len() == 0 {
        assert(s.subrange(i, j) =~= s);
    } else if i > 0 {
        lemma_trimmed_ends(s.drop_first(), i - 1, j - 1);
        assert(s.drop_first().subrange(i - 1, j - 1) =~= s.subrange(i, j));
    } else if j == 0 {
        assert(white_space(s[0]));
        lemma_trimmed_ends(s.drop_first(), 0, 0);
        assert(s.drop_first().subrange(0, 0) =~= s.subrange(i, j));
    } else if j < s.len() {
        lemma_trimmed_ends(s.drop_last(), i, j);
        assert(s.drop_last().subrange(i, j) =~= s.subrange(i, j));
    } else {
        assert(s.subrange(i, j) =~= s);
    }
}

/// Removes the white space at both ends of a text.
pub fn trim(s: &str) -> (r: String)
    ensures
        r@ == trimmed(s@),
{
    let chars = chars_of(s);
    let mut i: usize = 0;
    while i < chars.len() && chars[i].is_whitespace()
        invariant
            i <= chars@.len(),
            forall|k: int| 0 <= k < i ==> white_space(#[trigger] chars@[k]),
        decreases chars@.len() - i,
    {
        i += 1;
    }
    let mut j: usize = chars.len();
    while j > i && chars[j - 1].is_whitespace()
        invariant
            i <= j <= chars@.len(),
            forall|k: int| j <= k < chars@.len() ==> white_space(#[trigger] chars@[k]),
        decreases j,
    {
        j -= 1;
    }
    proof {
        lemma_trimmed_ends(chars@, i as int, j as int);
    }
    text_of(&chars, i, j)
}

/// Whether `part` stands at position `at` of `chars`.
fn stands_at(chars: &Vec<char>, at: usize, part: &Vec<char>) -> (r: bool)
    requires
        at <= chars@.len(),
    ensures
        r == begins_with(chars@.skip(at as int), part@),
{
    if part.len() > chars.len() - at {
        return false;
    }
    let n: usize = chars.len();
    let mut k: usize = 0;
    while k < part.len()
        invariant
            k <= part@.len(),
            at + part@.len() <= chars@.len(),
            n == chars@.len(),
            forall|m: int| 0 <= m < k ==> chars@[at + m] == #[trigger] part@[m],
        decreases part@.len() - k,
    {
        if chars[at + k] != part[k] {
            assert(chars@.skip(at as int).subrange(0, part@.len() as int)[k as int] != part@[k as int]);
            return false;
        }
        k += 1;
    }
    assert(chars@.skip(at as int).subrange(0, part@.len() as int) =~= part@);
    true
}

/// Tells whether `part` occurs somewhere in `s`.
pub fn contains(s: &str, part: &str) -> (r: bool)
    ensures
        r == has_part(s@, part@),
{
    let chars = chars_of(s);
    let wanted = chars_of(part);
    let mut i: usize = 0;
    while i <= chars.len()
        invariant
            chars@ == s@,
            wanted@ == part@,
            i <= chars@.len() + 1,
            forall|k: int|
                0 <= k < i && k <= s@.len() - part@.len() ==> #[trigger] s@.subrange(
                    k,
                    k + part@.len(),
                ) != part@,
        decreases chars@.len() + 1 - i,
    {
        if stands_at(&chars, i, &wanted) {
            assert(s@.skip(i as int).subrange(0, part@.len() as int) =~= s@.subrange(
                i as int,
                i + part@.len(),
            ));
            return true;
        }
        proof {
            if i <= s@.len() - part@.len() {
                assert(s@.skip(i as int).subrange(0, part@.len() as int) =~= s@.subrange(
                    i as int,
                    i + part@.len(),
                ));
            }
        }
        if i == chars.len() {
            return false;
        }
        i += 1;
    }
    false
}

/// Tells whether `s` begins with `head`.
pub fn starts_with(s: &str, head: &str) -> (r: bool)
    ensures
        r == begins_with(s@, head@),
{
    let chars = chars_of(s);
    let wanted = chars_of(head);
    assert(s@.skip(0) =~= s@);
    stands_at(&chars, 0, &wanted)
}

/// The text with every leading copy of `head` taken off.
pub open spec fn without_heads(s: Seq<char>, head: Seq<char>) -> Seq<char>
    decreases s.len(),
{
    if head.len() > 0 && begins_with(s, head) {
        without_heads(s.skip(head.len() as int), head)
    } else {
        s
    }
}

/// Takes every leading copy of `head` off a text.
pub fn strip_heads(s: &str, head: &str) -> (r: String)
    ensures
        r@ == without_heads(s@, head@),
{
    let chars = chars_of(s);
    let wanted = chars_of(head);
    let n: usize = chars.len();
    let mut i: usize = 0;
    assert(s@.skip(0) =~= s@);
    while wanted.len() > 0 && stands_at(&chars, i, &wanted)
        invariant
            chars@ == s@,
            n == chars@.len(),
            wanted@ == head@,
            i <= chars@.len(),
            without_heads(s@.skip(i as int), head@) == without_heads(s@, head@),
        decreases chars@.len() - i,
    {
        assert(s@.skip(i as int).skip(head@.len() as int) =~= s@.skip(i + head@.len()));
        i += wanted.len();
    }
    assert(chars@.subrange(i as int, chars@.len() as int) =~= s@.skip(i as int));
    text_of(&chars, i, chars.len())
}

/// The text with every occurrence of `part` removed, scanning from the left.
pub open spec fn without_parts(s: Seq<char>, part: Seq<char>) -> Seq<char>
    decreases s.len(),
{
    if s.len() == 0 || part.len() == 0 {
        s
    } else if begins_with(s, part) {
        without_parts(s.skip(part.len() as int), part)
    } else {
        seq![s[0]] + without_parts(s.skip(1), part)
    }
}

/// Removes every occurrence of `part` from a text.
pub fn remove_parts(s: &str, part: &str) -> (r: String)
    ensures
        r@ == without_parts(s@, part@),
{
    let chars = chars_of(s);
    let wanted = chars_of(part);
    if wanted.len() == 0 {
        return s.to_owned();
    }
    let mut r = String::new();
    let mut i: usize = 0;
    assert(s@.skip(0) =~= s@);
    assert(r@ + without_parts(s@, part@) =~= without_parts(s@, part@));
    while i < chars.len()
        invariant
            chars@ == s@,
            wanted@ == part@,
            wanted@.len() > 0,
            i <= chars@.len(),
            r@ + without_parts(s@.skip(i as int), part@) == without_parts(s@, part@),
        decreases chars@.len() - i,
    {
        if stands_at(&chars, i, &wanted) {
            assert(s@.skip(i as int).skip(part@.len() as int) =~= s@.skip(i + part@.len()));
            i += wanted.len();
        } else {
            assert(s@.skip(i as int).skip(1) =~= s@.skip(i + 1));
            assert(s@.skip(i as int)[0] == s@[i as int]);
            assert(r@.push(s@[i as int]) + without_parts(s@.skip(i + 1), part@) =~= r@ + (
            seq![s@[i as int]] + without_parts(s@.skip(i + 1), part@)));
            r.push(chars[i]);
            i += 1;
        }
    }
    assert(r@ + without_parts(s@.skip(i as int), part@) =~= r@);
    r
}

/// The characters of `s` up to the first white space.
pub open spec fn leading_word(s: Seq<char>) -> Seq<char>
    decreases s.len(),
{
    if s.len() == 0 || white_space(s[0]) {
        Seq::empty()
    } else {
        seq![s[0]] + leading_word(s.drop_first())
    }
}

/// The first run of characters that are not white space; empty when there is
/// none.
pub open spec fn first_word_of(s: Seq<char>) -> Seq<char>
    decreases s.len(),
{
    if s.len() > 0 && white_space(s[0]) {
        first_word_of(s.drop_first())
    } else {
        leading_word(s)
    }
}

proof fn lemma_leading_word(s: Seq<char>, j: int)
    requires
        0 <= j <= s.len(),
        forall|k: int| 0 <= k < j ==> !white_space(#[trigger] s[k]),
        j < s.len() ==> white_space(s[j]),
    ensures
        leading_word(s) == s.subrange(0, j),
    decreases s.len(),
{
    if j == 0 {
        assert(s.subrange(0, j) =~= Seq::<char>::empty());
    } else {
        lemma_leading_word(s.drop_first(), j - 1);
        assert(seq![s[0]] + s.drop_first().subrange(0, j - 1) =~= s.subrange(0, j));
    }
}

proof fn lemma_first_word(s: Seq<char>, i: int, j: int)
    requires
        0 <= i <= j <= s.len(),
        forall|k: int| 0 <= k < i ==> white_space(#[trigger] s[k]),
        forall|k: int| i <= k < j ==> !white_space(#[trigger] s[k]),
        i == j ==> j == s.len(),
        j < s.len() ==> white_space(s[j]),
    ensures
        first_word_of(s) == s.subrange(i, j),
    decreases i,
{
    if i == 0 {
        lemma_leading_word(s, j);
    } else {
        lemma_first_word(s.drop_first(), i - 1, j - 1);
        assert(s.drop_first().subrange(i - 1, j - 1) =~= s.subrange(i, j));
    }
}

/// The first word of a text; empty when the text has none.
pub fn first_word(s: &str) -> (r: String)
    ensures
        r@ == first_word_of(s@),
{
    let chars = chars_of(s);
    let mut i: usize = 0;
    while i < chars.len() && chars[i].is_whitespace()
        invariant
            i <= chars@.len(),
            forall|k: int| 0 <= k < i ==> white_space(#[trigger] chars@[k]),
        decreases chars@.len() - i,
    {
        i += 1;
    }
    let mut j: usize = i;
    while j < chars.len() && !chars[j].is_whitespace()
        invariant
            i <= j <= chars@.len(),
            forall|k: int| i <= k < j ==> !white_space(#[trigger] chars@[k]),
        decreases chars@.len() - j,
    {
        j += 1;
    }
    proof {
        lemma_first_word(chars@, i as int, j as int);
    }
    text_of(&chars, i, j)
}

/// The text without the copies of `last` at its end.
pub open spec fn without_tail(s: Seq<char>, last: char) -> Seq<char>
    decreases s.len(),
{
    if s.len() > 0 && s.last() == last {
        without_tail(s.drop_last(), last)
    } else {
        s
    }
}

/// Takes the copies of `last` off the end of a text.
pub fn strip_tail(s: &str, last: char) -> (r: String)
    ensures
        r@ == without_tail(s@, last),
{
    let chars = chars_of(s);
    let mut j: usize = chars.len();
    assert(s@.take(j as int) =~= s@);
    while j > 0 && chars[j - 1] == last
        invariant
            chars@ == s@,
            j <= chars@.len(),
            without_tail(s@.take(j as int), last) == without_tail(s@, last),
        decreases j,
    {
        assert(s@.take(j as int).drop_last() =~= s@.take(j - 1));
        j -= 1;
    }
    assert(chars@.subrange(0, j as int) =~= s@.take(j as int));
    text_of(&chars, 0, j)
}

/// The lower-case form of an ASCII capital; any other character as it is.
pub open spec fn ascii_lower_char(c: char) -> char {
    if 'A' <= c && c <= 'Z' {
        ((c as u8) + 32) as u8 as char
    } else {
        c
    }
}

/// The text with its ASCII capitals in lower case.
pub open spec fn ascii_lower(s: Seq<char>) -> Seq<char> {
    s.map_values(|c: char| ascii_lower_char(c))
}

/// Puts the ASCII capitals of a text in lower case.
pub fn to_ascii_lower(s: &str) -> (r: String)
    ensures
        r@ == ascii_lower(s@),
{
    let chars = chars_of(s);
    let mut r = String::new();
    let mut i: usize = 0;
    while i < chars.len()
        invariant
            chars@ == s@,
            i <= chars@.len(),
            r@ =~= ascii_lower(s@.take(i as int)),
        decreases chars@.len() - i,
    {
        let c = chars[i];
        if 'A' <= c && c <= 'Z' {
            r.push((c as u8 + 32) as char);
        } else {
            r.push(c);
        }
        i += 1;
        assert(s@.take(i as int) =~= s@.take(i - 1).push(c));
    }
    assert(s@.take(i as int) =~= s@);
    r
}

/// The lower-case form of a text, as Unicode gives it.
pub uninterp spec fn lower_case(s: Seq<char>) -> Seq<char>;

/// Specifies `str::to_lowercase`, which gives the lower-case form of a text.
/// The form is a function of the text alone. Of a text of ASCII characters it
/// is the text with its capitals in lower case.
pub assume_specification[ str::to_lowercase ](s: &str) -> (r: String)
    ensures
        r@ == lower_case(s@),
        is_ascii_chars(s@) ==> r@ == ascii_lower(s@),
;

/// The text that bytes stand for when what is not UTF-8 in them is replaced.
pub uninterp spec fn lossy_text(bytes: Seq<u8>) -> Seq<char>;

/// Calls `String::from_utf8_lossy`, which decodes bytes and puts a replacement
/// character where they are not UTF-8. Bytes that are UTF-8 are decoded as
/// they stand.
#[verifier::external_body]
pub(crate) fn decode_lossy(bytes: &Vec<u8>) -> (r: String)
    ensures
        r@ == lossy_text(bytes@),
        valid_utf8(bytes@) ==> r@ == decode_utf8(bytes@),
{
    String::from_utf8_lossy(bytes).into_owned()
}

/// Calls `String::from_utf8`, which decodes bytes that are UTF-8 and refuses
/// all others.
#[verifier::external_body]
pub(crate) fn decode_strict(bytes: &Vec<u8>) -> (r: Option<String>)
    ensures
        r is Some <==> valid_utf8(bytes@),
        r is Some ==> r->0@ == decode_utf8(bytes@),
{
    String::from_utf8(bytes.clone()).ok()
}

/// The order of texts by code points, character by character; a text comes
/// before every longer one that begins with it.
pub open spec fn text_le(a: Seq<char>, b: Seq<char>) -> bool
    decreases a.len(),
{
    if a.len() == 0 {
        true
    } else if b.len() == 0 {
        false
    } else if a[0] == b[0] {
        text_le(a.drop_first(), b.drop_first())
    } else {
        a[0] < b[0]
    }
}

/// Any two texts are ordered one way or the other.
pub proof fn lemma_text_le_total(a: Seq<char>, b: Seq<char>)
    ensures
        text_le(a, b) || text_le(b, a),
    decreases a.len(),
{
    if a.len() > 0 && b.len() > 0 && a[0] == b[0] {
        lemma_text_le_total(a.drop_first(), b.drop_first());
    }
}

/// The order of texts is transitive.
pub proof fn lemma_text_le_transitive(a: Seq<char>, b: Seq<char>, c: Seq<char>)
    requires
        text_le(a, b),
        text_le(b, c),
    ensures
        text_le(a, c),
    decreases a.len(),
{
    if a.len() > 0 && b.len() > 0 && c.len() > 0 && a[0] == b[0] && b[0] == c[0] {
        lemma_text_le_transitive(a.drop_first(), b.drop_first(), c.drop_first());
    }
}

/// Tells whether text `a` comes before text `b` or is the same.
pub fn not_after(a: &str, b: &str) -> (r: bool)
    ensures
        r == text_le(a@, b@),
{
    let left = chars_of(a);
    let right = chars_of(b);
    let mut i: usize = 0;
    assert(a@.skip(0) =~= a@);
    assert(b@.skip(0) =~= b@);
    while i < left.len()
        invariant
            left@ == a@,
            right@ == b@,
            i <= a@.len(),
            i <= b@.len(),
            text_le(a@.skip(i as int), b@.skip(i as int)) == text_le(a@, b@),
        decreases a@.len() - i,
    {
        if i >= right.len() {
            return false;
        }
        assert(a@.skip(i as int)[0] == a@[i as int]);
        assert(b@.skip(i as int)[0] == b@[i as int]);
        if left[i] != right[i] {
            return left[i] < right[i];
        }
        assert(a@.skip(i as int).drop_first() =~= a@.skip(i + 1));
        assert(b@.skip(i as int).drop_first() =~= b@.skip(i + 1));
        i += 1;
    }
    true
}

/// Tells whether two texts are the same.
pub fn same_text(a: &str, b: &str) -> (r: bool)
    ensures
        r == (a@ == b@),
{
    let left = chars_of(a);
    let right = chars_of(b);
    if left.len() != right.len() {
        return false;
    }
    let mut i: usize = 0;
    while i < left.len()
        invariant
            left@ == a@,
            right@ == b@,
            a@.len() == b@.len(),
            i <= a@.len(),
            forall|k: int| 0 <= k < i ==> #[trigger] a@[k] == b@[k],
        decreases a@.len() - i,
    {
        if left[i] != right[i] {
            return false;
        }
        i += 1;
    }
    assert(a@ =~= b@);
    true
}

/// The character of a decimal digit.
pub open spec fn digit(d: nat) -> char {
    (48 + d) as u8 as char
}

/// A number in decimal, without leading zeros.
pub open spec fn decimal(n: nat) -> Seq<char>
    decreases n,
{
    if n < 10 {
        seq![digit(n)]
    } else {
        decimal(n / 10).push(digit(n % 10))
    }
}

/// Writes a number in decimal.
pub fn decimal_text(n: usize) -> (r: String)
    ensures
        r@ == decimal(n as nat),
    decreases n,
{
    if n < 10 {
        let mut r = String::new();
        r.push((48 + n as u8) as char);
        assert(r@ =~= decimal(n as nat));
        r
    } else {
        let mut r = decimal_text(n / 10);
        r.push((48 + (n % 10) as u8) as char);
        r
    }
}

/// Puts two texts one after the other.
pub fn join2(a: &str, b: &str) -> (r: String)
    ensures
        r@ == a@ + b@,
{
    let mut r = a.to_owned();
    r.append(b);
    r
}

/// Puts three texts one after the other.
pub fn join3(a: &str, b: &str, c: &str) -> (r: String)
    ensures
        r@ == a@ + b@ + c@,
{
    let mut r = a.to_owned();
    r.append(b);
    r.append(c);
    r
}

/// Puts four texts one after the other.
pub fn join4(a: &str, b: &str, c: &str, d: &str) -> (r: String)
    ensures
        r@ == a@ + b@ + c@ + d@,
{
    let mut r = a.to_owned();
    r.append(b);
    r.append(c);
    r.append(d);
    r
}

/// The texts of a list with `separator` between each two neighbours.
pub open spec fn joined(parts: Seq<Seq<char>>, separator: Seq<char>) -> Seq<char>
    decreases parts.len(),
{
    if parts.len() == 0 {
        Seq::empty()
    } else if parts.len() == 1 {
        parts[0]
    } else {
        joined(parts.drop_last(), separator) + separator + parts.last()
    }
}

/// Puts the texts of a list one after the other, with `separator` between
/// them.
pub fn join_with(parts: &Vec<String>, separator: &str) -> (r: String)
    ensures
        r@ == joined(parts.deep_view(), separator@),
{
    let mut r = String::new();
    let mut i: usize = 0;
    while i < parts.len()
        invariant
            i <= parts@.len(),
            r@ =~= joined(parts.deep_view().take(i as int), separator@),
        decreases parts@.len() - i,
    {
        let ghost before = parts.deep_view().take(i as int);
        let ghost after = parts.deep_view().take(i + 1);
        assert(after.drop_last() =~= before);
        assert(after.last() == parts@[i as int]@);
        if i > 0 {
            r.append(separator);
        }
        r.append(parts[i].as_str());
        i += 1;
    }
    assert(parts.deep_view().take(i as int) =~= parts.deep_view());
    r
}

/// Clones a list of texts.
pub fn clone_texts(texts: &Vec<String>) -> (r: Vec<String>)
    ensures
        r.deep_view() == texts.deep_view(),
{
    let r = texts.clone();
    assert(r.deep_view() =~= texts.deep_view());
    r
}

}
