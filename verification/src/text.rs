//! Text as the library reads and writes it: comparison, search, joining, and
//! the decimal and hexadecimal spellings of numbers and bytes.
use vstd::prelude::*;
use vstd::string::*;
use vstd::utf8::*;

verus! {

/// Two byte strings compared in full.
pub fn same_bytes(a: &[u8], b: &[u8]) -> (same: bool)
    ensures
        same == (a@ == b@),
{
    if a.len() != b.len() {
        return false;
    }
    let mut i: usize = 0;
    while i < a.len()
        invariant
            i <= a@.len(),
            a@.len() == b@.len(),
            forall|j: int| 0 <= j < i ==> a@[j] == b@[j],
        decreases a@.len() - i,
    {
        if a[i] != b[i] {
            return false;
        }
        i = i + 1;
    }
    assert(a@ =~= b@);
    true
}

/// Equal encodings come from equal text.
pub proof fn encoding_is_injective(a: Seq<char>, b: Seq<char>)
    ensures
        encode_utf8(a) == encode_utf8(b) ==> a == b,
{
    encode_utf8_decode_utf8(a);
    encode_utf8_decode_utf8(b);
}

/// Two pieces of text compared in full.
pub fn same_text(a: &str, b: &str) -> (same: bool)
    ensures
        same == (a@ == b@),
{
    proof {
        encoding_is_injective(a@, b@);
    }
    same_bytes(a.as_bytes(), b.as_bytes())
}

/// `String::from_utf8` reads bytes as UTF-8: it succeeds exactly on valid
/// UTF-8, with the text that has that encoding.
#[verifier::external_body]
pub(crate) fn utf8_text(bytes: Vec<u8>) -> (text: Result<String, ()>)
    ensures
        match text {
            Ok(text) => valid_utf8(bytes@) && text@ == decode_utf8(bytes@),
            Err(_) => !valid_utf8(bytes@),
        },
{
    String::from_utf8(bytes).map_err(|_| ())
}

/// An optional piece of text by what it spells.
pub open spec fn opt_text(value: Option<String>) -> Option<Seq<char>> {
    match value {
        Some(text) => Some(text@),
        None => None,
    }
}

/// The characters of a piece of text.
pub fn chars_of(text: &str) -> (chars: Vec<char>)
    ensures
        chars@ == text@,
{
    let mut chars: Vec<char> = Vec::new();
    for c in it: text.chars()
        invariant
            it.seq() == text@,
            chars@ == text@.take(it.index() as int),
    {
        chars.push(c);
        assert(chars@ =~= text@.take(it.index() + 1));
    }
    assert(chars@ =~= text@);
    chars
}

/// `String::push` appends one character.
pub assume_specification[ String::push ](text: &mut String, c: char)
    ensures
        final(text)@ == old(text)@.push(c),
;

/// One piece of text after another.
pub fn concat(a: &str, b: &str) -> (joined: String)
    ensures
        joined@ == a@ + b@,
{
    let mut joined = a.to_owned();
    joined.append(b);
    joined
}

/// Three pieces of text in a row.
pub fn concat3(a: &str, b: &str, c: &str) -> (joined: String)
    ensures
        joined@ == a@ + b@ + c@,
{
    let mut joined = concat(a, b);
    joined.append(c);
    joined
}

/// Pieces of text in a row, with a separator between each two.
pub open spec fn joined(parts: Seq<Seq<char>>, separator: Seq<char>) -> Seq<char>
    decreases parts.len(),
{
    if parts.len() == 0 {
        Seq::empty()
    } else if parts.len() == 1 {
        parts[0]
    } else {
        joined(parts.drop_last(), separator) + separator + parts.last()
    }
}

/// Texts by what they spell.
pub open spec fn texts(parts: Seq<String>) -> Seq<Seq<char>> {
    parts.map_values(|part: String| part@)
}

/// Appends a piece of text to a list.
pub fn push_text(parts: &mut Vec<String>, text: &str)
    ensures
        texts(final(parts)@) == texts(old(parts)@).push(text@),
        final(parts)@.len() == old(parts)@.len() + 1,
{
    let ghost before = texts(parts@);
    parts.push(text.to_owned());
    assert(texts(parts@) =~= before.push(text@));
}

/// Whether two lists hold the same pieces of text in the same order.
pub fn same_texts(a: &Vec<String>, b: &Vec<String>) -> (same: bool)
    ensures
        same == (texts(a@) == texts(b@)),
{
    if a.len() != b.len() {
        assert(texts(a@).len() != texts(b@).len());
        return false;
    }
    let mut i: usize = 0;
    while i < a.len()
        invariant
            i <= a@.len(),
            a@.len() == b@.len(),
            forall|j: int| 0 <= j < i ==> (#[trigger] texts(a@)[j]) == texts(b@)[j],
        decreases a@.len() - i,
    {
        assert(texts(a@)[i as int] == a@[i as int]@);
        assert(texts(b@)[i as int] == b@[i as int]@);
        if !same_text(a[i].as_str(), b[i].as_str()) {
            return false;
        }
        i = i + 1;
    }
    assert(texts(a@) =~= texts(b@));
    true
}

/// Whether a text is among some others.
pub fn listed(names: &Vec<String>, name: &str) -> (found: bool)
    ensures
        found == crate::text::texts(names@).contains(name@),
{
    let ghost all = crate::text::texts(names@);
    let mut i: usize = 0;
    while i < names.len()
        invariant
            i <= names@.len(),
            all == crate::text::texts(names@),
            forall|j: int| 0 <= j < i ==> #[trigger] all[j] != name@,
        decreases names@.len() - i,
    {
        assert(all[i as int] == names@[i as int]@);
        if same_text(names[i].as_str(), name) {
            return true;
        }
        i = i + 1;
    }
    false
}

/// Copies a list of pieces of text.
pub fn copy_texts(parts: &Vec<String>) -> (copy: Vec<String>)
    ensures
        texts(copy@) == texts(parts@),
{
    let mut copy: Vec<String> = Vec::new();
    append_texts(&mut copy, parts);
    assert(texts(copy@) =~= texts(parts@));
    copy
}

/// Appends pieces of text to a list.
pub fn append_texts(parts: &mut Vec<String>, more: &Vec<String>)
    ensures
        texts(final(parts)@) == texts(old(parts)@) + texts(more@),
{
    let ghost before = texts(parts@);
    let ghost all = texts(more@);
    let mut i: usize = 0;
    assert(before + all.take(0) =~= before);
    while i < more.len()
        invariant
            i <= more@.len(),
            all == texts(more@),
            texts(parts@) == before + all.take(i as int),
        decreases more@.len() - i,
    {
        push_text(parts, more[i].as_str());
        assert(all[i as int] == more@[i as int]@);
        assert(texts(parts@) =~= before + all.take(i + 1));
        i = i + 1;
    }
    assert(all.take(i as int) =~= all);
}

/// Pieces of text in a row, with a separator between each two.
pub fn join(parts: &Vec<String>, separator: &str) -> (text: String)
    ensures
        text@ == joined(texts(parts@), separator@),
{
    let ghost all = texts(parts@);
    if parts.len() == 0 {
        let text = String::new();
        assert(text@ =~= joined(all, separator@));
        return text;
    }
    let mut text = parts[0].clone();
    let mut i: usize = 1;
    assert(all.take(1).len() == 1 && all.take(1)[0] == parts@[0]@);
    while i < parts.len()
        invariant
            1 <= i <= parts@.len(),
            all == texts(parts@),
            text@ == joined(all.take(i as int), separator@),
        decreases parts@.len() - i,
    {
        assert(all.take(i + 1).drop_last() =~= all.take(i as int));
        assert(all.take(i + 1).last() == parts@[i as int]@);
        text.append(separator);
        text.append(parts[i].as_str());
        i = i + 1;
    }
    assert(all.take(i as int) =~= all);
    text
}

/// The text that some characters spell.
pub fn spell(chars: &Vec<char>) -> (text: String)
    ensures
        text@ == chars@,
{
    let mut text = String::new();
    let mut i: usize = 0;
    assert(text@ =~= chars@.take(0));
    while i < chars.len()
        invariant
            i <= chars@.len(),
            text@ == chars@.take(i as int),
        decreases chars@.len() - i,
    {
        text.push(chars[i]);
        assert(text@ =~= chars@.take(i + 1));
        i = i + 1;
    }
    assert(text@ =~= chars@);
    text
}

/// A decimal digit.
pub open spec fn digit(value: int) -> char {
    (48 + value) as char
}

/// The decimal spelling of a number, without leading zeros.
pub open spec fn decimal_text(value: nat) -> Seq<char>
    decreases value,
{
    if value < 10 {
        seq![digit(value as int)]
    } else {
        decimal_text(value / 10).push(digit((value % 10) as int))
    }
}

/// The decimal spelling of a number, without leading zeros.
pub fn decimal(value: u64) -> (text: String)
    ensures
        text@ == decimal_text(value as nat),
    decreases value,
{
    let last: char = (48u8 + (value % 10) as u8) as char;
    if value < 10 {
        let mut text = String::new();
        text.push(last);
        assert(text@ =~= decimal_text(value as nat));
        text
    } else {
        let mut text = decimal(value / 10);
        text.push(last);
        text
    }
}

/// Different numbers are spelled differently.
pub proof fn decimal_is_injective(a: nat, b: nat)
    ensures
        decimal_text(a) == decimal_text(b) ==> a == b,
        decimal_text(a).len() > 0,
    decreases a,
{
    if decimal_text(a) == decimal_text(b) {
        assert(decimal_text(a).last() == decimal_text(b).last());
        if a >= 10 && b >= 10 {
            assert(decimal_text(a).drop_last() =~= decimal_text(a / 10));
            assert(decimal_text(b).drop_last() =~= decimal_text(b / 10));
            decimal_is_injective(a / 10, b / 10);
        } else if a >= 10 {
            decimal_is_injective(a / 10, 0);
        } else if b >= 10 {
            decimal_is_longer(b);
        }
    }
}

/// Decimal spellings hold digits only.
pub proof fn decimal_holds_digits(value: nat)
    ensures
        forall|i: int|
            0 <= i < decimal_text(value).len() ==> '0' <= #[trigger] decimal_text(value)[i]
                && decimal_text(value)[i] <= '9',
    decreases value,
{
    let text = decimal_text(value);
    let rest = decimal_text(value / 10);
    if value >= 10 {
        decimal_holds_digits(value / 10);
    }
    assert forall|i: int| 0 <= i < text.len() implies '0' <= #[trigger] text[i] && text[i]
        <= '9' by {
        if value < 10 {
            assert(text[i] == digit(value as int));
        } else if i < rest.len() {
            assert(text[i] == rest[i]);
        } else {
            assert(text[i] == digit((value % 10) as int));
        }
    }
}

/// Numbers of two digits and more are spelled with two characters and more.
proof fn decimal_is_longer(value: nat)
    requires
        value >= 10,
    ensures
        decimal_text(value).len() >= 2,
    decreases value,
{
    if value / 10 >= 10 {
        decimal_is_longer(value / 10);
    } else {
        assert(decimal_text(value / 10).len() == 1);
    }
}

/// Where a character first occurs in a text, or the length of the text where
/// it does not.
pub open spec fn first_at(text: Seq<char>, c: char) -> int
    decreases text.len(),
{
    if text.len() == 0 || text[0] == c {
        0
    } else {
        1 + first_at(text.skip(1), c)
    }
}

/// What stands before the first occurrence of a character, or the whole text
/// where there is none.
pub open spec fn head(text: Seq<char>, c: char) -> Seq<char> {
    text.take(first_at(text, c))
}

/// What stands behind the first occurrence of a character.
pub open spec fn tail(text: Seq<char>, c: char) -> Seq<char> {
    text.skip(first_at(text, c) + 1)
}

/// The first occurrence is the place before which there is none.
pub proof fn first_at_is_first(text: Seq<char>, c: char, i: int)
    requires
        0 <= i <= text.len(),
        forall|j: int| 0 <= j < i ==> #[trigger] text[j] != c,
        i < text.len() ==> text[i] == c,
    ensures
        first_at(text, c) == i,
        text.contains(c) == (i < text.len()),
    decreases text.len(),
{
    if i > 0 {
        let rest = text.skip(1);
        assert forall|j: int| 0 <= j < i - 1 implies #[trigger] rest[j] != c by {
            assert(rest[j] == text[j + 1]);
        }
        first_at_is_first(rest, c, i - 1);
    }
    if i < text.len() {
        assert(text[i] == c);
    }
}

/// Splits a text at the first occurrence of a character.
pub fn split_once(text: &str, c: char) -> (parts: Option<(String, String)>)
    ensures
        match parts {
            Some((before, after)) => text@.contains(c) && before@ == head(text@, c) && after@
                == tail(text@, c),
            None => !text@.contains(c),
        },
{
    let chars = chars_of(text);
    let mut i: usize = 0;
    while i < chars.len() && chars[i] != c
        invariant
            i <= chars@.len(),
            forall|j: int| 0 <= j < i ==> #[trigger] chars@[j] != c,
        decreases chars@.len() - i,
    {
        i = i + 1;
    }
    proof {
        first_at_is_first(chars@, c, i as int);
    }
    if i == chars.len() {
        return None;
    }
    let before = slice(&chars, 0, i);
    let after = slice(&chars, i + 1, chars.len());
    assert(after@ =~= tail(text@, c));
    Some((before, after))
}

/// A piece of a text.
pub fn slice(chars: &Vec<char>, from: usize, to: usize) -> (text: String)
    requires
        from <= to <= chars@.len(),
    ensures
        text@ == chars@.subrange(from as int, to as int),
{
    let mut text = String::new();
    let mut i: usize = from;
    assert(text@ =~= chars@.subrange(from as int, from as int));
    while i < to
        invariant
            from <= i <= to <= chars@.len(),
            text@ == chars@.subrange(from as int, i as int),
        decreases to - i,
    {
        text.push(chars[i]);
        assert(text@ =~= chars@.subrange(from as int, i + 1));
        i = i + 1;
    }
    text
}

/// Whether a character occurs in a text.
pub fn has_char(text: &str, c: char) -> (found: bool)
    ensures
        found == text@.contains(c),
{
    let chars = chars_of(text);
    let mut i: usize = 0;
    while i < chars.len()
        invariant
            i <= chars@.len(),
            chars@ == text@,
            forall|j: int| 0 <= j < i ==> #[trigger] chars@[j] != c,
        decreases chars@.len() - i,
    {
        if chars[i] == c {
            assert(text@[i as int] == c);
            return true;
        }
        i = i + 1;
    }
    false
}

/// Whether a text occurs in another at a place.
pub open spec fn occurs_at(text: Seq<char>, needle: Seq<char>, i: int) -> bool {
    0 <= i && i + needle.len() <= text.len() && text.subrange(i, i + needle.len()) == needle
}

/// Whether a text occurs in another.
pub open spec fn occurs(text: Seq<char>, needle: Seq<char>) -> bool {
    exists|i: int| occurs_at(text, needle, i)
}

/// Whether a text occurs in another.
pub fn contains(text: &str, needle: &str) -> (found: bool)
    ensures
        found == occurs(text@, needle@),
{
    let chars = chars_of(text);
    let wanted = chars_of(needle);
    if wanted.len() > chars.len() {
        return false;
    }
    let last: usize = chars.len() - wanted.len();
    let mut i: usize = 0;
    loop
        invariant
            chars@ == text@,
            wanted@ == needle@,
            wanted@.len() <= chars@.len(),
            last == chars@.len() - wanted@.len(),
            i <= last,
            forall|j: int| 0 <= j < i ==> !#[trigger] occurs_at(text@, needle@, j),
        decreases last - i,
    {
        let mut k: usize = 0;
        while k < wanted.len() && chars[i + k] == wanted[k]
            invariant
                k <= wanted@.len(),
                i + wanted.len() <= chars.len(),
                forall|m: int| 0 <= m < k ==> chars@[i + m] == #[trigger] wanted@[m],
            decreases wanted@.len() - k,
        {
            k = k + 1;
        }
        if k == wanted.len() {
            assert(text@.subrange(i as int, i + needle@.len()) =~= needle@);
            assert(occurs_at(text@, needle@, i as int));
            return true;
        }
        assert(!occurs_at(text@, needle@, i as int)) by {
            assert(text@.subrange(i as int, i + needle@.len())[k as int] != needle@[k as int]);
        }
        if i == last {
            return false;
        }
        i = i + 1;
    }
}

/// Whether a text begins with another.
pub fn starts_with(text: &str, prefix: &str) -> (found: bool)
    ensures
        found == prefix@.is_prefix_of(text@),
{
    let chars = chars_of(text);
    let wanted = chars_of(prefix);
    if wanted.len() > chars.len() {
        return false;
    }
    let mut k: usize = 0;
    while k < wanted.len()
        invariant
            k <= wanted@.len(),
            wanted@.len() <= chars@.len(),
            chars@ == text@,
            wanted@ == prefix@,
            forall|m: int| 0 <= m < k ==> chars@[m] == #[trigger] wanted@[m],
        decreases wanted@.len() - k,
    {
        if chars[k] != wanted[k] {
            return false;
        }
        k = k + 1;
    }
    true
}

/// Whether a character has the Unicode property `White_Space`: the tabulators
/// and line breaks of ASCII, the next line, the spaces of every width, and the
/// line and paragraph separators.
pub open spec fn is_white_space(c: char) -> bool {
    ||| '\u{9}' <= c <= '\u{d}'
    ||| c == ' '
    ||| c == '\u{85}'
    ||| c == '\u{a0}'
    ||| c == '\u{1680}'
    ||| '\u{2000}' <= c <= '\u{200a}'
    ||| c == '\u{2028}'
    ||| c == '\u{2029}'
    ||| c == '\u{202f}'
    ||| c == '\u{205f}'
    ||| c == '\u{3000}'
}

/// Whether a character has the Unicode property `White_Space`.
fn white_space(c: char) -> (white: bool)
    ensures
        white == is_white_space(c),
{
    ('\u{9}' <= c && c <= '\u{d}') || c == ' ' || c == '\u{85}' || c == '\u{a0}' || c == '\u{1680}'
        || ('\u{2000}' <= c && c <= '\u{200a}') || c == '\u{2028}' || c == '\u{2029}' || c
        == '\u{202f}' || c == '\u{205f}' || c == '\u{3000}'
}

/// Whether a text is nothing but white space.
pub open spec fn is_blank_text(text: Seq<char>) -> bool {
    forall|i: int| 0 <= i < text.len() ==> is_white_space(#[trigger] text[i])
}

/// Whether a text is nothing but white space.
pub fn is_blank(text: &str) -> (blank: bool)
    ensures
        blank == is_blank_text(text@),
{
    let chars = chars_of(text);
    let mut i: usize = 0;
    while i < chars.len()
        invariant
            i <= chars@.len(),
            chars@ == text@,
            forall|j: int| 0 <= j < i ==> is_white_space(#[trigger] text@[j]),
        decreases chars@.len() - i,
    {
        if !white_space(chars[i]) {
            return false;
        }
        i = i + 1;
    }
    true
}

/// Where a text begins without the white space in front.
pub open spec fn trim_from(text: Seq<char>) -> nat
    decreases text.len(),
{
    if text.len() > 0 && is_white_space(text[0]) {
        1 + trim_from(text.skip(1))
    } else {
        0
    }
}

/// Where a text ends without the white space behind.
pub open spec fn trim_to(text: Seq<char>) -> nat
    decreases text.len(),
{
    if text.len() > 0 && is_white_space(text.last()) {
        trim_to(text.drop_last())
    } else {
        text.len()
    }
}

/// A text without the white space around it.
pub open spec fn trimmed(text: Seq<char>) -> Seq<char> {
    let rest = text.skip(trim_from(text) as int);
    rest.take(trim_to(rest) as int)
}

proof fn trim_is_within(text: Seq<char>)
    ensures
        trim_from(text) <= text.len(),
        trim_to(text) <= text.len(),
    decreases text.len(),
{
    if text.len() > 0 {
        trim_is_within(text.skip(1));
        trim_is_within(text.drop_last());
    }
}

/// A text without the white space around it.
pub fn trim(text: &str) -> (trimmed_text: String)
    ensures
        trimmed_text@ == trimmed(text@),
{
    let chars = chars_of(text);
    let count: usize = chars.len();
    let mut from: usize = 0;
    assert(text@.skip(0) =~= text@);
    while from < count && white_space(chars[from])
        invariant
            from <= count == chars@.len(),
            chars@ == text@,
            trim_from(text@) == from + trim_from(text@.skip(from as int)),
        decreases count - from,
    {
        assert(text@.skip(from as int).skip(1) =~= text@.skip(from + 1));
        from = from + 1;
    }
    let ghost rest = text@.skip(from as int);
    assert(trim_from(rest) == 0);
    let mut to: usize = count;
    assert(rest.take(rest.len() as int) =~= rest);
    while from < to && white_space(chars[to - 1])
        invariant
            from <= to <= count == chars@.len(),
            chars@ == text@,
            rest == text@.skip(from as int),
            trim_to(rest) == trim_to(rest.take(to - from)),
        decreases to - from,
    {
        assert(rest.take(to - from).drop_last() =~= rest.take(to - from - 1));
        assert(rest.take(to - from).last() == chars@[to - 1]);
        to = to - 1;
    }
    proof {
        trim_is_within(rest);
        assert(to > from ==> rest.take(to - from).last() == chars@[to - 1]);
        assert(trim_to(rest) == to - from);
        assert(chars@.subrange(from as int, to as int) =~= trimmed(text@));
    }
    slice(&chars, from, to)
}

/// Whether a character is an ASCII letter or digit.
pub open spec fn is_alphanumeric(c: char) -> bool {
    ('0' <= c && c <= '9') || ('a' <= c && c <= 'z') || ('A' <= c && c <= 'Z')
}

/// Whether a character is an ASCII letter or digit.
pub fn alphanumeric(c: char) -> (found: bool)
    ensures
        found == is_alphanumeric(c),
{
    ('0' <= c && c <= '9') || ('a' <= c && c <= 'z') || ('A' <= c && c <= 'Z')
}

/// A path with another one appended: an absolute one replaces it.
pub open spec fn joined_path(base: Seq<char>, part: Seq<char>) -> Seq<char> {
    if part.len() > 0 && part[0] == '/' {
        part
    } else if base.len() == 0 || base.last() == '/' {
        base + part
    } else {
        base.push('/') + part
    }
}

/// Where the last slash of a path is, or -1.
pub open spec fn last_slash(path: Seq<char>) -> int
    decreases path.len(),
{
    if path.len() == 0 {
        -1
    } else if path.last() == '/' {
        path.len() - 1
    } else {
        last_slash(path.drop_last())
    }
}

/// The last slash is within its path.
pub proof fn last_slash_is_within(path: Seq<char>)
    ensures
        -1 <= last_slash(path) < path.len(),
    decreases path.len(),
{
    if path.len() > 0 {
        last_slash_is_within(path.drop_last());
    }
}

/// The components of a path. A slash in front is one, and so is a `.` in front;
/// every other slash only parts them, and an empty one or another `.` is none.
pub open spec fn path_parts(path: Seq<char>) -> Seq<Seq<char>>
    decreases path.len(),
{
    let slash = last_slash(path);
    let part = path.skip(slash + 1);
    let before = if slash < 0 {
        Seq::empty()
    } else if slash == 0 {
        seq![seq!['/']]
    } else {
        proof {
            last_slash_is_within(path);
        }
        path_parts(path.take(slash))
    };
    with_part(before, part, slash < 0)
}

/// Components with another one behind them, unless it is empty, or a `.` that
/// does not stand in front.
pub open spec fn with_part(before: Seq<Seq<char>>, part: Seq<char>, in_front: bool) -> Seq<Seq<char>> {
    if part.len() == 0 || (part == seq!['.'] && !in_front) {
        before
    } else {
        before.push(part)
    }
}

/// The components of a path.
fn parts_of(path: &str) -> (parts: Vec<String>)
    ensures
        texts(parts@) == path_parts(path@),
{
    let chars = chars_of(path);
    let mut parts: Vec<String> = Vec::new();
    let mut start: usize = 0;
    let mut i: usize = 0;
    let ghost mut before: Seq<Seq<char>> = Seq::empty();
    assert(texts(parts@) =~= before);
    while i < chars.len()
        invariant
            start <= i <= chars@.len(),
            chars@ == path@,
            last_slash(path@.take(i as int)) == start - 1,
            texts(parts@) == before,
            start == 0 ==> before == Seq::<Seq<char>>::empty(),
            start == 1 ==> before == seq![seq!['/']],
            start > 1 ==> before == path_parts(path@.take(start - 1)),
        decreases chars@.len() - i,
    {
        assert(path@.take(i + 1).drop_last() =~= path@.take(i as int));
        assert(path@.take(i + 1).last() == path@[i as int]);
        if chars[i] == '/' {
            let ghost ended = path@.take(i as int);
            if i == 0 {
                push_text(&mut parts, "/");
                proof {
                    reveal_strlit("/");
                    before = seq![seq!['/']];
                    assert("/"@ =~= seq!['/']);
                    assert(texts(parts@) =~= before);
                }
            } else {
                push_part(&mut parts, &chars, start, i);
                proof {
                    assert(ended.skip(start as int) =~= chars@.subrange(start as int, i as int));
                    if start > 0 {
                        assert(ended.take(start - 1) =~= path@.take(start - 1));
                    }
                    before = path_parts(ended);
                }
            }
            start = i + 1;
        }
        i = i + 1;
    }
    assert(path@.take(i as int) =~= path@);
    push_part(&mut parts, &chars, start, i);
    assert(path@.skip(start as int) =~= chars@.subrange(start as int, i as int));
    parts
}

fn push_part(parts: &mut Vec<String>, chars: &Vec<char>, start: usize, end: usize)
    requires
        start <= end <= chars@.len(),
    ensures
        texts(final(parts)@) == with_part(
            texts(old(parts)@),
            chars@.subrange(start as int, end as int),
            start == 0,
        ),
{
    let ghost part = chars@.subrange(start as int, end as int);
    if start == end {
        return;
    }
    if start > 0 && end - start == 1 && chars[start] == '.' {
        assert(part =~= seq!['.']);
        return;
    }
    proof {
        if part == seq!['.'] {
            assert(part.len() == 1 && part[0] == chars@[start as int]);
        }
    }
    let text = slice(chars, start, end);
    push_text(parts, text.as_str());
}

/// Whether two texts are the same path: they have the same components.
pub fn same_path(a: &str, b: &str) -> (same: bool)
    ensures
        same == (path_parts(a@) == path_parts(b@)),
{
    same_texts(&parts_of(a), &parts_of(b))
}

/// Different parts that are not absolute make different paths.
pub proof fn parts_make_different_paths(base: Seq<char>, part: Seq<char>, other: Seq<char>)
    requires
        part != other,
        part.len() > 0 ==> part[0] != '/',
        other.len() > 0 ==> other[0] != '/',
    ensures
        joined_path(base, part) != joined_path(base, other),
{
    let head = if base.len() == 0 || base.last() == '/' {
        base
    } else {
        base.push('/')
    };
    assert(joined_path(base, part).skip(head.len() as int) =~= part);
    assert(joined_path(base, other).skip(head.len() as int) =~= other);
}

/// A path with another one appended: an absolute one replaces it.
pub fn join_path(base: &str, part: &str) -> (path: String)
    ensures
        path@ == joined_path(base@, part@),
{
    let head = chars_of(base);
    let rest = chars_of(part);
    if rest.len() > 0 && rest[0] == '/' {
        return part.to_owned();
    }
    let mut path = base.to_owned();
    if head.len() > 0 && head[head.len() - 1] != '/' {
        path.push('/');
    }
    path.append(part);
    path
}

} // verus!
