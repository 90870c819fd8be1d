//! Character-level text operations used by the drivers' names, addresses and
//! diagnostics.
use vstd::prelude::*;
use vstd::string::*;

verus! {

/// The character of one decimal digit.
pub open spec fn digit_char(digit: nat) -> char {
    if digit == 0 {
        '0'
    } else if digit == 1 {
        '1'
    } else if digit == 2 {
        '2'
    } else if digit == 3 {
        '3'
    } else if digit == 4 {
        '4'
    } else if digit == 5 {
        '5'
    } else if digit == 6 {
        '6'
    } else if digit == 7 {
        '7'
    } else if digit == 8 {
        '8'
    } else {
        '9'
    }
}

/// The shortest decimal numeral of a natural number.
pub open spec fn decimal_text(value: nat) -> Seq<char>
    decreases value,
{
    if value < 10 {
        seq![digit_char(value)]
    } else {
        decimal_text(value / 10).push(digit_char(value % 10))
    }
}

fn digit_text(digit: u64) -> (text: &'static str)
    requires
        digit < 10,
    ensures
        text@ == seq![digit_char(digit as nat)],
{
    proof {
        reveal_strlit("0");
        reveal_strlit("1");
        reveal_strlit("2");
        reveal_strlit("3");
        reveal_strlit("4");
        reveal_strlit("5");
        reveal_strlit("6");
        reveal_strlit("7");
        reveal_strlit("8");
        reveal_strlit("9");
    }
    if digit == 0 {
        "0"
    } else if digit == 1 {
        "1"
    } else if digit == 2 {
        "2"
    } else if digit == 3 {
        "3"
    } else if digit == 4 {
        "4"
    } else if digit == 5 {
        "5"
    } else if digit == 6 {
        "6"
    } else if digit == 7 {
        "7"
    } else if digit == 8 {
        "8"
    } else {
        "9"
    }
}

/// Renders an unsigned integer in decimal.
pub fn decimal(value: u64) -> (text: String)
    ensures
        text@ == decimal_text(value as nat),
    decreases value,
{
    if value < 10 {
        digit_text(value).to_owned()
    } else {
        let mut text = decimal(value / 10);
        text.append(digit_text(value % 10));
        text
    }
}

/// Renders a signed integer in decimal, with a leading minus sign when negative.
pub open spec fn signed_decimal_text(value: int) -> Seq<char> {
    if value < 0 {
        seq!['-'] + decimal_text((-value) as nat)
    } else {
        decimal_text(value as nat)
    }
}

/// Renders a signed integer in decimal.
pub fn signed_decimal(value: i32) -> (text: String)
    ensures
        text@ == signed_decimal_text(value as int),
{
    if value < 0 {
        proof {
            reveal_strlit("-");
        }
        let magnitude: u64 = (-(value as i64)) as u64;
        let minus = "-".to_owned();
        let result = minus.concat(decimal(magnitude).as_str());
        assert(result@ == seq!['-'] + decimal_text(magnitude as nat));
        result
    } else {
        decimal(value as u64)
    }
}

/// Tells whether two texts are equal character by character.
pub fn same_text(left: &str, right: &str) -> (same: bool)
    ensures
        same == (left@ == right@),
{
    left.to_owned() == right.to_owned()
}

/// `text` begins with `prefix`.
pub open spec fn has_prefix(text: Seq<char>, prefix: Seq<char>) -> bool {
    prefix.len() <= text.len() && text.subrange(0, prefix.len() as int) == prefix
}

/// Tells whether `text` begins with `prefix`.
pub fn starts_with(text: &str, prefix: &str) -> (found: bool)
    ensures
        found == has_prefix(text@, prefix@),
{
    let prefix_len: usize = prefix.unicode_len();
    if prefix_len > text.unicode_len() {
        return false;
    }
    same_text(text.substring_char(0, prefix_len), prefix)
}

/// `text` without its first `count` characters.
pub open spec fn without_first(text: Seq<char>, count: nat) -> Seq<char> {
    text.subrange(count as int, text.len() as int)
}

/// What follows `prefix` in `text`, if `text` begins with it.
pub fn strip_prefix<'a>(text: &'a str, prefix: &str) -> (rest: Option<&'a str>)
    ensures
        rest is Some == has_prefix(text@, prefix@),
        rest is Some ==> rest->0@ == without_first(text@, prefix@.len()),
{
    if starts_with(text, prefix) {
        Some(text.substring_char(prefix.unicode_len(), text.unicode_len()))
    } else {
        None
    }
}

/// Tells whether `text` holds the character `wanted`.
pub fn contains_char(text: &str, wanted: char) -> (found: bool)
    ensures
        found == text@.contains(wanted),
{
    let len: usize = text.unicode_len();
    let mut index: usize = 0;
    while index < len
        invariant
            len == text@.len(),
            index <= len,
            forall|i: int| 0 <= i < index ==> text@[i] != wanted,
        decreases len - index,
    {
        if text.get_char(index) == wanted {
            assert(text@[index as int] == wanted);
            return true;
        }
        index = index + 1;
    }
    false
}

/// The ASCII lower-case form of a character; other characters are unchanged.
pub open spec fn ascii_lower(c: char) -> char {
    if 'A' <= c && c <= 'Z' {
        ((c as u32 + 32) as u32) as char
    } else {
        c
    }
}

/// Equality up to the case of ASCII letters.
pub open spec fn same_ignoring_ascii_case(left: Seq<char>, right: Seq<char>) -> bool {
    left.len() == right.len() && forall|i: int|
        0 <= i < left.len() ==> ascii_lower(#[trigger] left[i]) == ascii_lower(right[i])
}

fn lower_char(c: char) -> (lower: char)
    ensures
        lower == ascii_lower(c),
{
    if 'A' <= c && c <= 'Z' {
        ((c as u8) + 32) as char
    } else {
        c
    }
}

/// Tells whether two texts are equal up to the case of ASCII letters.
pub fn eq_ignore_ascii_case(left: &str, right: &str) -> (same: bool)
    ensures
        same == same_ignoring_ascii_case(left@, right@),
{
    let len: usize = left.unicode_len();
    if len != right.unicode_len() {
        return false;
    }
    let mut index: usize = 0;
    while index < len
        invariant
            len == left@.len(),
            len == right@.len(),
            index <= len,
            forall|i: int|
                0 <= i < index ==> ascii_lower(#[trigger] left@[i]) == ascii_lower(right@[i]),
        decreases len - index,
    {
        let l = left.get_char(index);
        let r = right.get_char(index);
        if lower_char(l) != lower_char(r) {
            assert(ascii_lower(left@[index as int]) != ascii_lower(right@[index as int]));
            return false;
        }
        index = index + 1;
    }
    true
}

/// The part of `text` behind its last `mark`, or all of it where there is none.
pub open spec fn after_last(text: Seq<char>, mark: char) -> Seq<char>
    decreases text.len(),
{
    if text.len() == 0 || text.last() == mark {
        Seq::empty()
    } else {
        after_last(text.drop_last(), mark).push(text.last())
    }
}

/// What lies behind the last `mark` lies in the text.
pub proof fn lemma_after_last_within(text: Seq<char>, mark: char, letter: char)
    requires
        after_last(text, mark).contains(letter),
    ensures
        text.contains(letter),
    decreases text.len(),
{
    if text.last() == letter {
        assert(text[text.len() - 1] == letter);
    } else {
        let tail = after_last(text, mark);
        let index = choose|i: int| 0 <= i < tail.len() && tail[i] == letter;
        assert(tail.drop_last() =~= after_last(text.drop_last(), mark));
        assert(after_last(text.drop_last(), mark)[index] == letter);
        lemma_after_last_within(text.drop_last(), mark, letter);
        let place = choose|i: int| 0 <= i < text.len() - 1 && text.drop_last()[i] == letter;
        assert(text[place] == letter);
    }
}

proof fn lemma_after_last_is_suffix(text: Seq<char>, mark: char, cut: int)
    requires
        0 <= cut <= text.len(),
        cut == 0 || text[cut - 1] == mark,
        forall|i: int| cut <= i < text.len() ==> text[i] != mark,
    ensures
        after_last(text, mark) == text.subrange(cut, text.len() as int),
    decreases text.len(),
{
    if cut < text.len() {
        lemma_after_last_is_suffix(text.drop_last(), mark, cut);
        assert(text.drop_last().subrange(cut, text.len() - 1).push(text.last()) =~= text.subrange(
            cut,
            text.len() as int,
        ));
    } else {
        assert(text.subrange(cut, text.len() as int) =~= Seq::empty());
    }
}

/// The part of `text` behind its last `mark`.
pub fn tail_after(text: &str, mark: char) -> (tail: &str)
    ensures
        tail@ == after_last(text@, mark),
{
    let len: usize = text.unicode_len();
    let mut cut: usize = len;
    while cut > 0 && text.get_char(cut - 1) != mark
        invariant
            len == text@.len(),
            cut <= len,
            forall|i: int| cut <= i < len ==> text@[i] != mark,
        decreases cut,
    {
        cut = cut - 1;
    }
    proof {
        lemma_after_last_is_suffix(text@, mark, cut as int);
    }
    text.substring_char(cut, len)
}

/// `text` with every `from` replaced by `to`.
pub open spec fn replaced(text: Seq<char>, from: char, to: char) -> Seq<char> {
    text.map_values(|c: char| if c == from { to } else { c })
}

/// Replaces every `_` by `:`.
pub fn underscores_to_colons(text: &str) -> (result: String)
    ensures
        result@ == replaced(text@, '_', ':'),
{
    proof {
        reveal_strlit(":");
    }
    let len: usize = text.unicode_len();
    let mut result = String::new();
    let mut index: usize = 0;
    while index < len
        invariant
            len == text@.len(),
            index <= len,
            ":"@ == seq![':'],
            result@ == replaced(text@.subrange(0, index as int), '_', ':'),
        decreases len - index,
    {
        if text.get_char(index) == '_' {
            result.append(":");
        } else {
            result.append(text.substring_char(index, index + 1));
        }
        assert(result@ =~= replaced(text@.subrange(0, index + 1), '_', ':'));
        index = index + 1;
    }
    assert(text@.subrange(0, len as int) =~= text@);
    result
}

/// What `<str as Debug>::fmt` writes of a text: the text in double quotes, with every
/// character escaped as `char::escape_debug` does.
pub uninterp spec fn debug_text(text: Seq<char>) -> Seq<char>;

/// `<str as Debug>::fmt` through `format!`: the text as a quoted literal. Which
/// characters are escaped rests on Unicode tables, so the result is only named.
#[verifier::external_body]
pub(crate) fn quoted(text: &str) -> (literal: String)
    ensures
        literal@ == debug_text(text@),
{
    format!("{:?}", text)
}

/// Texts in order, with a separator between each two.
pub open spec fn joined(parts: Seq<Seq<char>>, separator: Seq<char>) -> Seq<char>
    decreases parts.len(),
{
    if parts.len() == 0 {
        Seq::empty()
    } else if parts.len() == 1 {
        parts[0]
    } else {
        joined(parts.drop_last(), separator) + separator + parts.last()
    }
}

/// The texts behind a vector of strings.
pub open spec fn texts(parts: Seq<String>) -> Seq<Seq<char>> {
    parts.map_values(|part: String| part@)
}

/// Joins texts with a separator between each two.
pub fn join_all(parts: &Vec<String>, separator: &str) -> (text: String)
    ensures
        text@ == joined(texts(parts@), separator@),
{
    let ghost all = texts(parts@);
    if parts.len() == 0 {
        let empty = String::new();
        assert(empty@ =~= joined(all, separator@));
        return empty;
    }
    let mut text = parts[0].as_str().to_owned();
    let mut index: usize = 1;
    assert(all.subrange(0, 1) =~= seq![all[0]]);
    while index < parts.len()
        invariant
            1 <= index <= parts@.len(),
            all == texts(parts@),
            text@ == joined(all.subrange(0, index as int), separator@),
        decreases parts@.len() - index,
    {
        proof {
            let grown = all.subrange(0, index + 1);
            assert(grown.drop_last() =~= all.subrange(0, index as int));
            assert(grown.last() == parts@[index as int]@);
        }
        text.append(separator);
        text.append(parts[index].as_str());
        index = index + 1;
    }
    assert(all.subrange(0, index as int) =~= all);
    text
}

/// Joins three texts.
pub fn join3(first: &str, second: &str, third: &str) -> (text: String)
    ensures
        text@ == first@ + second@ + third@,
{
    first.to_owned().concat(second).concat(third)
}

/// Joins two texts.
pub fn join2(first: &str, second: &str) -> (text: String)
    ensures
        text@ == first@ + second@,
{
    first.to_owned().concat(second)
}

/// A text begins with a prefix exactly when it is that prefix with something behind it, and
/// that something is what is left without the prefix.
pub proof fn prefix_and_rest_make_the_text(text: Seq<char>, prefix: Seq<char>, rest: Seq<char>)
    ensures
        has_prefix(prefix + rest, prefix),
        without_first(prefix + rest, prefix.len()) == rest,
        has_prefix(text, prefix) ==> text == prefix + without_first(text, prefix.len()),
        has_prefix(text, prefix) <==> prefix.len() <= text.len() && forall|i: int|
            0 <= i < prefix.len() ==> text[i] == prefix[i],
{
    let whole = prefix + rest;
    assert(whole.subrange(0, prefix.len() as int) =~= prefix);
    assert(without_first(whole, prefix.len()) =~= rest);
    if has_prefix(text, prefix) {
        assert(text =~= text.subrange(0, prefix.len() as int) + without_first(
            text,
            prefix.len(),
        ));
        assert forall|i: int| 0 <= i < prefix.len() implies text[i] == prefix[i] by {
            assert(text.subrange(0, prefix.len() as int)[i] == prefix[i]);
        }
    }
    if prefix.len() <= text.len() && forall|i: int|
        0 <= i < prefix.len() ==> text[i] == prefix[i] {
        assert(text.subrange(0, prefix.len() as int) =~= prefix);
    }
}

/// Two texts are the same up to case exactly when each two characters are equal or are the
/// two cases of one ASCII letter.
pub proof fn case_is_all_that_is_ignored(left: Seq<char>, right: Seq<char>)
    ensures
        same_ignoring_ascii_case(left, right) <==> left.len() == right.len() && forall|i: int|
            0 <= i < left.len() ==> {
                ||| #[trigger] left[i] == right[i]
                ||| 'A' <= left[i] <= 'Z' && right[i] as u32 == left[i] as u32 + 32
                ||| 'A' <= right[i] <= 'Z' && left[i] as u32 == right[i] as u32 + 32
            },
        same_ignoring_ascii_case(left, left),
        same_ignoring_ascii_case(left, right) == same_ignoring_ascii_case(right, left),
{
    if same_ignoring_ascii_case(left, right) {
        assert forall|i: int| 0 <= i < left.len() implies {
            ||| #[trigger] left[i] == right[i]
            ||| 'A' <= left[i] <= 'Z' && right[i] as u32 == left[i] as u32 + 32
            ||| 'A' <= right[i] <= 'Z' && left[i] as u32 == right[i] as u32 + 32
        } by {
            lemma_lower_code(left[i]);
            lemma_lower_code(right[i]);
        }
    }
    if left.len() == right.len() && forall|i: int|
        0 <= i < left.len() ==> {
            ||| #[trigger] left[i] == right[i]
            ||| 'A' <= left[i] <= 'Z' && right[i] as u32 == left[i] as u32 + 32
            ||| 'A' <= right[i] <= 'Z' && left[i] as u32 == right[i] as u32 + 32
        } {
        assert forall|i: int| 0 <= i < left.len() implies ascii_lower(#[trigger] left[i])
            == ascii_lower(right[i]) by {
            lemma_lower_code(left[i]);
            lemma_lower_code(right[i]);
        }
    }
    if same_ignoring_ascii_case(left, right) {
        assert forall|i: int| 0 <= i < right.len() implies ascii_lower(#[trigger] right[i])
            == ascii_lower(left[i]) by {
            assert(ascii_lower(left[i]) == ascii_lower(right[i]));
        }
    }
    if same_ignoring_ascii_case(right, left) {
        assert forall|i: int| 0 <= i < left.len() implies ascii_lower(#[trigger] left[i])
            == ascii_lower(right[i]) by {
            assert(ascii_lower(right[i]) == ascii_lower(left[i]));
        }
    }
}

/// The code of a lower-case form.
proof fn lemma_lower_code(c: char)
    ensures
        'A' <= c <= 'Z' ==> ascii_lower(c) as u32 == c as u32 + 32 && !('A' <= ascii_lower(c)
            <= 'Z'),
        !('A' <= c <= 'Z') ==> ascii_lower(c) == c,
{
}

/// The number that a run of decimal digits stands for.
pub open spec fn numeral_value(text: Seq<char>) -> int
    decreases text.len(),
{
    if text.len() == 0 {
        0
    } else {
        numeral_value(text.drop_last()) * 10 + (text.last() as u32 - '0' as u32)
    }
}

/// A decimal numeral holds digits alone, stands for its number, and has no zero in front
/// but the number zero itself.
pub proof fn numeral_stands_for_its_number(value: nat)
    ensures
        numeral_value(decimal_text(value)) == value,
        decimal_text(value).len() > 0,
        value > 0 ==> decimal_text(value)[0] != '0',
        value == 0 ==> decimal_text(value).len() == 1,
        forall|i: int|
            0 <= i < decimal_text(value).len() ==> '0' <= #[trigger] decimal_text(value)[i] <= '9',
    decreases value,
{
    let text = decimal_text(value);
    if value < 10 {
        assert(text.drop_last() =~= Seq::<char>::empty());
        assert(numeral_value(text.drop_last()) == 0);
        assert(text.last() == digit_char(value));
    } else {
        let front = decimal_text(value / 10);
        numeral_stands_for_its_number(value / 10);
        assert(text.drop_last() =~= front);
        assert(text.last() == digit_char(value % 10));
        assert(text[0] == front[0]);
        assert forall|i: int| 0 <= i < text.len() implies '0' <= #[trigger] text[i] <= '9' by {
            if i < front.len() {
                assert(text[i] == front[i]);
            }
        }
    }
}

/// A negative number is written as a minus sign before the numeral of its magnitude.
pub proof fn sign_comes_before_the_numeral(value: int)
    ensures
        value >= 0 ==> numeral_value(signed_decimal_text(value)) == value && signed_decimal_text(
            value,
        )[0] != '-',
        value < 0 ==> signed_decimal_text(value)[0] == '-' && numeral_value(
            without_first(signed_decimal_text(value), 1),
        ) == -value,
{
    if value >= 0 {
        numeral_stands_for_its_number(value as nat);
    } else {
        numeral_stands_for_its_number((-value) as nat);
        assert(without_first(signed_decimal_text(value), 1) =~= decimal_text((-value) as nat));
    }
}

/// What lies behind the last mark ends the text, holds no mark, and follows one or is all
/// of the text.
pub proof fn tail_follows_the_last_mark(text: Seq<char>, mark: char)
    ensures
        ({
            let tail = after_last(text, mark);
            let cut = text.len() - tail.len();
            &&& 0 <= cut
            &&& tail == text.subrange(cut, text.len() as int)
            &&& !tail.contains(mark)
            &&& cut == 0 || text[cut - 1] == mark
        }),
    decreases text.len(),
{
    let tail = after_last(text, mark);
    let cut = text.len() - tail.len();
    if text.len() > 0 && text.last() != mark {
        let head = text.drop_last();
        tail_follows_the_last_mark(head, mark);
        let before = after_last(head, mark);
        assert(tail =~= text.subrange(cut, text.len() as int));
        if tail.contains(mark) {
            let i = choose|i: int| 0 <= i < tail.len() && tail[i] == mark;
            assert(before[i] == mark);
        }
    } else {
        assert(tail =~= text.subrange(cut, text.len() as int));
    }
}

/// A replacement changes the characters that it is about and no others.
pub proof fn replacement_is_exact(text: Seq<char>, from: char, to: char)
    ensures
        replaced(text, from, to).len() == text.len(),
        forall|i: int|
            0 <= i < text.len() && text[i] == from ==> #[trigger] replaced(text, from, to)[i] == to,
        forall|i: int|
            0 <= i < text.len() && text[i] != from ==> #[trigger] replaced(text, from, to)[i]
                == text[i],
{
}

/// Joining two runs of texts is joining all of them, with one separator where they meet.
pub proof fn runs_join_with_one_separator(
    one: Seq<Seq<char>>,
    other: Seq<Seq<char>>,
    separator: Seq<char>,
)
    requires
        one.len() > 0,
        other.len() > 0,
    ensures
        joined(one + other, separator) == joined(one, separator) + separator + joined(
            other,
            separator,
        ),
        one.len() == 1 ==> joined(one, separator) == one[0],
        joined(Seq::<Seq<char>>::empty(), separator).len() == 0,
    decreases other.len(),
{
    let all = one + other;
    if other.len() == 1 {
        assert(all.drop_last() =~= one);
        assert(all.last() == other[0]);
    } else {
        let fewer = other.drop_last();
        runs_join_with_one_separator(one, fewer, separator);
        assert(all.drop_last() =~= one + fewer);
        assert(all.last() == other.last());
        assert(joined(all, separator) =~= joined(one, separator) + separator + joined(
            other,
            separator,
        ));
    }
}

} // verus!
