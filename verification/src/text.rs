//! Text over its characters: the searches, splits and renderings that paths,
//! identifiers and messages are built from.
use vstd::prelude::*;
use vstd::utf8::*;

verus! {

/// `String::push` of the standard library: puts one character behind the
/// characters that the string holds.
pub assume_specification[ String::push ](s: &mut String, c: char)
    ensures
        final(s)@ == old(s)@.push(c),
;

/// The characters of an optional text.
pub open spec fn optional_text(value: Option<String>) -> Option<Seq<char>> {
    match value {
        Some(text) => Some(text@),
        None => None,
    }
}

/// The needle's characters stand in `text` from position `at` on.
pub open spec fn occurs_at(text: Seq<char>, needle: Seq<char>, at: int) -> bool {
    0 <= at && at + needle.len() <= text.len() && text.subrange(at, at + needle.len()) == needle
}

/// The needle's characters stand somewhere in `text`.
pub open spec fn occurs_in(text: Seq<char>, needle: Seq<char>) -> bool {
    exists|at: int| occurs_at(text, needle, at)
}

/// `text` begins with `prefix`.
pub open spec fn has_prefix(text: Seq<char>, prefix: Seq<char>) -> bool {
    occurs_at(text, prefix, 0)
}

/// `text` ends with `suffix`.
pub open spec fn has_suffix(text: Seq<char>, suffix: Seq<char>) -> bool {
    occurs_at(text, suffix, text.len() - suffix.len())
}

/// The last position at or before `from` where the needle occurs, or -1.
pub open spec fn last_at_or_before(text: Seq<char>, needle: Seq<char>, from: int) -> int
    decreases from + 1,
{
    if from < 0 {
        -1
    } else if occurs_at(text, needle, from) {
        from
    } else {
        last_at_or_before(text, needle, from - 1)
    }
}

/// The last position where the needle occurs, or -1.
pub open spec fn last_occurrence(text: Seq<char>, needle: Seq<char>) -> int {
    last_at_or_before(text, needle, text.len() as int)
}

/// The text in front of the last occurrence of a separator and the text behind
/// it, where the separator occurs.
pub open spec fn split_at_last(text: Seq<char>, separator: Seq<char>) -> Option<(Seq<char>, Seq<char>)> {
    let at = last_occurrence(text, separator);
    if at < 0 {
        None
    } else {
        Some((text.subrange(0, at), text.subrange(at + separator.len(), text.len() as int)))
    }
}

/// A slash.
pub open spec fn slash() -> Seq<char> {
    seq!['/']
}

/// What a path names before its last slash, where it has a slash.
pub open spec fn parent_text(path: Seq<char>) -> Option<Seq<char>> {
    match split_at_last(path, slash()) {
        Some(parts) => Some(parts.0),
        None => None,
    }
}

/// What a path names behind its last slash: the whole path where it has none.
pub open spec fn name_text(path: Seq<char>) -> Seq<char> {
    match split_at_last(path, slash()) {
        Some(parts) => parts.1,
        None => path,
    }
}

/// A hexadecimal digit, of either case.
pub open spec fn is_hex(c: char) -> bool {
    ('0' <= c && c <= '9') || ('a' <= c && c <= 'f') || ('A' <= c && c <= 'F')
}

/// Every character of the text is a hexadecimal digit.
pub open spec fn all_hex(text: Seq<char>) -> bool {
    forall|i: int| 0 <= i < text.len() ==> is_hex(#[trigger] text[i])
}

/// The decimal digit with the given value.
pub open spec fn digit(value: nat) -> char {
    if value == 0 {
        '0'
    } else if value == 1 {
        '1'
    } else if value == 2 {
        '2'
    } else if value == 3 {
        '3'
    } else if value == 4 {
        '4'
    } else if value == 5 {
        '5'
    } else if value == 6 {
        '6'
    } else if value == 7 {
        '7'
    } else if value == 8 {
        '8'
    } else {
        '9'
    }
}

/// The decimal rendering of a natural number, without leading zeros.
pub open spec fn decimal_text(value: nat) -> Seq<char>
    decreases value,
{
    if value < 10 {
        seq![digit(value)]
    } else {
        decimal_text(value / 10).push(digit(value % 10))
    }
}

/// The decimal rendering of an integer, with a minus sign in front of a
/// negative one.
pub open spec fn signed_text(value: int) -> Seq<char> {
    if value < 0 {
        seq!['-'] + decimal_text((-value) as nat)
    } else {
        decimal_text(value as nat)
    }
}

/// The characters of a text, one by one.
pub fn characters(text: &str) -> (all: Vec<char>)
    ensures
        all@ == text@,
{
    let mut all: Vec<char> = Vec::new();
    for c in it: text.chars()
        invariant
            it.seq() == text@,
            all@ == text@.take(it.index()),
    {
        all.push(c);
    }
    all
}

/// Two texts hold the same characters.
pub fn same_text(left: &str, right: &str) -> (same: bool)
    ensures
        same == (left@ == right@),
{
    let first = left.to_owned();
    let second = right.to_owned();
    first == second
}

/// Two optional texts are both absent or hold the same characters.
pub fn same_optional_text(left: &Option<String>, right: &Option<String>) -> (same: bool)
    ensures
        same == (optional_text(*left) == optional_text(*right)),
{
    match (left, right) {
        (Some(first), Some(second)) => same_text(first.as_str(), second.as_str()),
        (None, None) => true,
        _ => false,
    }
}

/// A copy of an optional text.
pub fn copy_optional(value: &Option<String>) -> (copy: Option<String>)
    ensures
        copy == *value,
{
    match value {
        Some(present) => Some(present.clone()),
        None => None,
    }
}

/// Two texts, one behind the other.
pub fn joined2(first: &str, second: &str) -> (all: String)
    ensures
        all@ == first@ + second@,
{
    let mut all = first.to_owned();
    all.append(second);
    all
}

/// Three texts, one behind the other.
pub fn joined3(first: &str, second: &str, third: &str) -> (all: String)
    ensures
        all@ == first@ + second@ + third@,
{
    let mut all = joined2(first, second);
    all.append(third);
    all
}

/// Four texts, one behind the other.
pub fn joined4(first: &str, second: &str, third: &str, fourth: &str) -> (all: String)
    ensures
        all@ == first@ + second@ + third@ + fourth@,
{
    let mut all = joined3(first, second, third);
    all.append(fourth);
    all
}

/// Five texts, one behind the other.
pub fn joined5(first: &str, second: &str, third: &str, fourth: &str, fifth: &str) -> (all: String)
    ensures
        all@ == first@ + second@ + third@ + fourth@ + fifth@,
{
    let mut all = joined4(first, second, third, fourth);
    all.append(fifth);
    all
}

fn matches_at(text: &Vec<char>, needle: &Vec<char>, at: usize) -> (found: bool)
    requires
        at <= text@.len(),
    ensures
        found == occurs_at(text@, needle@, at as int),
{
    let total: usize = text.len();
    if needle.len() > total - at {
        return false;
    }
    let mut i: usize = 0;
    while i < needle.len()
        invariant
            i <= needle@.len(),
            total == text@.len(),
            at + needle@.len() <= total,
            forall|j: int| 0 <= j < i ==> text@[at + j] == needle@[j],
        decreases needle@.len() - i,
    {
        if text[at + i] != needle[i] {
            assert(text@.subrange(at as int, at + needle@.len())[i as int] == text@[at + i]);
            return false;
        }
        i = i + 1;
    }
    assert(text@.subrange(at as int, at + needle@.len()) =~= needle@);
    true
}

proof fn last_at_or_before_is_last(text: Seq<char>, needle: Seq<char>, from: int)
    ensures
        last_at_or_before(text, needle, from) >= -1,
        last_at_or_before(text, needle, from) < 0 ==> forall|at: int| at <= from ==> !occurs_at(text, needle, at),
        last_at_or_before(text, needle, from) >= 0 ==> occurs_at(
            text,
            needle,
            last_at_or_before(text, needle, from),
        ),
        forall|at: int|
            last_at_or_before(text, needle, from) < at <= from ==> !occurs_at(text, needle, at),
    decreases from + 1,
{
    if from >= 0 && !occurs_at(text, needle, from) {
        last_at_or_before_is_last(text, needle, from - 1);
    }
}

/// A position where the needle occurs, with no later one, is the last
/// occurrence.
pub proof fn lemma_last_occurrence(text: Seq<char>, needle: Seq<char>, at: int)
    requires
        occurs_at(text, needle, at),
        forall|later: int| at < later ==> !occurs_at(text, needle, later),
    ensures
        last_occurrence(text, needle) == at,
{
    last_at_or_before_is_last(text, needle, text.len() as int);
    let found = last_occurrence(text, needle);
    if found < at {
        assert(!occurs_at(text, needle, at));
    }
    if found > at {
        assert(occurs_at(text, needle, found));
    }
}

/// The last occurrence is -1 exactly where the needle does not occur.
pub proof fn lemma_no_occurrence(text: Seq<char>, needle: Seq<char>)
    ensures
        last_occurrence(text, needle) < 0 <==> !occurs_in(text, needle),
        last_occurrence(text, needle) >= 0 ==> occurs_at(text, needle, last_occurrence(text, needle)),
{
    last_at_or_before_is_last(text, needle, text.len() as int);
    if occurs_in(text, needle) {
        let at = choose|at: int| occurs_at(text, needle, at);
        assert(at <= text.len());
    }
}

/// Says whether the needle's characters stand somewhere in the text.
pub fn contains(text: &str, needle: &str) -> (found: bool)
    ensures
        found == occurs_in(text@, needle@),
{
    let all = characters(text);
    let wanted = characters(needle);
    let mut at: usize = 0;
    while at < all.len()
        invariant
            all@ == text@,
            wanted@ == needle@,
            at <= all@.len(),
            forall|before: int| before < at ==> !occurs_at(text@, needle@, before),
        decreases all@.len() - at,
    {
        if matches_at(&all, &wanted, at) {
            return true;
        }
        at = at + 1;
    }
    let found = matches_at(&all, &wanted, at);
    proof {
        if occurs_in(text@, needle@) {
            let place = choose|place: int| occurs_at(text@, needle@, place);
            assert(place <= at);
        }
    }
    found
}

/// Splits a text at the last occurrence of a separator.
pub fn rsplit_once<'a>(text: &'a str, separator: &str) -> (parts: Option<(&'a str, &'a str)>)
    ensures
        match parts {
            Some((before, behind)) => split_at_last(text@, separator@) == Some((before@, behind@)),
            None => split_at_last(text@, separator@) is None,
        },
{
    let all = characters(text);
    let wanted = characters(separator);
    let total: usize = all.len();
    let mut at: usize = total;
    loop
        invariant
            total == all@.len(),
            all@ == text@,
            wanted@ == separator@,
            at <= all@.len(),
            last_occurrence(text@, separator@) == last_at_or_before(text@, separator@, at as int),
        decreases at,
    {
        if matches_at(&all, &wanted, at) {
            return Some(
                (text.substring_char(0, at), text.substring_char(at + wanted.len(), total)),
            );
        }
        if at == 0 {
            assert(last_at_or_before(text@, separator@, -1) == -1);
            return None;
        }
        at = at - 1;
    }
}

/// The text in front of the last slash, where there is a slash.
pub fn parent_of(path: &str) -> (parent: Option<&str>)
    ensures
        match parent {
            Some(text) => parent_text(path@) == Some(text@),
            None => parent_text(path@) is None,
        },
{
    proof {
        reveal_strlit("/");
        assert("/"@ =~= slash());
    }
    match rsplit_once(path, "/") {
        Some((before, _)) => Some(before),
        None => None,
    }
}

/// The text behind the last slash: the whole text where there is none.
pub fn name_of(path: &str) -> (name: &str)
    ensures
        name@ == name_text(path@),
{
    proof {
        reveal_strlit("/");
        assert("/"@ =~= slash());
    }
    match rsplit_once(path, "/") {
        Some((_, behind)) => behind,
        None => path,
    }
}

/// Says whether the text begins with the prefix.
pub fn starts_with(text: &str, prefix: &str) -> (found: bool)
    ensures
        found == has_prefix(text@, prefix@),
{
    let all = characters(text);
    let wanted = characters(prefix);
    matches_at(&all, &wanted, 0)
}

/// Says whether the text ends with the suffix.
pub fn ends_with(text: &str, suffix: &str) -> (found: bool)
    ensures
        found == has_suffix(text@, suffix@),
{
    let all = characters(text);
    let wanted = characters(suffix);
    if wanted.len() > all.len() {
        return false;
    }
    matches_at(&all, &wanted, all.len() - wanted.len())
}

/// Says whether every character is a hexadecimal digit.
pub fn is_hex_text(text: &str) -> (hex: bool)
    ensures
        hex == all_hex(text@),
{
    let all = characters(text);
    let mut i: usize = 0;
    while i < all.len()
        invariant
            all@ == text@,
            i <= all@.len(),
            forall|j: int| 0 <= j < i ==> is_hex(#[trigger] text@[j]),
        decreases all@.len() - i,
    {
        let c = all[i];
        let hex = ('0' <= c && c <= '9') || ('a' <= c && c <= 'f') || ('A' <= c && c <= 'F');
        if !hex {
            assert(!is_hex(text@[i as int]));
            return false;
        }
        i = i + 1;
    }
    true
}

fn digit_of(value: u64) -> (c: char)
    requires
        value < 10,
    ensures
        c == digit(value as nat),
{
    match value {
        0 => '0',
        1 => '1',
        2 => '2',
        3 => '3',
        4 => '4',
        5 => '5',
        6 => '6',
        7 => '7',
        8 => '8',
        _ => '9',
    }
}

/// The decimal rendering of a number.
pub fn decimal(value: u64) -> (text: String)
    ensures
        text@ == decimal_text(value as nat),
    decreases value,
{
    if value < 10 {
        let mut text = String::new();
        text.push(digit_of(value));
        assert(text@ =~= decimal_text(value as nat));
        text
    } else {
        let mut text = decimal(value / 10);
        text.push(digit_of(value % 10));
        text
    }
}

/// The decimal rendering of a number that may be negative.
pub fn signed_decimal(value: i64) -> (text: String)
    ensures
        text@ == signed_text(value as int),
{
    if value < 0 {
        let magnitude: u64 = (-(value as i128)) as u64;
        let mut text = String::new();
        text.push('-');
        let digits = decimal(magnitude);
        text.append(digits.as_str());
        assert(seq!['-'] =~= Seq::<char>::empty().push('-'));
        text
    } else {
        decimal(value as u64)
    }
}

/// Every character of a decimal rendering is a digit.
pub proof fn lemma_decimal_digits(value: nat)
    ensures
        decimal_text(value).len() >= 1,
        forall|i: int| 0 <= i < decimal_text(value).len() ==> '0' <= #[trigger] decimal_text(value)[i] <= '9',
    decreases value,
{
    if value >= 10 {
        lemma_decimal_digits(value / 10);
    }
}

/// Two different numbers have different decimal renderings.
pub proof fn lemma_decimal_injective(left: nat, right: nat)
    requires
        decimal_text(left) == decimal_text(right),
    ensures
        left == right,
    decreases left,
{
    lemma_decimal_digits(left);
    lemma_decimal_digits(right);
    if left < 10 && right < 10 {
        assert(decimal_text(left)[0] == decimal_text(right)[0]);
    } else if left < 10 {
        lemma_decimal_digits(right / 10);
        assert(decimal_text(right).len() >= 2);
    } else if right < 10 {
        lemma_decimal_digits(left / 10);
        assert(decimal_text(left).len() >= 2);
    } else {
        let head = decimal_text(left / 10);
        let other = decimal_text(right / 10);
        assert(decimal_text(left) == head.push(digit(left % 10)));
        assert(decimal_text(right) == other.push(digit(right % 10)));
        assert(head.push(digit(left % 10)).last() == digit(left % 10));
        assert(other.push(digit(right % 10)).last() == digit(right % 10));
        assert(head.push(digit(left % 10)).drop_last() =~= head);
        assert(other.push(digit(right % 10)).drop_last() =~= other);
        lemma_decimal_injective(left / 10, right / 10);
    }
}

/// The text without its NUL characters.
pub open spec fn without_nul(text: Seq<char>) -> Seq<char>
    decreases text.len(),
{
    if text.len() == 0 {
        text
    } else if text.last() == '\0' {
        without_nul(text.drop_last())
    } else {
        without_nul(text.drop_last()).push(text.last())
    }
}

/// The longest message that is kept, in bytes.
pub const MESSAGE_LIMIT: usize = 2000;

/// The message can be cut at the limit: it is short enough once its NUL
/// characters are gone, or a character begins at the limit.
pub open spec fn can_be_cut(message: Seq<char>) -> bool {
    let bytes = encode_utf8(without_nul(message));
    bytes.len() <= MESSAGE_LIMIT || is_char_boundary(bytes, MESSAGE_LIMIT as int)
}

/// The message without its NUL characters and without what stands behind the
/// limit.
pub open spec fn sanitized(message: Seq<char>) -> Seq<char> {
    let bytes = encode_utf8(without_nul(message));
    if bytes.len() <= MESSAGE_LIMIT {
        without_nul(message)
    } else {
        decode_utf8(bytes.subrange(0, MESSAGE_LIMIT as int))
    }
}

fn strip_nul(message: &str) -> (text: String)
    ensures
        text@ == without_nul(message@),
{
    let all = characters(message);
    let mut text = String::new();
    let mut i: usize = 0;
    assert(message@.take(0) =~= Seq::<char>::empty());
    while i < all.len()
        invariant
            all@ == message@,
            i <= all@.len(),
            text@ == without_nul(message@.take(i as int)),
        decreases all@.len() - i,
    {
        proof {
            let next = message@.take(i + 1);
            assert(next.drop_last() =~= message@.take(i as int));
            assert(next.last() == all@[i as int]);
        }
        if all[i] != '\0' {
            text.push(all[i]);
        }
        i = i + 1;
    }
    assert(message@.take(i as int) =~= message@);
    text
}

/// Says whether [`sanitize_error`] can cut this message.
pub fn error_can_be_cut(message: &str) -> (can: bool)
    ensures
        can == can_be_cut(message@),
{
    let text = strip_nul(message);
    let kept = text.as_str();
    kept.as_bytes().len() <= MESSAGE_LIMIT || kept.is_char_boundary(MESSAGE_LIMIT)
}

/// Drops the NUL characters of a message and cuts it at the limit.
pub fn sanitize_error(message: &str) -> (kept: String)
    requires
        can_be_cut(message@),
    ensures
        kept@ == sanitized(message@),
{
    let text = strip_nul(message);
    if text.as_str().as_bytes().len() > MESSAGE_LIMIT {
        let (head, _) = text.as_str().split_at(MESSAGE_LIMIT);
        proof {
            encode_utf8_decode_utf8(head@);
        }
        head.to_owned()
    } else {
        text
    }
}

proof fn lemma_without_nul(value: Seq<char>)
    requires
        forall|i: int| 0 <= i < value.len() ==> value[i] != '\0',
    ensures
        without_nul(value) == value,
    decreases value.len(),
{
    if value.len() > 0 {
        lemma_without_nul(value.drop_last());
        assert(value.drop_last().push(value.last()) =~= value);
    }
}

/// A short text of plain characters is kept as it is.
pub proof fn lemma_short_text_is_kept(value: Seq<char>)
    requires
        value.len() <= MESSAGE_LIMIT,
        forall|i: int| 0 <= i < value.len() ==> ' ' <= #[trigger] value[i] <= '~',
    ensures
        can_be_cut(value),
        sanitized(value) == value,
{
    lemma_without_nul(value);
    is_ascii_chars_encode_utf8(value);
}

/// An optional text says exactly what the text says that is there.
pub proof fn optional_texts_say_the_same(value: Option<String>)
    ensures
        optional_text(value) is None <==> value is None,
        value matches Some(present) ==> optional_text(value) == Some(present@),
{
}

proof fn lemma_none_is_later(text: Seq<char>, needle: Seq<char>, from: int)
    ensures
        last_at_or_before(text, needle, from) <= from || last_at_or_before(text, needle, from) == -1,
        forall|later: int|
            last_at_or_before(text, needle, from) < later <= from ==> !occurs_at(text, needle, later),
    decreases from + 1,
{
    if from >= 0 && !occurs_at(text, needle, from) {
        lemma_none_is_later(text, needle, from - 1);
    }
}

/// A text that is cut at a separator is put together again from the two parts and
/// the separator between them, and no later separator stands in it. A text is not
/// cut only where the separator stands nowhere in it.
pub proof fn cut_texts_are_put_together_again(text: Seq<char>, separator: Seq<char>)
    requires
        separator.len() > 0,
    ensures
        match split_at_last(text, separator) {
            Some(parts) => text == parts.0 + separator + parts.1 && forall|later: int|
                parts.0.len() < later ==> !occurs_at(text, separator, later),
            None => forall|at: int| !occurs_at(text, separator, at),
        },
{
    lemma_no_occurrence(text, separator);
    lemma_none_is_later(text, separator, text.len() as int);
    match split_at_last(text, separator) {
        Some(parts) => {
            let at = last_occurrence(text, separator);
            assert(occurs_at(text, separator, at));
            assert(text =~= parts.0 + separator + parts.1);
        },
        None => {},
    }
}

/// A path is its parent, a slash and its name, and no slash stands in the name. A
/// path without a slash is its name and has no parent.
pub proof fn paths_are_their_parent_and_their_name(path: Seq<char>)
    ensures
        parent_text(path) matches Some(parent) ==> path == parent + seq!['/'] + name_text(path),
        parent_text(path) is None ==> name_text(path) == path,
        forall|i: int| 0 <= i < name_text(path).len() ==> #[trigger] name_text(path)[i] != '/',
{
    cut_texts_are_put_together_again(path, slash());
    let name = name_text(path);
    assert forall|i: int| 0 <= i < name.len() implies #[trigger] name[i] != '/' by {
        let at = path.len() - name.len() + i;
        assert(path[at] == name[i]);
        if name[i] == '/' {
            assert(path.subrange(at, at + 1) =~= slash());
            assert(occurs_at(path, slash(), at));
        }
    }
}

/// Dropping the NUL characters of a text leaves no NUL character and every other
/// one, in their order, however the text is cut.
pub proof fn nul_characters_are_dropped(first: Seq<char>, second: Seq<char>)
    ensures
        forall|i: int| 0 <= i < without_nul(first).len() ==> #[trigger] without_nul(first)[i] != '\0',
        (forall|i: int| 0 <= i < first.len() ==> first[i] != '\0') ==> without_nul(first) == first,
        without_nul(first + second) == without_nul(first) + without_nul(second),
    decreases first.len() + second.len(),
{
    if first.len() > 0 {
        nul_characters_are_dropped(first.drop_last(), Seq::empty());
    }
    if forall|i: int| 0 <= i < first.len() ==> first[i] != '\0' {
        lemma_without_nul(first);
    }
    if second.len() > 0 {
        nul_characters_are_dropped(first, second.drop_last());
        assert((first + second).drop_last() =~= first + second.drop_last());
    } else {
        assert(first + second =~= first);
        assert(without_nul(second) =~= Seq::<char>::empty());
    }
}

/// A message that is short enough is kept whole, but for its NUL characters. A
/// longer one is cut where it has two thousand bytes.
pub proof fn long_messages_are_cut_at_the_limit(message: Seq<char>, kept: Seq<char>)
    ensures
        encode_utf8(without_nul(message)).len() <= 2000 ==> sanitized(message) == without_nul(message),
        encode_utf8(without_nul(message)).len() > 2000 && encode_utf8(kept) == encode_utf8(without_nul(message)).take(
            2000,
        ) ==> sanitized(message) == kept,
{
    let bytes = encode_utf8(without_nul(message));
    if bytes.len() > 2000 && encode_utf8(kept) == bytes.take(2000) {
        assert(bytes.subrange(0, 2000) =~= bytes.take(2000));
        encode_utf8_decode_utf8(kept);
    }
}

/// A negative number is written with a minus sign in front of the number without
/// it, and no other number is.
pub proof fn signs_are_written(value: int)
    ensures
        value < 0 ==> signed_text(value) == seq!['-'] + decimal_text((-value) as nat),
        value >= 0 ==> signed_text(value) == decimal_text(value as nat) && signed_text(value)[0] != '-',
{
    if value >= 0 {
        lemma_decimal_digits(value as nat);
    }
}

} // verus!
