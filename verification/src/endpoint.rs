//! The addresses that a connection is given: how they are trimmed, completed
//! and refused.
use crate::models;
use crate::models::FileManagerError;
use crate::text;
use crate::text::characters;
use crate::text::contains;
use crate::text::decimal;
use crate::text::joined2;
use crate::text::joined3;
use crate::text::rsplit_once;
use crate::text::starts_with;
use vstd::prelude::*;

verus! {

/// The characters with the White_Space property of Unicode.
pub open spec fn is_whitespace(c: char) -> bool {
    ||| '\u{9}' <= c <= '\u{d}'
    ||| c == ' '
    ||| c == '\u{85}'
    ||| c == '\u{a0}'
    ||| c == '\u{1680}'
    ||| '\u{2000}' <= c <= '\u{200a}'
    ||| c == '\u{2028}'
    ||| c == '\u{2029}'
    ||| c == '\u{202f}'
    ||| c == '\u{205f}'
    ||| c == '\u{3000}'
}

/// The text without the whitespace at its beginning.
pub open spec fn trim_start(value: Seq<char>) -> Seq<char>
    decreases value.len(),
{
    if value.len() > 0 && is_whitespace(value[0]) {
        trim_start(value.drop_first())
    } else {
        value
    }
}

/// The text without the whitespace at its end.
pub open spec fn trim_end(value: Seq<char>) -> Seq<char>
    decreases value.len(),
{
    if value.len() > 0 && is_whitespace(value.last()) {
        trim_end(value.drop_last())
    } else {
        value
    }
}

/// The text without the whitespace round it.
pub open spec fn trimmed(value: Seq<char>) -> Seq<char> {
    trim_end(trim_start(value))
}

/// The text without the slashes at its end.
pub open spec fn without_slashes(value: Seq<char>) -> Seq<char>
    decreases value.len(),
{
    if value.len() > 0 && value.last() == '/' {
        without_slashes(value.drop_last())
    } else {
        value
    }
}

/// The first position at or behind `from` where the needle occurs, or -1.
pub open spec fn first_at_or_behind(value: Seq<char>, needle: Seq<char>, from: int) -> int
    decreases value.len() - from + 1,
{
    if from > value.len() - needle.len() || from > value.len() {
        -1
    } else if text::occurs_at(value, needle, from) {
        from
    } else {
        first_at_or_behind(value, needle, from + 1)
    }
}

/// What stands behind the first occurrence of a separator, where it occurs.
pub open spec fn behind_first(value: Seq<char>, separator: Seq<char>) -> Option<Seq<char>> {
    let at = first_at_or_behind(value, separator, 0);
    if at < 0 {
        None
    } else {
        Some(value.subrange(at + separator.len(), value.len() as int))
    }
}

/// What a decimal digit is worth.
pub open spec fn digit_value(c: char) -> nat {
    if c == '0' {
        0
    } else if c == '1' {
        1
    } else if c == '2' {
        2
    } else if c == '3' {
        3
    } else if c == '4' {
        4
    } else if c == '5' {
        5
    } else if c == '6' {
        6
    } else if c == '7' {
        7
    } else if c == '8' {
        8
    } else {
        9
    }
}

/// What a row of decimal digits is worth.
pub open spec fn digits_value(digits: Seq<char>) -> nat
    decreases digits.len(),
{
    if digits.len() == 0 {
        0
    } else {
        digits_value(digits.drop_last()) * 10 + digit_value(digits.last())
    }
}

/// Every character is a decimal digit.
pub open spec fn all_digits(value: Seq<char>) -> bool {
    forall|i: int| 0 <= i < value.len() ==> '0' <= #[trigger] value[i] <= '9'
}

/// The text without one plus sign at its beginning.
pub open spec fn without_plus(value: Seq<char>) -> Seq<char> {
    if value.len() > 0 && value[0] == '+' {
        value.drop_first()
    } else {
        value
    }
}

/// The text is a port number: decimal digits, with or without a plus sign in
/// front of them, that are worth at most 65535.
pub open spec fn is_port(value: Seq<char>) -> bool {
    let digits = without_plus(value);
    digits.len() > 0 && all_digits(digits) && digits_value(digits) <= u16::MAX
}

/// The endpoint, trimmed, behind the scheme that it names or is given.
pub open spec fn with_scheme(endpoint: Seq<char>, scheme: Seq<char>) -> Seq<char> {
    let kept = without_slashes(trimmed(endpoint));
    if text::occurs_in(kept, "://"@) {
        kept
    } else {
        scheme + "://"@ + kept
    }
}

/// What stands behind the scheme.
pub open spec fn authority(endpoint: Seq<char>) -> Seq<char> {
    match behind_first(endpoint, "://"@) {
        Some(behind) => behind,
        None => endpoint,
    }
}

/// The endpoint names a port behind its last colon.
pub open spec fn names_port(endpoint: Seq<char>) -> bool {
    match text::split_at_last(authority(endpoint), ":"@) {
        Some(parts) => is_port(parts.1),
        None => false,
    }
}

/// The endpoint with a scheme and a port: those that it names, and where it
/// names none, those that it is given.
pub open spec fn complete_endpoint(endpoint: Seq<char>, scheme: Seq<char>, port: u16) -> Seq<char> {
    let named = with_scheme(endpoint, scheme);
    if names_port(named) {
        named
    } else {
        named + ":"@ + text::decimal_text(port as nat)
    }
}

/// Says whether a character is whitespace.
pub fn whitespace(c: char) -> (found: bool)
    ensures
        found == is_whitespace(c),
{
    ('\u{9}' <= c && c <= '\u{d}') || c == ' ' || c == '\u{85}' || c == '\u{a0}' || c == '\u{1680}' || (
    '\u{2000}' <= c && c <= '\u{200a}') || c == '\u{2028}' || c == '\u{2029}' || c == '\u{202f}' || c
        == '\u{205f}' || c == '\u{3000}'
}

/// The text without the whitespace round it.
pub fn trim<'a>(value: &'a str) -> (kept: &'a str)
    ensures
        kept@ == trimmed(value@),
{
    let all = characters(value);
    let total: usize = all.len();
    let mut start: usize = 0;
    assert(value@.subrange(0, total as int) =~= value@);
    while start < total && whitespace(all[start])
        invariant
            total == all@.len(),
            all@ == value@,
            start <= total,
            trim_start(value@) == trim_start(value@.subrange(start as int, total as int)),
        decreases total - start,
    {
        let ghost rest = value@.subrange(start as int, total as int);
        assert(rest.drop_first() =~= value@.subrange(start + 1, total as int));
        start = start + 1;
    }
    let mut end: usize = total;
    let ghost kept_start = value@.subrange(start as int, total as int);
    assert(trim_start(value@) == kept_start);
    while end > start && whitespace(all[end - 1])
        invariant
            total == all@.len(),
            all@ == value@,
            start <= end <= total,
            kept_start == trim_start(value@),
            trim_end(kept_start) == trim_end(value@.subrange(start as int, end as int)),
        decreases end,
    {
        let ghost rest = value@.subrange(start as int, end as int);
        assert(rest.drop_last() =~= value@.subrange(start as int, end - 1));
        end = end - 1;
    }
    value.substring_char(start, end)
}

/// The text without the slashes at its end.
pub fn trim_slashes<'a>(value: &'a str) -> (kept: &'a str)
    ensures
        kept@ == without_slashes(value@),
{
    let all = characters(value);
    let mut end: usize = all.len();
    assert(value@.subrange(0, end as int) =~= value@);
    while end > 0 && all[end - 1] == '/'
        invariant
            all@ == value@,
            end <= all@.len(),
            without_slashes(value@) == without_slashes(value@.subrange(0, end as int)),
        decreases end,
    {
        let ghost rest = value@.subrange(0, end as int);
        assert(rest.drop_last() =~= value@.subrange(0, end - 1));
        end = end - 1;
    }
    value.substring_char(0, end)
}

proof fn lemma_digits_grow(digits: Seq<char>, from: int)
    requires
        0 <= from <= digits.len(),
    ensures
        digits_value(digits.take(from)) <= digits_value(digits),
    decreases digits.len() - from,
{
    if from < digits.len() {
        lemma_digits_grow(digits, from + 1);
        assert(digits.take(from + 1).drop_last() =~= digits.take(from));
    } else {
        assert(digits.take(from) =~= digits);
    }
}

fn value_of_digit(c: char) -> (value: u32)
    requires
        '0' <= c <= '9',
    ensures
        value == digit_value(c),
{
    match c {
        '0' => 0,
        '1' => 1,
        '2' => 2,
        '3' => 3,
        '4' => 4,
        '5' => 5,
        '6' => 6,
        '7' => 7,
        '8' => 8,
        _ => 9,
    }
}

/// Says whether a text is a port number.
pub fn is_port_text(value: &str) -> (port: bool)
    ensures
        port == is_port(value@),
{
    let all = characters(value);
    let total: usize = all.len();
    let start: usize = if total > 0 && all[0] == '+' {
        1
    } else {
        0
    };
    let ghost digits = without_plus(value@);
    assert(digits =~= value@.subrange(start as int, total as int));
    if start == total {
        return false;
    }
    let mut at: usize = start;
    let mut sum: u32 = 0;
    assert(digits.take(0) =~= Seq::<char>::empty());
    while at < total
        invariant
            total == all@.len(),
            all@ == value@,
            start <= at <= total,
            digits == without_plus(value@),
            digits == value@.subrange(start as int, total as int),
            digits.len() == total - start,
            forall|i: int| 0 <= i < at - start ==> '0' <= #[trigger] digits[i] <= '9',
            sum == digits_value(digits.take(at - start)),
            sum <= u16::MAX,
        decreases total - at,
    {
        let c = all[at];
        assert(c == digits[at - start]);
        if c < '0' || c > '9' {
            return false;
        }
        proof {
            let next = digits.take(at - start + 1);
            assert(next.drop_last() =~= digits.take(at - start));
            assert(next.last() == c);
            lemma_digits_grow(digits, at - start + 1);
        }
        sum = sum * 10 + value_of_digit(c);
        if sum > 65535 {
            return false;
        }
        at = at + 1;
    }
    assert(digits.take(at - start) =~= digits);
    true
}

proof fn lemma_first(value: Seq<char>, needle: Seq<char>, from: int)
    requires
        0 <= from,
    ensures
        ({
            let at = first_at_or_behind(value, needle, from);
            &&& at >= 0 ==> from <= at && text::occurs_at(value, needle, at)
            &&& at >= 0 ==> forall|earlier: int| from <= earlier < at ==> !text::occurs_at(value, needle, earlier)
            &&& at < 0 ==> forall|later: int| from <= later ==> !text::occurs_at(value, needle, later)
        }),
    decreases value.len() - from + 1,
{
    if from <= value.len() - needle.len() && from <= value.len() && !text::occurs_at(value, needle, from) {
        lemma_first(value, needle, from + 1);
    }
}

proof fn lemma_first_is(value: Seq<char>, needle: Seq<char>, at: int)
    requires
        text::occurs_at(value, needle, at),
        forall|earlier: int| 0 <= earlier < at ==> !text::occurs_at(value, needle, earlier),
    ensures
        first_at_or_behind(value, needle, 0) == at,
{
    lemma_first(value, needle, 0);
}

fn authority_of<'a>(endpoint: &'a str) -> (behind: &'a str)
    ensures
        behind@ == authority(endpoint@),
{
    let all = characters(endpoint);
    let total: usize = all.len();
    proof {
        reveal_strlit("://");
    }
    let mut at: usize = 0;
    while at < total && total - at >= 3
        invariant
            "://"@.len() == 3,
            "://"@[0] == ':',
            "://"@[1] == '/',
            "://"@[2] == '/',
            total == all@.len(),
            all@ == endpoint@,
            at <= total,
            forall|earlier: int| 0 <= earlier < at ==> !text::occurs_at(endpoint@, "://"@, earlier),
        decreases total - at,
    {
        if all[at] == ':' && all[at + 1] == '/' && all[at + 2] == '/' {
            proof {
                assert(endpoint@.subrange(at as int, at + 3) =~= "://"@);
                lemma_first_is(endpoint@, "://"@, at as int);
            }
            return endpoint.substring_char(at + 3, total);
        }
        proof {
            if text::occurs_at(endpoint@, "://"@, at as int) {
                let piece = endpoint@.subrange(at as int, at + 3);
                assert(piece[0] == endpoint@[at as int]);
                assert(piece[1] == endpoint@[at + 1]);
                assert(piece[2] == endpoint@[at + 2]);
            }
        }
        at = at + 1;
    }
    proof {
        lemma_first(endpoint@, "://"@, 0);
    }
    endpoint
}

/// The endpoint with a scheme and a port: those that it names, and where it
/// names none, those that it is given.
pub fn endpoint_with_port(endpoint: &str, scheme: &str, port: u16) -> (complete: String)
    ensures
        complete@ == complete_endpoint(endpoint@, scheme@, port),
{
    let kept = trim_slashes(trim(endpoint));
    let named = if contains(kept, "://") {
        kept.to_owned()
    } else {
        joined3(scheme, "://", kept)
    };
    let has_port = match rsplit_once(authority_of(named.as_str()), ":") {
        Some((_, value)) => is_port_text(value),
        None => false,
    };
    if has_port {
        named
    } else {
        let number = decimal(port as u64);
        joined3(named.as_str(), ":", number.as_str())
    }
}

proof fn lemma_trim_start(value: Seq<char>)
    ensures
        trim_start(value).len() > 0 ==> !is_whitespace(trim_start(value)[0]),
    decreases value.len(),
{
    if value.len() > 0 && is_whitespace(value[0]) {
        lemma_trim_start(value.drop_first());
    }
}

proof fn lemma_trim_end(value: Seq<char>)
    ensures
        trim_end(value).len() <= value.len(),
        trim_end(value) == value.take(trim_end(value).len() as int),
    decreases value.len(),
{
    if value.len() > 0 && is_whitespace(value.last()) {
        lemma_trim_end(value.drop_last());
        let kept = trim_end(value.drop_last());
        assert(value.drop_last().take(kept.len() as int) =~= value.take(kept.len() as int));
    } else {
        assert(value.take(value.len() as int) =~= value);
    }
}

proof fn lemma_without_slashes(value: Seq<char>)
    ensures
        without_slashes(value).len() <= value.len(),
        without_slashes(value) == value.take(without_slashes(value).len() as int),
    decreases value.len(),
{
    if value.len() > 0 && value.last() == '/' {
        lemma_without_slashes(value.drop_last());
        let kept = without_slashes(value.drop_last());
        assert(value.drop_last().take(kept.len() as int) =~= value.take(kept.len() as int));
    } else {
        assert(value.take(value.len() as int) =~= value);
    }
}

proof fn lemma_decimal_is_port(value: nat)
    ensures
        all_digits(text::decimal_text(value)),
        text::decimal_text(value).len() > 0,
        digits_value(text::decimal_text(value)) == value,
    decreases value,
{
    text::lemma_decimal_digits(value);
    let all = text::decimal_text(value);
    if value < 10 {
        assert(all.drop_last() =~= Seq::<char>::empty());
        assert(all.last() == text::digit(value));
        assert(digits_value(all.drop_last()) == 0);
    } else {
        lemma_decimal_is_port(value / 10);
        assert(all.drop_last() =~= text::decimal_text(value / 10));
        assert(all.last() == text::digit(value % 10));
    }
}

// A text that begins and ends with characters that are neither whitespace nor
// slashes is kept as it is.
proof fn lemma_kept(value: Seq<char>)
    requires
        value.len() > 0,
        !is_whitespace(value[0]),
        !is_whitespace(value.last()),
        value.last() != '/',
    ensures
        without_slashes(trimmed(value)) == value,
{
}

/// An endpoint names a scheme of its own, or is given one that does not begin
/// with whitespace.
pub open spec fn has_clean_scheme(endpoint: Seq<char>, scheme: Seq<char>) -> bool {
    text::occurs_in(without_slashes(trimmed(endpoint)), "://"@) || scheme.len() == 0 || !is_whitespace(scheme[0])
}

/// An endpoint behind a scheme names a scheme, and begins with a character that
/// is no whitespace.
pub proof fn lemma_scheme_stands(endpoint: Seq<char>, scheme: Seq<char>)
    requires
        has_clean_scheme(endpoint, scheme),
    ensures
        text::occurs_in(with_scheme(endpoint, scheme), "://"@),
        with_scheme(endpoint, scheme).len() > 0,
        !is_whitespace(with_scheme(endpoint, scheme)[0]),
{
    reveal_strlit("://");
    let kept = without_slashes(trimmed(endpoint));
    let named = with_scheme(endpoint, scheme);
    lemma_trim_start(endpoint);
    lemma_trim_end(trim_start(endpoint));
    lemma_without_slashes(trimmed(endpoint));
    if text::occurs_in(kept, "://"@) {
        let at = choose|at: int| text::occurs_at(kept, "://"@, at);
        assert(kept.len() >= 3);
    } else {
        assert(named.subrange(scheme.len() as int, (scheme.len() + 3) as int) =~= "://"@);
        assert(text::occurs_at(named, "://"@, scheme.len() as int));
    }
}

// A port behind the endpoint is found there again.
proof fn lemma_port_is_found(named: Seq<char>, digits: Seq<char>)
    requires
        text::occurs_in(named, "://"@),
        is_port(digits),
        all_digits(digits),
    ensures
        names_port(named + ":"@ + digits),
{
    reveal_strlit("://");
    reveal_strlit(":");
    let full = named + ":"@ + digits;
    let separator = "://"@;
    let colon = ":"@;
    lemma_first(named, separator, 0);
    let at = first_at_or_behind(named, separator, 0);
    let place = choose|place: int| text::occurs_at(named, separator, place);
    assert(at >= 0);
    assert(full.subrange(at, at + 3) =~= named.subrange(at, at + 3));
    assert forall|earlier: int| 0 <= earlier < at implies !text::occurs_at(full, separator, earlier) by {
        assert(full.subrange(earlier, earlier + 3) =~= named.subrange(earlier, earlier + 3));
        assert(!text::occurs_at(named, separator, earlier));
    }
    lemma_first_is(full, separator, at);
    let behind = full.subrange(at + 3, full.len() as int);
    assert(authority(full) == behind);
    let spot = named.len() - (at + 3);
    assert(behind.subrange(spot, spot + 1) =~= colon);
    assert forall|later: int| spot < later implies !text::occurs_at(behind, colon, later) by {
        if text::occurs_at(behind, colon, later) {
            assert(behind.subrange(later, later + 1)[0] == behind[later]);
            assert(behind[later] == digits[later - spot - 1]);
        }
    }
    text::lemma_last_occurrence(behind, colon, spot);
    assert(behind.subrange(spot + 1, behind.len() as int) =~= digits);
}

// An endpoint that names a port ends with a digit.
proof fn lemma_port_is_last(named: Seq<char>)
    requires
        names_port(named),
    ensures
        named.len() > 0,
        '0' <= named.last() <= '9',
{
    reveal_strlit("://");
    reveal_strlit(":");
    lemma_first(named, "://"@, 0);
    let behind = authority(named);
    text::lemma_no_occurrence(behind, ":"@);
    let at = text::last_occurrence(behind, ":"@);
    let port = behind.subrange(at + 1, behind.len() as int);
    let digits = without_plus(port);
    assert(digits.last() == port.last());
    assert('0' <= digits[digits.len() - 1] <= '9');
    assert(port.last() == behind.last());
    assert(behind.last() == named.last());
}

/// A port is added once: an endpoint that was completed is complete, whatever
/// scheme and port it is offered again.
pub proof fn port_is_added_once(
    endpoint: Seq<char>,
    scheme: Seq<char>,
    port: u16,
    other_scheme: Seq<char>,
    other_port: u16,
)
    requires
        has_clean_scheme(endpoint, scheme),
    ensures
        complete_endpoint(complete_endpoint(endpoint, scheme, port), other_scheme, other_port) == complete_endpoint(
            endpoint,
            scheme,
            port,
        ),
{
    reveal_strlit("://");
    reveal_strlit(":");
    let named = with_scheme(endpoint, scheme);
    let complete = complete_endpoint(endpoint, scheme, port);
    let digits = text::decimal_text(port as nat);
    lemma_scheme_stands(endpoint, scheme);
    lemma_decimal_is_port(port as nat);
    if !names_port(named) {
        assert('0' <= digits[0] <= '9');
        assert(without_plus(digits) == digits);
        lemma_port_is_found(named, digits);
        assert(complete[0] == named[0]);
        let at = choose|at: int| text::occurs_at(named, "://"@, at);
        assert(complete.subrange(at, at + 3) =~= named.subrange(at, at + 3));
        assert(text::occurs_at(complete, "://"@, at));
    }
    assert(names_port(complete));
    lemma_port_is_last(complete);
    lemma_kept(complete);
}

/// The text is the address of an HDFS cluster: behind the scheme, and apart
/// from slashes at its end, stand names between commas, with no slash, no
/// whitespace and none left out.
pub open spec fn is_name_node_uri(value: Seq<char>) -> bool {
    let kept = trimmed(value);
    let nodes = without_slashes(kept.skip("hdfs://"@.len() as int));
    &&& text::has_prefix(kept, "hdfs://"@)
    &&& nodes.len() > 0
    &&& forall|i: int| 0 <= i < nodes.len() ==> #[trigger] nodes[i] != '/' && !is_whitespace(nodes[i])
    &&& nodes[0] != ','
    &&& nodes.last() != ','
    &&& forall|i: int| 0 <= i < nodes.len() - 1 && #[trigger] nodes[i] == ',' ==> nodes[i + 1] != ','
}

/// What the address of an HDFS cluster is refused with.
pub open spec fn name_node_error() -> models::ManagerErrorView {
    models::configuration_error("The HDFS NameNode URI must use the hdfs:// scheme"@)
}

fn names_nodes(nodes: &Vec<char>) -> (all_named: bool)
    ensures
        all_named == ({
            &&& nodes@.len() > 0
            &&& forall|i: int| 0 <= i < nodes@.len() ==> #[trigger] nodes@[i] != '/' && !is_whitespace(nodes@[i])
            &&& nodes@[0] != ','
            &&& nodes@.last() != ','
            &&& forall|i: int| 0 <= i < nodes@.len() - 1 && #[trigger] nodes@[i] == ',' ==> nodes@[i + 1] != ','
        }),
{
    let total: usize = nodes.len();
    if total == 0 || nodes[0] == ',' || nodes[total - 1] == ',' {
        return false;
    }
    let mut at: usize = 0;
    while at < total
        invariant
            total == nodes@.len(),
            at <= total,
            total > 0,
            nodes@[total - 1] != ',',
            forall|i: int| 0 <= i < at ==> #[trigger] nodes@[i] != '/' && !is_whitespace(nodes@[i]),
            forall|i: int| 0 <= i < at && #[trigger] nodes@[i] == ',' ==> nodes@[i + 1] != ',',
        decreases total - at,
    {
        if nodes[at] == '/' || whitespace(nodes[at]) {
            return false;
        }
        if nodes[at] == ',' && nodes[at + 1] == ',' {
            assert(nodes@[at as int] == ',');
            return false;
        }
        at = at + 1;
    }
    true
}

/// Refuses what is not the address of an HDFS cluster.
pub fn validate_hdfs_name_node_uri(value: &str) -> (checked: Result<(), FileManagerError>)
    ensures
        match checked {
            Ok(_) => is_name_node_uri(value@),
            Err(error) => !is_name_node_uri(value@) && error@ == name_node_error(),
        },
{
    let kept = trim(value);
    let named = if starts_with(kept, "hdfs://") {
        proof {
            reveal_strlit("hdfs://");
            assert(kept@.skip(7) =~= kept@.subrange(7, kept@.len() as int));
        }
        let total: usize = kept.unicode_len();
        let nodes = characters(trim_slashes(kept.substring_char(7, total)));
        names_nodes(&nodes)
    } else {
        false
    };
    if named {
        Ok(())
    } else {
        Err(FileManagerError::configuration("The HDFS NameNode URI must use the hdfs:// scheme"))
    }
}

/// The text holds something besides whitespace.
pub open spec fn is_present(value: Seq<char>) -> bool {
    trimmed(value).len() > 0
}

/// What a setting that is left out is refused with.
pub open spec fn required_error(label: Seq<char>) -> models::ManagerErrorView {
    models::configuration_error(label + " is required"@)
}

/// Refuses a setting that holds nothing but whitespace.
pub fn validate_required(label: &str, value: &str) -> (checked: Result<(), FileManagerError>)
    ensures
        match checked {
            Ok(_) => is_present(value@),
            Err(error) => !is_present(value@) && error@ == required_error(label@),
        },
{
    if trim(value).unicode_len() == 0 {
        let message = joined2(label, " is required");
        Err(FileManagerError::configuration(message.as_str()))
    } else {
        Ok(())
    }
}

/// A number is read back from the digits that it is written with, which begin
/// with no zero unless it is the only one.
pub proof fn numbers_are_read_back(value: nat)
    ensures
        digits_value(text::decimal_text(value)) == value,
        all_digits(text::decimal_text(value)),
        value >= 10 ==> text::decimal_text(value)[0] != '0',
        value < 10 ==> text::decimal_text(value).len() == 1,
    decreases value,
{
    text::lemma_decimal_digits(value);
    let written = text::decimal_text(value);
    if value >= 10 {
        numbers_are_read_back(value / 10);
        let front = text::decimal_text(value / 10);
        text::lemma_decimal_digits(value / 10);
        assert(written.drop_last() =~= front);
        assert(written[0] == front[0]);
        if value / 10 < 10 {
            assert(front =~= seq![text::digit(value / 10)]);
        }
        assert(written.last() == text::digit(value % 10));
    } else {
        assert(written.drop_last() =~= Seq::<char>::empty());
        assert(digits_value(Seq::<char>::empty()) == 0);
        assert(written.last() == text::digit(value));
    }
}

proof fn lemma_trimmed_start(value: Seq<char>)
    ensures
        exists|skipped: int|
            0 <= skipped <= value.len() && trim_start(value) == value.skip(skipped) && forall|i: int|
                0 <= i < skipped ==> is_whitespace(#[trigger] value[i]),
        trim_start(value).len() > 0 ==> !is_whitespace(trim_start(value)[0]),
    decreases value.len(),
{
    if value.len() > 0 && is_whitespace(value[0]) {
        let rest = value.drop_first();
        lemma_trimmed_start(rest);
        let skipped = choose|skipped: int|
            0 <= skipped <= rest.len() && trim_start(rest) == rest.skip(skipped) && forall|i: int|
                0 <= i < skipped ==> is_whitespace(#[trigger] rest[i]);
        assert(rest.skip(skipped) =~= value.skip(skipped + 1));
        assert forall|i: int| 0 <= i < skipped + 1 implies is_whitespace(#[trigger] value[i]) by {
            if i > 0 {
                assert(rest[i - 1] == value[i]);
            }
        }
        assert(trim_start(value) == value.skip(skipped + 1));
    } else {
        assert(value.skip(0) =~= value);
    }
}

proof fn lemma_trimmed_end(value: Seq<char>)
    ensures
        exists|kept: int|
            0 <= kept <= value.len() && trim_end(value) == value.take(kept) && forall|i: int|
                kept <= i < value.len() ==> is_whitespace(#[trigger] value[i]),
        trim_end(value).len() > 0 ==> !is_whitespace(trim_end(value).last()),
    decreases value.len(),
{
    if value.len() > 0 && is_whitespace(value.last()) {
        let rest = value.drop_last();
        lemma_trimmed_end(rest);
        let kept = choose|kept: int|
            0 <= kept <= rest.len() && trim_end(rest) == rest.take(kept) && forall|i: int|
                kept <= i < rest.len() ==> is_whitespace(#[trigger] rest[i]);
        assert(rest.take(kept) =~= value.take(kept));
        assert forall|i: int| kept <= i < value.len() implies is_whitespace(#[trigger] value[i]) by {
            if i < rest.len() {
                assert(rest[i] == value[i]);
            }
        }
        assert(trim_end(value) == value.take(kept));
    } else {
        assert(value.take(value.len() as int) =~= value);
    }
}

/// Trimming takes nothing but whitespace off the two ends of a text, and leaves
/// none there.
pub proof fn only_whitespace_is_trimmed(value: Seq<char>)
    ensures
        trimmed(value).len() > 0 ==> !is_whitespace(trimmed(value)[0]) && !is_whitespace(trimmed(value).last()),
        exists|from: int, to: int|
            0 <= from <= to <= value.len() && #[trigger] value.subrange(from, to) == trimmed(value) && (forall|i: int|
                0 <= i < from ==> is_whitespace(#[trigger] value[i])) && (forall|i: int|
                to <= i < value.len() ==> is_whitespace(#[trigger] value[i])),
        is_present(value) <==> exists|i: int| 0 <= i < value.len() && !is_whitespace(#[trigger] value[i]),
{
    let middle = trim_start(value);
    lemma_trimmed_start(value);
    lemma_trimmed_end(middle);
    let from = choose|skipped: int|
        0 <= skipped <= value.len() && trim_start(value) == value.skip(skipped) && forall|i: int|
            0 <= i < skipped ==> is_whitespace(#[trigger] value[i]);
    let kept = choose|kept: int|
        0 <= kept <= middle.len() && trim_end(middle) == middle.take(kept) && forall|i: int|
            kept <= i < middle.len() ==> is_whitespace(#[trigger] middle[i]);
    let to = from + kept;
    assert(value.subrange(from, to) =~= trimmed(value));
    assert forall|i: int| to <= i < value.len() implies is_whitespace(#[trigger] value[i]) by {
        assert(middle[i - from] == value[i]);
    }
    if trimmed(value).len() > 0 {
        assert(trimmed(value)[0] == middle[0]);
        assert(trimmed(value)[0] == value[from]);
        assert(is_present(value));
    } else {
        assert forall|i: int| 0 <= i < value.len() implies is_whitespace(#[trigger] value[i]) by {
            assert(from == to);
        }
    }
}

/// Only slashes at the end of a text are taken off, and all of them.
pub proof fn only_slashes_are_taken_off(value: Seq<char>)
    ensures
        without_slashes(value).len() > 0 ==> without_slashes(value).last() != '/',
        without_slashes(value).len() <= value.len(),
        forall|i: int| 0 <= i < without_slashes(value).len() ==> #[trigger] without_slashes(value)[i] == value[i],
        forall|i: int| without_slashes(value).len() <= i < value.len() ==> #[trigger] value[i] == '/',
    decreases value.len(),
{
    if value.len() > 0 && value.last() == '/' {
        only_slashes_are_taken_off(value.drop_last());
        assert forall|i: int| without_slashes(value).len() <= i < value.len() implies #[trigger] value[i] == '/' by {
            if i < value.len() - 1 {
                assert(value.drop_last()[i] == value[i]);
            }
        }
    }
}

proof fn lemma_plain_host(host: Seq<char>, scheme: Seq<char>)
    requires
        forall|i: int| 0 <= i < host.len() ==> !is_whitespace(#[trigger] host[i]) && host[i] != '/' && host[i] != ':',
        forall|i: int| 0 <= i < scheme.len() ==> #[trigger] scheme[i] != ':',
        host.len() > 0,
    ensures
        without_slashes(trimmed(host)) == host,
        with_scheme(host, scheme) == scheme + "://"@ + host,
        !names_port(scheme + "://"@ + host),
{
    reveal_strlit("://");
    reveal_strlit(":");
    let named = scheme + "://"@ + host;
    assert(!is_whitespace(host[0]) && !is_whitespace(host[host.len() - 1]) && host[host.len() - 1] != '/');
    lemma_kept(host);
    assert(!text::occurs_in(host, "://"@)) by {
        if text::occurs_in(host, "://"@) {
            let at = choose|at: int| text::occurs_at(host, "://"@, at);
            assert(host.subrange(at, at + 3)[0] == host[at]);
        }
    }
    assert(named.subrange(scheme.len() as int, (scheme.len() + 3) as int) =~= "://"@);
    assert forall|earlier: int| 0 <= earlier < scheme.len() implies !text::occurs_at(named, "://"@, earlier) by {
        if text::occurs_at(named, "://"@, earlier) {
            assert(named.subrange(earlier, earlier + 3)[0] == scheme[earlier]);
        }
    }
    lemma_first_is(named, "://"@, scheme.len() as int);
    assert(named.subrange((scheme.len() + 3) as int, named.len() as int) =~= host);
    text::lemma_no_occurrence(host, ":"@);
    assert(!text::occurs_in(host, ":"@)) by {
        if text::occurs_in(host, ":"@) {
            let at = choose|at: int| text::occurs_at(host, ":"@, at);
            assert(host.subrange(at, at + 1)[0] == host[at]);
        }
    }
}

/// The name of a host is completed with the scheme in front of it and the port
/// behind it.
pub proof fn hosts_are_given_scheme_and_port(host: Seq<char>, scheme: Seq<char>, port: u16)
    requires
        forall|i: int| 0 <= i < host.len() ==> !is_whitespace(#[trigger] host[i]) && host[i] != '/' && host[i] != ':',
        forall|i: int| 0 <= i < scheme.len() ==> #[trigger] scheme[i] != ':',
        host.len() > 0,
    ensures
        complete_endpoint(host, scheme, port) == scheme + "://"@ + host + ":"@ + text::decimal_text(port as nat),
{
    lemma_plain_host(host, scheme);
}

/// A host that names a port keeps it, and one that names a scheme keeps that.
pub proof fn hosts_keep_what_they_name(
    host: Seq<char>,
    scheme: Seq<char>,
    named_port: u16,
    other_scheme: Seq<char>,
    port: u16,
)
    requires
        forall|i: int| 0 <= i < host.len() ==> !is_whitespace(#[trigger] host[i]) && host[i] != '/' && host[i] != ':',
        forall|i: int| 0 <= i < scheme.len() ==> #[trigger] scheme[i] != ':',
        scheme.len() == 0 || !is_whitespace(scheme[0]),
        host.len() > 0,
    ensures
        complete_endpoint(scheme + "://"@ + host, other_scheme, port) == scheme + "://"@ + host + ":"@
            + text::decimal_text(port as nat),
        complete_endpoint(
            scheme + "://"@ + host + ":"@ + text::decimal_text(named_port as nat),
            other_scheme,
            port,
        ) == scheme + "://"@ + host + ":"@ + text::decimal_text(named_port as nat),
{
    let named = scheme + "://"@ + host;
    lemma_plain_host(host, scheme);
    assert(with_scheme(named, other_scheme) == named) by {
        reveal_strlit("://");
        assert(named.last() == host[host.len() - 1]);
        assert(!is_whitespace(named[0])) by {
            if scheme.len() > 0 {
                assert(named[0] == scheme[0]);
            }
        }
        lemma_kept(named);
        assert(named.subrange(scheme.len() as int, (scheme.len() + 3) as int) =~= "://"@);
        assert(text::occurs_at(named, "://"@, scheme.len() as int));
    }
    let complete = complete_endpoint(host, scheme, named_port);
    assert(complete == named + ":"@ + text::decimal_text(named_port as nat));
    assert(complete_endpoint(complete, other_scheme, port) == complete) by {
        port_is_added_once(host, scheme, named_port, other_scheme, port);
    }
}

/// Decimal digits that are worth a port name one, with or without a plus sign;
/// what holds another character names none.
pub proof fn ports_are_numbers(value: Seq<char>, port: u16, other: nat)
    ensures
        is_port(text::decimal_text(port as nat)),
        is_port(seq!['+'] + text::decimal_text(port as nat)),
        other > 65535 ==> !is_port(text::decimal_text(other)),
        is_port(value) ==> value.len() > 0 && (value[0] == '+' || '0' <= value[0] <= '9') && (value[0] == '+'
            ==> value.len() > 1) && forall|i: int| 1 <= i < value.len() ==> '0' <= #[trigger] value[i] <= '9',
{
    lemma_decimal_is_port(port as nat);
    lemma_decimal_is_port(other);
    let digits = text::decimal_text(port as nat);
    assert('0' <= digits[0] <= '9');
    assert('0' <= text::decimal_text(other)[0] <= '9');
    assert((seq!['+'] + digits).drop_first() =~= digits);
    if is_port(value) {
        let kept = without_plus(value);
        assert forall|i: int| 1 <= i < value.len() implies '0' <= #[trigger] value[i] <= '9' by {
            if value[0] == '+' {
                assert(kept[i - 1] == value[i]);
            } else {
                assert(kept[i] == value[i]);
            }
        }
        assert(kept[0] == value[0] || value[0] == '+');
    }
}

/// The address of a cluster is taken with one name behind the scheme, with a slash
/// behind it, and with two names and a comma between them.
pub proof fn names_behind_the_scheme_are_an_address(first: Seq<char>, second: Seq<char>)
    requires
        first.len() > 0,
        second.len() > 0,
        forall|i: int| 0 <= i < first.len() ==> !is_whitespace(#[trigger] first[i]) && first[i] != '/' && first[i] != ',',
        forall|i: int|
            0 <= i < second.len() ==> !is_whitespace(#[trigger] second[i]) && second[i] != '/' && second[i] != ',',
    ensures
        is_name_node_uri("hdfs://"@ + first),
        is_name_node_uri("hdfs://"@ + first + seq!['/']),
        is_name_node_uri("hdfs://"@ + first + seq![','] + second),
        !is_name_node_uri(first),
        !is_name_node_uri("hdfs://"@),
        !is_name_node_uri("hdfs://"@ + first + seq![',']),
        !is_name_node_uri("hdfs://"@ + seq![','] + first),
        !is_name_node_uri("hdfs://"@ + first + seq!['/'] + second),
{
    reveal_strlit("hdfs://");
    let scheme = "hdfs://"@;
    assert(scheme.len() == 7 && scheme[0] == 'h' && scheme[6] == '/');
    let two = first + seq![','] + second;
    assert(first[0] == first[0] && first[first.len() - 1] == first.last());
    assert(second[second.len() - 1] == second.last());
    let single = scheme + first;
    assert(single.subrange(0, 7) =~= scheme);
    assert(single.skip(7) =~= first);
    assert(single.last() == first.last());
    let slashed = scheme + first + seq!['/'];
    assert(slashed.subrange(0, 7) =~= scheme);
    assert(slashed.skip(7) =~= first.push('/'));
    assert(first.push('/').drop_last() =~= first);
    reveal_with_fuel(without_slashes, 3);
    let pair = scheme + first + seq![','] + second;
    assert(pair.subrange(0, 7) =~= scheme);
    assert(pair.skip(7) =~= two);
    assert(pair.last() == second.last());
    assert forall|i: int| 0 <= i < two.len() - 1 && #[trigger] two[i] == ',' implies two[i + 1] != ',' by {
        if i < first.len() {
            assert(two[i] == first[i]);
        } else if i == first.len() {
            assert(two[i + 1] == second[0]);
        } else {
            assert(two[i] == second[i - first.len() - 1]);
        }
    }
    assert forall|i: int| 0 <= i < two.len() implies #[trigger] two[i] != '/' && !is_whitespace(two[i]) by {
        if i < first.len() {
            assert(two[i] == first[i]);
        } else if i > first.len() {
            assert(two[i] == second[i - first.len() - 1]);
        }
    }
    assert(two[0] == first[0]);
    assert(two.last() == second.last());
    assert(trimmed(first) == first);
    if first.len() >= 7 {
        assert(first.subrange(0, 7)[6] == first[6]);
    }
    assert(scheme.skip(7) =~= Seq::<char>::empty());
    let open = scheme + first + seq![','];
    assert(open.skip(7) =~= first.push(','));
    assert(open.last() == ',');
    assert(trimmed(open) == open);
    let led = scheme + seq![','] + first;
    assert(led.skip(7) =~= seq![','] + first);
    assert(led.last() == first.last());
    assert(trimmed(led) == led);
    assert((seq![','] + first).last() == first.last());
    let deep = scheme + first + seq!['/'] + second;
    assert(deep.skip(7) =~= first + seq!['/'] + second);
    assert(deep.last() == second.last());
    assert(trimmed(deep) == deep);
    assert((first + seq!['/'] + second).last() == second.last());
    assert((first + seq!['/'] + second)[first.len() as int] == '/');
}

/// A setting that is left out is refused by its name.
pub proof fn settings_are_refused_by_their_names(label: Seq<char>)
    ensures
        required_error(label).code == "configuration"@ && required_error(label).message == label + " is required"@
            && required_error(label).recovery is None,
        name_node_error().code == "configuration"@ && name_node_error().message
            == "The HDFS NameNode URI must use the hdfs:// scheme"@ && name_node_error().recovery is None,
{
}

} // verus!
