//! What identifies a version of a remote file, and the durable text that a
//! later run compares it with.
use crate::text;
use crate::text::copy_optional;
use crate::text::decimal;
use crate::text::is_hex_text;
use crate::text::joined2;
use crate::text::joined3;
use crate::text::rsplit_once;
use crate::text::same_optional_text;
use crate::text::same_text;
use vstd::prelude::*;

verus! {

/// The size, modification time, entity tag and version that a remote file was
/// observed with.
#[derive(Debug)]
pub struct RemoteFileFingerprint {
    pub size: u64,
    pub modified: String,
    pub etag: Option<String>,
    pub version: Option<String>,
}

/// What a [`RemoteFileFingerprint`] says.
#[verifier::ext_equal]
pub struct FingerprintView {
    pub size: u64,
    pub modified: Seq<char>,
    pub etag: Option<Seq<char>>,
    pub version: Option<Seq<char>>,
}

impl View for RemoteFileFingerprint {
    type V = FingerprintView;

    open spec fn view(&self) -> FingerprintView {
        FingerprintView {
            size: self.size,
            modified: self.modified@,
            etag: text::optional_text(self.etag),
            version: text::optional_text(self.version),
        }
    }
}

/// A text behind its length and a colon.
pub open spec fn counted(value: Seq<char>) -> Seq<char> {
    text::decimal_text(value.len()) + seq![':'] + value
}

/// An optional text: a hyphen where it is absent.
pub open spec fn counted_optional(value: Option<Seq<char>>) -> Seq<char> {
    match value {
        Some(present) => counted(present),
        None => seq!['-'],
    }
}

/// The durable text of a fingerprint.
pub open spec fn encoded(fingerprint: FingerprintView) -> Seq<char> {
    text::decimal_text(fingerprint.size as nat) + (seq![':'] + counted(fingerprint.modified)) + counted_optional(
        fingerprint.etag,
    ) + counted_optional(fingerprint.version)
}

/// What stands between a fingerprint and the hash of the content.
pub open spec fn relay_marker() -> Seq<char> {
    ";relay_sha256:"@
}

/// The durable text of a fingerprint and of the content that was read under it.
pub open spec fn durable(fingerprint: FingerprintView, sha256: Seq<char>) -> Seq<char> {
    encoded(fingerprint) + relay_marker() + sha256
}

/// The text has the shape of a SHA-256 digest in hexadecimal.
pub open spec fn is_digest_text(value: Seq<char>) -> bool {
    value.len() == 64 && text::all_hex(value)
}

/// The content hash that a durable text carries.
pub open spec fn relay_hash(persisted: Seq<char>) -> Option<Seq<char>> {
    match text::split_at_last(persisted, relay_marker()) {
        Some(parts) => if is_digest_text(parts.1) {
            Some(parts.1)
        } else {
            None
        },
        None => None,
    }
}

/// The content hash that an optional durable text carries.
pub open spec fn optional_relay_hash(persisted: Option<Seq<char>>) -> Option<Seq<char>> {
    match persisted {
        Some(present) => relay_hash(present),
        None => None,
    }
}

/// A durable text was made of this fingerprint, with or without a content hash.
pub open spec fn persisted_matches(persisted: Seq<char>, observed: FingerprintView) -> bool {
    match text::split_at_last(persisted, relay_marker()) {
        Some(parts) => parts.0 == encoded(observed) && is_digest_text(parts.1),
        None => persisted == encoded(observed),
    }
}

/// A durable text was made of this fingerprint and of this content hash.
pub open spec fn persisted_content_matches(
    persisted: Seq<char>,
    observed: FingerprintView,
    sha256: Seq<char>,
) -> bool {
    persisted_matches(persisted, observed) && relay_hash(persisted) == Some(sha256)
}

fn counted_text(value: &str) -> (all: String)
    ensures
        all@ == counted(value@),
{
    let length = decimal(value.unicode_len() as u64);
    proof {
        reveal_strlit(":");
        assert(":"@ =~= seq![':']);
    }
    joined3(length.as_str(), ":", value)
}

fn counted_optional_text(value: &Option<String>) -> (all: String)
    ensures
        all@ == counted_optional(text::optional_text(*value)),
{
    match value {
        Some(present) => counted_text(present.as_str()),
        None => {
            proof {
                reveal_strlit("-");
                assert("-"@ =~= seq!['-']);
            }
            "-".to_owned()
        },
    }
}

impl RemoteFileFingerprint {
    /// The durable text of the fingerprint.
    pub fn encode(&self) -> (all: String)
        ensures
            all@ == encoded(self@),
    {
        let size = decimal(self.size);
        let modified = counted_text(self.modified.as_str());
        let etag = counted_optional_text(&self.etag);
        let version = counted_optional_text(&self.version);
        proof {
            reveal_strlit(":");
            assert(":"@ =~= seq![':']);
        }
        let modified_field = joined2(":", modified.as_str());
        let head = joined2(size.as_str(), modified_field.as_str());
        joined3(head.as_str(), etag.as_str(), version.as_str())
    }

    /// Two fingerprints say the same.
    pub fn same_as(&self, other: &RemoteFileFingerprint) -> (same: bool)
        ensures
            same == (self@ == other@),
    {
        self.size == other.size && same_text(self.modified.as_str(), other.modified.as_str())
            && same_optional_text(&self.etag, &other.etag) && same_optional_text(
            &self.version,
            &other.version,
        )
    }
}

impl Clone for RemoteFileFingerprint {
    fn clone(&self) -> (copy: RemoteFileFingerprint)
        ensures
            copy == *self,
    {
        RemoteFileFingerprint {
            size: self.size,
            modified: self.modified.clone(),
            etag: copy_optional(&self.etag),
            version: copy_optional(&self.version),
        }
    }
}

/// A fingerprint with the SHA-256 digest of the content that was read under it.
#[derive(Debug)]
pub struct VerifiedRemoteContent {
    pub fingerprint: RemoteFileFingerprint,
    pub sha256: String,
}

impl VerifiedRemoteContent {
    /// The durable text of the fingerprint and the content hash.
    pub fn durable_fingerprint(&self) -> (all: String)
        ensures
            all@ == durable(self.fingerprint@, self.sha256@),
    {
        durable_text(&self.fingerprint, self.sha256.as_str())
    }
}

/// The durable text of a fingerprint and a content hash.
pub fn durable_text(fingerprint: &RemoteFileFingerprint, sha256: &str) -> (all: String)
    ensures
        all@ == durable(fingerprint@, sha256@),
{
    let remote = fingerprint.encode();
    joined3(remote.as_str(), ";relay_sha256:", sha256)
}

fn is_digest(value: &str) -> (digest: bool)
    ensures
        digest == is_digest_text(value@),
{
    value.unicode_len() == 64 && is_hex_text(value)
}

/// Says whether a durable text was made of this fingerprint.
pub fn persisted_remote_fingerprint_matches(persisted: &str, observed: &RemoteFileFingerprint) -> (matches: bool)
    ensures
        matches == persisted_matches(persisted@, observed@),
{
    let expected = observed.encode();
    match rsplit_once(persisted, ";relay_sha256:") {
        Some((remote, hash)) => same_text(remote, expected.as_str()) && is_digest(hash),
        None => same_text(persisted, expected.as_str()),
    }
}

/// The content hash that a durable text carries.
pub fn persisted_relay_hash(persisted: Option<&str>) -> (hash: Option<&str>)
    ensures
        match hash {
            Some(present) => persisted is Some && relay_hash(persisted->0@) == Some(present@),
            None => persisted is None || relay_hash(persisted->0@) is None,
        },
{
    match persisted {
        Some(fingerprint) => match rsplit_once(fingerprint, ";relay_sha256:") {
            Some((_, hash)) => if is_digest(hash) {
                Some(hash)
            } else {
                None
            },
            None => None,
        },
        None => None,
    }
}

/// Says whether a durable text was made of this fingerprint and this content.
pub fn persisted_verified_remote_content_matches(persisted: &str, observed: &VerifiedRemoteContent) -> (matches: bool)
    ensures
        matches == persisted_content_matches(persisted@, observed.fingerprint@, observed.sha256@),
{
    if !persisted_remote_fingerprint_matches(persisted, &observed.fingerprint) {
        return false;
    }
    match persisted_relay_hash(Some(persisted)) {
        Some(hash) => same_text(hash, observed.sha256.as_str()),
        None => false,
    }
}

/// Two texts of digits, each before a colon: where the wholes agree, so do the
/// digits and what stands behind the colon.
pub proof fn digits_before_colon(left: nat, left_rest: Seq<char>, right: nat, right_rest: Seq<char>)
    requires
        text::decimal_text(left) + (seq![':'] + left_rest) == text::decimal_text(right) + (seq![':'] + right_rest),
    ensures
        left == right,
        left_rest == right_rest,
{
    text::lemma_decimal_digits(left);
    text::lemma_decimal_digits(right);
    let first = text::decimal_text(left);
    let second = text::decimal_text(right);
    let whole = first + (seq![':'] + left_rest);
    let other = second + (seq![':'] + right_rest);
    assert(whole[first.len() as int] == ':');
    assert(other[second.len() as int] == ':');
    if first.len() < second.len() {
        assert(other[first.len() as int] == second[first.len() as int]);
    }
    if second.len() < first.len() {
        assert(whole[second.len() as int] == first[second.len() as int]);
    }
    assert(whole.subrange(0, first.len() as int) =~= first);
    assert(other.subrange(0, second.len() as int) =~= second);
    text::lemma_decimal_injective(left, right);
    assert(whole.subrange((first.len() + 1) as int, whole.len() as int) =~= left_rest);
    assert(other.subrange((second.len() + 1) as int, other.len() as int) =~= right_rest);
}

/// A counted text and what follows it can be told apart.
pub proof fn counted_then_rest(left: Seq<char>, left_rest: Seq<char>, right: Seq<char>, right_rest: Seq<char>)
    requires
        counted(left) + left_rest == counted(right) + right_rest,
    ensures
        left == right,
        left_rest == right_rest,
{
    assert(counted(left) + left_rest =~= text::decimal_text(left.len()) + (seq![':'] + (left + left_rest)));
    assert(counted(right) + right_rest =~= text::decimal_text(right.len()) + (seq![':'] + (right + right_rest)));
    digits_before_colon(left.len(), left + left_rest, right.len(), right + right_rest);
    let whole = left + left_rest;
    let other = right + right_rest;
    assert(whole.subrange(0, left.len() as int) =~= left);
    assert(other.subrange(0, right.len() as int) =~= right);
    assert(whole.subrange(left.len() as int, whole.len() as int) =~= left_rest);
    assert(other.subrange(right.len() as int, other.len() as int) =~= right_rest);
}

/// An optional text and what follows it can be told apart.
proof fn optional_then_rest(
    left: Option<Seq<char>>,
    left_rest: Seq<char>,
    right: Option<Seq<char>>,
    right_rest: Seq<char>,
)
    requires
        counted_optional(left) + left_rest == counted_optional(right) + right_rest,
    ensures
        left == right,
        left_rest == right_rest,
{
    let whole = counted_optional(left) + left_rest;
    let other = counted_optional(right) + right_rest;
    if left is Some {
        text::lemma_decimal_digits(left->0.len());
        assert(whole[0] == text::decimal_text(left->0.len())[0]);
    } else {
        assert(whole[0] == '-');
        assert(whole.subrange(1, whole.len() as int) =~= left_rest);
    }
    if right is Some {
        text::lemma_decimal_digits(right->0.len());
        assert(other[0] == text::decimal_text(right->0.len())[0]);
    } else {
        assert(other[0] == '-');
        assert(other.subrange(1, other.len() as int) =~= right_rest);
    }
    if left is Some && right is Some {
        counted_then_rest(left->0, left_rest, right->0, right_rest);
    }
}

proof fn regrouped(a: Seq<char>, b: Seq<char>, c: Seq<char>, d: Seq<char>, e: Seq<char>)
    ensures
        a + (b + c) + d + e == a + (b + (c + (d + (e + Seq::<char>::empty())))),
{
    assert(a + (b + c) + d + e =~= a + (b + (c + (d + (e + Seq::<char>::empty())))));
}

/// Two fingerprints with the same durable text are the same fingerprint.
pub proof fn encoding_is_injective(left: FingerprintView, right: FingerprintView)
    requires
        encoded(left) == encoded(right),
    ensures
        left == right,
{
    let colon = seq![':'];
    let empty = Seq::<char>::empty();
    let left_tail = counted_optional(left.version) + empty;
    let right_tail = counted_optional(right.version) + empty;
    let left_rest = counted_optional(left.etag) + left_tail;
    let right_rest = counted_optional(right.etag) + right_tail;
    regrouped(
        text::decimal_text(left.size as nat),
        colon,
        counted(left.modified),
        counted_optional(left.etag),
        counted_optional(left.version),
    );
    regrouped(
        text::decimal_text(right.size as nat),
        colon,
        counted(right.modified),
        counted_optional(right.etag),
        counted_optional(right.version),
    );
    digits_before_colon(
        left.size as nat,
        counted(left.modified) + left_rest,
        right.size as nat,
        counted(right.modified) + right_rest,
    );
    counted_then_rest(left.modified, left_rest, right.modified, right_rest);
    optional_then_rest(left.etag, left_tail, right.etag, right_tail);
    optional_then_rest(left.version, empty, right.version, empty);
}

/// A tail without semicolons is split off at a marker whose only semicolon is
/// its first character.
proof fn tail_is_split_off(remote: Seq<char>, marker: Seq<char>, hash: Seq<char>)
    requires
        marker.len() > 0,
        marker[0] == ';',
        forall|i: int| 0 < i < marker.len() ==> marker[i] != ';',
        forall|i: int| 0 <= i < hash.len() ==> hash[i] != ';',
    ensures
        text::split_at_last(remote + marker + hash, marker) == Some((remote, hash)),
{
    let whole = remote + marker + hash;
    let at = remote.len() as int;
    assert(whole.subrange(at, at + marker.len()) =~= marker);
    assert forall|later: int| at < later implies !text::occurs_at(whole, marker, later) by {
        if text::occurs_at(whole, marker, later) {
            assert(whole.subrange(later, later + marker.len())[0] == whole[later]);
            if later < at + marker.len() {
                assert(whole[later] == marker[later - at]);
            } else {
                assert(whole[later] == hash[later - at - marker.len()]);
            }
        }
    }
    text::lemma_last_occurrence(whole, marker, at);
    assert(whole.subrange(0, at) =~= remote);
    assert(whole.subrange(at + marker.len(), whole.len() as int) =~= hash);
}

/// A digest behind the marker is what a split at the last marker gives back.
proof fn digest_is_split_off(remote: Seq<char>, hash: Seq<char>)
    requires
        text::all_hex(hash),
    ensures
        text::split_at_last(remote + relay_marker() + hash, relay_marker()) == Some((remote, hash)),
{
    reveal_strlit(";relay_sha256:");
    tail_is_split_off(remote, relay_marker(), hash);
}

/// What was written down for a fingerprint and a content hash is recognised as
/// theirs, and gives the hash back.
pub proof fn durable_text_is_recognised(fingerprint: FingerprintView, sha256: Seq<char>)
    requires
        is_digest_text(sha256),
    ensures
        persisted_matches(durable(fingerprint, sha256), fingerprint),
        relay_hash(durable(fingerprint, sha256)) == Some(sha256),
        persisted_content_matches(durable(fingerprint, sha256), fingerprint, sha256),
{
    digest_is_split_off(encoded(fingerprint), sha256);
}

/// What was written down for a fingerprint and a content hash is taken for no
/// other fingerprint and for no other content.
pub proof fn durable_text_names_one_content(
    fingerprint: FingerprintView,
    sha256: Seq<char>,
    observed: FingerprintView,
    observed_sha256: Seq<char>,
)
    requires
        is_digest_text(sha256),
        persisted_content_matches(durable(fingerprint, sha256), observed, observed_sha256),
    ensures
        observed == fingerprint,
        observed_sha256 == sha256,
{
    digest_is_split_off(encoded(fingerprint), sha256);
    encoding_is_injective(observed, fingerprint);
}

/// A fingerprint that was written down without a content hash is recognised,
/// and taken for no other, unless its own text holds the marker of a hash.
pub proof fn plain_text_is_recognised(fingerprint: FingerprintView, observed: FingerprintView)
    requires
        !text::occurs_in(encoded(fingerprint), relay_marker()),
    ensures
        relay_hash(encoded(fingerprint)) is None,
        persisted_matches(encoded(fingerprint), observed) <==> observed == fingerprint,
{
    text::lemma_no_occurrence(encoded(fingerprint), relay_marker());
    if persisted_matches(encoded(fingerprint), observed) {
        encoding_is_injective(observed, fingerprint);
    }
}

/// Two files look the same only where size, modification time, entity tag and
/// version of both agree.
pub proof fn fingerprints_say_everything(left: RemoteFileFingerprint, right: RemoteFileFingerprint)
    ensures
        left@ == right@ ==> left.size == right.size && left.modified@ == right.modified@,
        left@ == right@ ==> (left.etag is Some <==> right.etag is Some) && (left.etag is Some ==> left.etag->0@
            == right.etag->0@),
        left@ == right@ ==> (left.version is Some <==> right.version is Some) && (left.version is Some
            ==> left.version->0@ == right.version->0@),
        left.size == right.size && left.modified@ == right.modified@ && text::optional_text(left.etag)
            == text::optional_text(right.etag) && text::optional_text(left.version) == text::optional_text(
            right.version,
        ) ==> left@ == right@,
{
    if left@ == right@ {
        assert(left@.etag == right@.etag && left@.version == right@.version);
        assert(left@.size == right@.size && left@.modified == right@.modified);
    }
}

/// Nothing but the durable text of a fingerprint, alone or with the digest of a
/// content behind it, is taken for that fingerprint, and nothing but the one with
/// a digest for that content.
pub proof fn only_durable_texts_are_recognised(persisted: Seq<char>, observed: FingerprintView, sha256: Seq<char>)
    ensures
        persisted_content_matches(persisted, observed, sha256) ==> persisted == durable(observed, sha256)
            && is_digest_text(sha256),
        persisted_matches(persisted, observed) ==> persisted == encoded(observed) || (relay_hash(persisted) matches Some(
            hash,
        ) && persisted == durable(observed, hash)),
        relay_hash(persisted) matches Some(hash) ==> is_digest_text(hash) && text::has_suffix(
            persisted,
            ";relay_sha256:"@ + hash,
        ),
{
    text::lemma_no_occurrence(persisted, relay_marker());
    if let Some(parts) = text::split_at_last(persisted, relay_marker()) {
        let at = text::last_occurrence(persisted, relay_marker());
        assert(text::occurs_at(persisted, relay_marker(), at));
        assert(persisted =~= parts.0 + relay_marker() + parts.1);
        let tail = relay_marker() + parts.1;
        assert(persisted.subrange(persisted.len() - tail.len(), persisted.len() as int) =~= tail);
    }
}

/// A digest in hexadecimal has sixty-four digits.
pub proof fn digests_have_sixty_four_digits(value: Seq<char>)
    requires
        is_digest_text(value),
    ensures
        value.len() == 64,
        forall|i: int|
            0 <= i < 64 ==> ('0' <= #[trigger] value[i] <= '9' || 'a' <= value[i] <= 'f' || 'A' <= value[i] <= 'F'),
{
    assert forall|i: int| 0 <= i < 64 implies ('0' <= #[trigger] value[i] <= '9' || 'a' <= value[i] <= 'f' || 'A'
        <= value[i] <= 'F') by {
        assert(text::is_hex(value[i]));
    }
}

} // verus!
