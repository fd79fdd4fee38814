//! Byte and text encodings used on the wire: base64 text for keys and
//! signatures, and the framing of sealed input maps.

use vstd::prelude::*;
use base64ct::Encoding;

verus! {

/// What standard (padded) base64 decoding yields for a text, `None` where
/// the text is not valid base64.
pub uninterp spec fn base64_decoded(text: Seq<char>) -> Option<Seq<u8>>;

/// Decodes standard padded base64 with `base64ct::Base64::decode_vec`.
/// Trusted: the result is the one `base64_decoded` names for the text; any
/// error of the crate is reported as `None`.
#[verifier::external_body]
pub(crate) fn base64_decode(text: &str) -> (res: Option<Vec<u8>>)
    ensures
        res matches Some(bytes) ==> base64_decoded(text@) == Some(bytes@),
        res is None <==> base64_decoded(text@) is None,
{
    base64ct::Base64::decode_vec(text).ok()
}

} // verus!

verus! {

/// What `uuid::Uuid`'s `FromStr` yields for a text: the 16 bytes of the
/// UUID, `None` where the text is not a UUID in one of the accepted forms.
pub uninterp spec fn uuid_parsed(text: Seq<char>) -> Option<Seq<u8>>;

/// Parses a UUID with `str::parse::<uuid::Uuid>` and hands out its 16 bytes
/// (`Uuid::as_bytes`). Trusted: the result is the one `uuid_parsed` names.
#[verifier::external_body]
pub(crate) fn parse_uuid(text: &str) -> (res: Option<Vec<u8>>)
    ensures
        res matches Some(bytes) ==> uuid_parsed(text@) == Some(bytes@) && bytes@.len() == 16,
        res is None <==> uuid_parsed(text@) is None,
{
    text.parse::<uuid::Uuid>().ok().map(|id| id.as_bytes().to_vec())
}

/// What `serde_json` yields when it reads a text as a JSON array of
/// strings, `None` where the text is not one.
pub uninterp spec fn json_string_array(text: Seq<char>) -> Option<Seq<Seq<char>>>;

/// Reads a JSON array of strings with `serde_json::from_str::<Vec<String>>`.
/// Trusted: the result is the one `json_string_array` names.
#[verifier::external_body]
pub(crate) fn parse_json_string_array(text: &str) -> (res: Option<Vec<String>>)
    ensures
        res matches Some(items) ==> json_string_array(text@) == Some(items.deep_view()),
        res is None <==> json_string_array(text@) is None,
{
    serde_json::from_str::<Vec<String>>(text).ok()
}

/// The 8 little-endian bytes of `n`, as bincode's fixed-width encoding writes
/// a length.
pub open spec fn u64_le_bytes(n: nat) -> Seq<u8> {
    Seq::new(8, |i: int| ((n as int / vstd::arithmetic::power::pow(256, i as nat)) % 256) as u8)
}

/// A byte string as bincode frames it: its length, then its bytes.
pub open spec fn framed_bytes(bytes: Seq<u8>) -> Seq<u8> {
    u64_le_bytes(bytes.len()) + bytes
}

/// One entry of a name-to-bytes map as bincode frames it: the UTF-8 name,
/// then the bytes, each with its length in front.
pub open spec fn framed_entry(entry: (Seq<char>, Seq<u8>)) -> Seq<u8> {
    framed_bytes(vstd::utf8::encode_utf8(entry.0)) + framed_bytes(entry.1)
}

/// The framed entries one after another.
pub open spec fn framed_entry_list(entries: Seq<(Seq<char>, Seq<u8>)>) -> Seq<u8>
    decreases entries.len(),
{
    if entries.len() == 0 {
        Seq::empty()
    } else {
        framed_entry_list(entries.drop_last()) + framed_entry(entries.last())
    }
}

/// A name-to-bytes map as bincode (1.x, default options) writes it: the
/// number of entries, then each entry in order.
pub open spec fn framed_map(entries: Seq<(Seq<char>, Seq<u8>)>) -> Seq<u8> {
    u64_le_bytes(entries.len()) + framed_entry_list(entries)
}

/// Whether `a` comes strictly before `b` in the byte-wise lexicographic
/// order, the order `String`'s `Ord` compares UTF-8 bytes by: `a` is a proper
/// prefix of `b`, or at the first byte where they differ, `a`'s is smaller.
pub open spec fn bytes_precede(a: Seq<u8>, b: Seq<u8>) -> bool {
    ||| (a.len() < b.len() && a == b.subrange(0, a.len() as int))
    ||| exists|i: int|
        #![trigger a[i], b[i]]
        0 <= i < a.len() && i < b.len() && a.subrange(0, i) == b.subrange(0, i) && a[i] < b[i]
}

/// Whether the name of entry `j` comes strictly before the name of entry
/// `j + 1`.
pub open spec fn name_precedes_next(entries: Seq<(Seq<char>, Seq<u8>)>, j: int) -> bool {
    bytes_precede(vstd::utf8::encode_utf8(entries[j].0), vstd::utf8::encode_utf8(entries[j + 1].0))
}

/// Whether the names strictly increase from entry to entry: the entries are
/// those of a `BTreeMap` keyed by the names, in the order it hands them out,
/// each name once.
pub open spec fn names_in_map_order(entries: Seq<(Seq<char>, Seq<u8>)>) -> bool {
    forall|j: int| 0 <= j < entries.len() - 1 ==> #[trigger] name_precedes_next(entries, j)
}

/// Compares two byte strings lexicographically.
fn bytes_less(a: &[u8], b: &[u8]) -> (less: bool)
    ensures
        less == bytes_precede(a@, b@),
{
    let mut i: usize = 0;
    while i < a.len() && i < b.len() && a[i] == b[i]
        invariant
            i <= a@.len(),
            i <= b@.len(),
            a@.subrange(0, i as int) == b@.subrange(0, i as int),
        decreases a@.len() - i,
    {
        assert(a@.subrange(0, i + 1) =~= a@.subrange(0, i as int).push(a@[i as int]));
        assert(b@.subrange(0, i + 1) =~= b@.subrange(0, i as int).push(b@[i as int]));
        i = i + 1;
    }
    proof {
        assert forall|j: int|
            0 <= j < a@.len() && j < b@.len() && a@.subrange(0, j) == b@.subrange(0, j)
                && #[trigger] a@[j] != #[trigger] b@[j] implies j == i by {
            if j < i {
                assert(a@.subrange(0, i as int)[j] == a@[j]);
                assert(b@.subrange(0, i as int)[j] == b@[j]);
            } else if j > i {
                assert(a@.subrange(0, j)[i as int] == a@[i as int]);
                assert(b@.subrange(0, j)[i as int] == b@[i as int]);
            }
        }
    }
    if i < a.len() && i < b.len() {
        if a[i] < b[i] {
            true
        } else {
            proof {
                if a@.len() < b@.len() && a@ == b@.subrange(0, a@.len() as int) {
                    assert(b@.subrange(0, a@.len() as int)[i as int] == b@[i as int]);
                }
            }
            false
        }
    } else if i == a.len() && i < b.len() {
        assert(a@.subrange(0, i as int) =~= a@);
        true
    } else {
        false
    }
}

/// Whether the names of the entries strictly increase, as in a `BTreeMap`.
pub fn names_in_order(entries: &Vec<(String, Vec<u8>)>) -> (ordered: bool)
    ensures
        ordered == names_in_map_order(entries.deep_view()),
{
    if entries.len() == 0 {
        return true;
    }
    let mut j: usize = 0;
    while j < entries.len() - 1
        invariant
            j + 1 <= entries@.len(),
            forall|k: int| 0 <= k < j ==> #[trigger] name_precedes_next(entries.deep_view(), k),
        decreases entries@.len() - j,
    {
        let before = entries[j].0.as_str().as_bytes();
        let after = entries[j + 1].0.as_str().as_bytes();
        assert(entries.deep_view()[j as int].0 == entries@[j as int].0@);
        assert(entries.deep_view()[j + 1].0 == entries@[j + 1].0@);
        if !bytes_less(before, after) {
            assert(!name_precedes_next(entries.deep_view(), j as int));
            return false;
        }
        assert(name_precedes_next(entries.deep_view(), j as int));
        j = j + 1;
    }
    true
}

/// Writes the entries with `bincode::serialize`. Trusted: bincode 1.x with
/// its default options writes lengths as 8 little-endian bytes, a `String`
/// as its length and UTF-8 bytes, a `Vec<u8>` as its length and bytes, a
/// pair as its two parts, and a sequence (or a map, identically) as its
/// length and then its items; writing into a vector does not fail for these
/// types, which the `expect` mirrors.
#[verifier::external_body]
pub(crate) fn frame_map(entries: &Vec<(String, Vec<u8>)>) -> (framed: Vec<u8>)
    ensures
        framed@ == framed_map(entries.deep_view()),
{
    bincode::serialize(entries).expect("writing into a vector does not fail")
}

} // verus!
