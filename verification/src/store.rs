use vstd::prelude::*;

use crate::bytes::{find_newline, opt_view, push_all, starts_with_bytes, vec_slice};
use crate::codec::{all_base58, base58_decoded, base58_of, decode, encode, is_base58_byte,
    validate_key_length};
use crate::errors::KeyError;
use crate::keys::{from_raw, keypair_of_bytes, Keypair, PublicIdentifier, RawKeyMaterial};

verus! {

/// The field name and separator that open the private-key line:
/// `PRIVATE_KEY=` as ASCII bytes.
pub open spec fn private_tag() -> Seq<u8> {
    seq![80u8, 82u8, 73u8, 86u8, 65u8, 84u8, 69u8, 95u8, 75u8, 69u8, 89u8, 61u8]
}

/// The field name and separator that open the public-key line:
/// `PUBLIC_KEY=` as ASCII bytes.
pub open spec fn public_tag() -> Seq<u8> {
    seq![80u8, 85u8, 66u8, 76u8, 73u8, 67u8, 95u8, 75u8, 69u8, 89u8, 61u8]
}

fn private_tag_vec() -> (r: Vec<u8>)
    ensures
        r@ == private_tag(),
{
    let mut v: Vec<u8> = Vec::new();
    v.push(80u8);
    v.push(82u8);
    v.push(73u8);
    v.push(86u8);
    v.push(65u8);
    v.push(84u8);
    v.push(69u8);
    v.push(95u8);
    v.push(75u8);
    v.push(69u8);
    v.push(89u8);
    v.push(61u8);
    proof {
        assert(v@ =~= private_tag());
    }
    v
}

fn public_tag_vec() -> (r: Vec<u8>)
    ensures
        r@ == public_tag(),
{
    let mut v: Vec<u8> = Vec::new();
    v.push(80u8);
    v.push(85u8);
    v.push(66u8);
    v.push(76u8);
    v.push(73u8);
    v.push(67u8);
    v.push(95u8);
    v.push(75u8);
    v.push(69u8);
    v.push(89u8);
    v.push(61u8);
    proof {
        assert(v@ =~= public_tag());
    }
    v
}

/// The persisted record text for a pair of encoded keys: the private-key
/// line, then the public-key line, each newline-terminated.
pub open spec fn record_of(p: Seq<u8>, q: Seq<u8>) -> Seq<u8> {
    private_tag() + p + seq![10u8] + public_tag() + q + seq![10u8]
}

/// The first line of `s` (up to the first line break) and what follows the
/// break; text without a break is one line with nothing after it.
pub open spec fn spec_split_line(s: Seq<u8>) -> (Seq<u8>, Seq<u8>) {
    match s.index_of_first(10u8) {
        Some(i) => (s.take(i), s.skip(i + 1)),
        None => (s, Seq::<u8>::empty()),
    }
}

/// The value of a `NAME=value` line: the rest of the line where `tag` (the
/// name and separator) stands at its start.
pub open spec fn spec_field(line: Seq<u8>, tag: Seq<u8>) -> Option<Seq<u8>> {
    if tag.is_prefix_of(line) {
        Some(line.skip(tag.len() as int))
    } else {
        None
    }
}

/// The first of two optional values that is present.
pub open spec fn spec_or(a: Option<Seq<u8>>, b: Option<Seq<u8>>) -> Option<Seq<u8>> {
    if a is Some {
        a
    } else {
        b
    }
}

/// The private and public fields that record text holds: the tagged values
/// among its first two lines, an earlier line winning over a later one.
pub open spec fn spec_parse(s: Seq<u8>) -> (Option<Seq<u8>>, Option<Seq<u8>>) {
    let first = spec_split_line(s);
    let second = spec_split_line(first.1);
    (
        spec_or(spec_field(first.0, private_tag()), spec_field(second.0, private_tag())),
        spec_or(spec_field(first.0, public_tag()), spec_field(second.0, public_tag())),
    )
}

fn split_line(text: &Vec<u8>) -> (r: (Vec<u8>, Vec<u8>))
    ensures
        r.0@ == spec_split_line(text@).0,
        r.1@ == spec_split_line(text@).1,
{
    let e = find_newline(text);
    proof {
        text@.index_of_first_ensures(10u8);
    }
    if e < text.len() {
        let first = vec_slice(text, 0, e);
        let rest = vec_slice(text, e + 1, text.len());
        (first, rest)
    } else {
        let first = vec_slice(text, 0, text.len());
        proof {
            assert(text@.subrange(0, text@.len() as int) =~= text@);
        }
        (first, Vec::new())
    }
}

fn strip_tag(line: &Vec<u8>, tag: &Vec<u8>) -> (r: Option<Vec<u8>>)
    ensures
        opt_view(r) == spec_field(line@, tag@),
{
    if starts_with_bytes(line, tag) {
        Some(vec_slice(line, tag.len(), line.len()))
    } else {
        None
    }
}

/// Reads the private and public fields out of record text.
fn parse_fields(text: &Vec<u8>) -> (r: (Option<Vec<u8>>, Option<Vec<u8>>))
    ensures
        opt_view(r.0) == spec_parse(text@).0,
        opt_view(r.1) == spec_parse(text@).1,
{
    let tag_private = private_tag_vec();
    let tag_public = public_tag_vec();
    let (line1, rest) = split_line(text);
    let (line2, _after) = split_line(&rest);
    let private_field = match strip_tag(&line1, &tag_private) {
        Some(v) => Some(v),
        None => strip_tag(&line2, &tag_private),
    };
    let public_field = match strip_tag(&line1, &tag_public) {
        Some(v) => Some(v),
        None => strip_tag(&line2, &tag_public),
    };
    (private_field, public_field)
}

/// The key-value record that outlives the process: at most one private-key
/// field and one public-key field, each holding base58 text. A save replaces
/// the record wholesale.
pub struct KeyStore {
    private_field: Option<Vec<u8>>,
    public_field: Option<Vec<u8>>,
}

impl KeyStore {
    /// The private-key field, as it would stand in the record text.
    pub closed spec fn private_view(&self) -> Option<Seq<u8>> {
        opt_view(self.private_field)
    }

    /// The public-key field, as it would stand in the record text.
    pub closed spec fn public_view(&self) -> Option<Seq<u8>> {
        opt_view(self.public_field)
    }

    /// An empty store: no record has been written.
    pub fn new() -> (r: KeyStore)
        ensures
            r.private_view() is None,
            r.public_view() is None,
    {
        KeyStore { private_field: None, public_field: None }
    }

    /// A store holding the given fields as they are.
    pub fn from_fields(private_field: Option<Vec<u8>>, public_field: Option<Vec<u8>>) -> (r:
        KeyStore)
        ensures
            r.private_view() == opt_view(private_field),
            r.public_view() == opt_view(public_field),
    {
        KeyStore { private_field, public_field }
    }

    /// A store holding whatever fields the given record text carries; a full
    /// replace, never a merge.
    pub fn from_record_text(text: &Vec<u8>) -> (r: KeyStore)
        ensures
            r.private_view() == spec_parse(text@).0,
            r.public_view() == spec_parse(text@).1,
    {
        let (private_field, public_field) = parse_fields(text);
        KeyStore { private_field, public_field }
    }

    /// Encodes a keypair and replaces the record with it in full. The new
    /// record depends on the arguments alone: nothing of an earlier record
    /// remains.
    pub fn save(&mut self, raw: &RawKeyMaterial, public: &PublicIdentifier)
        ensures
            final(self).private_view() == Some(base58_of(raw@)),
            final(self).public_view() == Some(base58_of(public@)),
            all_base58(base58_of(raw@)),
            all_base58(base58_of(public@)),
    {
        self.private_field = Some(encode(raw.bytes()));
        self.public_field = Some(encode(public.bytes()));
    }

    /// The record as two lines of text, ready to be persisted; `None` while
    /// either field is missing.
    pub fn record_text(&self) -> (r: Option<Vec<u8>>)
        ensures
            match (self.private_view(), self.public_view()) {
                (Some(p), Some(q)) => r matches Some(t) && t@ == record_of(p, q),
                _ => r is None,
            },
    {
        match (&self.private_field, &self.public_field) {
            (Some(p), Some(q)) => {
                let mut text = private_tag_vec();
                push_all(&mut text, p);
                text.push(10u8);
                let tag_public = public_tag_vec();
                push_all(&mut text, &tag_public);
                push_all(&mut text, q);
                text.push(10u8);
                proof {
                    assert(text@ =~= record_of(p@, q@));
                }
                Some(text)
            },
            _ => None,
        }
    }

    /// Reads the private-key field back into a validated keypair: the field
    /// must be present, decode as base58, hold exactly 64 bytes, and form a
    /// valid keypair; each step's failure is surfaced as its own error, and
    /// a field that was saved from a keypair loads back to that keypair.
    pub fn load(&self) -> (r: Result<Keypair, KeyError>)
        ensures
            self.private_view() is None ==> r == Err::<Keypair, KeyError>(KeyError::MissingKey),
            self.private_view() matches Some(enc) ==> {
                &&& !all_base58(enc) ==> r == Err::<Keypair, KeyError>(KeyError::DecodeError)
                &&& (all_base58(enc) && base58_decoded(enc).len() != 64) ==> r == Err::<
                    Keypair,
                    KeyError,
                >(KeyError::InvalidKeyLength)
                &&& (all_base58(enc) && base58_decoded(enc).len() == 64) ==> (match keypair_of_bytes(
                    base58_decoded(enc),
                ) {
                    Some(pk) => r matches Ok(kp) && kp.wf() && kp.raw@ == base58_decoded(enc)
                        && kp.public@ == pk,
                    None => r == Err::<Keypair, KeyError>(KeyError::MalformedKeyMaterial),
                })
            },
            forall|k: Seq<u8>|
                self.private_view() == Some(#[trigger] base58_of(k)) && k.len() == 64
                    && keypair_of_bytes(k) is Some ==> (r matches Ok(kp) && kp.raw@ == k && Some(
                    kp.public@,
                ) == keypair_of_bytes(k)),
    {
        let encoded = match &self.private_field {
            None => {
                return Err(KeyError::MissingKey);
            },
            Some(v) => v,
        };
        let decoded = match decode(encoded) {
            Ok(b) => b,
            Err(_) => {
                return Err(KeyError::DecodeError);
            },
        };
        let raw = match validate_key_length(decoded) {
            Ok(k) => k,
            Err(_) => {
                return Err(KeyError::InvalidKeyLength);
            },
        };
        let public = match from_raw(&raw) {
            Ok(p) => p,
            Err(_) => {
                return Err(KeyError::MalformedKeyMaterial);
            },
        };
        Ok(Keypair { raw, public })
    }
}

/// Law: base58 text never holds a line break, so an encoded key sits whole
/// on its record line.
pub proof fn lemma_base58_no_newline(s: Seq<u8>)
    requires
        all_base58(s),
    ensures
        !s.contains(10u8),
{
    if s.contains(10u8) {
        let i = choose|i: int| 0 <= i < s.len() && s[i] == 10u8;
        assert(is_base58_byte(s[i]));
    }
}

proof fn lemma_first_newline_at(s: Seq<u8>, i: int)
    requires
        0 <= i < s.len(),
        s[i] == 10u8,
        forall|j: int| 0 <= j < i ==> s[j] != 10u8,
    ensures
        s.index_of_first(10u8) == Some(i),
{
    s.index_of_first_ensures(10u8);
    match s.index_of_first(10u8) {
        Some(k) => {
            if k < i {
                assert(s[k] != 10u8);
            }
            if k > i {
                assert(s[i] != 10u8);
            }
        },
        None => {
            assert(s.contains(10u8)) by {
                assert(0 <= i < s.len() && s[i] == 10u8);
            }
        },
    }
}

/// Law: parsing the rendered record of two line-free values gives back
/// exactly those values, the private one and the public one.
pub proof fn lemma_record_round_trip(p: Seq<u8>, q: Seq<u8>)
    requires
        !p.contains(10u8),
        !q.contains(10u8),
    ensures
        spec_parse(record_of(p, q)).0 == Some(p),
        spec_parse(record_of(p, q)).1 == Some(q),
{
    let s = record_of(p, q);
    let head = private_tag() + p;
    let tail = public_tag() + q + seq![10u8];
    let i0 = head.len() as int;
    assert(s =~= head + seq![10u8] + tail);
    assert forall|j: int| 0 <= j < i0 implies s[j] != 10u8 by {
        if j < private_tag().len() {
            assert(s[j] == private_tag()[j]);
        } else {
            assert(s[j] == p[j - private_tag().len()]);
            assert(s[j] != 10u8) by {
                if s[j] == 10u8 {
                    assert(p.contains(10u8)) by {
                        assert(p[j - private_tag().len()] == 10u8);
                    }
                }
            }
        }
    }
    assert(s[i0] == 10u8);
    lemma_first_newline_at(s, i0);
    let line1 = s.take(i0);
    let rest1 = s.skip(i0 + 1);
    assert(line1 =~= head);
    assert(rest1 =~= tail);
    // The first line carries the private field ...
    assert(private_tag().is_prefix_of(line1)) by {
        assert(private_tag() =~= line1.subrange(0, private_tag().len() as int));
    }
    assert(line1.skip(private_tag().len() as int) =~= p);
    // ... and not the public one: the second byte of the names differs.
    assert(!public_tag().is_prefix_of(line1)) by {
        if public_tag().is_prefix_of(line1) {
            assert(public_tag()[1] == line1.subrange(0, public_tag().len() as int)[1]);
            assert(line1[1] == private_tag()[1]);
        }
    }
    // The second line carries the public field and not the private one.
    let i1 = (public_tag() + q).len() as int;
    assert forall|j: int| 0 <= j < i1 implies rest1[j] != 10u8 by {
        if j < public_tag().len() {
            assert(rest1[j] == public_tag()[j]);
        } else {
            assert(rest1[j] == q[j - public_tag().len()]);
            assert(rest1[j] != 10u8) by {
                if rest1[j] == 10u8 {
                    assert(q.contains(10u8)) by {
                        assert(q[j - public_tag().len()] == 10u8);
                    }
                }
            }
        }
    }
    assert(rest1[i1] == 10u8);
    lemma_first_newline_at(rest1, i1);
    let line2 = rest1.take(i1);
    assert(line2 =~= public_tag() + q);
    assert(public_tag().is_prefix_of(line2)) by {
        assert(public_tag() =~= line2.subrange(0, public_tag().len() as int));
    }
    assert(line2.skip(public_tag().len() as int) =~= q);
    assert(!private_tag().is_prefix_of(line2)) by {
        if private_tag().is_prefix_of(line2) {
            assert(private_tag()[1] == line2.subrange(0, private_tag().len() as int)[1]);
            assert(line2[1] == public_tag()[1]);
        }
    }
}

} // verus!
