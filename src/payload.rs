//! Turning the finished image's payload into bytes, and naming the file
//! that the bytes go to.

use base64::Engine;
use sha2::Digest;
use vstd::prelude::*;
use vstd::string::StringExecFns;

use crate::error::DiffusionError;
use crate::text::lower_hex;

verus! {

/// The index of the last comma in `s`, or -1 where there is none.
pub open spec fn last_comma(s: Seq<char>) -> int
    decreases s.len(),
{
    if s.len() == 0 {
        -1
    } else if s.last() == ',' {
        s.len() - 1
    } else {
        last_comma(s.drop_last())
    }
}

/// The base64 part of a payload `<prefix>,<data>`: what follows its last
/// comma. A payload without a comma has none.
pub open spec fn payload_data(raw: Seq<char>) -> Option<Seq<char>> {
    if last_comma(raw) < 0 {
        None
    } else {
        Some(raw.subrange(last_comma(raw) + 1, raw.len() as int))
    }
}

/// The bytes that standard base64 (with padding) decodes `s` to, where `s`
/// is valid standard base64.
pub uninterp spec fn base64_decoded(s: Seq<char>) -> Option<Seq<u8>>;

/// The SHA-256 digest of `b`.
pub uninterp spec fn sha256_of(b: Seq<u8>) -> Seq<u8>;

/// The name of the file for the image bytes `b` where none is given: the
/// lowercase hex of their SHA-256 digest, then `.png`.
pub open spec fn default_name(b: Seq<u8>) -> Seq<char> {
    lower_hex(sha256_of(b)) + ".png"@
}

/// Relies on `str::rsplit_once`: it splits at the last occurrence of the
/// delimiter, and gives `None` where there is none.
#[verifier::external_body]
fn split_at_last_comma<'a>(raw: &'a str) -> (r: Option<(&'a str, &'a str)>)
    ensures
        match r {
            Some((head, tail)) => raw@ == head@ + seq![','] + tail@ && !tail@.contains(','),
            None => !raw@.contains(','),
        },
{
    raw.rsplit_once(',')
}

/// Relies on base64's `STANDARD` engine: `decode` succeeds exactly on valid
/// standard base64 and then gives the decoded bytes.
#[verifier::external_body]
fn decode_base64(s: &str) -> (r: Result<Vec<u8>, base64::DecodeError>)
    ensures
        r is Ok <==> base64_decoded(s@) is Some,
        r matches Ok(v) ==> base64_decoded(s@) == Some(v@),
{
    base64::engine::general_purpose::STANDARD.decode(s)
}

/// Relies on sha2's `Sha256::digest`: the digest of the bytes, which is 32
/// bytes long (its output type is a 32-byte array).
#[verifier::external_body]
fn sha256(b: &[u8]) -> (r: Vec<u8>)
    ensures
        r@ == sha256_of(b@),
        r@.len() == 32,
{
    sha2::Sha256::digest(b).to_vec()
}

/// Relies on `hex::encode`: two lowercase digits per byte, high first.
#[verifier::external_body]
fn hex_encode(b: &[u8]) -> (r: String)
    ensures
        r@ == lower_hex(b@),
{
    hex::encode(b)
}

proof fn lemma_last_comma_split(head: Seq<char>, tail: Seq<char>)
    requires
        !tail.contains(','),
    ensures
        last_comma(head + seq![','] + tail) == head.len(),
    decreases tail.len(),
{
    let s = head + seq![','] + tail;
    if tail.len() > 0 {
        assert(s.last() == tail.last());
        assert(tail.contains(tail.last()) && tail[tail.len() - 1] == tail.last());
        assert(s.drop_last() =~= head + seq![','] + tail.drop_last());
        assert forall|c: char| tail.drop_last().contains(c) implies tail.contains(c) by {
            let i = choose|i: int| 0 <= i < tail.drop_last().len() && tail.drop_last()[i] == c;
            assert(tail[i] == c);
        }
        lemma_last_comma_split(head, tail.drop_last());
    }
}

proof fn lemma_no_comma(s: Seq<char>)
    requires
        !s.contains(','),
    ensures
        last_comma(s) == -1,
    decreases s.len(),
{
    if s.len() > 0 {
        assert(s[s.len() - 1] == s.last());
        assert forall|c: char| s.drop_last().contains(c) implies s.contains(c) by {
            let i = choose|i: int| 0 <= i < s.drop_last().len() && s.drop_last()[i] == c;
            assert(s[i] == c);
        }
        lemma_no_comma(s.drop_last());
    }
}

/// The base64 part of an image payload: what follows its last comma, or
/// `None` where it has no comma.
pub fn image_data(raw: &str) -> (r: Option<&str>)
    ensures
        match r {
            Some(d) => payload_data(raw@) == Some(d@),
            None => payload_data(raw@) is None,
        },
{
    match split_at_last_comma(raw) {
        Some((head, tail)) => {
            proof {
                lemma_last_comma_split(head@, tail@);
                assert(raw@.subrange(head@.len() as int + 1, raw@.len() as int) =~= tail@);
            }
            Some(tail)
        },
        None => {
            proof {
                lemma_no_comma(raw@);
            }
            None
        },
    }
}

/// Decodes an image payload `<prefix>,<base64 data>` into the image bytes.
/// A payload without a comma gives `InvalidRawImage`; data that is not valid
/// base64 gives `Base64Decode`.
pub fn decode_raw_image(raw: &str) -> (r: Result<Vec<u8>, DiffusionError>)
    ensures
        payload_data(raw@) is None ==> r == Err::<Vec<u8>, DiffusionError>(
            DiffusionError::InvalidRawImage,
        ),
        payload_data(raw@) matches Some(d) ==> match base64_decoded(d) {
            Some(b) => r matches Ok(v) && v@ == b,
            None => r matches Err(DiffusionError::Base64Decode(_)),
        },
{
    match image_data(raw) {
        Some(data) => match decode_base64(data) {
            Ok(bytes) => Ok(bytes),
            Err(e) => Err(DiffusionError::Base64Decode(e)),
        },
        None => Err(DiffusionError::InvalidRawImage),
    }
}

/// The file name for an image whose bytes have the SHA-256 digest `digest`:
/// the digest in lowercase hex, then `.png`.
pub fn name_for_digest(digest: &[u8]) -> (r: String)
    ensures
        r@ == lower_hex(digest@) + ".png"@,
{
    let mut name = hex_encode(digest);
    name.append(".png");
    name
}

/// The file name for the image bytes `bytes` where none is given.
pub fn default_filename(bytes: &[u8]) -> (r: String)
    ensures
        r@ == default_name(bytes@),
{
    let digest = sha256(bytes);
    name_for_digest(digest.as_slice())
}

/// The file the image bytes go to: the given name where there is one, else
/// the name made from their digest.
pub fn output_filename(out: Option<String>, bytes: &[u8]) -> (r: String)
    ensures
        match out {
            Some(name) => r@ == name@,
            None => r@ == default_name(bytes@),
        },
{
    match out {
        Some(name) => name,
        None => default_filename(bytes),
    }
}

} // verus!
