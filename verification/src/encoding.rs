//! Base64 transport of opaque values: opaque data travels through IPC as
//! standard base64 text (with padding).

use base64::Engine;
use vstd::prelude::*;

verus! {

/// The standard base64 text (with padding) of the bytes `b`.
pub uninterp spec fn base64_encoded(b: Seq<u8>) -> Seq<char>;

/// The bytes that the standard base64 text `s` decodes to, if it is valid.
pub uninterp spec fn base64_decoded(s: Seq<char>) -> Option<Seq<u8>>;

/// The length of the padded base64 text of `n` bytes: four characters for
/// each started group of three bytes.
pub open spec fn base64_len(n: nat) -> nat {
    (n + 2) / 3 * 4
}

/// The error of the base64 decoder.
#[verifier::external_type_specification]
#[verifier::external_body]
pub struct ExDecodeError(base64::DecodeError);

/// Encodes with `base64::prelude::BASE64_STANDARD.encode`.
///
/// Trusted: the text is `base64_encoded` of the bytes, four characters per
/// started group of three bytes (`base64::encoded_len`), and decodes back to
/// the same bytes. The encoder panics where that length overflows, which
/// `requires` rules out.
#[verifier::external_body]
fn base64_encode(bytes: &[u8]) -> (r: String)
    requires
        base64_len(bytes@.len()) <= usize::MAX,
    ensures
        r@ == base64_encoded(bytes@),
        r@.len() == base64_len(bytes@.len()),
        base64_decoded(r@) == Some(bytes@),
{
    base64::prelude::BASE64_STANDARD.encode(bytes)
}

/// Decodes with `base64::prelude::BASE64_STANDARD.decode`.
///
/// Trusted: `Ok` with `base64_decoded` of the text where that is defined,
/// else the decoder's error; which error it is, is not stated.
#[verifier::external_body]
fn base64_decode(s: &str) -> (r: Result<Vec<u8>, base64::DecodeError>)
    ensures
        match r {
            Ok(b) => base64_decoded(s@) == Some(b@),
            Err(_) => base64_decoded(s@) is None,
        },
{
    base64::prelude::BASE64_STANDARD.decode(s)
}

/// Base64 text that could not be decoded, and the decoder's reason.
#[derive(Debug)]
pub struct Base64Error(pub base64::DecodeError);

/// The base64 text of opaque data.
pub fn serialize_base64(v: &[u8]) -> (r: String)
    requires
        base64_len(v@.len()) <= usize::MAX,
    ensures
        r@ == base64_encoded(v@),
        base64_decoded(r@) == Some(v@),
{
    base64_encode(v)
}

/// Opaque data from its base64 text.
pub fn deserialize_base64(s: &str) -> (r: Result<Vec<u8>, Base64Error>)
    ensures
        match r {
            Ok(b) => base64_decoded(s@) == Some(b@),
            Err(_) => base64_decoded(s@) is None,
        },
{
    match base64_decode(s) {
        Ok(b) => Ok(b),
        Err(e) => Err(Base64Error(e)),
    }
}

/// Every present entry of `arr` can be encoded.
pub open spec fn encodable_entries(arr: Seq<Option<Vec<u8>>>) -> bool {
    forall|i: int|
        0 <= i < arr.len() ==> (#[trigger] arr[i] matches Some(b) ==> base64_len(b@.len())
            <= usize::MAX)
}

/// The base64 texts of an array of opaque data, absent entries kept absent.
pub fn serialize_base64_array(arr: &Vec<Option<Vec<u8>>>) -> (r: Vec<Option<String>>)
    requires
        encodable_entries(arr@),
    ensures
        r@.len() == arr@.len(),
        forall|i: int|
            0 <= i < arr@.len() ==> match #[trigger] arr@[i] {
                Some(b) => r@[i] matches Some(s) && s@ == base64_encoded(b@),
                None => r@[i] is None,
            },
{
    let mut r: Vec<Option<String>> = Vec::new();
    let mut i: usize = 0;
    while i < arr.len()
        invariant
            i <= arr@.len(),
            encodable_entries(arr@),
            r@.len() == i,
            forall|j: int|
                0 <= j < i ==> match #[trigger] arr@[j] {
                    Some(b) => r@[j] matches Some(s) && s@ == base64_encoded(b@),
                    None => r@[j] is None,
                },
        decreases arr@.len() - i,
    {
        let entry = match &arr[i] {
            Some(b) => {
                assert(arr@[i as int] matches Some(c) ==> base64_len(c@.len()) <= usize::MAX);
                Some(base64_encode(b.as_slice()))
            },
            None => None,
        };
        r.push(entry);
        i += 1;
    }
    r
}

/// Whether every present entry of `arr` is valid base64 text.
pub open spec fn all_decodable(arr: Seq<Option<String>>) -> bool {
    forall|i: int|
        0 <= i < arr.len() ==> (#[trigger] arr[i] matches Some(s) ==> base64_decoded(s@) is Some)
}

/// An array of opaque data from the base64 texts of its entries, absent
/// entries kept absent. Fails on the first entry that is no valid base64.
pub fn deserialize_base64_array(arr: Vec<Option<String>>) -> (r: Result<
    Vec<Option<Vec<u8>>>,
    Base64Error,
>)
    ensures
        r is Ok <==> all_decodable(arr@),
        r matches Ok(v) ==> v@.len() == arr@.len() && forall|i: int|
            0 <= i < arr@.len() ==> match #[trigger] arr@[i] {
                Some(s) => v@[i] matches Some(b) && base64_decoded(s@) == Some(b@),
                None => v@[i] is None,
            },
{
    let mut res: Vec<Option<Vec<u8>>> = Vec::new();
    let mut i: usize = 0;
    while i < arr.len()
        invariant
            i <= arr@.len(),
            res@.len() == i,
            forall|j: int|
                0 <= j < i ==> match #[trigger] arr@[j] {
                    Some(s) => res@[j] matches Some(b) && base64_decoded(s@) == Some(b@),
                    None => res@[j] is None,
                },
        decreases arr@.len() - i,
    {
        let entry = match &arr[i] {
            Some(s) => match base64_decode(s.as_str()) {
                Ok(b) => Some(b),
                Err(e) => {
                    assert(!(arr@[i as int] matches Some(t) ==> base64_decoded(t@) is Some));
                    return Err(Base64Error(e));
                },
            },
            None => None,
        };
        res.push(entry);
        i += 1;
    }
    assert forall|j: int| 0 <= j < arr@.len() implies (#[trigger] arr@[j] matches Some(s)
        ==> base64_decoded(s@) is Some) by {
        assert(arr@[j] matches Some(s) ==> res@[j] matches Some(b) && base64_decoded(s@) == Some(
            b@,
        ));
    }
    Ok(res)
}

} // verus!
