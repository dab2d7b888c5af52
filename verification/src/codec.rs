//! Byte-level encodings and the message authentication code used to check
//! webhooks: percent-encoding for URLs, lower-case hex, standard base64 and
//! HMAC-SHA256, each computed by its crate.

use vstd::prelude::*;
use vstd::utf8::encode_utf8;
use hmac::Mac;

verus! {

/// The hex digit of a value below 16, in lower case.
pub open spec fn hex_digit_lower(n: u8) -> char {
    seq!['0', '1', '2', '3', '4', '5', '6', '7', '8', '9', 'a', 'b', 'c', 'd', 'e', 'f'][n as int]
}

/// The hex digit of a value below 16, in upper case.
pub open spec fn hex_digit_upper(n: u8) -> char {
    seq!['0', '1', '2', '3', '4', '5', '6', '7', '8', '9', 'A', 'B', 'C', 'D', 'E', 'F'][n as int]
}

/// Each byte as two lower-case hex digits, high half first.
pub open spec fn hex_lower(bytes: Seq<u8>) -> Seq<char>
    decreases bytes.len(),
{
    if bytes.len() == 0 {
        Seq::empty()
    } else {
        seq![hex_digit_lower(bytes[0] / 16), hex_digit_lower(bytes[0] % 16)] + hex_lower(
            bytes.drop_first(),
        )
    }
}

/// The bytes that percent-encoding leaves alone: ASCII letters and digits,
/// `-`, `.`, `_` and `~`.
pub open spec fn url_unreserved(b: u8) -> bool {
    (48 <= b <= 57) || (65 <= b <= 90) || (97 <= b <= 122) || b == 45 || b == 46 || b == 95
        || b == 126
}

/// Percent-encoding: every byte but the unreserved ones becomes `%` and two
/// upper-case hex digits.
pub open spec fn percent_encode(bytes: Seq<u8>) -> Seq<char>
    decreases bytes.len(),
{
    if bytes.len() == 0 {
        Seq::empty()
    } else {
        let b = bytes[0];
        (if url_unreserved(b) {
            seq![b as char]
        } else {
            seq!['%', hex_digit_upper(b / 16), hex_digit_upper(b % 16)]
        }) + percent_encode(bytes.drop_first())
    }
}

/// The HMAC-SHA256 tag of a message under a key.
pub uninterp spec fn hmac_sha256_tag(key: Seq<u8>, message: Seq<u8>) -> Seq<u8>;

/// The outcome of decoding text as standard, padded base64: the bytes, or
/// the text of the decoder's error.
pub uninterp spec fn base64_decoded(text: Seq<char>) -> Result<Seq<u8>, Seq<char>>;

/// Calls `urlencoding::encode`. Claimed (as its source shows): it
/// percent-encodes the UTF-8 bytes of the text, leaving ASCII letters,
/// digits, `-`, `.`, `_` and `~` alone and writing other bytes as `%XY` with
/// upper-case hex digits.
#[verifier::external_body]
pub(crate) fn url_encode(s: &str) -> (r: String)
    ensures
        r@ == percent_encode(encode_utf8(s@)),
{
    urlencoding::encode(s).into_owned()
}

/// Calls `hex::encode`. Claimed (as its source shows): each byte becomes two
/// lower-case hex digits, high half first.
#[verifier::external_body]
pub(crate) fn hex_encode(bytes: &[u8]) -> (r: String)
    ensures
        r@ == hex_lower(bytes@),
{
    hex::encode(bytes)
}

/// Calls `Engine::decode` of `base64::prelude::BASE64_STANDARD`. Claimed:
/// the outcome (the bytes, or the text of the error) is a function of the
/// input text alone (named `base64_decoded`).
#[verifier::external_body]
pub(crate) fn base64_standard_decode(text: &str) -> (r: Result<Vec<u8>, String>)
    ensures
        match r {
            Ok(b) => base64_decoded(text@) == Ok::<Seq<u8>, Seq<char>>(b@),
            Err(m) => base64_decoded(text@) == Err::<Seq<u8>, Seq<char>>(m@),
        },
{
    match base64::Engine::decode(&base64::prelude::BASE64_STANDARD, text) {
        Ok(b) => Ok(b),
        Err(e) => Err(e.to_string()),
    }
}

/// Calls `Hmac::<Sha256>::new_from_slice`, then `update` with the message
/// and `finalize`. Claimed: keying succeeds for a key of any length (the
/// `hmac` source returns `Ok` unconditionally), and the tag is a function of
/// key and message alone (named `hmac_sha256_tag`).
#[verifier::external_body]
pub(crate) fn hmac_sha256(key: &[u8], message: &[u8]) -> (r: Result<Vec<u8>, String>)
    ensures
        r is Ok,
        match r {
            Ok(tag) => tag@ == hmac_sha256_tag(key@, message@),
            Err(_) => true,
        },
{
    match hmac::Hmac::<sha2::Sha256>::new_from_slice(key) {
        Ok(mut mac) => {
            mac.update(message);
            Ok(mac.finalize().into_bytes().to_vec())
        },
        Err(e) => Err(e.to_string()),
    }
}

/// A list of name/value pairs as texts.
pub open spec fn pair_texts(pairs: Seq<(String, String)>) -> Seq<(Seq<char>, Seq<char>)> {
    pairs.map_values(|p: (String, String)| (p.0@, p.1@))
}

/// One `name=value` item of a query string, the value percent-encoded.
pub open spec fn query_item(pair: (Seq<char>, Seq<char>)) -> Seq<char> {
    pair.0 + "="@ + percent_encode(encode_utf8(pair.1))
}

/// The items of a query string joined by `&`.
pub open spec fn query_text(pairs: Seq<(Seq<char>, Seq<char>)>) -> Seq<char>
    decreases pairs.len(),
{
    if pairs.len() == 0 {
        Seq::empty()
    } else if pairs.len() == 1 {
        query_item(pairs[0])
    } else {
        query_text(pairs.drop_last()) + "&"@ + query_item(pairs.last())
    }
}

/// Appending a pair to a non-empty query appends `&` and its item.
pub proof fn lemma_query_text_push(s: Seq<(Seq<char>, Seq<char>)>, x: (Seq<char>, Seq<char>))
    requires
        s.len() > 0,
    ensures
        query_text(s.push(x)) == query_text(s) + "&"@ + query_item(x),
{
    assert(s.push(x).drop_last() =~= s);
}

/// Builds a query string: `name=value` for each pair, the value
/// percent-encoded, joined by `&`.
pub fn query_string(pairs: &Vec<(String, String)>) -> (r: String)
    ensures
        r@ == query_text(pair_texts(pairs@)),
{
    let n = pairs.len();
    let ghost texts = pair_texts(pairs@);
    let mut out = String::new();
    let mut i: usize = 0;
    while i < n
        invariant
            n == pairs@.len(),
            i <= n,
            texts == pair_texts(pairs@),
            out@ == query_text(texts.take(i as int)),
        decreases n - i,
    {
        let value = url_encode(pairs[i].1.as_str());
        if i > 0 {
            out.append("&");
        }
        out.append(pairs[i].0.as_str());
        out.append("=");
        out.append(value.as_str());
        proof {
            assert(texts[i as int] == (pairs@[i as int].0@, pairs@[i as int].1@));
            assert(texts.take(i + 1).drop_last() == texts.take(i as int));
            assert(texts.take(i + 1).last() == texts[i as int]);
            if i == 0 {
                assert(texts.take(1)[0] == texts[0]);
            }
        }
        i = i + 1;
    }
    assert(texts.take(n as int) == texts);
    out
}

} // verus!
