use vstd::prelude::*;
use vstd::utf8::encode_utf8;
use crate::text::{hex_digit, hex_digit_char, is_lower_hex_char, push_char};

verus! {

/// The MD5 digest of a byte string.
pub uninterp spec fn md5_digest(data: Seq<u8>) -> [u8; 16];

/// Relies on md5::compute: the 16-byte MD5 digest of `data`.
#[verifier::external_body]
fn md5_compute(data: &[u8]) -> (r: [u8; 16])
    ensures
        r == md5_digest(data@),
{
    md5::compute(data).0
}

/// Two lowercase hexadecimal digits for each byte, high nibble first.
pub open spec fn lower_hex(bytes: Seq<u8>) -> Seq<char>
    decreases bytes.len(),
{
    if bytes.len() == 0 {
        Seq::empty()
    } else {
        let b = bytes.last();
        lower_hex(bytes.drop_last()).push(hex_digit((b / 16) as int)).push(hex_digit((b % 16) as int))
    }
}

/// What is signed: the four parts run together in this order, UTF-8 encoded.
pub open spec fn signed_bytes(dev_id: Seq<char>, method: Seq<char>, token: Seq<char>, time: Seq<char>) -> Seq<u8> {
    encode_utf8(dev_id + method + token + time)
}

/// The request signature: the MD5 digest of the signed bytes, in lowercase hex.
pub open spec fn signature_of(dev_id: Seq<char>, method: Seq<char>, token: Seq<char>, time: Seq<char>) -> Seq<char> {
    lower_hex(md5_digest(signed_bytes(dev_id, method, token, time))@)
}

pub proof fn lemma_lower_hex_shape(bytes: Seq<u8>)
    ensures
        lower_hex(bytes).len() == 2 * bytes.len(),
        forall|i: int| 0 <= i < 2 * bytes.len() ==> is_lower_hex_char(#[trigger] lower_hex(bytes)[i]),
    decreases bytes.len(),
{
    if bytes.len() > 0 {
        lemma_lower_hex_shape(bytes.drop_last());
    }
}

/// Renders bytes as lowercase hexadecimal text.
pub fn to_lower_hex(bytes: &[u8]) -> (r: String)
    ensures
        r@ == lower_hex(bytes@),
{
    let mut s = String::new();
    let mut i: usize = 0;
    while i < bytes.len()
        invariant
            i <= bytes@.len(),
            s@ == lower_hex(bytes@.subrange(0, i as int)),
        decreases bytes@.len() - i,
    {
        let b = bytes[i];
        push_char(&mut s, hex_digit_char(b / 16));
        push_char(&mut s, hex_digit_char(b % 16));
        proof {
            let next = bytes@.subrange(0, i + 1);
            assert(next.drop_last() =~= bytes@.subrange(0, i as int));
            assert(next.last() == b);
        }
        i = i + 1;
    }
    assert(bytes@.subrange(0, bytes@.len() as int) =~= bytes@);
    s
}

/// The signature that authenticates a call of `method` at `time`.
pub fn make_signature(dev_id: &str, method: &str, token: &str, time: &str) -> (r: String)
    ensures
        r@ == signature_of(dev_id@, method@, token@, time@),
{
    let mut joined = dev_id.to_owned();
    joined.append(method);
    joined.append(token);
    joined.append(time);
    let digest = md5_compute(joined.as_str().as_bytes());
    assert(joined@ == dev_id@ + method@ + token@ + time@);
    to_lower_hex(&digest)
}

/// A signature is a function of its four inputs alone, and is always
/// thirty-two lowercase hexadecimal characters.
pub proof fn signature_is_deterministic_hex(
    dev_id: Seq<char>,
    method: Seq<char>,
    token: Seq<char>,
    time: Seq<char>,
    dev_id2: Seq<char>,
    method2: Seq<char>,
    token2: Seq<char>,
    time2: Seq<char>,
)
    requires
        dev_id == dev_id2,
        method == method2,
        token == token2,
        time == time2,
    ensures
        signature_of(dev_id, method, token, time) == signature_of(dev_id2, method2, token2, time2),
        signature_of(dev_id, method, token, time).len() == 32,
        forall|i: int| 0 <= i < 32 ==> is_lower_hex_char(#[trigger] signature_of(dev_id, method, token, time)[i]),
{
    let digest = md5_digest(signed_bytes(dev_id, method, token, time));
    assert(digest@.len() == 16) by {
        vstd::array::array_len_matches_n(&digest);
    }
    lemma_lower_hex_shape(digest@);
}

} // verus!
