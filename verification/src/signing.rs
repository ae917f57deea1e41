//! Session/Flash Signing: HMAC-SHA256 integrity protection for state that
//! crosses a redirect, with the hex and percent encodings the query string
//! carries it in.

use hmac::Mac;
use vstd::slice::slice_index_get;
use vstd::prelude::*;

verus! {

/// The HMAC-SHA256 tag of `msg` under `key`, as the hmac and sha2 crates
/// compute it: a pure function of the two arguments.
pub uninterp spec fn hmac_sha256(key: Seq<u8>, msg: Seq<u8>) -> Seq<u8>;

/// Relies on hmac's `Hmac<Sha256>`: the tag is 32 bytes and depends on the
/// key and the message alone. HMAC takes keys of any length, so
/// `new_from_slice` cannot fail here.
#[verifier::external_body]
fn hmac_sha256_tag(key: &[u8], msg: &[u8]) -> (tag: Vec<u8>)
    ensures
        tag@ == hmac_sha256(key@, msg@),
        tag@.len() == 32,
{
    let mut mac = <hmac::Hmac<sha2::Sha256> as hmac::KeyInit>::new_from_slice(key)
        .expect("HMAC accepts keys of any length");
    mac.update(msg);
    mac.finalize().into_bytes().to_vec()
}

/// Relies on `Mac::verify_slice` of the digest crate: it recomputes the tag
/// and compares in constant time, answering `Ok` exactly when the offered tag
/// equals the computed 32-byte tag (a tag of any other length compares
/// unequal).
#[verifier::external_body]
fn hmac_sha256_check(key: &[u8], msg: &[u8], tag: &[u8]) -> (ok: bool)
    ensures
        ok == (tag@ == hmac_sha256(key@, msg@)),
{
    let mut mac = <hmac::Hmac<sha2::Sha256> as hmac::KeyInit>::new_from_slice(key)
        .expect("HMAC accepts keys of any length");
    mac.update(msg);
    mac.verify_slice(tag).is_ok()
}

/// A signature that did not check out; deliberately mute about why.
#[derive(Clone, Copy, Debug, PartialEq, Eq, Structural)]
pub struct IntegrityError;

/// Tags `payload` under the long-lived server `secret`.
pub fn sign(payload: &[u8], secret: &[u8]) -> (tag: Vec<u8>)
    ensures
        tag@ == hmac_sha256(secret@, payload@),
        tag@.len() == 32,
{
    hmac_sha256_tag(secret, payload)
}

/// When a (payload, tag, secret) triple passes verification.
pub open spec fn verify_ok(payload: Seq<u8>, tag: Seq<u8>, secret: Seq<u8>) -> bool {
    tag == hmac_sha256(secret, payload)
}

/// Recomputes the tag and compares in constant time; any mismatch is the one
/// undifferentiated `IntegrityError`.
pub fn verify(payload: &[u8], tag: &[u8], secret: &[u8]) -> (r: Result<(), IntegrityError>)
    ensures
        r is Ok <==> verify_ok(payload@, tag@, secret@),
{
    if hmac_sha256_check(secret, payload, tag) {
        Ok(())
    } else {
        Err(IntegrityError)
    }
}

/// The round trip law: a payload signed under a secret verifies under that
/// secret, and any tag other than the signature — a tag with one byte
/// flipped, say — is refused.
pub proof fn lemma_sign_verify_round_trip(payload: Seq<u8>, secret: Seq<u8>, tag: Seq<u8>)
    ensures
        verify_ok(payload, hmac_sha256(secret, payload), secret),
        tag != hmac_sha256(secret, payload) ==> !verify_ok(payload, tag, secret),
{
}

/// The sixteen hex digits, lower case.
pub open spec fn hex_digit_char(n: u8) -> char {
    if n == 0 {
        '0'
    } else if n == 1 {
        '1'
    } else if n == 2 {
        '2'
    } else if n == 3 {
        '3'
    } else if n == 4 {
        '4'
    } else if n == 5 {
        '5'
    } else if n == 6 {
        '6'
    } else if n == 7 {
        '7'
    } else if n == 8 {
        '8'
    } else if n == 9 {
        '9'
    } else if n == 10 {
        'a'
    } else if n == 11 {
        'b'
    } else if n == 12 {
        'c'
    } else if n == 13 {
        'd'
    } else if n == 14 {
        'e'
    } else {
        'f'
    }
}

/// Lower-case hex encoding: two digits per byte, high nibble first.
pub open spec fn spec_hex_encode(bytes: Seq<u8>) -> Seq<char>
    decreases bytes.len(),
{
    if bytes.len() == 0 {
        Seq::empty()
    } else {
        seq![hex_digit_char(bytes.first() / 16), hex_digit_char(bytes.first() % 16)]
            + spec_hex_encode(bytes.drop_first())
    }
}

/// A character hex::decode accepts: either case.
pub open spec fn is_hex_digit_char(c: char) -> bool {
    ('0' <= c && c <= '9') || ('a' <= c && c <= 'f') || ('A' <= c && c <= 'F')
}

/// The value of a hex digit of either case.
pub open spec fn hex_digit_value(c: char) -> u8
    recommends
        is_hex_digit_char(c),
{
    if '0' <= c && c <= '9' {
        ((c as u32) - ('0' as u32)) as u8
    } else if 'a' <= c && c <= 'f' {
        ((c as u32) - ('a' as u32) + 10) as u8
    } else {
        ((c as u32) - ('A' as u32) + 10) as u8
    }
}

/// Hex decoding as hex::decode performs it: defined exactly on even-length
/// strings of hex digits of either case; each digit pair is one byte, high
/// nibble first.
pub open spec fn spec_hex_decode(s: Seq<char>) -> Option<Seq<u8>> {
    if s.len() % 2 == 0 && (forall|i: int| 0 <= i < s.len() ==> is_hex_digit_char(#[trigger] s[i])) {
        Some(
            Seq::new(
                (s.len() / 2) as nat,
                |i: int| (hex_digit_value(s[2 * i]) * 16 + hex_digit_value(s[2 * i + 1])) as u8,
            ),
        )
    } else {
        None
    }
}

/// Relies on hex::decode: it succeeds exactly on even-length strings of hex
/// digits of either case, and reads each digit pair as one byte, high nibble
/// first.
#[verifier::external_body]
pub(crate) fn hex_decode(s: &str) -> (r: Option<Vec<u8>>)
    ensures
        r is Some <==> spec_hex_decode(s@) is Some,
        r matches Some(v) ==> spec_hex_decode(s@) == Some(v@),
{
    match hex::decode(s) {
        Ok(v) => Some(v),
        Err(_) => None,
    }
}

/// Lower-case hex encoding of `bytes`, as `format!("{:x}")` would render a
/// tag.
pub fn hex_encode(bytes: &[u8]) -> (r: String)
    ensures
        r@ == spec_hex_encode(bytes@),
{
    let mut out = String::new();
    let n = bytes.len();
    let mut i: usize = 0;
    proof {
        assert(bytes@.skip(0) =~= bytes@);
        assert(out@ + spec_hex_encode(bytes@) =~= spec_hex_encode(bytes@));
    }
    while i < n
        invariant
            0 <= i <= n,
            n == bytes@.len(),
            out@ + spec_hex_encode(bytes@.skip(i as int)) == spec_hex_encode(bytes@),
        decreases n - i,
    {
        let b = *slice_index_get(bytes, i);
        let hi = hex_digit(b / 16);
        let lo = hex_digit(b % 16);
        crate::utils::push_char(&mut out, hi);
        crate::utils::push_char(&mut out, lo);
        proof {
            assert(bytes@.skip(i as int).drop_first() =~= bytes@.skip(i + 1));
            assert(bytes@.skip(i as int).first() == bytes@[i as int]);
            assert(out@ + spec_hex_encode(bytes@.skip(i + 1)) =~= spec_hex_encode(bytes@));
        }
        i += 1;
    }
    proof {
        assert(bytes@.skip(n as int) =~= Seq::<u8>::empty());
        assert(out@ =~= spec_hex_encode(bytes@));
    }
    out
}

/// The shape of a hex encoding: twice as long as the input, with the two
/// digits of byte `i` at positions `2 * i` and `2 * i + 1`.
proof fn lemma_hex_encode_shape(bytes: Seq<u8>)
    ensures
        spec_hex_encode(bytes).len() == 2 * bytes.len(),
        forall|i: int|
            0 <= i < bytes.len() ==> #[trigger] spec_hex_encode(bytes)[2 * i] == hex_digit_char(
                (bytes[i] / 16) as u8,
            ) && spec_hex_encode(bytes)[2 * i + 1] == hex_digit_char((bytes[i] % 16) as u8),
    decreases bytes.len(),
{
    if bytes.len() > 0 {
        lemma_hex_encode_shape(bytes.drop_first());
        assert forall|i: int|
            0 <= i < bytes.len() implies #[trigger] spec_hex_encode(bytes)[2 * i]
            == hex_digit_char((bytes[i] / 16) as u8) && spec_hex_encode(bytes)[2 * i + 1]
            == hex_digit_char((bytes[i] % 16) as u8) by {
            if i > 0 {
                assert(spec_hex_encode(bytes)[2 * i] == spec_hex_encode(bytes.drop_first())[2 * (i
                    - 1)]);
                assert(spec_hex_encode(bytes)[2 * i + 1] == spec_hex_encode(bytes.drop_first())[2
                    * (i - 1) + 1]);
                assert(bytes.drop_first()[i - 1] == bytes[i]);
            }
        }
    }
}

/// Hex encoding loses nothing: decoding an encoding gives the bytes back.
pub proof fn lemma_hex_round_trip(bytes: Seq<u8>)
    ensures
        spec_hex_decode(spec_hex_encode(bytes)) == Some(bytes),
{
    lemma_hex_encode_shape(bytes);
    let enc = spec_hex_encode(bytes);
    assert forall|j: int| 0 <= j < enc.len() implies is_hex_digit_char(#[trigger] enc[j]) by {
        let i = j / 2;
        if j % 2 == 0 {
            assert(j == 2 * i);
            assert(enc[j] == hex_digit_char((bytes[i] / 16) as u8));
        } else {
            assert(j == 2 * i + 1);
            assert(enc[2 * i] == hex_digit_char((bytes[i] / 16) as u8));
            assert(enc[j] == hex_digit_char((bytes[i] % 16) as u8));
        }
    }
    assert(enc.len() % 2 == 0);
    let dec = Seq::new(
        (enc.len() / 2) as nat,
        |i: int| (hex_digit_value(enc[2 * i]) * 16 + hex_digit_value(enc[2 * i + 1])) as u8,
    );
    assert(spec_hex_decode(enc) == Some(dec));
    assert forall|i: int| 0 <= i < bytes.len() implies dec[i] == bytes[i] by {
        assert(enc[2 * i] == hex_digit_char((bytes[i] / 16) as u8));
        assert(enc[2 * i + 1] == hex_digit_char((bytes[i] % 16) as u8));
        assert(hex_digit_value(hex_digit_char((bytes[i] / 16) as u8)) == bytes[i] / 16);
        assert(hex_digit_value(hex_digit_char((bytes[i] % 16) as u8)) == bytes[i] % 16);
    }
    assert(dec =~= bytes);
}

/// The hex digit for a nibble.
fn hex_digit(n: u8) -> (c: char)
    requires
        n < 16,
    ensures
        c == hex_digit_char(n),
{
    match n {
        0 => '0',
        1 => '1',
        2 => '2',
        3 => '3',
        4 => '4',
        5 => '5',
        6 => '6',
        7 => '7',
        8 => '8',
        9 => '9',
        10 => 'a',
        11 => 'b',
        12 => 'c',
        13 => 'd',
        14 => 'e',
        _ => 'f',
    }
}

} // verus!
