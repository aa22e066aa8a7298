//! The names and secrets with which the game registers its tunnel: a random
//! version-4 UUID as login name, and a password derived from it with HMAC.

use base64::Engine;
use hmac::Mac;
use vstd::prelude::*;

use vstd::string::StringExecFns;

use crate::text::{hex_digit, json_string, json_string_literal};

verus! {

/// The character of a base64 digit in the standard alphabet.
pub open spec fn base64_digit(v: int) -> char {
    if v < 26 {
        (65 + v) as char
    } else if v < 52 {
        (97 + v - 26) as char
    } else if v < 62 {
        (48 + v - 52) as char
    } else if v == 62 {
        '+'
    } else {
        '/'
    }
}

/// Standard base64 with padding: each group of three bytes becomes four digits,
/// and a final group of one or two bytes is padded with `=`.
pub open spec fn base64_standard(bytes: Seq<u8>) -> Seq<char>
    decreases bytes.len(),
{
    let b0 = bytes[0] as int;
    let b1 = bytes[1] as int;
    let b2 = bytes[2] as int;
    if bytes.len() == 0 {
        Seq::empty()
    } else if bytes.len() == 1 {
        seq![base64_digit(b0 / 4), base64_digit((b0 % 4) * 16), '=', '=']
    } else if bytes.len() == 2 {
        seq![
            base64_digit(b0 / 4),
            base64_digit((b0 % 4) * 16 + b1 / 16),
            base64_digit((b1 % 16) * 4),
            '=',
        ]
    } else {
        seq![
            base64_digit(b0 / 4),
            base64_digit((b0 % 4) * 16 + b1 / 16),
            base64_digit((b1 % 16) * 4 + b2 / 64),
            base64_digit(b2 % 64),
        ] + base64_standard(bytes.subrange(3, bytes.len() as int))
    }
}

/// The HMAC-SHA256 tag of `message` under `key`.
pub uninterp spec fn hmac_sha256(key: Seq<u8>, message: Seq<u8>) -> Seq<u8>;

/// Computes the HMAC-SHA256 tag of `message` under `key`.
///
/// Calls `Hmac::<Sha256>::new_from_slice` (which accepts keys of any length),
/// `chain_update` and `finalize`; the tag has SHA-256's 32 bytes.
#[verifier::external_body]
fn hmac_sha256_tag(key: &[u8], message: &[u8]) -> (tag: Vec<u8>)
    ensures
        tag@ == hmac_sha256(key@, message@),
        tag@.len() == 32,
{
    let mac = hmac::Hmac::<sha2::Sha256>::new_from_slice(key).unwrap();
    mac.chain_update(message).finalize().into_bytes().to_vec()
}

/// Encodes `bytes` in standard base64 with padding.
///
/// Calls `Engine::encode` of base64's `STANDARD` engine (standard alphabet,
/// padded), which panics only when the encoded length overflows `usize`.
#[verifier::external_body]
fn base64_encode(bytes: &[u8]) -> (encoded: String)
    requires
        bytes@.len() <= usize::MAX / 2,
    ensures
        encoded@ == base64_standard(bytes@),
{
    base64::prelude::BASE64_STANDARD.encode(bytes)
}

/// Writes a tunnel password from its HMAC tag: the tag in standard base64.
pub fn encode_password(tag: &[u8]) -> (password: String)
    requires
        tag@.len() <= usize::MAX / 2,
    ensures
        password@ == base64_standard(tag@),
        password@.len() == 4 * ((tag@.len() + 2) / 3),
{
    proof {
        lemma_base64_length(tag@);
    }
    base64_encode(tag)
}

/// The tunnel password of a game: the HMAC-SHA256 of its login name under the
/// audience, in standard base64.
pub open spec fn tunnel_password_spec(audience: Seq<char>, login_name: Seq<char>) -> Seq<char> {
    base64_standard(hmac_sha256(vstd::utf8::encode_utf8(audience), vstd::utf8::encode_utf8(login_name)))
}

/// Derives the tunnel password for `login_name` in `audience`.
pub fn tunnel_password(audience: &str, login_name: &str) -> (password: String)
    ensures
        password@ == tunnel_password_spec(audience@, login_name@),
        password@.len() == 44,
{
    let tag = hmac_sha256_tag(audience.as_bytes(), login_name.as_bytes());
    encode_password(tag.as_slice())
}

/// Byte `k` (most significant first) of a 32-bit word.
pub open spec fn word_byte(w: u32, k: int) -> u8 {
    if k == 0 {
        (w / 0x100_0000) as u8
    } else if k == 1 {
        ((w / 0x1_0000) % 0x100) as u8
    } else if k == 2 {
        ((w / 0x100) % 0x100) as u8
    } else {
        (w % 0x100) as u8
    }
}

/// The sixteen bytes of four random words, each word most significant byte
/// first.
pub open spec fn random_bytes(words: Seq<u32>) -> Seq<u8> {
    Seq::new(16, |i: int| word_byte(words[i / 4], i % 4))
}

/// Lays four random words out as sixteen bytes, each word big-endian.
pub fn random_bytes_from_words(words: [u32; 4]) -> (bytes: Vec<u8>)
    ensures
        bytes@ == random_bytes(words@),
{
    let mut bytes: Vec<u8> = Vec::new();
    let mut i: usize = 0;
    while i < 4
        invariant
            i <= 4,
            bytes@.len() == 4 * i,
            forall|j: int| 0 <= j < 4 * i ==> bytes@[j] == #[trigger] word_byte(words@[j / 4], j % 4),
        decreases 4 - i,
    {
        let w = words[i];
        let b0 = (w >> 24) as u8;
        let b1 = (w >> 16) as u8;
        let b2 = (w >> 8) as u8;
        let b3 = w as u8;
        assert(b0 == (w / 0x100_0000) as u8) by (bit_vector)
            requires
                b0 == (w >> 24) as u8,
        ;
        assert(b1 == ((w / 0x1_0000) % 0x100) as u8) by (bit_vector)
            requires
                b1 == (w >> 16) as u8,
        ;
        assert(b2 == ((w / 0x100) % 0x100) as u8) by (bit_vector)
            requires
                b2 == (w >> 8) as u8,
        ;
        assert(b3 == (w % 0x100) as u8) by (bit_vector)
            requires
                b3 == w as u8,
        ;
        bytes.push(b0);
        bytes.push(b1);
        bytes.push(b2);
        bytes.push(b3);
        proof {
            assert forall|j: int| 0 <= j < 4 * (i + 1) implies bytes@[j] == #[trigger] word_byte(
                words@[j / 4],
                j % 4,
            ) by {
                if j >= 4 * i {
                    assert(j / 4 == i);
                    assert(words@[i as int] == w);
                }
            }
        }
        i = i + 1;
    }
    proof {
        assert(bytes@ =~= random_bytes(words@));
    }
    bytes
}

/// The bytes of a random (version 4, RFC 4122 variant) UUID made from
/// `random`: the high nibble of byte 6 becomes 4 and the two high bits of
/// byte 8 become `10`.
pub open spec fn uuid_v4(random: Seq<u8>) -> Seq<u8> {
    random.update(6, ((random[6] % 16) + 0x40) as u8).update(8, ((random[8] % 64) + 0x80) as u8)
}

/// Makes a random UUID from sixteen random bytes.
///
/// Calls `uuid::Builder::from_random_bytes`, which sets the version to 4
/// (`with_version`: byte 6 becomes `(b & 0x0f) | 0x40`) and the variant to RFC 4122
/// (`with_variant`: byte 8 becomes `(b & 0x3f) | 0x80`), then `into_uuid` and
/// `into_bytes`.
#[verifier::external_body]
fn uuid_v4_bytes(random: &[u8]) -> (bytes: Vec<u8>)
    requires
        random@.len() == 16,
    ensures
        bytes@ == uuid_v4(random@),
{
    let random: [u8; 16] = random.try_into().unwrap();
    uuid::Builder::from_random_bytes(random).into_uuid().into_bytes().to_vec()
}

/// A byte as two lower-case hexadecimal digits.
pub open spec fn hex_byte(b: u8) -> Seq<char> {
    seq![hex_digit(b as int / 16), hex_digit(b as int % 16)]
}

/// Bytes as lower-case hexadecimal, two digits each.
pub open spec fn hex_bytes(bytes: Seq<u8>) -> Seq<char>
    decreases bytes.len(),
{
    if bytes.len() == 0 {
        Seq::empty()
    } else {
        hex_bytes(bytes.drop_last()) + hex_byte(bytes.last())
    }
}

/// The hyphenated form of a UUID: lower-case hexadecimal in groups of 4, 2, 2,
/// 2 and 6 bytes separated by hyphens.
pub open spec fn uuid_hyphenated(bytes: Seq<u8>) -> Seq<char> {
    hex_bytes(bytes.subrange(0, 4)) + seq!['-'] + hex_bytes(bytes.subrange(4, 6)) + seq!['-']
        + hex_bytes(bytes.subrange(6, 8)) + seq!['-'] + hex_bytes(bytes.subrange(8, 10)) + seq!['-']
        + hex_bytes(bytes.subrange(10, 16))
}

/// Writes a UUID in hyphenated form.
///
/// Calls `uuid::Uuid::from_bytes`, `hyphenated` and `to_string`, which writes
/// the 8-4-4-4-12 lower-case hexadecimal form.
#[verifier::external_body]
fn uuid_hyphenated_string(bytes: &[u8]) -> (text: String)
    requires
        bytes@.len() == 16,
    ensures
        text@ == uuid_hyphenated(bytes@),
{
    let bytes: [u8; 16] = bytes.try_into().unwrap();
    uuid::Uuid::from_bytes(bytes).hyphenated().to_string()
}

/// The login name of a game whose random words are `words`.
pub open spec fn login_name_spec(words: Seq<u32>) -> Seq<char> {
    uuid_hyphenated(uuid_v4(random_bytes(words)))
}

/// Makes the game's login name: the hyphenated random UUID built from four
/// random words.
pub fn login_name(words: [u32; 4]) -> (name: String)
    ensures
        name@ == login_name_spec(words@),
{
    let random = random_bytes_from_words(words);
    let uuid = uuid_v4_bytes(random.as_slice());
    uuid_hyphenated_string(uuid.as_slice())
}


/// Hexadecimal writes each byte as two digits: high nibble first.
pub proof fn lemma_hex_bytes(bytes: Seq<u8>)
    ensures
        hex_bytes(bytes).len() == 2 * bytes.len(),
        forall|i: int|
            0 <= i < bytes.len() ==> hex_bytes(bytes)[2 * i] == hex_digit(#[trigger] bytes[i] as int / 16)
                && hex_bytes(bytes)[2 * i + 1] == hex_digit(bytes[i] as int % 16),
    decreases bytes.len(),
{
    if bytes.len() > 0 {
        let prefix = bytes.drop_last();
        lemma_hex_bytes(prefix);
        assert forall|i: int| 0 <= i < bytes.len() implies hex_bytes(bytes)[2 * i] == hex_digit(
            #[trigger] bytes[i] as int / 16,
        ) && hex_bytes(bytes)[2 * i + 1] == hex_digit(bytes[i] as int % 16) by {
            if i < prefix.len() {
                assert(bytes[i] == prefix[i]);
            }
        }
    }
}

/// The login name is the text of a version-4 UUID: 36 characters, hyphens
/// after the 8th, 12th, 16th and 20th digit, the version digit `4`, and a
/// variant digit among `8`, `9`, `a`, `b`.
pub proof fn lemma_login_name_is_uuid_v4(words: Seq<u32>)
    requires
        words.len() == 4,
    ensures
        ({
            let name = login_name_spec(words);
            &&& name.len() == 36
            &&& name[8] == '-' && name[13] == '-' && name[18] == '-' && name[23] == '-'
            &&& name[14] == '4'
            &&& name[19] == '8' || name[19] == '9' || name[19] == 'a' || name[19] == 'b'
        }),
{
    let bytes = uuid_v4(random_bytes(words));
    assert(bytes.len() == 16);
    let a = hex_bytes(bytes.subrange(0, 4));
    let b = hex_bytes(bytes.subrange(4, 6));
    let c = hex_bytes(bytes.subrange(6, 8));
    let d = hex_bytes(bytes.subrange(8, 10));
    let e = hex_bytes(bytes.subrange(10, 16));
    lemma_hex_bytes(bytes.subrange(0, 4));
    lemma_hex_bytes(bytes.subrange(4, 6));
    lemma_hex_bytes(bytes.subrange(6, 8));
    lemma_hex_bytes(bytes.subrange(8, 10));
    lemma_hex_bytes(bytes.subrange(10, 16));
    let name = login_name_spec(words);
    assert(name == a + seq!['-'] + b + seq!['-'] + c + seq!['-'] + d + seq!['-'] + e);
    assert(bytes.subrange(6, 8)[0] == bytes[6]);
    assert(bytes.subrange(8, 10)[0] == bytes[8]);
    let v = random_bytes(words)[6];
    let w = random_bytes(words)[8];
    assert(bytes[6] == ((v % 16) + 0x40) as u8);
    assert(bytes[8] == ((w % 64) + 0x80) as u8);
    assert(c[0] == hex_digit(bytes[6] as int / 16));
    assert(d[0] == hex_digit(bytes[8] as int / 16));
    assert(name[14] == c[0]);
    assert(name[19] == d[0]);
}

/// Standard base64 writes four characters per started group of three bytes.
pub proof fn lemma_base64_length(bytes: Seq<u8>)
    ensures
        base64_standard(bytes).len() == 4 * ((bytes.len() + 2) / 3),
    decreases bytes.len(),
{
    if bytes.len() > 2 {
        lemma_base64_length(bytes.subrange(3, bytes.len() as int));
    }
}


/// The body of the request that asks the signalling server for a tunnel
/// token: a JSON object with the audience, the user and the password, in that
/// order.
pub open spec fn authentication_request_json(audience: Seq<char>, user: Seq<char>, password: Seq<char>) -> Seq<char> {
    "{\"audience\":"@ + json_string(audience) + ",\"user\":"@ + json_string(user) + ",\"password\":"@
        + json_string(password) + "}"@
}

/// Builds the body of the token request for `user` in `audience`.
pub fn authentication_request(audience: &str, user: &str, password: &str) -> (body: String)
    ensures
        body@ == authentication_request_json(audience@, user@, password@),
{
    let mut body = String::new();
    body.append("{\"audience\":");
    let audience_literal = json_string_literal(audience);
    body.append(audience_literal.as_str());
    body.append(",\"user\":");
    let user_literal = json_string_literal(user);
    body.append(user_literal.as_str());
    body.append(",\"password\":");
    let password_literal = json_string_literal(password);
    body.append(password_literal.as_str());
    body.append("}");
    body
}


/// Reading the sixteen bytes back four at a time, most significant first,
/// gives the four words again.
pub proof fn lemma_random_bytes_recompose(words: Seq<u32>)
    requires
        words.len() == 4,
    ensures
        random_bytes(words).len() == 16,
        forall|k: int|
            0 <= k < 4 ==> #[trigger] words[k] as int == random_bytes(words)[4 * k] as int * 0x100_0000
                + random_bytes(words)[4 * k + 1] as int * 0x1_0000 + random_bytes(words)[4 * k + 2] as int * 0x100
                + random_bytes(words)[4 * k + 3] as int,
{
    let b = random_bytes(words);
    assert forall|k: int|
        0 <= k < 4 implies #[trigger] words[k] as int == b[4 * k] as int * 0x100_0000 + b[4 * k + 1] as int * 0x1_0000
            + b[4 * k + 2] as int * 0x100 + b[4 * k + 3] as int by {
        let w = words[k];
        assert((4 * k) / 4 == k && (4 * k) % 4 == 0);
        assert((4 * k + 1) / 4 == k && (4 * k + 1) % 4 == 1);
        assert((4 * k + 2) / 4 == k && (4 * k + 2) % 4 == 2);
        assert((4 * k + 3) / 4 == k && (4 * k + 3) % 4 == 3);
        let c0: u32 = w / 0x100_0000;
        let c1: u32 = (w / 0x1_0000) % 0x100;
        let c2: u32 = (w / 0x100) % 0x100;
        let c3: u32 = w % 0x100;
        assert(c0 < 0x100);
        assert(b[4 * k] as int == c0 && b[4 * k + 1] as int == c1 && b[4 * k + 2] as int == c2 && b[4 * k + 3] as int
            == c3);
        assert(w == c0 * 0x100_0000 + c1 * 0x1_0000 + c2 * 0x100 + c3) by (bit_vector)
            requires
                c0 == w / 0x100_0000,
                c1 == (w / 0x1_0000) % 0x100,
                c2 == (w / 0x100) % 0x100,
                c3 == w % 0x100,
        ;
    }
}

/// Making a random UUID keeps fourteen of the random bytes as they are, sets
/// the high nibble of byte 6 to 4 keeping its low nibble, and sets the two high
/// bits of byte 8 to `10` keeping its six low bits.
pub proof fn lemma_uuid_v4_bits(random: Seq<u8>)
    requires
        random.len() == 16,
    ensures
        uuid_v4(random).len() == 16,
        forall|i: int| 0 <= i < 16 && i != 6 && i != 8 ==> #[trigger] uuid_v4(random)[i] == random[i],
        uuid_v4(random)[6] / 16 == 4,
        uuid_v4(random)[6] % 16 == random[6] % 16,
        uuid_v4(random)[8] / 64 == 2,
        uuid_v4(random)[8] % 64 == random[8] % 64,
{
}

} // verus!
