//! Textual forms that the contracts use as dictionary item keys, and the calls into
//! `casper_types` and `base64` that produce them.
use vstd::prelude::*;
use casper_types::account::AccountHash;
use casper_types::bytesrepr;
use casper_types::PublicKey;

verus! {

/// The lowercase hexadecimal digit for `n` (`0 <= n < 16`).
pub open spec fn hex_digit(n: int) -> char {
    if n < 10 {
        (48 + n) as char
    } else {
        (87 + n) as char
    }
}

/// Lowercase base16 text of `bytes`: two digits per byte, high nibble first.
pub open spec fn lower_hex(bytes: Seq<u8>) -> Seq<char>
    decreases bytes.len(),
{
    if bytes.len() == 0 {
        Seq::empty()
    } else {
        seq![hex_digit((bytes[0] as int) / 16), hex_digit((bytes[0] as int) % 16)] + lower_hex(bytes.drop_first())
    }
}

/// `n` spaces.
pub open spec fn spaces(n: nat) -> Seq<char> {
    Seq::new(n, |i: int| ' ')
}

/// The raw key bytes formatted ten characters wide and centred: in full (padded with spaces)
/// when their hex text fits, else the first two bytes, `..`, and the last two bytes.
pub open spec fn abbreviated_hex(raw: Seq<u8>) -> Seq<char> {
    if 2 * raw.len() <= 10 {
        let missing = (10 - 2 * raw.len()) as nat;
        spaces(missing / 2) + lower_hex(raw) + spaces((missing - missing / 2) as nat)
    } else {
        lower_hex(raw.take(2)) + seq!['.', '.'] + lower_hex(raw.skip(raw.len() - 2))
    }
}

/// The name of the key algorithm of a serialized public key, by its tag byte.
pub open spec fn algorithm_name(tag: u8) -> Seq<char> {
    if tag == 0 {
        seq!['S', 'y', 's', 't', 'e', 'm']
    } else if tag == 1 {
        seq!['E', 'd', '2', '5', '5', '1', '9']
    } else {
        seq!['S', 'e', 'c', 'p', '2', '5', '6', 'k', '1']
    }
}

/// The `Display` text of the public key whose serialized form is `key` (tag byte, then the raw
/// key bytes): `PubKey::<algorithm>(<abbreviated hex of the raw bytes>)`.
pub open spec fn public_key_display(key: Seq<u8>) -> Seq<char> {
    seq!['P', 'u', 'b', 'K', 'e', 'y', ':', ':'] + algorithm_name(key[0]) + seq!['(']
        + abbreviated_hex(key.drop_first()) + seq![')']
}

/// The character of a standard base64 sextet value (`0 <= n < 64`).
pub open spec fn base64_char(n: int) -> char {
    if n < 26 {
        (65 + n) as char
    } else if n < 52 {
        (71 + n) as char
    } else if n < 62 {
        (n - 4) as char
    } else if n == 62 {
        '+'
    } else {
        '/'
    }
}

/// Standard base64 (RFC 4648 alphabet, `=` padding) of `b`.
pub open spec fn base64_standard(b: Seq<u8>) -> Seq<char>
    decreases b.len(),
{
    if b.len() == 0 {
        Seq::empty()
    } else if b.len() == 1 {
        seq![base64_char((b[0] as int) / 4), base64_char(((b[0] as int) % 4) * 16), '=', '=']
    } else if b.len() == 2 {
        seq![
            base64_char((b[0] as int) / 4),
            base64_char(((b[0] as int) % 4) * 16 + (b[1] as int) / 16),
            base64_char(((b[1] as int) % 16) * 4),
            '=',
        ]
    } else {
        seq![
            base64_char((b[0] as int) / 4),
            base64_char(((b[0] as int) % 4) * 16 + (b[1] as int) / 16),
            base64_char(((b[1] as int) % 16) * 4 + (b[2] as int) / 64),
            base64_char((b[2] as int) % 64),
        ] + base64_standard(b.skip(3))
    }
}

/// Whether `casper_types::bytesrepr::deserialize::<PublicKey>` accepts `key` whole.
pub uninterp spec fn is_public_key(key: Seq<u8>) -> bool;

/// The 32-byte BLAKE2b digest of `data`, as `casper_types::account::blake2b` computes it.
pub uninterp spec fn blake2b_256(data: Seq<u8>) -> Seq<u8>;

/// The lowercase name of the key algorithm of a serialized public key, by its tag byte, as
/// bytes: `system`, `ed25519` or `secp256k1`.
pub open spec fn algorithm_hash_name(tag: u8) -> Seq<u8> {
    if tag == 0 {
        seq![115u8, 121, 115, 116, 101, 109]
    } else if tag == 1 {
        seq![101u8, 100, 50, 53, 53, 49, 57]
    } else {
        seq![115u8, 101, 99, 112, 50, 53, 54, 107, 49]
    }
}

/// What `AccountHash::from_public_key` hashes for the public key serialized as `key`: the
/// lowercase algorithm name, a zero byte, then the raw key bytes.
pub open spec fn account_preimage(key: Seq<u8>) -> Seq<u8> {
    algorithm_hash_name(key[0]) + seq![0u8] + key.drop_first()
}

/// The raw bytes of `PublicKey::to_account_hash` for the public key serialized as `key`: the
/// digest of its preimage.
pub open spec fn account_hash_of(key: Seq<u8>) -> Seq<u8> {
    blake2b_256(account_preimage(key))
}

/// Calls `AccountHash`'s `Display` (casper_types), which writes `base16::encode_lower` of the
/// 32 bytes. The contract claims that the text is the lowercase hex of `account`.
#[verifier::external_body]
pub fn account_hash_text(account: [u8; 32]) -> (text: String)
    ensures
        text@ == lower_hex(account@),
{
    AccountHash::new(account).to_string()
}

/// Decodes `key` with `casper_types::bytesrepr::deserialize::<PublicKey>` and calls the
/// `Display` of the key. The contract claims that a text comes back exactly when the bytes
/// decode, and that it is `PubKey::<algorithm>(<hex formatted ten wide>)`, as the `Display` of
/// `PublicKey` writes it with `hex_fmt`.
#[verifier::external_body]
pub fn public_key_text(key: &Vec<u8>) -> (text: Option<String>)
    ensures
        text is Some <==> is_public_key(key@),
        text matches Some(t) ==> t@ == public_key_display(key@),
{
    match bytesrepr::deserialize::<PublicKey>(key.clone()) {
        Ok(public_key) => Some(public_key.to_string()),
        Err(_) => None,
    }
}

/// Decodes `key` with `casper_types::bytesrepr::deserialize::<PublicKey>` and calls
/// `PublicKey::to_account_hash`, which hashes the lowercase algorithm name, a zero byte and the
/// raw key bytes with `casper_types::account::blake2b`. The contract claims that a hash comes
/// back exactly when the bytes decode, and that it is that digest of that preimage; the digest
/// itself is named, not stated.
#[verifier::external_body]
pub fn public_key_account_hash(key: &Vec<u8>) -> (account: Option<[u8; 32]>)
    ensures
        account is Some <==> is_public_key(key@),
        account matches Some(a) ==> a@ == blake2b_256(
            algorithm_hash_name(key@[0]) + seq![0u8] + key@.drop_first(),
        ),
{
    match bytesrepr::deserialize::<PublicKey>(key.clone()) {
        Ok(public_key) => Some(public_key.to_account_hash().value()),
        Err(_) => None,
    }
}

/// Calls `base64::encode` (standard alphabet, padded). The contract claims the RFC 4648 text.
#[verifier::external_body]
pub fn base64_text(bytes: &[u8; 32]) -> (text: String)
    ensures
        text@ == base64_standard(bytes@),
{
    base64::encode(bytes)
}

/// Different digit values have different hex digits.
pub proof fn lemma_hex_digit_injective(n: int, m: int)
    requires
        0 <= n < 16,
        0 <= m < 16,
        hex_digit(n) == hex_digit(m),
    ensures
        n == m,
{
    let cn = hex_digit(n);
    let cm = hex_digit(m);
    assert(cn as int == if n < 10 { 48 + n } else { 87 + n });
    assert(cm as int == if m < 10 { 48 + m } else { 87 + m });
}

/// The hex text of `bytes` has two digits per byte.
pub proof fn lemma_lower_hex_len(bytes: Seq<u8>)
    ensures
        lower_hex(bytes).len() == 2 * bytes.len(),
    decreases bytes.len(),
{
    if bytes.len() > 0 {
        lemma_lower_hex_len(bytes.drop_first());
    }
}

/// Different byte strings have different hex texts.
pub proof fn lemma_lower_hex_injective(a: Seq<u8>, b: Seq<u8>)
    requires
        lower_hex(a) == lower_hex(b),
    ensures
        a == b,
    decreases a.len(),
{
    lemma_lower_hex_len(a);
    lemma_lower_hex_len(b);
    if a.len() > 0 {
        let ha = lower_hex(a);
        let rest_a = lower_hex(a.drop_first());
        let rest_b = lower_hex(b.drop_first());
        assert(ha[0] == hex_digit((a[0] as int) / 16));
        assert(ha[1] == hex_digit((a[0] as int) % 16));
        assert(ha[0] == hex_digit((b[0] as int) / 16));
        assert(ha[1] == hex_digit((b[0] as int) % 16));
        lemma_hex_digit_injective((a[0] as int) / 16, (b[0] as int) / 16);
        lemma_hex_digit_injective((a[0] as int) % 16, (b[0] as int) % 16);
        assert(a[0] == b[0]);
        assert(rest_a =~= ha.skip(2));
        assert(rest_b =~= ha.skip(2));
        lemma_lower_hex_injective(a.drop_first(), b.drop_first());
        assert(a =~= seq![a[0]] + a.drop_first());
        assert(b =~= seq![b[0]] + b.drop_first());
    } else {
        assert(b.len() == 0);
        assert(a =~= b);
    }
}

/// Different sextet values have different base64 characters.
pub proof fn lemma_base64_char_injective(n: int, m: int)
    requires
        0 <= n < 64,
        0 <= m < 64,
        base64_char(n) == base64_char(m),
    ensures
        n == m,
{
    let cn = base64_char(n);
    let cm = base64_char(m);
    assert(cn as int == if n < 26 { 65 + n } else if n < 52 { 71 + n } else if n < 62 { n - 4 } else if n == 62 { 43 } else { 47 });
    assert(cm as int == if m < 26 { 65 + m } else if m < 52 { 71 + m } else if m < 62 { m - 4 } else if m == 62 { 43 } else { 47 });
}

/// Three bytes are determined by their four sextets.
proof fn lemma_sextets_determine_bytes(a0: int, a1: int, a2: int, b0: int, b1: int, b2: int)
    by (nonlinear_arith)
    requires
        0 <= a0 < 256,
        0 <= a1 < 256,
        0 <= a2 < 256,
        0 <= b0 < 256,
        0 <= b1 < 256,
        0 <= b2 < 256,
        a0 / 4 == b0 / 4,
        (a0 % 4) * 16 + a1 / 16 == (b0 % 4) * 16 + b1 / 16,
        (a1 % 16) * 4 + a2 / 64 == (b1 % 16) * 4 + b2 / 64,
        a2 % 64 == b2 % 64,
    ensures
        a0 == b0,
        a1 == b1,
        a2 == b2,
{
}

/// Different byte strings of the same length have different base64 texts.
pub proof fn lemma_base64_injective(a: Seq<u8>, b: Seq<u8>)
    requires
        a.len() == b.len(),
        base64_standard(a) == base64_standard(b),
    ensures
        a == b,
    decreases a.len(),
{
    let t = base64_standard(a);
    if a.len() == 0 {
        assert(a =~= b);
    } else if a.len() == 1 {
        lemma_base64_char_injective((a[0] as int) / 4, (b[0] as int) / 4);
        lemma_base64_char_injective(((a[0] as int) % 4) * 16, ((b[0] as int) % 4) * 16);
        lemma_sextets_determine_bytes(a[0] as int, 0, 0, b[0] as int, 0, 0);
        assert(a =~= b);
    } else if a.len() == 2 {
        assert(t[0] == base64_char((a[0] as int) / 4));
        assert(t[1] == base64_char(((a[0] as int) % 4) * 16 + (a[1] as int) / 16));
        assert(t[2] == base64_char(((a[1] as int) % 16) * 4));
        lemma_base64_char_injective((a[0] as int) / 4, (b[0] as int) / 4);
        lemma_base64_char_injective(
            ((a[0] as int) % 4) * 16 + (a[1] as int) / 16,
            ((b[0] as int) % 4) * 16 + (b[1] as int) / 16,
        );
        lemma_base64_char_injective(((a[1] as int) % 16) * 4, ((b[1] as int) % 16) * 4);
        lemma_sextets_determine_bytes(a[0] as int, a[1] as int, 0, b[0] as int, b[1] as int, 0);
        assert(a =~= b);
    } else {
        let group_a = seq![
            base64_char((a[0] as int) / 4),
            base64_char(((a[0] as int) % 4) * 16 + (a[1] as int) / 16),
            base64_char(((a[1] as int) % 16) * 4 + (a[2] as int) / 64),
            base64_char((a[2] as int) % 64),
        ];
        let group_b = seq![
            base64_char((b[0] as int) / 4),
            base64_char(((b[0] as int) % 4) * 16 + (b[1] as int) / 16),
            base64_char(((b[1] as int) % 16) * 4 + (b[2] as int) / 64),
            base64_char((b[2] as int) % 64),
        ];
        assert(t == group_a + base64_standard(a.skip(3)));
        assert(t == group_b + base64_standard(b.skip(3)));
        assert(t[0] == group_a[0] && t[0] == group_b[0]);
        assert(t[1] == group_a[1] && t[1] == group_b[1]);
        assert(t[2] == group_a[2] && t[2] == group_b[2]);
        assert(t[3] == group_a[3] && t[3] == group_b[3]);
        lemma_base64_char_injective((a[0] as int) / 4, (b[0] as int) / 4);
        lemma_base64_char_injective(
            ((a[0] as int) % 4) * 16 + (a[1] as int) / 16,
            ((b[0] as int) % 4) * 16 + (b[1] as int) / 16,
        );
        lemma_base64_char_injective(
            ((a[1] as int) % 16) * 4 + (a[2] as int) / 64,
            ((b[1] as int) % 16) * 4 + (b[2] as int) / 64,
        );
        lemma_base64_char_injective((a[2] as int) % 64, (b[2] as int) % 64);
        lemma_sextets_determine_bytes(
            a[0] as int,
            a[1] as int,
            a[2] as int,
            b[0] as int,
            b[1] as int,
            b[2] as int,
        );
        assert(base64_standard(a.skip(3)) =~= t.skip(4));
        assert(base64_standard(b.skip(3)) =~= t.skip(4));
        lemma_base64_injective(a.skip(3), b.skip(3));
        assert(a =~= seq![a[0], a[1], a[2]] + a.skip(3));
        assert(b =~= seq![b[0], b[1], b[2]] + b.skip(3));
    }
}

} // verus!
