//! The text form of an address, and the dictionary item under which the
//! liquidity transformer keeps an investor's entries.
use vstd::prelude::*;
use vstd::string::{StringSliceAdditionalSpecFns, is_ascii_spec_bytes};
use crate::address::{Address, AddressKind};

verus! {

/// The lowercase hex digit of `d`, for `d` below 16.
pub open spec fn hex_digit(d: int) -> char {
    if d < 10 {
        (48 + d) as char
    } else {
        (87 + d) as char
    }
}

/// Each byte as two lowercase hex digits, the high digit first.
pub open spec fn hex_text(bytes: Seq<u8>) -> Seq<char> {
    Seq::new(
        2 * bytes.len(),
        |i: int|
            if i % 2 == 0 {
                hex_digit(bytes[i / 2] as int / 16)
            } else {
                hex_digit(bytes[i / 2] as int % 16)
            },
    )
}

/// The eight bytes of a word, the most significant first.
pub open spec fn word_bytes(w: u64) -> Seq<u8> {
    Seq::new(8, |i: int| ((w as int / vstd::arithmetic::power::pow(256, (7 - i) as nat)) % 256) as u8)
}

/// The 32 bytes of an address, the most significant first.
pub open spec fn address_bytes(a: Address) -> Seq<u8> {
    word_bytes(a.w0) + word_bytes(a.w1) + word_bytes(a.w2) + word_bytes(a.w3)
}

/// The text form of an address: `account-hash-` or `hash-` followed by its
/// bytes in lowercase hex.
pub open spec fn formatted_spec(a: Address) -> Seq<char> {
    match a.kind {
        AddressKind::Account => "account-hash-"@ + hex_text(address_bytes(a)),
        AddressKind::Hash => "hash-"@ + hex_text(address_bytes(a)),
    }
}

/// The bytes of a text made of ASCII characters.
pub open spec fn ascii_bytes(chars: Seq<char>) -> Seq<u8> {
    Seq::new(chars.len(), |i: int| chars[i] as u8)
}

/// The Keccak-256 digest of `bytes` (what `renvm_sig::keccak256` returns).
pub uninterp spec fn keccak256_digest(bytes: Seq<u8>) -> Seq<u8>;

/// `casper_types::Key::to_formatted_string` of the account or contract key
/// of `a`: the prefix of the key's kind and its 32 bytes in lowercase hex
/// (`base16::encode_lower`).
#[verifier::external_body]
fn formatted_key(a: Address) -> (r: String)
    ensures
        r@ == formatted_spec(a),
{
    let mut raw = [0u8; 32];
    raw[..8].copy_from_slice(&a.w0.to_be_bytes());
    raw[8..16].copy_from_slice(&a.w1.to_be_bytes());
    raw[16..24].copy_from_slice(&a.w2.to_be_bytes());
    raw[24..].copy_from_slice(&a.w3.to_be_bytes());
    let key = match a.kind {
        AddressKind::Account => casper_types::Key::Account(casper_types::account::AccountHash::new(raw)),
        AddressKind::Hash => casper_types::Key::Hash(raw),
    };
    key.to_formatted_string()
}

/// `renvm_sig::keccak256`: the Keccak-256 digest of `bytes`.
#[verifier::external_body]
fn keccak256(bytes: &[u8]) -> (r: [u8; 32])
    ensures
        r@ == keccak256_digest(bytes@),
{
    renvm_sig::keccak256(bytes)
}

/// `hex::encode`: each byte as two lowercase hex digits, the high digit
/// first.
#[verifier::external_body]
fn hex_encode(bytes: &[u8; 32]) -> (r: String)
    ensures
        r@ == hex_text(bytes@),
{
    hex::encode(bytes)
}

/// The text form is made of ASCII characters.
proof fn lemma_formatted_is_ascii(a: Address)
    ensures
        vstd::utf8::is_ascii_chars(formatted_spec(a)),
{
    reveal_strlit("account-hash-");
    reveal_strlit("hash-");
    let hex = hex_text(address_bytes(a));
    assert forall|i: int| 0 <= i < hex.len() implies '\0' <= #[trigger] hex[i] <= '\u{7f}' by {
        let b = address_bytes(a)[i / 2] as int;
        assert(0 <= b / 16 < 16);
        assert(0 <= b % 16 < 16);
    }
}

impl Address {
    /// The text form of the address; see `formatted_spec`.
    pub fn formatted(&self) -> (r: String)
        ensures
            r@ == formatted_spec(*self),
    {
        formatted_key(*self)
    }
}

/// The dictionary item under which an investor's balance and purchased
/// tokens are kept: the Keccak-256 digest of the investor's text form, in
/// lowercase hex.
pub fn investor_item(investor: Address) -> (r: String)
    ensures
        r@ == hex_text(keccak256_digest(ascii_bytes(formatted_spec(investor)))),
{
    let text = investor.formatted();
    let s = text.as_str();
    proof {
        lemma_formatted_is_ascii(investor);
        is_ascii_spec_bytes(s);
        assert(s.spec_bytes() =~= ascii_bytes(formatted_spec(investor)));
    }
    let digest = keccak256(s.as_bytes());
    hex_encode(&digest)
}

} // verus!
