//! The wallet and the EIP-712 signer of exchange actions.
//!
//! Keccak-256 comes from `sha3`, hex text from `hex`, keys and ECDSA
//! signatures from `k256`; what each of those calls returns is stated by
//! the trusted wrappers at the end of this file.

use vstd::prelude::*;
use crate::error::BotError;
use crate::text::text;
use crate::text::{push_decimal, decimal};
use sha3::Digest;

verus! {

/// Hyperliquid chain id (Arbitrum)
pub const HYPERLIQUID_CHAIN_ID: u64 = 42161;

/// Bytes of a private key.
pub const SECRET_KEY_BYTES: usize = 32;

/// Order of the secp256k1 group.
pub open spec fn secp256k1_order() -> nat {
    0xFFFFFFFFFFFFFFFFFFFFFFFFFFFFFFFEBAAEDCE6AF48A03BBFD25E8CD0364141nat
}

/// A byte string read as a big-endian number.
pub open spec fn be_value(b: Seq<u8>) -> nat
    decreases b.len(),
{
    if b.len() == 0 {
        0
    } else {
        be_value(b.drop_last()) * 256 + b.last() as nat
    }
}

/// 32 bytes holding a number between 1 and the group order (exclusive):
/// a valid secp256k1 private key.
pub open spec fn valid_secret_key(b: Seq<u8>) -> bool {
    &&& b.len() == 32
    &&& 0 < be_value(b)
    &&& be_value(b) < secp256k1_order()
}

/// Whether a byte is an ASCII hex digit (either case).
pub open spec fn is_hex_byte(b: u8) -> bool {
    (48 <= b <= 57) || (65 <= b <= 70) || (97 <= b <= 102)
}

/// The value of an ASCII hex digit.
pub open spec fn hex_val(b: u8) -> int {
    if 48 <= b <= 57 {
        b - 48
    } else if 65 <= b <= 70 {
        b - 55
    } else {
        b - 87
    }
}

/// Text that decodes as hex: an even number of hex digits.
pub open spec fn hex_decodable(b: Seq<u8>) -> bool {
    &&& b.len() % 2 == 0
    &&& forall|i: int| 0 <= i < b.len() ==> is_hex_byte(#[trigger] b[i])
}

/// The bytes hex text stands for, two digits a byte, high digit first.
pub open spec fn hex_decoded(b: Seq<u8>) -> Seq<u8> {
    Seq::new(b.len() / 2, |i: int| (16 * hex_val(b[2 * i]) + hex_val(b[2 * i + 1])) as u8)
}

/// The lowercase hex digit of a value below 16.
pub open spec fn hex_char(d: int) -> char {
    if d < 10 {
        (48 + d) as char
    } else {
        (87 + d) as char
    }
}

/// Lowercase hex text of bytes, two digits a byte, high digit first.
pub open spec fn hex_lower(b: Seq<u8>) -> Seq<char> {
    Seq::new(2 * b.len(), |i: int| hex_char(if i % 2 == 0 { (b[i / 2] / 16) as int } else { (b[i / 2] % 16) as int }))
}

/// The text of a private key without its "0x" prefix, if it has one.
pub open spec fn strip_0x(s: Seq<char>) -> Seq<char> {
    if s.len() >= 2 && s[0] == '0' && s[1] == 'x' {
        s.subrange(2, s.len() as int)
    } else {
        s
    }
}

/// The address of a public key: "0x" and the hex of the last 20 bytes of
/// the Keccak-256 hash of the key without its leading format byte.
pub open spec fn address_of(public_key: Seq<u8>) -> Seq<char> {
    "0x"@ + hex_lower(keccak256_of(public_key.subrange(1, public_key.len() as int)).subrange(12, 32))
}

/// The chain id as a 32-byte big-endian word.
pub open spec fn chain_id_word() -> Seq<u8> {
    Seq::new(32, |i: int| if i == 30 { 0xA4u8 } else if i == 31 { 0xB1u8 } else { 0u8 })
}

/// The EIP-712 domain separator of Hyperliquid transactions: the hash of
/// the hashed domain type, name and version, then the chain id word.
pub open spec fn domain_separator_spec() -> Seq<u8> {
    keccak256_of(
        keccak256_of(encode_utf8_of("EIP712Domain(string name,string version,uint256 chainId)"@))
            + keccak256_of(encode_utf8_of("HyperliquidSignTransaction"@))
            + keccak256_of(encode_utf8_of("1"@))
            + chain_id_word(),
    )
}

/// UTF-8 bytes of a text.
pub open spec fn encode_utf8_of(s: Seq<char>) -> Seq<u8> {
    vstd::utf8::encode_utf8(s)
}

/// The digest that is signed: the hash of 0x19 0x01, the domain separator
/// and the hash of the action.
pub open spec fn eip712_digest(domain: Seq<u8>, struct_hash: Seq<u8>) -> Seq<u8> {
    keccak256_of(seq![0x19u8, 0x01u8] + domain + struct_hash)
}

/// An action is signed under its EIP-712 digest: the Keccak-256 hash of the
/// byte 0x19 (the EIP-191 prefix), the byte 0x01 (EIP-191 version one,
/// structured data), then the domain separator, then the Keccak-256 hash of
/// the action's UTF-8 text; for every domain and every action.
pub proof fn lemma_signed_digest_is_eip712(domain: Seq<u8>, action_json: Seq<char>)
    ensures
        eip712_digest(domain, keccak256_of(encode_utf8_of(action_json))) == keccak256_of(
            seq![0x19u8].push(0x01u8).add(domain).add(keccak256_of(encode_utf8_of(action_json))),
        ),
{
    assert(seq![0x19u8].push(0x01u8) =~= seq![0x19u8, 0x01u8]);
}

/// The chain id word stands for the chain id.
pub proof fn lemma_chain_id_word()
    ensures
        chain_id_word().len() == 32,
        be_value(chain_id_word()) == HYPERLIQUID_CHAIN_ID,
{
    let w = chain_id_word();
    assert forall|k: int| 0 <= k <= 30 implies be_value(#[trigger] w.subrange(0, k)) == 0 by {
        lemma_zero_prefix(w, k);
    }
    let w30 = w.subrange(0, 30);
    let w31 = w.subrange(0, 31);
    assert(be_value(w30) == 0);
    assert(w31.drop_last() =~= w30);
    assert(w31.last() == 0xA4u8);
    assert(be_value(w31) == be_value(w30) * 256 + 0xA4);
    assert(w.drop_last() =~= w31);
    assert(be_value(w) == be_value(w31) * 256 + 0xB1);
}

proof fn lemma_zero_prefix(w: Seq<u8>, k: int)
    requires
        w == chain_id_word(),
        0 <= k <= 30,
    ensures
        be_value(w.subrange(0, k)) == 0,
    decreases k,
{
    if k > 0 {
        lemma_zero_prefix(w, k - 1);
        assert(w.subrange(0, k).drop_last() =~= w.subrange(0, k - 1));
    }
}

/// A wallet: a valid private key and the address it controls.
pub struct Wallet {
    secret: Vec<u8>,
    address: String,
}

impl Wallet {
    #[verifier::type_invariant]
    closed spec fn key_is_valid(self) -> bool {
        valid_secret_key(self.secret@)
    }

    /// The wallet's private key.
    pub closed spec fn secret(self) -> Seq<u8> {
        self.secret@
    }

    /// The wallet's address.
    pub closed spec fn address_spec(self) -> Seq<char> {
        self.address@
    }

    /// Open a wallet from a hex private key, with or without "0x": the key
    /// must be hex, 32 bytes long and a valid secp256k1 scalar; its address
    /// comes from its public key.
    pub fn new(private_key: &str) -> (r: Result<Wallet, BotError>)
        ensures
            ({
                let hex_bytes = encode_utf8_of(strip_0x(private_key@));
                let key = hex_decoded(hex_bytes);
                if !hex_decodable(hex_bytes) {
                    r matches Err(BotError::Signing(m)) && m@ == "Invalid private key hex: "@
                        + hex_decode_error(hex_bytes) && (hex_bytes.len() % 2 == 1 ==> m@
                        == "Invalid private key hex: Odd number of digits"@)
                } else if key.len() != 32 {
                    r matches Err(BotError::Signing(m)) && m@ == "Private key must be 32 bytes, got "@
                        + decimal(key.len())
                } else if !valid_secret_key(key) {
                    r matches Err(BotError::Signing(m)) && m@ == "Invalid private key: signature error"@
                } else {
                    r matches Ok(w) && w.secret() == key && w.address_spec() == address_of(
                        uncompressed_public_key(key),
                    ) && w.address_spec().len() == 42
                }
            }),
    {
        let key_hex = strip_hex_prefix(private_key);
        let key_bytes = match hex_decode(key_hex) {
            Ok(b) => b,
            Err(e) => {
                let mut m = text("Invalid private key hex: ");
                m.append(e.as_str());
                proof {
                    reveal_strlit("Invalid private key hex: ");
                    reveal_strlit("Odd number of digits");
                    reveal_strlit("Invalid private key hex: Odd number of digits");
                    assert("Invalid private key hex: "@ + "Odd number of digits"@
                        =~= "Invalid private key hex: Odd number of digits"@);
                }
                return Err(BotError::Signing(m));
            },
        };
        if key_bytes.len() != SECRET_KEY_BYTES {
            let mut m = text("Private key must be 32 bytes, got ");
            push_decimal(&mut m, key_bytes.len() as u64);
            return Err(BotError::Signing(m));
        }
        let public_key = match public_key_of(key_bytes.as_slice()) {
            Some(p) => p,
            None => {
                return Err(BotError::Signing(text("Invalid private key: signature error")));
            },
        };
        let address = pubkey_to_address(public_key.as_slice());
        Ok(Wallet { secret: key_bytes, address })
    }

    pub fn address(&self) -> (a: &str)
        ensures
            a@ == self.address_spec(),
    {
        self.address.as_str()
    }
}

/// The private key text without its "0x" prefix.
pub fn strip_hex_prefix(s: &str) -> (r: &str)
    ensures
        r@ == strip_0x(s@),
{
    let n = s.unicode_len();
    if n >= 2 && s.get_char(0) == '0' && s.get_char(1) == 'x' {
        s.substring_char(2, n)
    } else {
        s
    }
}

/// The address of an uncompressed public key.
fn pubkey_to_address(public_key: &[u8]) -> (a: String)
    requires
        public_key@.len() == 65,
    ensures
        a@ == address_of(public_key@),
        a@.len() == 42,
{
    let mut body: Vec<u8> = Vec::new();
    let mut i: usize = 1;
    while i < public_key.len()
        invariant
            1 <= i <= public_key@.len(),
            public_key@.len() == 65,
            body@ == public_key@.subrange(1, i as int),
        decreases public_key.len() - i,
    {
        body.push(public_key[i]);
        i = i + 1;
    }
    let hash = keccak256(body.as_slice());
    let mut tail: Vec<u8> = Vec::new();
    let mut j: usize = 12;
    while j < 32
        invariant
            12 <= j <= 32,
            hash@.len() == 32,
            tail@ == hash@.subrange(12, j as int),
        decreases 32 - j,
    {
        tail.push(hash[j]);
        j = j + 1;
    }
    let mut a = text("0x");
    let h = hex_encode(tail.as_slice());
    a.append(h.as_str());
    proof {
        reveal_strlit("0x");
        assert(hex_lower(tail@).len() == 40);
    }
    a
}

/// EIP-712 signer for Hyperliquid
pub struct Signer {
    domain_separator: Vec<u8>,
}

/// The parts of a signature as the exchange takes them: `r` and `s` as
/// "0x" and 64 hex digits, and `v` as the recovery id plus 27.
#[derive(Debug, Clone)]
pub struct SignatureParts {
    pub r: String,
    pub s: String,
    pub v: u8,
}

impl Signer {
    /// The signer's domain separator.
    pub closed spec fn domain(self) -> Seq<u8> {
        self.domain_separator@
    }

    pub fn new() -> (s: Signer)
        ensures
            s.domain() == domain_separator_spec(),
    {
        Signer { domain_separator: Self::compute_domain_separator() }
    }

    fn compute_domain_separator() -> (d: Vec<u8>)
        ensures
            d@ == domain_separator_spec(),
    {
        let type_hash = keccak256("EIP712Domain(string name,string version,uint256 chainId)".as_bytes());
        let name_hash = keccak256("HyperliquidSignTransaction".as_bytes());
        let version_hash = keccak256("1".as_bytes());
        let mut buf: Vec<u8> = Vec::new();
        append_bytes(&mut buf, type_hash.as_slice());
        append_bytes(&mut buf, name_hash.as_slice());
        append_bytes(&mut buf, version_hash.as_slice());
        let mut k: usize = 0;
        while k < 30
            invariant
                k <= 30,
                buf@.len() == 96 + k,
                buf@.subrange(0, 96) == type_hash@ + name_hash@ + version_hash@,
                forall|i: int| 96 <= i < 96 + k ==> buf@[i] == 0u8,
            decreases 30 - k,
        {
            buf.push(0);
            k = k + 1;
        }
        buf.push(0xA4);
        buf.push(0xB1);
        assert(buf@ =~= type_hash@ + name_hash@ + version_hash@ + chain_id_word()) by {
            assert(buf@.subrange(0, 96) == type_hash@ + name_hash@ + version_hash@);
        }
        keccak256(buf.as_slice())
    }

    /// The digest signed for an action: the EIP-712 hash of the domain and
    /// of the action's hash.
    fn compute_eip712_hash(domain: &[u8], struct_hash: &[u8]) -> (d: Vec<u8>)
        ensures
            d@ == eip712_digest(domain@, struct_hash@),
            d@.len() == 32,
    {
        let mut buf: Vec<u8> = Vec::new();
        buf.push(0x19);
        buf.push(0x01);
        append_bytes(&mut buf, domain);
        append_bytes(&mut buf, struct_hash);
        assert(buf@ =~= seq![0x19u8, 0x01u8] + domain@ + struct_hash@);
        keccak256(buf.as_slice())
    }

    /// Sign an action given as its JSON text (with its "type" already in
    /// it): the Keccak-256 hash of the text is signed under the EIP-712
    /// domain with the wallet's key.
    pub fn sign_action(&self, wallet: &Wallet, action_json: &str) -> (r: Result<SignatureParts, BotError>)
        ensures
            ({
                let digest = eip712_digest(self.domain(), keccak256_of(encode_utf8_of(action_json@)));
                match recoverable_signature(wallet.secret(), digest) {
                    Some((rb, sb, recid)) => r matches Ok(p) && p.r@ == "0x"@ + hex_lower(rb) && p.s@
                        == "0x"@ + hex_lower(sb) && p.v == recid + 27 && p.r@.len() == 66 && p.s@.len() == 66
                        && 27 <= p.v <= 30,
                    None => r matches Err(BotError::Signing(m)) && m@ == "Signing failed: signature error"@,
                }
            }),
    {
        proof { use_type_invariant(wallet); }
        let action_hash = keccak256(action_json.as_bytes());
        let digest = Self::compute_eip712_hash(self.domain_separator.as_slice(), action_hash.as_slice());
        match sign_prehash(wallet.secret.as_slice(), digest.as_slice()) {
            Some((rb, sb, recid)) => {
                let mut r = text("0x");
                let rh = hex_encode(rb.as_slice());
                r.append(rh.as_str());
                let mut s = text("0x");
                let sh = hex_encode(sb.as_slice());
                s.append(sh.as_str());
                proof {
                    reveal_strlit("0x");
                    assert(hex_lower(rb@).len() == 64);
                    assert(hex_lower(sb@).len() == 64);
                }
                Ok(SignatureParts { r, s, v: recid + 27 })
            },
            None => Err(BotError::Signing(text("Signing failed: signature error"))),
        }
    }
}

fn append_bytes(buf: &mut Vec<u8>, more: &[u8])
    ensures
        final(buf)@ == old(buf)@ + more@,
{
    let ghost start = buf@;
    let mut i: usize = 0;
    while i < more.len()
        invariant
            i <= more@.len(),
            buf@ == start + more@.subrange(0, i as int),
        decreases more.len() - i,
    {
        buf.push(more[i]);
        proof { assert(more@.subrange(0, i + 1) =~= more@.subrange(0, i as int).push(more@[i as int])); }
        i = i + 1;
    }
    assert(more@.subrange(0, i as int) =~= more@);
}

/// The Keccak-256 hash of bytes, as `sha3::Keccak256` computes it.
pub uninterp spec fn keccak256_of(data: Seq<u8>) -> Seq<u8>;

/// Calls `sha3::Keccak256` (`new`, `update`, `finalize`) on the bytes; the
/// 32-byte digest is named `keccak256_of` of them.
#[verifier::external_body]
fn keccak256(data: &[u8]) -> (r: Vec<u8>)
    ensures
        r@ == keccak256_of(data@),
        r@.len() == 32,
{
    let mut hasher = sha3::Keccak256::new();
    hasher.update(data);
    hasher.finalize().to_vec()
}

/// Calls `hex::encode`: lowercase hex, two digits a byte, high digit first.
#[verifier::external_body]
fn hex_encode(data: &[u8]) -> (r: String)
    ensures
        r@ == hex_lower(data@),
{
    hex::encode(data)
}

/// The text of the error `hex::decode` reports for bytes it cannot decode
/// (an odd length, or the first byte that is not a hex digit).
pub uninterp spec fn hex_decode_error(data: Seq<u8>) -> Seq<char>;

/// Calls `hex::decode` on the text's bytes: an even number of hex digits
/// (either case) decodes to one byte per two digits, high digit first;
/// anything else is an error whose text is named `hex_decode_error`, and
/// is "Odd number of digits" for an odd number of bytes.
#[verifier::external_body]
fn hex_decode(s: &str) -> (r: Result<Vec<u8>, String>)
    ensures
        match r {
            Ok(b) => hex_decodable(encode_utf8_of(s@)) && b@ == hex_decoded(encode_utf8_of(s@)),
            Err(m) => !hex_decodable(encode_utf8_of(s@)) && m@ == hex_decode_error(encode_utf8_of(s@)) && (
            encode_utf8_of(s@).len() % 2 == 1 ==> m@ == "Odd number of digits"@),
        },
{
    hex::decode(s).map_err(|e| e.to_string())
}

/// The uncompressed SEC1 public key (0x04, then x and y) of a private key.
pub uninterp spec fn uncompressed_public_key(secret: Seq<u8>) -> Seq<u8>;

/// Calls `k256::ecdsa::SigningKey::from_bytes` and, on success, encodes
/// the key's `VerifyingKey` as an uncompressed SEC1 point. The key is
/// accepted exactly when it is a valid secp256k1 scalar; the 65-byte point
/// starts with 0x04 and is otherwise named `uncompressed_public_key`.
#[verifier::external_body]
fn public_key_of(secret: &[u8]) -> (r: Option<Vec<u8>>)
    requires
        secret@.len() == 32,
    ensures
        r is Some <==> valid_secret_key(secret@),
        r matches Some(p) ==> p@ == uncompressed_public_key(secret@) && p@.len() == 65 && p@[0] == 4,
{
    let key = k256::ecdsa::SigningKey::from_bytes(secret.into()).ok()?;
    let point = k256::ecdsa::VerifyingKey::from(&key).to_encoded_point(false);
    Some(point.as_bytes().to_vec())
}

/// The deterministic (RFC 6979) recoverable ECDSA signature of a 32-byte
/// digest under a private key: big-endian `r`, big-endian `s` and the
/// recovery id, or none when signing fails.
pub uninterp spec fn recoverable_signature(secret: Seq<u8>, digest: Seq<u8>) -> Option<(Seq<u8>, Seq<u8>, u8)>;

/// Calls `k256::ecdsa::SigningKey::sign_prehash_recoverable` with the key
/// made from the private key's bytes, and splits the signature into its
/// 32-byte `r` and `s`; the result is named `recoverable_signature`, and a
/// recovery id is at most 3.
#[verifier::external_body]
fn sign_prehash(secret: &[u8], digest: &[u8]) -> (r: Option<(Vec<u8>, Vec<u8>, u8)>)
    requires
        valid_secret_key(secret@),
        digest@.len() == 32,
    ensures
        match r {
            Some((a, b, v)) => recoverable_signature(secret@, digest@) == Some((a@, b@, v)) && a@.len()
                == 32 && b@.len() == 32 && v <= 3,
            None => recoverable_signature(secret@, digest@) is None,
        },
{
    let key = k256::ecdsa::SigningKey::from_bytes(secret.into()).ok()?;
    let (signature, recid) = key.sign_prehash_recoverable(digest).ok()?;
    let (rb, sb) = signature.split_bytes();
    Some((rb.to_vec(), sb.to_vec(), recid.to_byte()))
}

} // verus!
