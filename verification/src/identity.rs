//! Identity & signing: a private key wrapped behind an address, the typed
//! structured hash of a radio payload, and signature production/recovery.
//!
//! The structured hash follows the EIP-712 scheme for the payload struct
//! type: the digest is built here from Keccak-256 alone, and the outside
//! signer is only trusted for deterministic ECDSA over that 32-byte digest.

use vstd::prelude::*;

use crate::errors::MessageError;
use ethers_core::types::{Signature, H256};
use ethers_signers::{Signer, Wallet};
use std::str::FromStr;
use vstd::string::StrSliceExecFns;
use vstd::utf8::encode_utf8;

verus! {

/// The Keccak-256 hash of a byte sequence.
pub uninterp spec fn keccak_of(data: Seq<u8>) -> Seq<u8>;

/// The hex signature string that the key produces over a 32-byte digest.
pub uninterp spec fn sig_of(key: Seq<u8>, digest: Seq<u8>) -> Seq<char>;

/// The address recovered from a hex signature string and a 32-byte digest,
/// or nothing when the string does not parse or recovery fails.
pub uninterp spec fn recover_of(signature: Seq<char>, digest: Seq<u8>) -> Option<Seq<char>>;

/// The 0x-prefixed address derived from a 32-byte private key.
pub uninterp spec fn addr_of_key(key: Seq<u8>) -> Seq<char>;

/// Whether signing a 32-byte digest with the key succeeds: a function of
/// the two alone, false essentially only for key bytes that are not a
/// valid scalar.
pub uninterp spec fn sign_ok(key: Seq<u8>, digest: Seq<u8>) -> bool;

/// Whether the key bytes are a valid scalar, so that an address can be
/// derived from them.
pub uninterp spec fn key_ok(key: Seq<u8>) -> bool;

/// Relies on `ethers_core::utils::keccak256`: the 32-byte Keccak-256 hash,
/// a function of the input bytes alone.
#[verifier::external_body]
fn keccak256_bytes(data: &Vec<u8>) -> (r: Vec<u8>)
    ensures
        r@ == keccak_of(data@),
        r@.len() == 32,
{
    ethers_core::utils::keccak256(data.as_slice()).to_vec()
}

/// Relies on `ethers_signers::Wallet::from_bytes` and `Wallet::sign_hash`:
/// deterministic (RFC 6979) recoverable ECDSA over secp256k1, whose hex
/// signature string `Signature::recover` resolves to the signing key's own
/// address; whether it succeeds depends on the key and digest alone (it
/// fails only when the key bytes are not a valid scalar).
#[verifier::external_body]
fn sign_digest(key: &Vec<u8>, digest: &Vec<u8>) -> (r: Result<String, MessageError>)
    requires
        key@.len() == 32,
        digest@.len() == 32,
    ensures
        r is Ok <==> sign_ok(key@, digest@),
        r matches Ok(s) ==> s@ == sig_of(key@, digest@) && recover_of(s@, digest@)
            == Some(addr_of_key(key@)),
        r matches Err(e) ==> e matches MessageError::SigningError,
{
    let wallet = match Wallet::from_bytes(key.as_slice()) {
        Ok(w) => w,
        Err(_) => return Err(MessageError::SigningError),
    };
    match wallet.sign_hash(H256::from_slice(digest.as_slice())) {
        Ok(sig) => Ok(sig.to_string()),
        Err(_) => Err(MessageError::SigningError),
    }
}

/// Relies on `ethers_core::types::Signature::from_str` and
/// `Signature::recover`: parsing the hex signature string and recovering
/// the Ethereum address that signed the 32-byte digest; both depend on the
/// string and the digest alone.
#[verifier::external_body]
fn recover_digest_address(signature: &String, digest: &Vec<u8>) -> (r: Result<
    String,
    MessageError,
>)
    requires
        digest@.len() == 32,
    ensures
        r matches Ok(a) ==> recover_of(signature@, digest@) == Some(a@),
        r matches Err(e) ==> recover_of(signature@, digest@) is None && e
            matches MessageError::MalformedSignature,
{
    match Signature::from_str(signature.as_str()) {
        Ok(sig) => match sig.recover(H256::from_slice(digest.as_slice())) {
            Ok(addr) => Ok(format!("{:#x}", addr)),
            Err(_) => Err(MessageError::MalformedSignature),
        },
        Err(_) => Err(MessageError::MalformedSignature),
    }
}

/// Relies on `ethers_signers::Wallet::from_bytes` and `Signer::address`:
/// the address is derived from the key bytes alone, and the derivation
/// fails exactly when they are not a valid scalar.
#[verifier::external_body]
fn key_address(key: &Vec<u8>) -> (r: Result<String, MessageError>)
    requires
        key@.len() == 32,
    ensures
        r is Ok <==> key_ok(key@),
        r matches Ok(a) ==> a@ == addr_of_key(key@),
        r matches Err(e) ==> e matches MessageError::SigningError,
{
    match Wallet::from_bytes(key.as_slice()) {
        Ok(wallet) => Ok(format!("{:#x}", wallet.address())),
        Err(_) => Err(MessageError::SigningError),
    }
}

/// The radio payload: the typed content an envelope carries about its
/// subject entity. Its structured hash is the signing capability every
/// payload type must offer.
#[derive(Clone)]
pub struct RadioPayloadMessage {
    pub identifier: String,
    pub content: String,
}

impl RadioPayloadMessage {
    pub fn new(identifier: String, content: String) -> (r: RadioPayloadMessage)
        ensures
            r.identifier@ == identifier@,
            r.content@ == content@,
    {
        RadioPayloadMessage { identifier, content }
    }

    pub fn content_string(&self) -> (r: String)
        ensures
            r@ == self.content@,
    {
        self.content.clone()
    }
}

/// Keccak-256 of a string's UTF-8 bytes, as the structured hash encodes
/// every string field.
pub open spec fn utf8_hash(s: Seq<char>) -> Seq<u8> {
    keccak_of(encode_utf8(s))
}

/// The type hash of the payload struct type.
pub open spec fn payload_type_hash() -> Seq<u8> {
    utf8_hash("RadioPayloadMessage(string identifier,string content)"@)
}

/// The type hash of the signing domain struct type.
pub open spec fn domain_type_hash() -> Seq<u8> {
    utf8_hash("EIP712Domain(string name,string version,uint256 chainId,address verifyingContract)"@)
}

/// The domain's chain id (1) as a 32-byte big-endian word.
pub open spec fn chain_id_word() -> Seq<u8> {
    Seq::new(31, |i: int| 0u8).push(1u8)
}

/// The domain's verifying contract address, left-padded to a 32-byte word.
pub open spec fn contract_word() -> Seq<u8> {
    Seq::new(12, |i: int| 0u8) + seq![
        0xc9u8,
        0x44u8,
        0xe9u8,
        0x0cu8,
        0x64u8,
        0xb2u8,
        0xc0u8,
        0x76u8,
        0x62u8,
        0xa2u8,
        0x92u8,
        0xbeu8,
        0x62u8,
        0x44u8,
        0xbdu8,
        0xf0u8,
        0x5cu8,
        0xdau8,
        0x44u8,
        0xa7u8,
    ]
}

/// The domain separator: hash of the encoded signing domain.
pub open spec fn domain_separator() -> Seq<u8> {
    keccak_of(
        domain_type_hash() + utf8_hash("Graphcast Test Radio"@) + utf8_hash("0"@)
            + chain_id_word() + contract_word(),
    )
}

/// The struct hash of a payload's fields.
pub open spec fn payload_struct_hash(identifier: Seq<char>, content: Seq<char>) -> Seq<u8> {
    keccak_of(payload_type_hash() + utf8_hash(identifier) + utf8_hash(content))
}

/// The digest that is signed: the structured signing hash of the payload.
pub open spec fn payload_digest(identifier: Seq<char>, content: Seq<char>) -> Seq<u8> {
    keccak_of(seq![0x19u8, 0x01u8] + domain_separator() + payload_struct_hash(identifier, content))
}

/// Hash a string field as the structured encoding does.
fn utf8_hash_exec(s: &String) -> (r: Vec<u8>)
    ensures
        r@ == utf8_hash(s@),
        r@.len() == 32,
{
    keccak256_bytes(&s.as_str().as_bytes_vec())
}

/// Compute the structured signing hash of a payload.
pub fn eip712_digest(payload: &RadioPayloadMessage) -> (r: Vec<u8>)
    ensures
        r@ == payload_digest(payload.identifier@, payload.content@),
        r@.len() == 32,
{
    // struct hash of the payload
    let mut enc = keccak256_bytes(
        &("RadioPayloadMessage(string identifier,string content)").as_bytes_vec(),
    );
    let mut id_hash = utf8_hash_exec(&payload.identifier);
    let mut content_hash = utf8_hash_exec(&payload.content);
    enc.append(&mut id_hash);
    enc.append(&mut content_hash);
    let mut struct_hash = keccak256_bytes(&enc);
    proof {
        assert(struct_hash@ == payload_struct_hash(payload.identifier@, payload.content@));
    }
    // domain separator
    let mut denc = keccak256_bytes(
        &(
        "EIP712Domain(string name,string version,uint256 chainId,address verifyingContract)"
        ).as_bytes_vec(),
    );
    let mut name_hash = keccak256_bytes(&("Graphcast Test Radio").as_bytes_vec());
    let mut version_hash = keccak256_bytes(&("0").as_bytes_vec());
    denc.append(&mut name_hash);
    denc.append(&mut version_hash);
    let mut chain_word: Vec<u8> = Vec::new();
    let mut i: usize = 0;
    while i < 31
        invariant
            0 <= i <= 31,
            chain_word@ == Seq::new(i as nat, |j: int| 0u8),
        decreases 31 - i,
    {
        chain_word.push(0u8);
        proof {
            assert(chain_word@ =~= Seq::new((i + 1) as nat, |j: int| 0u8));
        }
        i += 1;
    }
    chain_word.push(1u8);
    proof {
        assert(chain_word@ =~= chain_id_word());
    }
    denc.append(&mut chain_word);
    let mut addr_word: Vec<u8> = Vec::new();
    let mut k: usize = 0;
    while k < 12
        invariant
            0 <= k <= 12,
            addr_word@ == Seq::new(k as nat, |j: int| 0u8),
        decreases 12 - k,
    {
        addr_word.push(0u8);
        proof {
            assert(addr_word@ =~= Seq::new((k + 1) as nat, |j: int| 0u8));
        }
        k += 1;
    }
    addr_word.push(0xc9u8);
    addr_word.push(0x44u8);
    addr_word.push(0xe9u8);
    addr_word.push(0x0cu8);
    addr_word.push(0x64u8);
    addr_word.push(0xb2u8);
    addr_word.push(0xc0u8);
    addr_word.push(0x76u8);
    addr_word.push(0x62u8);
    addr_word.push(0xa2u8);
    addr_word.push(0x92u8);
    addr_word.push(0xbeu8);
    addr_word.push(0x62u8);
    addr_word.push(0x44u8);
    addr_word.push(0xbdu8);
    addr_word.push(0xf0u8);
    addr_word.push(0x5cu8);
    addr_word.push(0xdau8);
    addr_word.push(0x44u8);
    addr_word.push(0xa7u8);
    proof {
        assert(addr_word@ =~= contract_word());
    }
    denc.append(&mut addr_word);
    let mut dsep = keccak256_bytes(&denc);
    proof {
        assert(dsep@ == domain_separator());
    }
    // the signed digest
    let mut preimage: Vec<u8> = Vec::new();
    preimage.push(0x19u8);
    preimage.push(0x01u8);
    preimage.append(&mut dsep);
    preimage.append(&mut struct_hash);
    proof {
        assert(preimage@ =~= seq![0x19u8, 0x01u8] + domain_separator() + payload_struct_hash(
            payload.identifier@,
            payload.content@,
        ));
    }
    keccak256_bytes(&preimage)
}

/// A private key together with the address it answers for: the agent's
/// identity on the network.
pub struct GraphcastIdentity {
    key: Vec<u8>,
    graphcast_id: String,
}

impl GraphcastIdentity {
    /// Well-formed: a valid 32-byte key whose stored address is the
    /// derived one.
    pub closed spec fn wf(&self) -> bool {
        &&& self.key@.len() == 32
        &&& key_ok(self.key@)
        &&& self.graphcast_id@ == addr_of_key(self.key@)
    }

    /// The key bytes, as the contracts speak of them.
    pub closed spec fn key_view(&self) -> Seq<u8> {
        self.key@
    }

    /// Wrap a 32-byte secp256k1 private key. A key of any other length, or
    /// one that is not a valid scalar, is refused.
    pub fn new(key: Vec<u8>) -> (r: Result<GraphcastIdentity, MessageError>)
        ensures
            r is Ok <==> key@.len() == 32 && key_ok(key@),
            r matches Ok(id) ==> id.wf() && id.key_view() == key@,
            r matches Err(e) ==> e matches MessageError::SigningError,
    {
        if key.len() != 32 {
            return Err(MessageError::SigningError);
        }
        match key_address(&key) {
            Ok(graphcast_id) => Ok(GraphcastIdentity { key, graphcast_id }),
            Err(_) => Err(MessageError::SigningError),
        }
    }

    /// The 0x-prefixed address this identity signs as.
    pub fn address(&self) -> (r: String)
        requires
            self.wf(),
        ensures
            r@ == addr_of_key(self.key_view()),
    {
        self.graphcast_id.clone()
    }

    /// Sign a payload's structured hash; succeeds exactly when the key
    /// signs that digest.
    pub fn sign_payload(&self, payload: &RadioPayloadMessage) -> (r: Result<String, MessageError>)
        requires
            self.wf(),
        ensures
            r is Ok <==> sign_ok(
                self.key_view(),
                payload_digest(payload.identifier@, payload.content@),
            ),
            r matches Ok(s) ==> {
                &&& s@ == sig_of(self.key_view(), payload_digest(payload.identifier@, payload.content@))
                &&& recover_of(s@, payload_digest(payload.identifier@, payload.content@))
                    == Some(addr_of_key(self.key_view()))
            },
            r matches Err(e) ==> e matches MessageError::SigningError,
    {
        let digest = eip712_digest(payload);
        sign_digest(&self.key, &digest)
    }
}

/// Recover the address that signed a payload's structured hash, or report
/// the signature as malformed.
pub fn recover_payload_signer(payload: &RadioPayloadMessage, signature: &String) -> (r: Result<
    String,
    MessageError,
>)
    ensures
        r matches Ok(a) ==> recover_of(
            signature@,
            payload_digest(payload.identifier@, payload.content@),
        ) == Some(a@),
        r matches Err(e) ==> recover_of(
            signature@,
            payload_digest(payload.identifier@, payload.content@),
        ) is None && e matches MessageError::MalformedSignature,
{
    let digest = eip712_digest(payload);
    recover_digest_address(signature, &digest)
}

} // verus!
