//! Addresses, and the derivation of an entry's address from its content.
use vstd::prelude::*;
use rust_base58::ToBase58;

verus! {

/// The identifier under which an entry is found. It is derived from the
/// entry's type and content, or handed in from another partition.
#[derive(Debug)]
pub struct Address {
    pub text: String,
}

impl View for Address {
    type V = Seq<char>;

    open spec fn view(&self) -> Seq<char> {
        self.text@
    }
}

impl Clone for Address {
    fn clone(&self) -> (copy: Address)
        ensures
            copy@ == self@,
    {
        Address { text: self.text.clone() }
    }
}

impl PartialEq for Address {
    fn eq(&self, other: &Address) -> (same: bool) {
        self.text == other.text
    }
}

impl Eq for Address {}

impl vstd::std_specs::cmp::PartialEqSpecImpl for Address {
    open spec fn obeys_eq_spec() -> bool {
        true
    }

    open spec fn eq_spec(&self, other: &Address) -> bool {
        self@ == other@
    }
}

impl Address {
    /// The address written as `text`.
    pub fn new(text: &str) -> (address: Address)
        ensures
            address@ == text@,
    {
        Address { text: text.to_owned() }
    }

    /// The text of the address.
    pub fn as_str(&self) -> (text: &str)
        ensures
            text@ == self@,
    {
        self.text.as_str()
    }
}

/// The views of a sequence of addresses, in the same order.
pub open spec fn address_views(addresses: Seq<Address>) -> Seq<Seq<char>> {
    Seq::new(addresses.len(), |i: int| addresses[i]@)
}

/// The JSON text that `serde_json` writes for the pair of an entry's type and
/// its content.
pub uninterp spec fn entry_json_text(entry_type: Seq<char>, content: Seq<char>) -> Seq<char>;

/// The multihash (code, length, digest) of the SHA2-256 digest of `data`.
pub uninterp spec fn sha256_multihash(data: Seq<u8>) -> Seq<u8>;

/// The base-58 text of `data` in the Bitcoin alphabet.
pub uninterp spec fn base58_text(data: Seq<u8>) -> Seq<char>;

/// The address of the entry of type `entry_type` that holds `content`: the
/// base-58 text of the SHA2-256 multihash of the entry's JSON form.
pub open spec fn entry_address(entry_type: Seq<char>, content: Seq<char>) -> Seq<char> {
    base58_text(sha256_multihash(vstd::utf8::encode_utf8(entry_json_text(entry_type, content))))
}

/// Calls `serde_json::to_string` on the pair `(entry_type, content)`. Its
/// documentation names two causes of failure, a `Serialize` impl that fails
/// and a map with keys that are no strings; a pair of string slices has
/// neither, so the result is claimed to be `Some`. The text is a function of
/// the two strings alone and is given the name `entry_json_text`.
#[verifier::external_body]
fn entry_json(entry_type: &str, content: &str) -> (json: Option<String>)
    ensures
        json is Some,
        json->0@ == entry_json_text(entry_type@, content@),
{
    serde_json::to_string(&(entry_type, content)).ok()
}

/// Calls `multihash::encode` with `Hash::SHA2256`. It returns an error only
/// for a hash type that it does not support, and it supports SHA2-256, so the
/// result is claimed to be `Some`. The bytes are a function of `data` alone
/// and are given the name `sha256_multihash`.
#[verifier::external_body]
fn multihash_sha256(data: &[u8]) -> (digest: Option<Vec<u8>>)
    ensures
        digest is Some,
        digest->0@ == sha256_multihash(data@),
{
    multihash::encode(multihash::Hash::SHA2256, data).ok()
}

/// Calls `ToBase58::to_base58` of `rust_base58` on `data`. The text is a
/// function of the bytes alone and is given the name `base58_text`.
#[verifier::external_body]
fn base58_encode(data: &[u8]) -> (text: String)
    ensures
        text@ == base58_text(data@),
{
    data.to_base58()
}

/// Derives the address of the entry of type `entry_type` that holds `content`.
pub fn address_of_entry(entry_type: &str, content: &str) -> (address: Address)
    ensures
        address@ == entry_address(entry_type@, content@),
{
    let json = entry_json(entry_type, content).unwrap();
    let digest = multihash_sha256(json.as_str().as_bytes()).unwrap();
    Address { text: base58_encode(digest.as_slice()) }
}

} // verus!
