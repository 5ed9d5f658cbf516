//! The compute part of node bootstrap: hex forms of the validator key pair
//! that the surrounding process persists to its well-known locations.

use vstd::prelude::*;

verus! {

/// The lowercase hex digit for a nibble.
pub open spec fn nibble_char(n: int) -> char {
    if n == 0 {
        '0'
    } else if n == 1 {
        '1'
    } else if n == 2 {
        '2'
    } else if n == 3 {
        '3'
    } else if n == 4 {
        '4'
    } else if n == 5 {
        '5'
    } else if n == 6 {
        '6'
    } else if n == 7 {
        '7'
    } else if n == 8 {
        '8'
    } else if n == 9 {
        '9'
    } else if n == 10 {
        'a'
    } else if n == 11 {
        'b'
    } else if n == 12 {
        'c'
    } else if n == 13 {
        'd'
    } else if n == 14 {
        'e'
    } else {
        'f'
    }
}

/// Lowercase hex encoding: each byte becomes two digits, high nibble first.
pub open spec fn hex_of(bytes: Seq<u8>) -> Seq<char>
    decreases bytes.len(),
{
    if bytes.len() == 0 {
        Seq::empty()
    } else {
        seq![nibble_char(bytes[0] as int / 16), nibble_char(bytes[0] as int % 16)]
            + hex_of(bytes.subrange(1, bytes.len() as int))
    }
}

/// Relies on hex::encode: it renders each input byte as two lowercase hex
/// digits, high nibble first, in input order.
#[verifier::external_body]
fn hex_encode(bytes: &Vec<u8>) -> (r: String)
    ensures
        r@ == hex_of(bytes@),
{
    hex::encode(bytes)
}

/// The values bootstrap writes beside the database: both keys in hex, and
/// the chain id they belong to.
#[derive(Debug)]
pub struct KeyMaterial {
    /// The validator's private key, hex encoded.
    pub private_key_hex: String,
    /// The validator's public key, hex encoded.
    pub public_key_hex: String,
    /// The chain the keys sign for.
    pub chain_id: u64,
}

/// Render the validator key pair for persistence. The surrounding process
/// supplies the raw key bytes and writes the result to disk.
pub fn bootstrap_key_material(
    private_key: &Vec<u8>,
    public_key: &Vec<u8>,
    chain_id: u64,
) -> (r: KeyMaterial)
    ensures
        r.private_key_hex@ == hex_of(private_key@),
        r.public_key_hex@ == hex_of(public_key@),
        r.chain_id == chain_id,
{
    KeyMaterial {
        private_key_hex: hex_encode(private_key),
        public_key_hex: hex_encode(public_key),
        chain_id,
    }
}

} // verus!
