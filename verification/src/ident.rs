//! The device's broker identity.
//!
//! Every device connects to the broker under a client id derived from its
//! factory MAC address.  Reading the address is the hardware's business;
//! turning it into the client id is pure computation and lives here.

use vstd::prelude::*;

verus! {

/// The lowercase hex digit character for `d`.
pub open spec fn hex_digit(d: int) -> char {
    if d == 0 {
        '0'
    } else if d == 1 {
        '1'
    } else if d == 2 {
        '2'
    } else if d == 3 {
        '3'
    } else if d == 4 {
        '4'
    } else if d == 5 {
        '5'
    } else if d == 6 {
        '6'
    } else if d == 7 {
        '7'
    } else if d == 8 {
        '8'
    } else if d == 9 {
        '9'
    } else if d == 10 {
        'a'
    } else if d == 11 {
        'b'
    } else if d == 12 {
        'c'
    } else if d == 13 {
        'd'
    } else if d == 14 {
        'e'
    } else {
        'f'
    }
}

/// Lowercase hex rendering of a byte sequence: two digits per byte, high
/// nibble first.
pub open spec fn spec_hex_of(b: Seq<u8>) -> Seq<char>
    decreases b.len(),
{
    if b.len() == 0 {
        Seq::empty()
    } else {
        spec_hex_of(b.drop_last()) + seq![
            hex_digit(b.last() as int / 16),
            hex_digit(b.last() as int % 16),
        ]
    }
}

/// Relies on `hex::encode`: lowercase hex, two digits per byte, high nibble
/// first, in input order.
#[verifier::external_body]
fn hex_encode(b: &Vec<u8>) -> (r: String)
    ensures
        r@ == spec_hex_of(b@),
{
    hex::encode(b.as_slice())
}

/// The broker client id a device with the given factory MAC address uses.
pub open spec fn spec_unique_id(mac: Seq<u8>) -> Seq<char> {
    "robotica-remote-rust_"@ + spec_hex_of(mac)
}

/// Builds the broker client id from the factory MAC address, as read by the
/// hardware layer.
pub fn get_unique_id(mac: &Vec<u8>) -> (r: String)
    ensures
        r@ == spec_unique_id(mac@),
{
    let mut r = String::from_str("robotica-remote-rust_");
    let encoded = hex_encode(mac);
    r.append(encoded.as_str());
    r
}

} // verus!
