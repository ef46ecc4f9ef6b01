//! Transaction ids as the node writes them and as the chain holds them.
//!
//! The node answers `sendtoaddress` with the id of the new transaction in
//! hexadecimal: 64 digits, the last byte of the id first. Inside a
//! transaction or a block the id is 32 bytes.

use bitcoin::hex::HexToArrayError;
use vstd::prelude::*;

verus! {

/// The bytes of a transaction id, in the order in which they are hashed and
/// stored: what `bitcoin::Txid::to_byte_array` gives.
pub type TxidBytes = [u8; 32];

/// The value of a hexadecimal digit of either case; `None` for any other
/// character.
pub open spec fn hex_digit(c: char) -> Option<int> {
    if '0' <= c <= '9' {
        Some(c as int - '0' as int)
    } else if 'a' <= c <= 'f' {
        Some(c as int - 'a' as int + 10)
    } else if 'A' <= c <= 'F' {
        Some(c as int - 'A' as int + 10)
    } else {
        None
    }
}

/// True when `text` is a transaction id in hexadecimal: exactly 64
/// characters, each of them a hexadecimal digit.
pub open spec fn is_txid_hex(text: Seq<char>) -> bool {
    &&& text.len() == 64
    &&& forall|i: int| 0 <= i < 64 ==> (#[trigger] hex_digit(text[i])) is Some
}

/// Byte `i` of the id that `text` writes: the digits are read in pairs, and
/// the pairs from the end of the text to its start.
pub open spec fn txid_byte(text: Seq<char>, i: int) -> u8 {
    (16 * hex_digit(text[62 - 2 * i]).unwrap() + hex_digit(text[63 - 2 * i]).unwrap()) as u8
}

/// The id that `text` writes. Meaningful where [`is_txid_hex`] holds.
pub open spec fn txid_bytes(text: Seq<char>) -> Seq<u8> {
    Seq::new(32, |i: int| txid_byte(text, i))
}

#[verifier::external_type_specification]
#[verifier::external_body]
pub struct ExHexToArrayError(HexToArrayError);

/// Reads the answer to `sendtoaddress` as a transaction id, with
/// `corepc_node::vtype::SendToAddress::txid`, and hands out the id's bytes.
///
/// Trusted: the contract says what `bitcoin::Txid`'s `FromStr` does through
/// `hex-conservative`. A text of another length than 64 bytes, or with a byte
/// that is no hexadecimal digit, is refused; otherwise each pair of digits is
/// one byte, high digit first, and the 32 bytes are reversed.
#[verifier::external_body]
fn parse_txid(answer: String) -> (parsed: Result<TxidBytes, HexToArrayError>)
    ensures
        parsed is Ok <==> is_txid_hex(answer@),
        parsed matches Ok(bytes) ==> bytes@ == txid_bytes(answer@),
{
    match corepc_node::vtype::SendToAddress(answer).txid() {
        Ok(txid) => Ok(bitcoin::hashes::Hash::to_byte_array(txid)),
        Err(error) => Err(error),
    }
}

/// Decodes the node's answer to `sendtoaddress`.
///
/// Returns the bytes of the transaction id that `answer` writes, and `None`
/// when `answer` is no transaction id in hexadecimal.
pub fn decode_txid(answer: String) -> (txid: Option<TxidBytes>)
    ensures
        txid is Some <==> is_txid_hex(answer@),
        txid matches Some(bytes) ==> bytes@ == txid_bytes(answer@),
{
    match parse_txid(answer) {
        Ok(bytes) => Some(bytes),
        Err(_) => None,
    }
}

} // verus!
