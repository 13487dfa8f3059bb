//! The key and the fields under which one account update is stored.
//!
//! An update of the account `identity` with `balance` at `position` is stored
//! under the key `account:<identity in Base58>:<position>`, as the two fields
//! `lamports` (the balance) and `slot` (the position), both in decimal.

use crate::decimal::{
    decimal, decimal_string, is_digit, lemma_decimal_digits, lemma_decimal_injective,
};
use vstd::prelude::*;
use vstd::string::StringExecFns;

verus! {

/// One write to the store: a key and the fields to set under it, in order.
#[derive(Debug)]
pub struct StoreRecord {
    pub key: String,
    pub fields: Vec<(String, String)>,
}

pub struct StoreRecordView {
    pub key: Seq<char>,
    pub fields: Seq<(Seq<char>, Seq<char>)>,
}

impl View for StoreRecord {
    type V = StoreRecordView;

    open spec fn view(&self) -> StoreRecordView {
        StoreRecordView {
            key: self.key@,
            fields: Seq::new(self.fields@.len(), |i: int| (self.fields@[i].0@, self.fields@[i].1@)),
        }
    }
}

/// The Base58 text of a byte string, as the `base58` crate writes it.
pub uninterp spec fn base58_text(bytes: Seq<u8>) -> Seq<char>;

/// Whether a byte string is short enough for the Base58 encoder, which sizes
/// its buffer at 138 hundredths of the input's length.
pub open spec fn encodable(identity: Seq<u8>) -> bool {
    identity.len() * 138 <= usize::MAX
}

/// Whether `identity` is short enough to be encoded.
pub fn is_encodable(identity: &[u8]) -> (fits: bool)
    ensures
        fits == encodable(identity@),
{
    identity.len() <= usize::MAX / 138
}

/// Calls `base58::ToBase58::to_base58` on a byte slice.
///
/// Trusted: the text depends on the bytes alone; it is what [`base58_text`]
/// names. The length is bounded because the encoder multiplies it by 138.
#[verifier::external_body]
fn to_base58(bytes: &[u8]) -> (text: String)
    requires
        encodable(bytes@),
    ensures
        text@ == base58_text(bytes@),
{
    base58::ToBase58::to_base58(bytes)
}

/// The key for an account whose identity is written `identity_text`.
pub open spec fn key_text(identity_text: Seq<char>, position: u64) -> Seq<char> {
    "account:"@ + identity_text + ":"@ + decimal(position as nat)
}

/// The fields that hold a balance and a position.
pub open spec fn field_texts(balance: u64, position: u64) -> Seq<(Seq<char>, Seq<char>)> {
    seq![("lamports"@, decimal(balance as nat)), ("slot"@, decimal(position as nat))]
}

/// The record for an account whose identity is written `identity_text`.
pub open spec fn record_of(identity_text: Seq<char>, balance: u64, position: u64) -> StoreRecordView {
    StoreRecordView {
        key: key_text(identity_text, position),
        fields: field_texts(balance, position),
    }
}

/// The record for one account update.
pub open spec fn encoded(identity: Seq<u8>, balance: u64, position: u64) -> StoreRecordView {
    record_of(base58_text(identity), balance, position)
}

/// Builds the record for an account whose identity is already written as text.
pub fn record_from_text(identity_text: &str, balance: u64, position: u64) -> (record: StoreRecord)
    ensures
        record@ == record_of(identity_text@, balance, position),
{
    let slot = decimal_string(position);
    let mut key = String::from_str("account:");
    key.append(identity_text);
    key.append(":");
    key.append(slot.as_str());
    let mut fields: Vec<(String, String)> = Vec::new();
    fields.push((String::from_str("lamports"), decimal_string(balance)));
    fields.push((String::from_str("slot"), slot));
    let record = StoreRecord { key, fields };
    assert(record@.fields =~= field_texts(balance, position));
    record
}

/// Builds the record for one account update. No identity is turned down for
/// what it holds: the empty one is encoded like any other.
pub fn encode(identity: &[u8], balance: u64, position: u64) -> (record: StoreRecord)
    requires
        encodable(identity@),
    ensures
        record@ == encoded(identity@, balance, position),
{
    let identity_text = to_base58(identity);
    record_from_text(identity_text.as_str(), balance, position)
}

/// Two records built from the same update are the same record.
pub proof fn lemma_encode_deterministic(
    first: StoreRecord,
    second: StoreRecord,
    identity: Seq<u8>,
    balance: u64,
    position: u64,
)
    requires
        first@ == encoded(identity, balance, position),
        second@ == encoded(identity, balance, position),
    ensures
        first@.key == second@.key,
        first@.fields == second@.fields,
{
}

/// No digit is a colon.
proof fn lemma_digit_is_no_colon(c: char)
    requires
        is_digit(c),
    ensures
        c != ':',
{
}

/// A key determines the identity text and the position it was built from.
pub proof fn lemma_key_determines_parts(
    first_text: Seq<char>,
    first_position: u64,
    second_text: Seq<char>,
    second_position: u64,
)
    requires
        key_text(first_text, first_position) == key_text(second_text, second_position),
    ensures
        first_text == second_text,
        first_position == second_position,
{
    reveal_strlit("account:");
    reveal_strlit(":");
    let prefix = "account:"@;
    let first_digits = decimal(first_position as nat);
    let second_digits = decimal(second_position as nat);
    let first_key = key_text(first_text, first_position);
    let second_key = key_text(second_text, second_position);
    lemma_decimal_digits(first_position as nat);
    lemma_decimal_digits(second_position as nat);
    let a = first_text.len() as int;
    let b = second_text.len() as int;
    assert(first_key.len() == 8 + a + 1 + first_digits.len());
    assert(second_key.len() == 8 + b + 1 + second_digits.len());
    assert(first_key[8 + a] == ':');
    assert(second_key[8 + b] == ':');
    if a < b {
        // The colon that ends the longer text would lie among the other key's digits.
        let i = b - a - 1;
        assert(0 <= i < first_digits.len());
        assert(first_key[8 + b] == first_digits[i]);
        lemma_digit_is_no_colon(first_digits[i]);
        assert(false);
    }
    if b < a {
        let i = a - b - 1;
        assert(0 <= i < second_digits.len());
        assert(second_key[8 + a] == second_digits[i]);
        lemma_digit_is_no_colon(second_digits[i]);
        assert(false);
    }
    assert(first_text =~= second_text) by {
        assert forall|i: int| 0 <= i < a implies first_text[i] == second_text[i] by {
            assert(first_key[8 + i] == first_text[i]);
            assert(second_key[8 + i] == second_text[i]);
        }
    }
    assert(first_digits =~= second_digits) by {
        assert(first_digits.len() == second_digits.len());
        assert forall|i: int| 0 <= i < first_digits.len() implies first_digits[i]
            == second_digits[i] by {
            assert(first_key[8 + a + 1 + i] == first_digits[i]);
            assert(second_key[8 + a + 1 + i] == second_digits[i]);
        }
    }
    lemma_decimal_injective(first_position as nat, second_position as nat);
}

/// Updates of one account at two positions are stored under two keys,
/// whatever the balances.
pub proof fn lemma_key_unique_per_position(
    identity: Seq<u8>,
    first_balance: u64,
    first_position: u64,
    second_balance: u64,
    second_position: u64,
)
    requires
        first_position != second_position,
    ensures
        encoded(identity, first_balance, first_position).key != encoded(
            identity,
            second_balance,
            second_position,
        ).key,
{
    if key_text(base58_text(identity), first_position) == key_text(
        base58_text(identity),
        second_position,
    ) {
        lemma_key_determines_parts(
            base58_text(identity),
            first_position,
            base58_text(identity),
            second_position,
        );
    }
}

} // verus!
