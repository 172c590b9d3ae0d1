//! The chain identifier that leads an identifier string.
//!
//! No handler consults it: it is a policy that a registration could apply,
//! by calling [`check_chain_id`], which compares [`resolve_chain_id`] of the
//! identifier with [`get_chain_id`].

use crate::error::ContractError;
use vstd::prelude::*;
use vstd::string::StringSliceAdditionalSpecFns;

verus! {

/// The number of leading characters that spell the chain identifier.
pub const CHAIN_ID_DIGITS: usize = 6;

/// Whether the character is one of `0` to `9`.
pub open spec fn is_digit(c: char) -> bool {
    '0' <= c <= '9'
}

/// The value of a decimal digit.
pub open spec fn digit_value(c: char) -> nat
    recommends
        is_digit(c),
{
    (c as u32 - '0' as u32) as nat
}

/// Whether every character is a decimal digit.
pub open spec fn all_digits(text: Seq<char>) -> bool {
    forall|i: int| 0 <= i < text.len() ==> is_digit(#[trigger] text[i])
}

/// The number that the digits spell in base ten, the first digit weighing
/// most. The empty text spells zero.
pub open spec fn decimal_value(digits: Seq<char>) -> nat
    decreases digits.len(),
{
    if digits.len() == 0 {
        0
    } else {
        decimal_value(digits.drop_last()) * 10 + digit_value(digits.last())
    }
}

/// Ten to the power of `n`.
pub open spec fn pow10(n: nat) -> nat
    decreases n,
{
    if n == 0 {
        1
    } else {
        10 * pow10((n - 1) as nat)
    }
}

/// What [`resolve_chain_id`] makes of an identifier.
pub open spec fn chain_id_of(did: Seq<char>) -> Result<u64, ContractError> {
    if did.len() < CHAIN_ID_DIGITS {
        Err(ContractError::InputTooShort {  })
    } else if !all_digits(did.take(CHAIN_ID_DIGITS as int)) {
        Err(ContractError::InvalidNumber {  })
    } else {
        Ok(decimal_value(did.take(CHAIN_ID_DIGITS as int)) as u64)
    }
}

/// The number that a text spells as an unsigned decimal of 64 bits: an
/// optional `+`, then one digit or more and nothing else, the value within
/// the range of `u64`. `None` for every other text.
pub open spec fn parsed_decimal(text: Seq<char>) -> Option<u64> {
    let digits = if text.len() > 0 && text[0] == '+' {
        text.skip(1)
    } else {
        text
    };
    if digits.len() > 0 && all_digits(digits) && decimal_value(digits) <= u64::MAX {
        Some(decimal_value(digits) as u64)
    } else {
        None
    }
}

/// The network that this registry is configured for: what the configured
/// name spells as a number, and zero where it spells none.
pub open spec fn configured_chain_id() -> u64 {
    match parsed_decimal("dhealth-testnet-2"@) {
        Some(id) => id,
        None => 0,
    }
}

/// What [`check_chain_id`] makes of an identifier: the failure of
/// [`chain_id_of`], or `IncorrectChainId` where the identifier names
/// another network than the configured one.
pub open spec fn chain_check_of(did: Seq<char>) -> Result<(), ContractError> {
    match chain_id_of(did) {
        Err(error) => Err(error),
        Ok(id) => if id == configured_chain_id() {
            Ok(())
        } else {
            Err(ContractError::IncorrectChainId {  })
        },
    }
}

/// The first 32 bytes of `bytes`, followed by zeros up to 32 bytes.
pub open spec fn padded32(bytes: Seq<u8>) -> Seq<u8> {
    Seq::new(
        32,
        |i: int|
            if i < bytes.len() {
                bytes[i]
            } else {
                0u8
            },
    )
}

/// The host's byte string.
#[verifier::external_type_specification]
#[verifier::external_body]
pub struct ExBinary(cosmwasm_std::Binary);

/// The bytes that a byte string of the host holds.
pub uninterp spec fn binary_bytes(binary: cosmwasm_std::Binary) -> Seq<u8>;

/// `cosmwasm_std::Binary::from` on an array of 32 bytes.
///
/// Claims that the byte string holds the bytes of the array, in order.
#[verifier::external_body]
fn binary_from(bytes: [u8; 32]) -> (binary: cosmwasm_std::Binary)
    ensures
        binary_bytes(binary) == bytes@,
{
    cosmwasm_std::Binary::from(bytes)
}

/// `str::parse::<u64>`, its error dropped.
///
/// Claims what the standard library documents: the text is an optional `+`
/// followed by decimal digits only, at least one; anything else, and a
/// value beyond `u64::MAX`, is an error.
#[verifier::external_body]
fn parse_u64(text: &str) -> (parsed: Option<u64>)
    ensures
        parsed == parsed_decimal(text@),
{
    text.parse::<u64>().ok()
}

/// A text of `n` digits spells a number below ten to the `n`.
pub proof fn lemma_decimal_value_bound(digits: Seq<char>)
    requires
        all_digits(digits),
    ensures
        decimal_value(digits) < pow10(digits.len()),
    decreases digits.len(),
{
    if digits.len() > 0 {
        assert(all_digits(digits.drop_last())) by {
            assert forall|i: int| 0 <= i < digits.drop_last().len() implies is_digit(
                #[trigger] digits.drop_last()[i],
            ) by {
                assert(digits.drop_last()[i] == digits[i]);
            }
        }
        lemma_decimal_value_bound(digits.drop_last());
    }
}

/// The chain identifier that the first six characters of `did` spell.
///
/// Fails with `InputTooShort` on fewer than six characters and with
/// `InvalidNumber` where one of the first six is not a decimal digit. What
/// follows the sixth character is not read.
pub fn resolve_chain_id(did: &str) -> (resolved: Result<u64, ContractError>)
    ensures
        resolved == chain_id_of(did@),
        resolved matches Ok(id) ==> id < 1_000_000,
{
    if did.unicode_len() < CHAIN_ID_DIGITS {
        return Err(ContractError::InputTooShort {  });
    }
    let mut chain_id_uint: u64 = 0;
    let mut i: usize = 0;
    while i < CHAIN_ID_DIGITS
        invariant
            i <= CHAIN_ID_DIGITS <= did@.len(),
            all_digits(did@.take(i as int)),
            chain_id_uint == decimal_value(did@.take(i as int)),
        decreases CHAIN_ID_DIGITS - i,
    {
        let c = did.get_char(i);
        if c < '0' || c > '9' {
            assert(did@.take(CHAIN_ID_DIGITS as int)[i as int] == c);
            return Err(ContractError::InvalidNumber {  });
        }
        proof {
            let shorter = did@.take(i as int);
            let longer = did@.take(i + 1);
            assert(longer.drop_last() =~= shorter);
            lemma_decimal_value_bound(shorter);
            reveal_with_fuel(pow10, 7);
            assert forall|j: int| 0 <= j < longer.len() implies is_digit(#[trigger] longer[j]) by {
                if j < i {
                    assert(longer[j] == shorter[j]);
                }
            }
        }
        chain_id_uint = chain_id_uint * 10 + (c as u32 - 48) as u64;
        i += 1;
    }
    proof {
        lemma_decimal_value_bound(did@.take(CHAIN_ID_DIGITS as int));
        reveal_with_fuel(pow10, 7);
    }
    Ok(chain_id_uint)
}

/// The network that this registry is configured for.
///
/// The configured name, `dhealth-testnet-2`, is no number, so the
/// identifier is zero.
pub fn get_chain_id() -> (id: u64)
    ensures
        id == configured_chain_id(),
        id == 0,
{
    let chain_id = "dhealth-testnet-2";
    proof {
        reveal_strlit("dhealth-testnet-2");
        assert(!is_digit(chain_id@[0]));
    }
    match parse_u64(chain_id) {
        Some(id) => id,
        None => 0,
    }
}

/// The chain policy: an identifier must start with the chain identifier of
/// the configured network.
///
/// No handler applies it. A registration that wants it calls it before it
/// registers.
pub fn check_chain_id(did: &str) -> (checked: Result<(), ContractError>)
    ensures
        checked == chain_check_of(did@),
{
    let chain_id = match resolve_chain_id(did) {
        Ok(id) => id,
        Err(error) => {
            return Err(error);
        },
    };
    if chain_id != get_chain_id() {
        return Err(ContractError::IncorrectChainId {  });
    }
    Ok(())
}

/// The bytes of `source` as a byte string of exactly 32 bytes: cut off
/// behind the 32nd byte, filled up with zeros.
pub fn string_to_bytes32(source: &str) -> (binary: cosmwasm_std::Binary)
    ensures
        binary_bytes(binary) == padded32(source.spec_bytes()),
{
    let mut result: [u8; 32] = [0u8; 32];
    let bytes = source.as_bytes();
    let length: usize = if bytes.len() > 32 {
        32
    } else {
        bytes.len()
    };
    let mut i: usize = 0;
    while i < length
        invariant
            i <= length <= 32,
            length <= bytes@.len(),
            forall|j: int| 0 <= j < i ==> result@[j] == bytes@[j],
            forall|j: int| i <= j < 32 ==> result@[j] == 0u8,
        decreases length - i,
    {
        result[i] = bytes[i];
        i += 1;
    }
    assert(result@ =~= padded32(source.spec_bytes()));
    binary_from(result)
}

} // verus!
