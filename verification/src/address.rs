//! Validation and decoding of caller-supplied address text.
//!
//! An address is a 20-byte identifier written as `0x` followed by
//! exactly 40 hexadecimal digits (either case). Anything else is
//! rejected with `GatewayError::InvalidAddress`.

use crate::error::GatewayError;
use vstd::prelude::*;
use vstd::string::StrSliceExecFns;

verus! {

/// Whether `c` is a hexadecimal digit, upper or lower case.
pub open spec fn is_hex_digit(c: char) -> bool {
    (48 <= c as u32 && c as u32 <= 57) || (97 <= c as u32 && c as u32 <= 102) || (65 <= c as u32
        && c as u32 <= 70)
}

/// The numeric value of a hexadecimal digit; other characters count as
/// zero.
pub open spec fn hex_digit_val(c: char) -> nat {
    if 48 <= c as u32 && c as u32 <= 57 {
        (c as u32 - 48) as nat
    } else if 97 <= c as u32 && c as u32 <= 102 {
        (c as u32 - 97 + 10) as nat
    } else if 65 <= c as u32 && c as u32 <= 70 {
        (c as u32 - 65 + 10) as nat
    } else {
        0
    }
}

/// Whether `s` is well-formed address text: the two-character `0x`
/// prefix followed by exactly 40 hexadecimal digits.
pub open spec fn is_valid_address(s: Seq<char>) -> bool {
    &&& s.len() == 42
    &&& s[0] == '0'
    &&& s[1] == 'x'
    &&& forall|i: int| 2 <= i < 42 ==> is_hex_digit(#[trigger] s[i])
}

/// The twenty bytes that well-formed address text denotes, two hex
/// digits per byte, most significant digit first.
pub open spec fn address_bytes(s: Seq<char>) -> Seq<u8> {
    Seq::new(20, |i: int| (hex_digit_val(s[2 + 2 * i]) * 16 + hex_digit_val(s[2 + 2 * i + 1])) as u8)
}

/// A decoded 20-byte address.
#[derive(Debug)]
pub struct EthAddress {
    pub bytes: Vec<u8>,
}

impl EthAddress {
    /// A decoded address always holds exactly twenty bytes.
    pub open spec fn well_formed(self) -> bool {
        self.bytes@.len() == 20
    }
}

/// The numeric value of one hexadecimal digit character, or `None` for
/// any other character.
pub fn hex_val(c: char) -> (r: Option<u8>)
    ensures
        r is Some <==> is_hex_digit(c),
        r matches Some(v) ==> v == hex_digit_val(c),
{
    let u = c as u32;
    if 48 <= u && u <= 57 {
        Some((u - 48) as u8)
    } else if 97 <= u && u <= 102 {
        Some((u - 97 + 10) as u8)
    } else if 65 <= u && u <= 70 {
        Some((u - 65 + 10) as u8)
    } else {
        None
    }
}

/// Parses address text into its twenty bytes.
///
/// Returns `Ok` exactly on well-formed text, with the decoded bytes;
/// every other input is rejected with `InvalidAddress`.
pub fn parse_address(s: &str) -> (r: Result<EthAddress, GatewayError>)
    ensures
        r is Ok <==> is_valid_address(s@),
        r matches Ok(a) ==> a.well_formed() && a.bytes@ == address_bytes(s@),
        r matches Err(e) ==> e == GatewayError::InvalidAddress,
{
    let n: usize = s.unicode_len();
    if n != 42 {
        return Err(GatewayError::InvalidAddress);
    }
    if s.get_char(0) != '0' || s.get_char(1) != 'x' {
        return Err(GatewayError::InvalidAddress);
    }
    let mut bytes: Vec<u8> = Vec::new();
    let mut j: usize = 0;
    while j < 20
        invariant
            s@.len() == 42,
            j <= 20,
            bytes@.len() == j,
            forall|i: int| 2 <= i < 2 + 2 * j ==> is_hex_digit(#[trigger] s@[i]),
            forall|k: int|
                0 <= k < j ==> bytes@[k] == (hex_digit_val(s@[2 + 2 * k]) * 16 + hex_digit_val(
                    s@[2 + 2 * k + 1],
                )) as u8,
        decreases 20 - j,
    {
        let hi = match hex_val(s.get_char(2 + 2 * j)) {
            Some(v) => v,
            None => {
                return Err(GatewayError::InvalidAddress);
            },
        };
        let lo = match hex_val(s.get_char(2 + 2 * j + 1)) {
            Some(v) => v,
            None => {
                return Err(GatewayError::InvalidAddress);
            },
        };
        bytes.push(hi * 16 + lo);
        j = j + 1;
    }
    proof {
        assert(bytes@ =~= address_bytes(s@));
    }
    Ok(EthAddress { bytes })
}

} // verus!
