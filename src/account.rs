//! Ledger account identifiers and their hexadecimal text form.
use vstd::prelude::*;

verus! {

/// A ledger account identifier: a 128-bit number, written big-endian.
#[derive(Clone, Copy, Debug, PartialEq, Eq, Structural, Hash)]
pub struct AccountId {
    pub raw: u128,
}

/// Why a text could not be read as an account identifier.
#[derive(Clone, Copy, Debug, PartialEq, Eq, Structural)]
pub enum AccountIdError {
    /// The text is not an even number of hexadecimal digits.
    InvalidHex,
    /// The bytes are not sixteen.
    InvalidLen,
}

/// The value of a hexadecimal digit, or -1 for any other character.
pub open spec fn hex_digit(c: char) -> int {
    let n = c as u32 as int;
    if '0' as u32 <= c as u32 <= '9' as u32 {
        n - '0' as u32 as int
    } else if 'a' as u32 <= c as u32 <= 'f' as u32 {
        n - 'a' as u32 as int + 10
    } else if 'A' as u32 <= c as u32 <= 'F' as u32 {
        n - 'A' as u32 as int + 10
    } else {
        -1
    }
}

/// An even number of hexadecimal digits, of either case.
pub open spec fn is_hex(s: Seq<char>) -> bool {
    &&& s.len() % 2 == 0
    &&& forall|i: int| 0 <= i < s.len() ==> hex_digit(#[trigger] s[i]) >= 0
}

/// The bytes that a hexadecimal text stands for, two digits each.
pub open spec fn hex_bytes(s: Seq<char>) -> Seq<u8> {
    Seq::new(s.len() / 2, |i: int| (hex_digit(s[2 * i]) * 16 + hex_digit(s[2 * i + 1])) as u8)
}

/// `256^n`.
pub open spec fn pow256(n: nat) -> int
    decreases n,
{
    if n == 0 {
        1
    } else {
        256 * pow256((n - 1) as nat)
    }
}

/// The number that bytes stand for, most significant first.
pub open spec fn be_value(s: Seq<u8>) -> int
    decreases s.len(),
{
    if s.len() == 0 {
        0
    } else {
        be_value(s.drop_last()) * 256 + s.last() as int
    }
}

/// What reading an identifier from hexadecimal text gives.
pub open spec fn parse_account(s: Seq<char>) -> Result<AccountId, AccountIdError> {
    if !is_hex(s) {
        Err(AccountIdError::InvalidHex)
    } else if s.len() != 32 {
        Err(AccountIdError::InvalidLen)
    } else {
        Ok(AccountId { raw: be_value(hex_bytes(s)) as u128 })
    }
}

/// Relies on `hex::decode`: it accepts an even number of digits of either
/// case and gives one byte for each two of them.
#[verifier::external_body]
fn decode_hex(s: &str) -> (r: Option<Vec<u8>>)
    ensures
        r is Some <==> is_hex(s@),
        r matches Some(b) ==> b@ == hex_bytes(s@),
{
    hex::decode(s).ok()
}

impl AccountId {
    /// The identifier that sixteen big-endian bytes stand for. Any 128-bit
    /// value is accepted here; whether the ledger knows such an account, and
    /// whether its depth and flag bits are valid, is checked where the
    /// identifier meets the ledger client.
    pub fn from_be_bytes(bytes: &[u8]) -> (r: Result<AccountId, AccountIdError>)
        ensures
            r is Ok <==> bytes@.len() == 16,
            r matches Ok(a) ==> a.raw as int == be_value(bytes@),
            r matches Err(e) ==> e == AccountIdError::InvalidLen,
    {
        if bytes.len() != 16 {
            return Err(AccountIdError::InvalidLen);
        }
        let mut acc: u128 = 0;
        let mut i: usize = 0;
        while i < 16
            invariant
                bytes@.len() == 16,
                0 <= i <= 16,
                acc as int == be_value(bytes@.take(i as int)),
                0 <= acc < pow256(i as nat),
            decreases 16 - i,
        {
            let b = bytes[i];
            proof {
                let p = pow256(i as nat);
                assert(bytes@.take(i as int + 1).drop_last() =~= bytes@.take(i as int));
                assert(acc * 256 + b < p * 256) by (nonlinear_arith)
                    requires
                        acc < p,
                        b < 256,
                ;
                reveal_with_fuel(pow256, 17);
                assert(pow256(16) == 0x1_0000_0000_0000_0000_0000_0000_0000_0000);
                lemma_pow256_mono(i as nat + 1, 16);
            }
            acc = acc * 256 + b as u128;
            i = i + 1;
        }
        assert(bytes@.take(16) =~= bytes@);
        Ok(AccountId { raw: acc })
    }

    /// Reads an identifier from its hexadecimal text, thirty-two digits. The
    /// ledger's own structural checks on the value happen at the client.
    pub fn from_hex(s: &str) -> (r: Result<AccountId, AccountIdError>)
        ensures
            r == parse_account(s@),
    {
        match decode_hex(s) {
            None => Err(AccountIdError::InvalidHex),
            Some(bytes) => AccountId::from_be_bytes(bytes.as_slice()),
        }
    }
}

proof fn lemma_pow256_mono(a: nat, b: nat)
    requires
        a <= b,
    ensures
        1 <= pow256(a) <= pow256(b),
    decreases b,
{
    if b > a {
        lemma_pow256_mono(a, (b - 1) as nat);
    } else if a > 0 {
        lemma_pow256_mono((a - 1) as nat, (a - 1) as nat);
    }
}

} // verus!
