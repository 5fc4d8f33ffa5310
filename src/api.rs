//! Reading the pair oracle: locating a pair's account from the tokens' hexadecimal
//! addresses, and decoding what it holds.

use vstd::prelude::*;
use crate::account::ProgramError;
use crate::hex::{from_hex, hex_decoded, hex_of, to_hex};
use crate::pubkey::{derive_pair_address, pair_address, Pubkey};
use crate::uniswap_oracle::state::UniswapOracle;

verus! {

/// Why a pair's oracle account cannot be located.
#[derive(Clone, Copy, Debug, PartialEq, Eq, Structural)]
pub enum LookupError {
    /// A token address is not hexadecimal text.
    InvalidHex,
    /// No address can be derived from the pair.
    NoAddress,
}

/// The address of the oracle account of `(token0, token1)`, each given as hexadecimal text,
/// under the oracle program `program_id`.
pub fn uniswap_oracle_account(program_id: &Pubkey, token0: &str, token1: &str) -> (r: Result<Pubkey, LookupError>)
    ensures
        match (hex_decoded(token0@), hex_decoded(token1@)) {
            (Some(a), Some(b)) => match pair_address(a, b, program_id@) {
                Some((address, _)) => r is Ok && r.unwrap().bytes == address,
                None => r == Err::<Pubkey, LookupError>(LookupError::NoAddress),
            },
            _ => r == Err::<Pubkey, LookupError>(LookupError::InvalidHex),
        },
{
    let token0 = match from_hex(token0) {
        Some(bytes) => bytes,
        None => return Err(LookupError::InvalidHex),
    };
    let token1 = match from_hex(token1) {
        Some(bytes) => bytes,
        None => return Err(LookupError::InvalidHex),
    };
    match derive_pair_address(token0.as_slice(), token1.as_slice(), program_id) {
        Some((address, _)) => Ok(address),
        None => Err(LookupError::NoAddress),
    }
}

/// The reserves of a pair as the oracle account records them.
#[derive(Clone, Copy, Debug, PartialEq)]
pub struct Pricefeed {
    pub token0: [u8; 20],
    /// Big-endian amount of token0.
    pub amount0: [u8; 32],
    pub decimal0: u8,
    pub token1: [u8; 20],
    /// Big-endian amount of token1.
    pub amount1: [u8; 32],
    pub decimal1: u8,
}

impl Pricefeed {
    /// Decodes the data of an oracle account; the flag is not checked.
    pub fn from_account_data(data: &[u8]) -> (r: Result<Pricefeed, ProgramError>)
        ensures
            data@.len() != UniswapOracle::LEN ==> r == Err::<Pricefeed, ProgramError>(
                ProgramError::InvalidAccountData,
            ),
            data@.len() == UniswapOracle::LEN ==> r is Ok && {
                let p = r.unwrap();
                &&& p.token0@ == data@.subrange(33, 53)
                &&& p.decimal0 == data@[53]
                &&& p.amount0@ == data@.subrange(54, 86)
                &&& p.token1@ == data@.subrange(86, 106)
                &&& p.decimal1 == data@[106]
                &&& p.amount1@ == data@.subrange(107, 139)
            },
    {
        let oracle = match UniswapOracle::unpack_unchecked(data) {
            Ok(oracle) => oracle,
            Err(e) => return Err(e),
        };
        Ok(
            Pricefeed {
                token0: oracle.token0,
                amount0: oracle.amount0,
                decimal0: oracle.decimal0,
                token1: oracle.token1,
                amount1: oracle.amount1,
                decimal1: oracle.decimal1,
            },
        )
    }

    /// The first token's address in hexadecimal.
    pub fn token0(&self) -> (r: String)
        ensures
            r@ == hex_of(self.token0@),
    {
        to_hex(self.token0.as_slice())
    }

    /// The second token's address in hexadecimal.
    pub fn token1(&self) -> (r: String)
        ensures
            r@ == hex_of(self.token1@),
    {
        to_hex(self.token1.as_slice())
    }

    pub fn decimal0(&self) -> (r: i32)
        ensures
            r == self.decimal0 as i32,
    {
        self.decimal0 as i32
    }

    pub fn decimal1(&self) -> (r: i32)
        ensures
            r == self.decimal1 as i32,
    {
        self.decimal1 as i32
    }
}

} // verus!
