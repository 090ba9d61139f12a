//! The sale configuration: immutable-after-creation sale terms bound
//! one-to-one to a freshly created record ledger.

use vstd::prelude::*;

use crate::codec::pad_to_width;
use crate::codec::pad_zeros;
use crate::codec::MAX_SYMBOL_LENGTH;
use crate::errors::ErrorCode;
use crate::ledger::create_ledger;
use crate::ledger::spec_live_count;
use crate::ledger::wf_region;
use crate::ledger::CONFIG_ARRAY_START;
use crate::ledger::CONFIG_LINE_SIZE;

verus! {

/// How many creators a configuration may declare.  A fourth slot is
/// reserved for the claim ledger itself, which is added to the royalty
/// list at claim time and never stored.
pub const MAX_CREATORS: usize = 3;

/// An address in the hosting runtime: an opaque identity, compared
/// only for equality.
#[derive(Clone, Copy, PartialEq, Eq, Structural, Debug)]
pub struct Pubkey {
    pub id: u64,
}

/// One royalty recipient: an address, whether the recipient has
/// verified its participation, and its share in percent.
#[derive(Clone, Copy, PartialEq, Eq, Structural, Debug)]
pub struct Creator {
    pub address: Pubkey,
    pub verified: bool,
    pub share: u8,
}

/// The sale terms an operator declares once.  `uuid` and `symbol` hold
/// UTF-8 bytes; `max_number_of_lines` is the declared capacity that
/// fixes the record ledger's byte size forever.
#[derive(Debug)]
pub struct ConfigData {
    pub uuid: Vec<u8>,
    pub symbol: Vec<u8>,
    /// Royalty basis points for secondary sales, 0 to 10000.
    pub seller_fee_basis_points: u16,
    pub creators: Vec<Creator>,
    pub max_supply: u64,
    pub is_mutable: bool,
    pub retain_authority: bool,
    pub max_number_of_lines: u32,
}

/// A created sale configuration: its derivation bump, the operator
/// that owns it, and the declared terms with the symbol padded to its
/// fixed width.
#[derive(Debug)]
pub struct Config {
    pub bump: u8,
    pub authority: Pubkey,
    pub data: ConfigData,
}

/// Why creating a configuration is refused, or `None` when it goes
/// through: the identifier must be exactly six bytes, the symbol must
/// fit its fixed width, and at most [`MAX_CREATORS`] creators may be
/// declared.
pub open spec fn config_error(data: ConfigData) -> Option<ErrorCode> {
    if data.uuid@.len() != 6 {
        Some(ErrorCode::UuidMustBeExactly6Length)
    } else if data.symbol@.len() > MAX_SYMBOL_LENGTH {
        Some(ErrorCode::FieldTooLong)
    } else if data.creators@.len() > MAX_CREATORS {
        Some(ErrorCode::TooManyCreators)
    } else {
        None
    }
}

/// Create a sale configuration together with its backing record
/// ledger, sized once and for all from the declared capacity.  The
/// symbol is right-padded with zero bytes to its fixed width; every
/// other field is stored as supplied.  On an error nothing is created.
pub fn initialize_config(bump: u8, authority: Pubkey, data: ConfigData) -> (r: Result<
    (Config, Vec<u8>),
    ErrorCode,
>)
    requires
        CONFIG_ARRAY_START + 4 + (data.max_number_of_lines as int) * (CONFIG_LINE_SIZE as int)
            <= usize::MAX,
    ensures
        match r {
            Ok(p) => {
                &&& config_error(data) is None
                &&& p.0.bump == bump
                &&& p.0.authority == authority
                &&& p.0.data.uuid@ == data.uuid@
                &&& p.0.data.symbol@ == pad_zeros(data.symbol@, MAX_SYMBOL_LENGTH as nat)
                &&& p.0.data.seller_fee_basis_points == data.seller_fee_basis_points
                &&& p.0.data.creators@ == data.creators@
                &&& p.0.data.max_supply == data.max_supply
                &&& p.0.data.is_mutable == data.is_mutable
                &&& p.0.data.retain_authority == data.retain_authority
                &&& p.0.data.max_number_of_lines == data.max_number_of_lines
                &&& wf_region(p.1@, data.max_number_of_lines as nat)
                &&& spec_live_count(p.1@) == 0
            },
            Err(e) => config_error(data) == Some(e),
        },
{
    if data.uuid.len() != 6 {
        return Err(ErrorCode::UuidMustBeExactly6Length);
    }
    if data.symbol.len() > MAX_SYMBOL_LENGTH {
        return Err(ErrorCode::FieldTooLong);
    }
    if data.creators.len() > MAX_CREATORS {
        return Err(ErrorCode::TooManyCreators);
    }
    let region = create_ledger(data.max_number_of_lines);
    let symbol = pad_to_width(&data.symbol, MAX_SYMBOL_LENGTH);
    let config = Config {
        bump,
        authority,
        data: ConfigData {
            uuid: data.uuid,
            symbol,
            seller_fee_basis_points: data.seller_fee_basis_points,
            creators: data.creators,
            max_supply: data.max_supply,
            is_mutable: data.is_mutable,
            retain_authority: data.retain_authority,
            max_number_of_lines: data.max_number_of_lines,
        },
    };
    Ok((config, region))
}

/// A five- or seven-byte identifier is always refused, and only the
/// six-byte length passes the identifier check at all.
pub proof fn lemma_identifier_length_exact(data: ConfigData)
    ensures
        config_error(data) == Some(ErrorCode::UuidMustBeExactly6Length) <==> data.uuid@.len()
            != 6,
{
}

} // verus!
