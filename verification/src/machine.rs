//! The claim ledger state and the claim state machine.
//!
//! A claim validates the availability window, the redemption cap and
//! the payment against the mutable per-sale state, advances the
//! redemption counter, selects the template slot matching the claim's
//! redemption ordinal, and assembles everything the external issuance
//! service needs — the descriptive record, the royalty creator list and
//! the update authority — together with the settlement the payment
//! service must perform.  The hosting runtime executes each claim as
//! one atomic step, so a refused claim leaves no partial effect; this
//! function mirrors that by mutating nothing on any error.

use vstd::prelude::*;

use crate::config::Config;
use crate::config::Creator;
use crate::config::Pubkey;
use crate::errors::ErrorCode;
use crate::ledger::decoded_name;
use crate::ledger::decoded_uri;
use crate::ledger::get_config_count;
use crate::ledger::get_config_line;
use crate::ledger::live_slots_fit;
use crate::ledger::spec_live_count;
use crate::ledger::CONFIG_ARRAY_START;

verus! {

/// The per-sale terms fixed when the claim ledger is created.  A
/// missing `go_live_date` means the sale never opens to the public:
/// only the operator may claim.
#[derive(Debug)]
pub struct CandyMachineData {
    pub uuid: Vec<u8>,
    /// Price per item, in the payment asset's smallest unit.
    pub price: u64,
    /// The redemption cap; independent of the record ledger's declared
    /// capacity, though the two should agree.
    pub items_available: u64,
    pub go_live_date: Option<i64>,
}

/// The mutable per-sale claim state, bound to one configuration.  Only
/// `items_redeemed` ever changes after creation, and only by a
/// successful claim.
#[derive(Debug)]
pub struct CandyMachine {
    pub authority: Pubkey,
    /// The treasury every payment is sent to.
    pub wallet: Pubkey,
    /// The required payment asset; `None` means the native asset.
    pub token_mint: Option<Pubkey>,
    pub config: Pubkey,
    pub data: CandyMachineData,
    pub items_redeemed: u64,
    pub bump: u8,
}

/// The redemption counter never passes the cap.
pub open spec fn cm_wf(cm: CandyMachine) -> bool {
    cm.items_redeemed <= cm.data.items_available
}

/// What the runtime reports about the payment-asset accounts handed in
/// when a claim ledger is created for a fungible asset: the asset
/// (mint) account and the treasury's holding (wallet) account.
#[derive(Clone, Copy, PartialEq, Eq, Structural, Debug)]
pub struct TokenMintSetup {
    pub mint_key: Pubkey,
    pub mint_initialized: bool,
    pub mint_owned_by_token_program: bool,
    pub wallet_initialized: bool,
    pub wallet_owned_by_token_program: bool,
    /// The asset the treasury's holding account belongs to.
    pub wallet_mint: Pubkey,
}

/// Why a fungible-asset setup is refused, or `None` when it is a valid
/// holding arrangement: both accounts must be initialized and owned by
/// the asset service, and the treasury account must belong to the
/// required asset.
pub open spec fn token_setup_error(t: TokenMintSetup) -> Option<ErrorCode> {
    if !t.mint_initialized {
        Some(ErrorCode::Uninitialized)
    } else if !t.wallet_initialized {
        Some(ErrorCode::Uninitialized)
    } else if !t.mint_owned_by_token_program {
        Some(ErrorCode::IncorrectOwner)
    } else if !t.wallet_owned_by_token_program {
        Some(ErrorCode::IncorrectOwner)
    } else if t.wallet_mint != t.mint_key {
        Some(ErrorCode::MintMismatch)
    } else {
        None
    }
}

/// Why creating a claim ledger is refused, or `None` when it goes
/// through: six-byte identifier, a valid payment-asset setup when one
/// is supplied, and at least one live record in the bound
/// configuration's ledger.
pub open spec fn machine_error(
    data: CandyMachineData,
    token_setup: Option<TokenMintSetup>,
    live: u32,
) -> Option<ErrorCode> {
    if data.uuid@.len() != 6 {
        Some(ErrorCode::UuidMustBeExactly6Length)
    } else {
        let setup_err = match token_setup {
            Some(t) => token_setup_error(t),
            None => None,
        };
        if setup_err is Some {
            setup_err
        } else if live == 0 {
            Some(ErrorCode::ConfigMustHaveAtleastOneEntry)
        } else {
            None
        }
    }
}

/// Create the claim ledger state for a sale: bind it to the
/// configuration whose record ledger is `region`, record the operator,
/// the treasury and the terms, and start the redemption counter at
/// zero.  When a payment asset is supplied, the treasury must be a
/// valid holding account for exactly that asset.  A configuration whose
/// ledger holds no record yet is refused.
pub fn initialize_candy_machine(
    bump: u8,
    data: CandyMachineData,
    wallet: Pubkey,
    authority: Pubkey,
    config_key: Pubkey,
    token_setup: &Option<TokenMintSetup>,
    region: &Vec<u8>,
) -> (r: Result<CandyMachine, ErrorCode>)
    requires
        region@.len() >= CONFIG_ARRAY_START + 4,
    ensures
        match r {
            Ok(cm) => {
                &&& machine_error(data, *token_setup, spec_live_count(region@)) is None
                &&& cm.authority == authority
                &&& cm.wallet == wallet
                &&& cm.config == config_key
                &&& cm.token_mint == (match *token_setup {
                    Some(t) => Some(t.mint_key),
                    None => None::<Pubkey>,
                })
                &&& cm.data == data
                &&& cm.items_redeemed == 0
                &&& cm.bump == bump
                &&& cm_wf(cm)
            },
            Err(e) => machine_error(data, *token_setup, spec_live_count(region@)) == Some(e),
        },
{
    if data.uuid.len() != 6 {
        return Err(ErrorCode::UuidMustBeExactly6Length);
    }
    let token_mint: Option<Pubkey> = match token_setup {
        Some(t) => {
            if !t.mint_initialized {
                return Err(ErrorCode::Uninitialized);
            }
            if !t.wallet_initialized {
                return Err(ErrorCode::Uninitialized);
            }
            if !t.mint_owned_by_token_program {
                return Err(ErrorCode::IncorrectOwner);
            }
            if !t.wallet_owned_by_token_program {
                return Err(ErrorCode::IncorrectOwner);
            }
            if t.wallet_mint != t.mint_key {
                return Err(ErrorCode::MintMismatch);
            }
            Some(t.mint_key)
        },
        None => None,
    };
    let live = match get_config_count(region) {
        Ok(c) => c,
        Err(e) => {
            return Err(e);
        },
    };
    if live == 0 {
        return Err(ErrorCode::ConfigMustHaveAtleastOneEntry);
    }
    Ok(
        CandyMachine {
            authority,
            wallet,
            token_mint,
            config: config_key,
            data,
            items_redeemed: 0,
            bump,
        },
    )
}

/// How a claimant pays: with the native asset out of its own balance,
/// or out of a holding account of the required fungible asset.
#[derive(Clone, Copy, Debug)]
pub enum Payment {
    Native { payer_balance: u64 },
    Token(TokenPayment),
}

/// What the runtime reports about the holding account a token payment
/// draws from.
#[derive(Clone, Copy, PartialEq, Eq, Structural, Debug)]
pub struct TokenPayment {
    pub account_initialized: bool,
    pub account_owned_by_token_program: bool,
    /// The asset the holding account belongs to.
    pub account_mint: Pubkey,
    pub account_balance: u64,
}

/// The balance the payment draws from.
pub open spec fn payment_balance(p: Payment) -> u64 {
    match p {
        Payment::Native { payer_balance } => payer_balance,
        Payment::Token(t) => t.account_balance,
    }
}

/// Why a payment is refused, or `None` when it settles: a native
/// payment needs only a sufficient balance; a token payment needs a
/// holding account that is initialized, owned by the asset service,
/// belongs to the required asset, and holds at least the price.
pub open spec fn payment_error(
    required: Option<Pubkey>,
    p: Payment,
    price: u64,
) -> Option<ErrorCode> {
    match p {
        Payment::Native { payer_balance } => {
            if payer_balance < price {
                Some(ErrorCode::NotEnoughSOL)
            } else {
                None
            }
        },
        Payment::Token(t) => {
            if !t.account_initialized {
                Some(ErrorCode::Uninitialized)
            } else if !t.account_owned_by_token_program {
                Some(ErrorCode::IncorrectOwner)
            } else if required matches Some(m) && t.account_mint != m {
                Some(ErrorCode::MintMismatch)
            } else if t.account_balance < price {
                Some(ErrorCode::NotEnoughTokens)
            } else {
                None
            }
        },
    }
}

/// The transfer a successful claim asks the payment service to
/// perform, together with the balances both sides end at.
#[derive(Clone, Copy, PartialEq, Eq, Structural, Debug)]
pub struct Settlement {
    pub amount: u64,
    pub payer_balance_after: u64,
    pub treasury_balance_after: u64,
}

/// Validate a payment and work out the settlement: exactly the price
/// moves from the payer's balance to the treasury's.
pub fn settle_payment(
    required: &Option<Pubkey>,
    payment: &Payment,
    price: u64,
    treasury_balance: u64,
) -> (r: Result<Settlement, ErrorCode>)
    requires
        treasury_balance + price <= u64::MAX,
    ensures
        match r {
            Ok(s) => {
                &&& payment_error(*required, *payment, price) is None
                &&& s.amount == price
                &&& s.payer_balance_after == payment_balance(*payment) - price
                &&& s.treasury_balance_after == treasury_balance + price
            },
            Err(e) => payment_error(*required, *payment, price) == Some(e),
        },
{
    let source_balance: u64 = match payment {
        Payment::Native { payer_balance } => {
            if *payer_balance < price {
                return Err(ErrorCode::NotEnoughSOL);
            }
            *payer_balance
        },
        Payment::Token(t) => {
            if !t.account_initialized {
                return Err(ErrorCode::Uninitialized);
            }
            if !t.account_owned_by_token_program {
                return Err(ErrorCode::IncorrectOwner);
            }
            match required {
                Some(m) => {
                    if t.account_mint != *m {
                        return Err(ErrorCode::MintMismatch);
                    }
                },
                None => {},
            }
            if t.account_balance < price {
                return Err(ErrorCode::NotEnoughTokens);
            }
            t.account_balance
        },
    };
    Ok(
        Settlement {
            amount: price,
            payer_balance_after: source_balance - price,
            treasury_balance_after: treasury_balance + price,
        },
    )
}

/// Whether the claim window is open for this caller: anyone once the
/// start time has passed, and the operator alone before it — or at any
/// time when no start was ever set.
pub open spec fn window_open(cm: CandyMachine, payer: Pubkey, now: i64) -> bool {
    match cm.data.go_live_date {
        None => payer == cm.authority,
        Some(d) => now >= d || payer == cm.authority,
    }
}

/// Why a claim is refused, or `None` when it succeeds: the checks run
/// in this order — window, redemption cap, payment, template slot for
/// the claim's redemption ordinal.
pub open spec fn mint_error(
    cm: CandyMachine,
    region: Seq<u8>,
    payer: Pubkey,
    now: i64,
    payment: Payment,
) -> Option<ErrorCode> {
    if !window_open(cm, payer, now) {
        Some(ErrorCode::CandyMachineNotLiveYet)
    } else if cm.items_redeemed >= cm.data.items_available {
        Some(ErrorCode::CandyMachineEmpty)
    } else if payment_error(cm.token_mint, payment, cm.data.price) is Some {
        payment_error(cm.token_mint, payment, cm.data.price)
    } else if cm.items_redeemed >= spec_live_count(region) {
        Some(ErrorCode::IndexGreaterThanLength)
    } else {
        None
    }
}

/// What a successful claim hands the external issuance service: the
/// template's descriptive record, the royalty terms with the assembled
/// creator list, and the party that keeps update authority.
#[derive(Debug)]
pub struct IssuedItem {
    pub name: Vec<u8>,
    pub symbol: Vec<u8>,
    pub uri: Vec<u8>,
    pub seller_fee_basis_points: u16,
    pub creators: Vec<Creator>,
    pub is_mutable: bool,
    pub update_authority: Pubkey,
    pub update_authority_is_signer: bool,
    pub max_supply: u64,
}

/// Everything a successful claim asks the runtime to perform.
#[derive(Debug)]
pub struct MintOutcome {
    pub item: IssuedItem,
    pub settlement: Settlement,
}

/// A fresh vector holding the same bytes.
fn copy_bytes(src: &Vec<u8>) -> (r: Vec<u8>)
    ensures
        r@ == src@,
{
    let mut r: Vec<u8> = Vec::new();
    let mut i: usize = 0;
    while i < src.len()
        invariant
            i <= src@.len(),
            r@ =~= src@.subrange(0, i as int),
        decreases src@.len() - i,
    {
        r.push(src[i]);
        i += 1;
    }
    assert(r@ =~= src@);
    r
}

/// Claim one item.  On success the redemption counter — and nothing
/// else of the claim state — advances by one, the template at the slot
/// matching this claim's redemption ordinal is selected, the royalty
/// creator list opens with the claim ledger itself as the only
/// verified creator at a zero share, and the result carries the
/// settlement and the issuance record for the runtime to perform.  On
/// any refusal the claim state is left exactly as it was.
pub fn mint_nft(
    candy_machine: &mut CandyMachine,
    candy_machine_key: Pubkey,
    config: &Config,
    region: &Vec<u8>,
    payer: Pubkey,
    update_authority: Pubkey,
    now: i64,
    payment: &Payment,
    treasury_balance: u64,
) -> (r: Result<MintOutcome, ErrorCode>)
    requires
        live_slots_fit(region@),
        old(candy_machine).token_mint is Some <==> (*payment) is Token,
        treasury_balance + old(candy_machine).data.price <= u64::MAX,
    ensures
        cm_wf(*old(candy_machine)) ==> cm_wf(*final(candy_machine)),
        final(candy_machine).items_redeemed >= old(candy_machine).items_redeemed,
        match r {
            Ok(o) => {
                &&& mint_error(*old(candy_machine), region@, payer, now, *payment) is None
                &&& *final(candy_machine) == (CandyMachine {
                    items_redeemed: (old(candy_machine).items_redeemed + 1) as u64,
                    ..*old(candy_machine)
                })
                &&& o.item.name@ == decoded_name(
                    region@,
                    old(candy_machine).items_redeemed as int,
                )
                &&& o.item.uri@ == decoded_uri(region@, old(candy_machine).items_redeemed as int)
                &&& o.item.symbol@ == config.data.symbol@
                &&& o.item.seller_fee_basis_points == config.data.seller_fee_basis_points
                &&& o.item.is_mutable == config.data.is_mutable
                &&& o.item.max_supply == config.data.max_supply
                &&& o.item.creators@.len() == config.data.creators@.len() + 1
                &&& o.item.creators@[0] == (Creator {
                    address: candy_machine_key,
                    verified: true,
                    share: 0u8,
                })
                &&& forall|i: int|
                    0 <= i < config.data.creators@.len() ==> o.item.creators@[i + 1] == (Creator {
                        address: config.data.creators@[i].address,
                        verified: false,
                        share: config.data.creators@[i].share,
                    })
                &&& o.item.update_authority == (if config.data.retain_authority {
                    candy_machine_key
                } else {
                    update_authority
                })
                &&& o.item.update_authority_is_signer == config.data.retain_authority
                &&& o.settlement.amount == old(candy_machine).data.price
                &&& o.settlement.payer_balance_after == payment_balance(*payment) - old(
                    candy_machine,
                ).data.price
                &&& o.settlement.treasury_balance_after == treasury_balance + old(
                    candy_machine,
                ).data.price
            },
            Err(e) => {
                &&& *final(candy_machine) == *old(candy_machine)
                &&& mint_error(*old(candy_machine), region@, payer, now, *payment) == Some(e)
            },
        },
{
    let price = candy_machine.data.price;
    let live_now = match candy_machine.data.go_live_date {
        None => false,
        Some(d) => now >= d,
    };
    if !live_now && !(payer == candy_machine.authority) {
        return Err(ErrorCode::CandyMachineNotLiveYet);
    }
    if candy_machine.items_redeemed >= candy_machine.data.items_available {
        return Err(ErrorCode::CandyMachineEmpty);
    }
    let settlement = match settle_payment(
        &candy_machine.token_mint,
        payment,
        price,
        treasury_balance,
    ) {
        Ok(s) => s,
        Err(e) => {
            return Err(e);
        },
    };
    let live = match get_config_count(region) {
        Ok(c) => c,
        Err(e) => {
            return Err(e);
        },
    };
    let ordinal = candy_machine.items_redeemed;
    if ordinal >= live as u64 {
        return Err(ErrorCode::IndexGreaterThanLength);
    }
    let line = match get_config_line(region, ordinal as u32) {
        Ok(l) => l,
        Err(e) => {
            return Err(e);
        },
    };
    candy_machine.items_redeemed = candy_machine.items_redeemed + 1;
    let mut creators: Vec<Creator> = Vec::new();
    creators.push(Creator { address: candy_machine_key, verified: true, share: 0u8 });
    let mut i: usize = 0;
    while i < config.data.creators.len()
        invariant
            i <= config.data.creators@.len(),
            creators@.len() == i + 1,
            creators@[0] == (Creator { address: candy_machine_key, verified: true, share: 0u8 }),
            forall|j: int|
                0 <= j < i ==> creators@[j + 1] == (Creator {
                    address: config.data.creators@[j].address,
                    verified: false,
                    share: config.data.creators@[j].share,
                }),
        decreases config.data.creators@.len() - i,
    {
        let c = config.data.creators[i];
        creators.push(Creator { address: c.address, verified: false, share: c.share });
        i += 1;
    }
    let (upd_auth, upd_signer): (Pubkey, bool) = if config.data.retain_authority {
        (candy_machine_key, true)
    } else {
        (update_authority, false)
    };
    let item = IssuedItem {
        name: line.name,
        symbol: copy_bytes(&config.data.symbol),
        uri: line.uri,
        seller_fee_basis_points: config.data.seller_fee_basis_points,
        creators,
        is_mutable: config.data.is_mutable,
        update_authority: upd_auth,
        update_authority_is_signer: upd_signer,
        max_supply: config.data.max_supply,
    };
    Ok(MintOutcome { item, settlement })
}

/// The redemption cap is terminal: once the count has reached the
/// total available, a claim through an open window always fails as
/// sold out, whatever the payment looks like — and a refused claim
/// changes nothing, so no later claim can succeed either.
pub proof fn lemma_claim_cap_terminal(
    cm: CandyMachine,
    region: Seq<u8>,
    payer: Pubkey,
    now: i64,
    payment: Payment,
)
    requires
        window_open(cm, payer, now),
        cm.items_redeemed == cm.data.items_available,
    ensures
        mint_error(cm, region, payer, now, payment) == Some(ErrorCode::CandyMachineEmpty),
{
}

/// A claim can only succeed strictly below the cap, and each success
/// advances the count by exactly one; so after N successful claims
/// against a sale with `items_available == N`, the next attempt fails.
pub proof fn lemma_claim_needs_capacity(
    cm: CandyMachine,
    region: Seq<u8>,
    payer: Pubkey,
    now: i64,
    payment: Payment,
)
    requires
        mint_error(cm, region, payer, now, payment) is None,
    ensures
        cm.items_redeemed < cm.data.items_available,
{
}

/// Before the availability start — or at any time when no start was
/// ever set — a claim by anyone but the operator is refused as not
/// live.
pub proof fn lemma_window_blocks_others(
    cm: CandyMachine,
    region: Seq<u8>,
    payer: Pubkey,
    now: i64,
    payment: Payment,
)
    requires
        payer != cm.authority,
        match cm.data.go_live_date {
            None => true,
            Some(d) => now < d,
        },
    ensures
        mint_error(cm, region, payer, now, payment) == Some(ErrorCode::CandyMachineNotLiveYet),
{
}

/// The operator is never blocked by the window: its claim may fail for
/// capacity, payment or a missing template, but never as not live.
pub proof fn lemma_operator_window_exempt(
    cm: CandyMachine,
    region: Seq<u8>,
    now: i64,
    payment: Payment,
)
    ensures
        mint_error(cm, region, cm.authority, now, payment) != Some(
            ErrorCode::CandyMachineNotLiveYet,
        ),
{
}

/// A claim ledger can never be bound to an empty record ledger:
/// whenever the identifier and the payment-asset setup pass, creation
/// against a live count of zero fails for exactly that reason.
pub proof fn lemma_empty_ledger_refused(
    data: CandyMachineData,
    token_setup: Option<TokenMintSetup>,
)
    requires
        data.uuid@.len() == 6,
        match token_setup {
            Some(t) => token_setup_error(t) is None,
            None => true,
        },
    ensures
        machine_error(data, token_setup, 0) == Some(ErrorCode::ConfigMustHaveAtleastOneEntry),
        forall|live: u32|
            live > 0 ==> machine_error(data, token_setup, live) is None,
{
}

/// The native payment boundary: a native payment is refused for funds
/// exactly when the balance is below the price — one unit less than
/// the price fails, the price itself is enough.
pub proof fn lemma_native_payment_boundary(balance: u64, price: u64)
    ensures
        payment_error(None::<Pubkey>, Payment::Native { payer_balance: balance }, price) == (
        if balance < price {
            Some(ErrorCode::NotEnoughSOL)
        } else {
            None::<ErrorCode>
        }),
{
}

} // verus!
