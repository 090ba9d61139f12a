use nft_candy_machine::config::initialize_config;
use nft_candy_machine::config::Config;
use nft_candy_machine::config::ConfigData;
use nft_candy_machine::config::Creator;
use nft_candy_machine::config::Pubkey;
use nft_candy_machine::errors::ErrorCode;
use nft_candy_machine::ledger::add_config_lines;
use nft_candy_machine::ledger::ConfigLine;
use nft_candy_machine::machine::initialize_candy_machine;
use nft_candy_machine::machine::mint_nft;
use nft_candy_machine::machine::settle_payment;
use nft_candy_machine::machine::CandyMachine;
use nft_candy_machine::machine::CandyMachineData;
use nft_candy_machine::machine::Payment;
use nft_candy_machine::machine::TokenMintSetup;
use nft_candy_machine::machine::TokenPayment;

fn pk(id: u64) -> Pubkey {
    Pubkey { id }
}

const OPERATOR: u64 = 10;
const TREASURY_KEY: u64 = 11;
const CONFIG_KEY: u64 = 12;
const MACHINE_KEY: u64 = 13;
const BUYER: u64 = 20;

fn sale_terms(price: u64, items_available: u64, go_live_date: Option<i64>) -> CandyMachineData {
    CandyMachineData { uuid: b"abc123".to_vec(), price, items_available, go_live_date }
}

/// A configuration with `templates` records appended, and a claim
/// ledger for a native-asset sale.
fn native_sale(
    price: u64,
    items_available: u64,
    go_live_date: Option<i64>,
    templates: usize,
) -> (Config, Vec<u8>, CandyMachine) {
    let data = ConfigData {
        uuid: b"abc123".to_vec(),
        symbol: b"SYM".to_vec(),
        seller_fee_basis_points: 500,
        creators: vec![Creator { address: pk(1), verified: false, share: 100 }],
        max_supply: 0,
        is_mutable: true,
        retain_authority: true,
        max_number_of_lines: 8,
    };
    let (config, mut region) = initialize_config(1, pk(OPERATOR), data).unwrap();
    let lines: Vec<ConfigLine> = (0..templates)
        .map(|i| ConfigLine {
            name: format!("item {}", i).into_bytes(),
            uri: format!("uri {}", i).into_bytes(),
        })
        .collect();
    add_config_lines(&mut region, 8, 0, &lines).unwrap();
    let cm = initialize_candy_machine(
        2,
        sale_terms(price, items_available, go_live_date),
        pk(TREASURY_KEY),
        pk(OPERATOR),
        pk(CONFIG_KEY),
        &None,
        &region,
    )
    .unwrap();
    (config, region, cm)
}

#[test]
fn claim_ledger_requires_live_record() {
    let data = ConfigData {
        uuid: b"abc123".to_vec(),
        symbol: b"S".to_vec(),
        seller_fee_basis_points: 0,
        creators: vec![],
        max_supply: 0,
        is_mutable: false,
        retain_authority: true,
        max_number_of_lines: 2,
    };
    let (_config, region) = initialize_config(1, pk(OPERATOR), data).unwrap();
    let r = initialize_candy_machine(
        2,
        sale_terms(1, 1, None),
        pk(TREASURY_KEY),
        pk(OPERATOR),
        pk(CONFIG_KEY),
        &None,
        &region,
    );
    assert_eq!(r.unwrap_err(), ErrorCode::ConfigMustHaveAtleastOneEntry);
}

#[test]
fn claim_ledger_identifier_checked() {
    let (_config, region, _cm) = native_sale(1, 1, None, 1);
    let mut bad = sale_terms(1, 1, None);
    bad.uuid = b"abc12".to_vec();
    let r = initialize_candy_machine(
        2,
        bad,
        pk(TREASURY_KEY),
        pk(OPERATOR),
        pk(CONFIG_KEY),
        &None,
        &region,
    );
    assert_eq!(r.unwrap_err(), ErrorCode::UuidMustBeExactly6Length);
}

fn token_setup() -> TokenMintSetup {
    TokenMintSetup {
        mint_key: pk(40),
        mint_initialized: true,
        mint_owned_by_token_program: true,
        wallet_initialized: true,
        wallet_owned_by_token_program: true,
        wallet_mint: pk(40),
    }
}

#[test]
fn claim_ledger_token_setup_checked() {
    let (_config, region, _cm) = native_sale(1, 1, None, 1);
    let make = |setup: TokenMintSetup| {
        initialize_candy_machine(
            2,
            sale_terms(1, 1, None),
            pk(TREASURY_KEY),
            pk(OPERATOR),
            pk(CONFIG_KEY),
            &Some(setup),
            &region,
        )
    };
    let cm = make(token_setup()).unwrap();
    assert_eq!(cm.token_mint, Some(pk(40)));

    let mut mismatched = token_setup();
    mismatched.wallet_mint = pk(41);
    assert_eq!(make(mismatched).unwrap_err(), ErrorCode::MintMismatch);

    let mut uninit = token_setup();
    uninit.wallet_initialized = false;
    assert_eq!(make(uninit).unwrap_err(), ErrorCode::Uninitialized);

    let mut foreign = token_setup();
    foreign.mint_owned_by_token_program = false;
    assert_eq!(make(foreign).unwrap_err(), ErrorCode::IncorrectOwner);
}

#[test]
fn sold_out_after_cap() {
    let (config, region, mut cm) = native_sale(5, 2, Some(100), 4);
    for _ in 0..2 {
        mint_nft(
            &mut cm,
            pk(MACHINE_KEY),
            &config,
            &region,
            pk(BUYER),
            pk(BUYER),
            200,
            &Payment::Native { payer_balance: 50 },
            0,
        )
        .unwrap();
    }
    assert_eq!(cm.items_redeemed, 2);
    let r = mint_nft(
        &mut cm,
        pk(MACHINE_KEY),
        &config,
        &region,
        pk(BUYER),
        pk(BUYER),
        200,
        &Payment::Native { payer_balance: 50 },
        0,
    );
    assert_eq!(r.unwrap_err(), ErrorCode::CandyMachineEmpty);
    assert_eq!(cm.items_redeemed, 2);
}

#[test]
fn window_blocks_public_before_start() {
    let (config, region, mut cm) = native_sale(5, 2, Some(1000), 2);
    let r = mint_nft(
        &mut cm,
        pk(MACHINE_KEY),
        &config,
        &region,
        pk(BUYER),
        pk(BUYER),
        999,
        &Payment::Native { payer_balance: 50 },
        0,
    );
    assert_eq!(r.unwrap_err(), ErrorCode::CandyMachineNotLiveYet);
    assert_eq!(cm.items_redeemed, 0);
    // the operator is exempt from the window
    mint_nft(
        &mut cm,
        pk(MACHINE_KEY),
        &config,
        &region,
        pk(OPERATOR),
        pk(OPERATOR),
        999,
        &Payment::Native { payer_balance: 50 },
        0,
    )
    .unwrap();
    assert_eq!(cm.items_redeemed, 1);
    // once the start has passed, anyone may claim
    mint_nft(
        &mut cm,
        pk(MACHINE_KEY),
        &config,
        &region,
        pk(BUYER),
        pk(BUYER),
        1000,
        &Payment::Native { payer_balance: 50 },
        0,
    )
    .unwrap();
}

#[test]
fn no_start_means_operator_only() {
    let (config, region, mut cm) = native_sale(5, 2, None, 2);
    let r = mint_nft(
        &mut cm,
        pk(MACHINE_KEY),
        &config,
        &region,
        pk(BUYER),
        pk(BUYER),
        i64::MAX,
        &Payment::Native { payer_balance: 50 },
        0,
    );
    assert_eq!(r.unwrap_err(), ErrorCode::CandyMachineNotLiveYet);
    mint_nft(
        &mut cm,
        pk(MACHINE_KEY),
        &config,
        &region,
        pk(OPERATOR),
        pk(OPERATOR),
        0,
        &Payment::Native { payer_balance: 50 },
        0,
    )
    .unwrap();
}

#[test]
fn native_balance_boundary() {
    let (config, region, mut cm) = native_sale(100, 2, Some(0), 2);
    let r = mint_nft(
        &mut cm,
        pk(MACHINE_KEY),
        &config,
        &region,
        pk(BUYER),
        pk(BUYER),
        0,
        &Payment::Native { payer_balance: 99 },
        1000,
    );
    assert_eq!(r.unwrap_err(), ErrorCode::NotEnoughSOL);
    assert_eq!(cm.items_redeemed, 0);
    let o = mint_nft(
        &mut cm,
        pk(MACHINE_KEY),
        &config,
        &region,
        pk(BUYER),
        pk(BUYER),
        0,
        &Payment::Native { payer_balance: 100 },
        1000,
    )
    .unwrap();
    assert_eq!(o.settlement.amount, 100);
    assert_eq!(o.settlement.payer_balance_after, 0);
    assert_eq!(o.settlement.treasury_balance_after, 1100);
}

#[test]
fn token_payment_checks() {
    let data = ConfigData {
        uuid: b"abc123".to_vec(),
        symbol: b"S".to_vec(),
        seller_fee_basis_points: 0,
        creators: vec![],
        max_supply: 0,
        is_mutable: false,
        retain_authority: true,
        max_number_of_lines: 2,
    };
    let (config, mut region) = initialize_config(1, pk(OPERATOR), data).unwrap();
    add_config_lines(
        &mut region,
        2,
        0,
        &vec![ConfigLine { name: b"n".to_vec(), uri: b"u".to_vec() }],
    )
    .unwrap();
    let mut cm = initialize_candy_machine(
        2,
        sale_terms(10, 2, Some(0)),
        pk(TREASURY_KEY),
        pk(OPERATOR),
        pk(CONFIG_KEY),
        &Some(token_setup()),
        &region,
    )
    .unwrap();
    let holding = |mint: u64, balance: u64| {
        Payment::Token(TokenPayment {
            account_initialized: true,
            account_owned_by_token_program: true,
            account_mint: pk(mint),
            account_balance: balance,
        })
    };
    let r = mint_nft(
        &mut cm,
        pk(MACHINE_KEY),
        &config,
        &region,
        pk(BUYER),
        pk(BUYER),
        0,
        &holding(41, 100),
        0,
    );
    assert_eq!(r.unwrap_err(), ErrorCode::MintMismatch);
    let r = mint_nft(
        &mut cm,
        pk(MACHINE_KEY),
        &config,
        &region,
        pk(BUYER),
        pk(BUYER),
        0,
        &holding(40, 9),
        0,
    );
    assert_eq!(r.unwrap_err(), ErrorCode::NotEnoughTokens);
    let o = mint_nft(
        &mut cm,
        pk(MACHINE_KEY),
        &config,
        &region,
        pk(BUYER),
        pk(BUYER),
        0,
        &holding(40, 10),
        7,
    )
    .unwrap();
    assert_eq!(o.settlement.amount, 10);
    assert_eq!(o.settlement.payer_balance_after, 0);
    assert_eq!(o.settlement.treasury_balance_after, 17);
}

#[test]
fn settle_payment_moves_exactly_the_price() {
    let s = settle_payment(&None, &Payment::Native { payer_balance: 31 }, 30, 12).unwrap();
    assert_eq!(s.amount, 30);
    assert_eq!(s.payer_balance_after, 1);
    assert_eq!(s.treasury_balance_after, 42);
    let r = settle_payment(&None, &Payment::Native { payer_balance: 29 }, 30, 12);
    assert_eq!(r.unwrap_err(), ErrorCode::NotEnoughSOL);
}

#[test]
fn sequential_template_assignment() {
    // each claim is assigned the template slot matching its redemption
    // ordinal, so successive claims receive distinct templates
    let (config, region, mut cm) = native_sale(1, 3, Some(0), 3);
    for i in 0..3u64 {
        let o = mint_nft(
            &mut cm,
            pk(MACHINE_KEY),
            &config,
            &region,
            pk(BUYER),
            pk(BUYER),
            0,
            &Payment::Native { payer_balance: 1 },
            0,
        )
        .unwrap();
        assert_eq!(o.item.name, format!("item {}", i).into_bytes());
        assert_eq!(o.item.uri, format!("uri {}", i).into_bytes());
    }
}

#[test]
fn claims_refused_beyond_live_templates() {
    // the cap allows more claims than the ledger holds templates
    let (config, region, mut cm) = native_sale(1, 5, Some(0), 1);
    mint_nft(
        &mut cm,
        pk(MACHINE_KEY),
        &config,
        &region,
        pk(BUYER),
        pk(BUYER),
        0,
        &Payment::Native { payer_balance: 1 },
        0,
    )
    .unwrap();
    let r = mint_nft(
        &mut cm,
        pk(MACHINE_KEY),
        &config,
        &region,
        pk(BUYER),
        pk(BUYER),
        0,
        &Payment::Native { payer_balance: 1 },
        0,
    );
    assert_eq!(r.unwrap_err(), ErrorCode::IndexGreaterThanLength);
    assert_eq!(cm.items_redeemed, 1);
}

#[test]
fn creator_list_assembly() {
    let (config, region, mut cm) = native_sale(1, 1, Some(0), 1);
    let o = mint_nft(
        &mut cm,
        pk(MACHINE_KEY),
        &config,
        &region,
        pk(BUYER),
        pk(BUYER),
        0,
        &Payment::Native { payer_balance: 1 },
        0,
    )
    .unwrap();
    assert_eq!(o.item.creators.len(), 2);
    assert_eq!(
        o.item.creators[0],
        Creator { address: pk(MACHINE_KEY), verified: true, share: 0 }
    );
    assert_eq!(o.item.creators[1], Creator { address: pk(1), verified: false, share: 100 });
}

#[test]
fn issued_item_carries_sale_terms() {
    let (config, region, mut cm) = native_sale(1, 1, Some(0), 1);
    let o = mint_nft(
        &mut cm,
        pk(MACHINE_KEY),
        &config,
        &region,
        pk(BUYER),
        pk(BUYER),
        0,
        &Payment::Native { payer_balance: 1 },
        0,
    )
    .unwrap();
    let mut padded_symbol = b"SYM".to_vec();
    padded_symbol.extend(std::iter::repeat(0u8).take(7));
    assert_eq!(o.item.symbol, padded_symbol);
    assert_eq!(o.item.seller_fee_basis_points, 500);
    assert!(o.item.is_mutable);
    assert_eq!(o.item.max_supply, 0);
    // retain_authority: the claim ledger itself keeps update authority
    assert_eq!(o.item.update_authority, pk(MACHINE_KEY));
    assert!(o.item.update_authority_is_signer);
}

#[test]
fn released_update_authority_goes_to_supplied_party() {
    let data = ConfigData {
        uuid: b"abc123".to_vec(),
        symbol: b"S".to_vec(),
        seller_fee_basis_points: 0,
        creators: vec![],
        max_supply: 0,
        is_mutable: true,
        retain_authority: false,
        max_number_of_lines: 2,
    };
    let (config, mut region) = initialize_config(1, pk(OPERATOR), data).unwrap();
    add_config_lines(
        &mut region,
        2,
        0,
        &vec![ConfigLine { name: b"n".to_vec(), uri: b"u".to_vec() }],
    )
    .unwrap();
    let mut cm = initialize_candy_machine(
        2,
        sale_terms(1, 1, Some(0)),
        pk(TREASURY_KEY),
        pk(OPERATOR),
        pk(CONFIG_KEY),
        &None,
        &region,
    )
    .unwrap();
    let o = mint_nft(
        &mut cm,
        pk(MACHINE_KEY),
        &config,
        &region,
        pk(BUYER),
        pk(77),
        0,
        &Payment::Native { payer_balance: 1 },
        0,
    )
    .unwrap();
    assert_eq!(o.item.update_authority, pk(77));
    assert!(!o.item.update_authority_is_signer);
}

#[test]
fn counter_advances_by_one_per_claim() {
    let (config, region, mut cm) = native_sale(1, 3, Some(0), 3);
    assert_eq!(cm.items_redeemed, 0);
    mint_nft(
        &mut cm,
        pk(MACHINE_KEY),
        &config,
        &region,
        pk(BUYER),
        pk(BUYER),
        0,
        &Payment::Native { payer_balance: 1 },
        0,
    )
    .unwrap();
    assert_eq!(cm.items_redeemed, 1);
}
