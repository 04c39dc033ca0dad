use bonkr_engine::{
    admin_recovery, buy, claim_creator_fees, create_token, graduate, initialize, pause, sell,
    transfer_authority, unpause, AdminAction, AdminRecovery, BonkrError, ClaimCreatorFees,
    CreateToken, FactoryConfig, Graduate, Identity, Initialize, TokenCreated, TokenGraduated,
    TokenState, Trade, TransferAuthority,
};

fn id(tag: u8) -> Identity {
    Identity { bytes: [tag; 32] }
}

fn blank_factory() -> FactoryConfig {
    FactoryConfig {
        authority: id(0),
        platform_fee_recipient: id(0),
        platform_fee_bps: 0,
        creator_fee_bps: 0,
        burn_fee_bps: 0,
        graduation_threshold_sol: 0,
        total_tokens_created: 0,
        paused: false,
        bump: 0,
    }
}

fn blank_token() -> TokenState {
    TokenState {
        mint: id(0),
        creator: id(0),
        name: String::new(),
        symbol: String::new(),
        description: String::new(),
        virtual_sol_reserve: 0,
        virtual_token_reserve: 0,
        actual_sol_deposited: 0,
        total_supply: 0,
        circulating_supply: 0,
        burned_amount: 0,
        creator_unclaimed_fees: 0,
        is_graduated: false,
        trading_enabled: false,
        created_at: 0,
        bump: 0,
        vault_bump: 0,
    }
}

fn factory() -> FactoryConfig {
    let mut ctx =
        Initialize { factory_config: blank_factory(), authority: id(1), factory_config_bump: 254 };
    initialize(&mut ctx, 100, 50, 200, 90_000).unwrap();
    ctx.factory_config
}

fn token() -> TokenState {
    let mut ctx = CreateToken {
        factory_config: factory(),
        token_state: blank_token(),
        token_mint: id(7),
        creator: id(9),
        token_state_bump: 253,
        sol_vault_bump: 252,
    };
    create_token(
        &mut ctx,
        String::from("Bonkr"),
        String::from("BNK"),
        String::from("a token"),
        1_000_000,
        1_000_000_000,
        1_700_000_000,
    )
    .unwrap();
    ctx.token_state
}

#[test]
fn initialize_fills_the_configuration() {
    let mut ctx = Initialize {
        factory_config: FactoryConfig {
            authority: id(3),
            platform_fee_recipient: id(4),
            platform_fee_bps: 9,
            creator_fee_bps: 9,
            burn_fee_bps: 9,
            graduation_threshold_sol: 9,
            total_tokens_created: 9,
            paused: true,
            bump: 9,
        },
        authority: id(1),
        factory_config_bump: 254,
    };
    assert_eq!(initialize(&mut ctx, 100, 50, 200, 90_000), Ok(()));
    assert_eq!(
        ctx,
        Initialize {
            factory_config: FactoryConfig {
                authority: id(1),
                platform_fee_recipient: id(1),
                platform_fee_bps: 100,
                creator_fee_bps: 50,
                burn_fee_bps: 200,
                graduation_threshold_sol: 90_000,
                total_tokens_created: 0,
                paused: false,
                bump: 254,
            },
            authority: id(1),
            factory_config_bump: 254,
        }
    );
}

#[test]
fn initialize_takes_the_fees_as_given() {
    let mut ctx =
        Initialize { factory_config: blank_factory(), authority: id(1), factory_config_bump: 1 };
    assert_eq!(initialize(&mut ctx, 10_001, u16::MAX, 0, 0), Ok(()));
    assert_eq!(ctx.factory_config.platform_fee_bps, 10_001);
    assert_eq!(ctx.factory_config.creator_fee_bps, u16::MAX);
}

#[test]
fn create_token_fills_the_record_and_counts_it() {
    let mut ctx = CreateToken {
        factory_config: factory(),
        token_state: blank_token(),
        token_mint: id(7),
        creator: id(9),
        token_state_bump: 253,
        sol_vault_bump: 252,
    };
    let event = create_token(
        &mut ctx,
        String::from("Bonkr"),
        String::from("BNK"),
        String::from("a token"),
        1_000_000,
        1_000_000_000,
        1_700_000_000,
    )
    .unwrap();
    assert_eq!(
        event,
        TokenCreated {
            mint: id(7),
            creator: id(9),
            name: String::from("Bonkr"),
            symbol: String::from("BNK"),
            total_supply: 1_000_000_000,
            timestamp: 1_700_000_000,
        }
    );
    assert_eq!(
        ctx.token_state,
        TokenState {
            mint: id(7),
            creator: id(9),
            name: String::from("Bonkr"),
            symbol: String::from("BNK"),
            description: String::from("a token"),
            virtual_sol_reserve: 1_000_000,
            virtual_token_reserve: 1_000_000_000,
            actual_sol_deposited: 0,
            total_supply: 1_000_000_000,
            circulating_supply: 0,
            burned_amount: 0,
            creator_unclaimed_fees: 0,
            is_graduated: false,
            trading_enabled: true,
            created_at: 1_700_000_000,
            bump: 253,
            vault_bump: 252,
        }
    );
    let mut counted = factory();
    counted.total_tokens_created = 1;
    assert_eq!(ctx.factory_config, counted);
    assert_eq!(ctx.token_mint, id(7));
    assert_eq!(ctx.creator, id(9));
}

fn try_create(ctx: &mut CreateToken, name: &str, symbol: &str) -> Result<TokenCreated, BonkrError> {
    create_token(ctx, String::from(name), String::from(symbol), String::new(), 1000, 1000, 0)
}

fn creation() -> CreateToken {
    CreateToken {
        factory_config: factory(),
        token_state: blank_token(),
        token_mint: id(7),
        creator: id(9),
        token_state_bump: 253,
        sol_vault_bump: 252,
    }
}

#[test]
fn names_and_symbols_have_their_limits() {
    let name_32 = "abcdefghijklmnopqrstuvwxyzABCDEF";
    let name_33 = "abcdefghijklmnopqrstuvwxyzABCDEFG";
    let mut ctx = creation();
    let before = ctx.clone();
    assert_eq!(try_create(&mut ctx, name_33, "BNK"), Err(BonkrError::NameTooLong));
    assert_eq!(try_create(&mut ctx, "Bonkr", "ABCDEFGHIJK"), Err(BonkrError::SymbolTooLong));
    // The name is judged first.
    assert_eq!(try_create(&mut ctx, name_33, "ABCDEFGHIJK"), Err(BonkrError::NameTooLong));
    assert_eq!(ctx, before);
    assert!(try_create(&mut ctx, name_32, "ABCDEFGHIJ").is_ok());
    assert_eq!(ctx.token_state.name, name_32);
    assert_eq!(ctx.token_state.symbol, "ABCDEFGHIJ");
    assert_eq!(ctx.factory_config.total_tokens_created, 1);
}

#[test]
fn limits_count_characters() {
    // Thirty-two characters of two bytes each, and ten of three.
    let name: String = "é".repeat(32);
    let symbol: String = "€".repeat(10);
    let mut ctx = creation();
    assert!(try_create(&mut ctx, &name, &symbol).is_ok());
    let mut ctx = creation();
    assert_eq!(try_create(&mut ctx, &"é".repeat(33), "BNK"), Err(BonkrError::NameTooLong));
    assert_eq!(try_create(&mut ctx, "Bonkr", &"€".repeat(11)), Err(BonkrError::SymbolTooLong));
}

#[test]
fn a_paused_factory_creates_nothing() {
    let mut ctx = creation();
    ctx.factory_config.paused = true;
    let before = ctx.clone();
    let name_33 = "abcdefghijklmnopqrstuvwxyzABCDEFG";
    assert_eq!(try_create(&mut ctx, name_33, "BNK"), Err(BonkrError::ContractPaused));
    assert_eq!(ctx, before);
}

#[test]
fn a_full_counter_creates_nothing() {
    let mut ctx = creation();
    ctx.factory_config.total_tokens_created = u64::MAX;
    let before = ctx.clone();
    assert_eq!(try_create(&mut ctx, "Bonkr", "BNK"), Err(BonkrError::MathOverflow));
    assert_eq!(ctx, before);
}

#[test]
fn only_the_authority_pauses_and_unpauses() {
    let mut ctx = AdminAction { factory_config: factory(), authority: id(2) };
    let before = ctx;
    assert_eq!(pause(&mut ctx), Err(BonkrError::UnauthorizedAdmin));
    assert_eq!(unpause(&mut ctx), Err(BonkrError::UnauthorizedAdmin));
    assert_eq!(ctx, before);
    ctx.authority = id(1);
    assert_eq!(pause(&mut ctx), Ok(()));
    assert!(ctx.factory_config.paused);
    let mut paused = factory();
    paused.paused = true;
    assert_eq!(ctx.factory_config, paused);
    assert_eq!(pause(&mut ctx), Ok(()));
    assert!(ctx.factory_config.paused);
    assert_eq!(unpause(&mut ctx), Ok(()));
    assert_eq!(ctx.factory_config, factory());
}

#[test]
fn pausing_stops_trading_and_unpausing_resumes_it() {
    let mut admin = AdminAction { factory_config: factory(), authority: id(1) };
    pause(&mut admin).unwrap();
    let mut ctx = Trade { factory_config: admin.factory_config, token_state: token() };
    assert_eq!(buy(&mut ctx, 100_000, 0, 1), Err(BonkrError::ContractPaused));
    unpause(&mut admin).unwrap();
    ctx.factory_config = admin.factory_config;
    assert_eq!(buy(&mut ctx, 100_000, 0, 1).unwrap().tokens_to_user, 87_874_375);
}

#[test]
fn authority_is_handed_over_in_one_step() {
    let mut ctx =
        TransferAuthority { factory_config: factory(), authority: id(2), new_authority: id(5) };
    let before = ctx;
    assert_eq!(transfer_authority(&mut ctx), Err(BonkrError::UnauthorizedAdmin));
    assert_eq!(ctx, before);
    ctx.authority = id(1);
    assert_eq!(transfer_authority(&mut ctx), Ok(()));
    let mut handed = factory();
    handed.authority = id(5);
    assert_eq!(ctx.factory_config, handed);
    // The fee recipient stays who it was.
    assert_eq!(ctx.factory_config.platform_fee_recipient, id(1));
    // The old authority is locked out, the new one is in.
    assert_eq!(transfer_authority(&mut ctx), Err(BonkrError::UnauthorizedAdmin));
    let mut admin = AdminAction { factory_config: ctx.factory_config, authority: id(5) };
    assert_eq!(pause(&mut admin), Ok(()));
}

#[test]
fn identities_differ_by_any_byte() {
    let mut other = id(1);
    assert_eq!(other, id(1));
    other.bytes[31] = 2;
    assert_ne!(other, id(1));
    let mut ctx = AdminAction { factory_config: factory(), authority: other };
    assert_eq!(pause(&mut ctx), Err(BonkrError::UnauthorizedAdmin));
    let mut first = id(1);
    first.bytes[0] = 0;
    assert_ne!(first, id(1));
}

#[test]
fn graduate_needs_the_threshold() {
    let mut ctx = Graduate { factory_config: factory(), token_state: token() };
    ctx.token_state.actual_sol_deposited = 89_999;
    let before = ctx.clone();
    assert_eq!(graduate(&mut ctx, 77), Err(BonkrError::NotReadyToGraduate));
    assert_eq!(ctx, before);
    ctx.token_state.actual_sol_deposited = 90_000;
    ctx.token_state.circulating_supply = 1234;
    assert_eq!(
        graduate(&mut ctx, 77),
        Ok(TokenGraduated {
            mint: id(7),
            sol_raised: 90_000,
            circulating_supply: 1234,
            timestamp: 77
        })
    );
    let mut graduated = before.token_state.clone();
    graduated.actual_sol_deposited = 90_000;
    graduated.circulating_supply = 1234;
    graduated.is_graduated = true;
    graduated.trading_enabled = false;
    assert_eq!(ctx.token_state, graduated);
    assert_eq!(ctx.factory_config, factory());
}

#[test]
fn graduate_a_second_time_is_refused_and_changes_nothing() {
    let mut ctx = Graduate { factory_config: factory(), token_state: token() };
    ctx.token_state.actual_sol_deposited = 1_000_000;
    assert!(graduate(&mut ctx, 77).is_ok());
    let after_first = ctx.clone();
    assert_eq!(graduate(&mut ctx, 78), Err(BonkrError::TokenGraduated));
    assert_eq!(ctx, after_first);
}

#[test]
fn a_graduated_token_is_frozen() {
    let mut ctx = Trade { factory_config: factory(), token_state: token() };
    buy(&mut ctx, 100_000, 0, 1).unwrap();
    let mut graduation =
        Graduate { factory_config: ctx.factory_config, token_state: ctx.token_state.clone() };
    graduate(&mut graduation, 2).unwrap();
    ctx.token_state = graduation.token_state.clone();
    let frozen = ctx.clone();
    assert_eq!(buy(&mut ctx, 100, 0, 3), Err(BonkrError::TradingDisabled));
    assert_eq!(sell(&mut ctx, 100, 0), Err(BonkrError::TradingDisabled));
    assert_eq!(ctx, frozen);
    let mut recovery = AdminRecovery {
        factory_config: ctx.factory_config,
        token_state: ctx.token_state.clone(),
        sol_vault: 1_000_000,
        authority: id(1),
    };
    assert_eq!(admin_recovery(&mut recovery, 0), Err(BonkrError::TokenGraduated));
    assert_eq!(recovery.token_state, frozen.token_state);
    // The creator's fees can still be claimed.
    let mut claim = ClaimCreatorFees { token_state: ctx.token_state.clone(), creator: id(9) };
    assert_eq!(claim_creator_fees(&mut claim), Ok(500));
}

#[test]
fn the_creator_claims_all_that_accrued() {
    let mut trade = Trade { factory_config: factory(), token_state: token() };
    buy(&mut trade, 100_000, 0, 1).unwrap();
    sell(&mut trade, 40_000_000, 0).unwrap();
    let mut ctx = ClaimCreatorFees { token_state: trade.token_state.clone(), creator: id(9) };
    assert_eq!(claim_creator_fees(&mut ctx), Ok(726));
    let mut claimed = trade.token_state.clone();
    claimed.creator_unclaimed_fees = 0;
    assert_eq!(ctx.token_state, claimed);
    assert_eq!(ctx.creator, id(9));
    assert_eq!(claim_creator_fees(&mut ctx), Err(BonkrError::NoFeesToClaim));
    assert_eq!(ctx.token_state, claimed);
}

#[test]
fn only_the_creator_claims() {
    let mut token_state = token();
    token_state.creator_unclaimed_fees = 10;
    let mut ctx = ClaimCreatorFees { token_state, creator: id(1) };
    let before = ctx.clone();
    assert_eq!(claim_creator_fees(&mut ctx), Err(BonkrError::UnauthorizedCreator));
    assert_eq!(ctx, before);
    // Who calls is judged before what has accrued.
    ctx.token_state.creator_unclaimed_fees = 0;
    assert_eq!(claim_creator_fees(&mut ctx), Err(BonkrError::UnauthorizedCreator));
}

fn recovery(sol_vault: u64) -> AdminRecovery {
    let mut token_state = token();
    token_state.actual_sol_deposited = 53_150;
    token_state.creator_unclaimed_fees = 726;
    token_state.circulating_supply = 48_674_375;
    token_state.burned_amount = 2_593_354;
    AdminRecovery { factory_config: factory(), token_state, sol_vault, authority: id(1) }
}

#[test]
fn recovery_sweeps_what_is_above_the_minimum() {
    let mut ctx = recovery(1_000_000);
    let before = ctx.clone();
    assert_eq!(admin_recovery(&mut ctx, 890_880), Ok(109_120));
    let mut swept = before.token_state.clone();
    swept.actual_sol_deposited = 0;
    swept.creator_unclaimed_fees = 0;
    swept.virtual_sol_reserve = 0;
    swept.trading_enabled = false;
    assert_eq!(ctx.token_state, swept);
    assert_eq!(ctx.token_state.virtual_token_reserve, 1_000_000_000);
    assert_eq!(ctx.token_state.circulating_supply, 48_674_375);
    assert!(!ctx.token_state.is_graduated);
    assert_eq!(ctx.factory_config, before.factory_config);
    assert_eq!(ctx.sol_vault, 1_000_000);
    assert_eq!(ctx.authority, id(1));
    // The token never trades again.
    let mut trade = Trade { factory_config: ctx.factory_config, token_state: ctx.token_state };
    assert_eq!(buy(&mut trade, 100, 0, 1), Err(BonkrError::TradingDisabled));
    assert_eq!(sell(&mut trade, 100, 0), Err(BonkrError::TradingDisabled));
}

#[test]
fn recovery_finds_nothing_at_or_below_the_minimum() {
    let mut ctx = recovery(890_880);
    let before = ctx.clone();
    assert_eq!(admin_recovery(&mut ctx, 890_880), Err(BonkrError::NoFundsToRecover));
    assert_eq!(ctx, before);
    ctx.sol_vault = 5;
    assert_eq!(admin_recovery(&mut ctx, 890_880), Err(BonkrError::NoFundsToRecover));
    ctx.sol_vault = 0;
    assert_eq!(admin_recovery(&mut ctx, 0), Err(BonkrError::NoFundsToRecover));
    ctx.sol_vault = 890_881;
    assert_eq!(admin_recovery(&mut ctx, 890_880), Ok(1));
}

#[test]
fn recovery_is_for_the_authority_and_before_graduation() {
    let mut ctx = recovery(1_000_000);
    ctx.authority = id(9);
    ctx.token_state.is_graduated = true;
    let before = ctx.clone();
    assert_eq!(admin_recovery(&mut ctx, 0), Err(BonkrError::UnauthorizedAdmin));
    assert_eq!(ctx, before);
    ctx.authority = id(1);
    let before = ctx.clone();
    assert_eq!(admin_recovery(&mut ctx, 0), Err(BonkrError::TokenGraduated));
    assert_eq!(ctx, before);
}

#[test]
fn every_error_has_its_text() {
    assert_eq!(BonkrError::ContractPaused.message(), "Contract is paused");
    assert_eq!(BonkrError::TradingDisabled.message(), "Trading is disabled");
    assert_eq!(BonkrError::TokenGraduated.message(), "Token graduated");
    assert_eq!(BonkrError::InvalidAmount.message(), "Invalid amount");
    assert_eq!(BonkrError::MathOverflow.message(), "Math overflow");
    assert_eq!(BonkrError::SlippageExceeded.message(), "Slippage exceeded");
    assert_eq!(BonkrError::InsufficientLiquidity.message(), "Insufficient liquidity");
    assert_eq!(BonkrError::UnauthorizedAdmin.message(), "Unauthorized admin");
    assert_eq!(BonkrError::UnauthorizedCreator.message(), "Unauthorized creator");
    assert_eq!(BonkrError::NoFeesToClaim.message(), "No fees to claim");
    assert_eq!(BonkrError::NoFundsToRecover.message(), "No funds to recover");
    assert_eq!(BonkrError::NameTooLong.message(), "Name too long");
    assert_eq!(BonkrError::SymbolTooLong.message(), "Symbol too long");
    assert_eq!(BonkrError::NotReadyToGraduate.message(), "Not ready to graduate");
}
