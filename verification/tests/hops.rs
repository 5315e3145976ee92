use oridion::variables::{MANAGER_PUBKEY, TREASURY_PUBKEY};
use oridion::{
    new_comet, planet_hop, withdraw, Account, Address, CreateComet, ErrorCode, Lifecycle, Planet,
    PlanetHop, Universe, Wallet, WithdrawAccounts,
};

fn manager(lamports: u64) -> Wallet {
    Wallet { key: Address::new(MANAGER_PUBKEY), lamports }
}

fn treasury(lamports: u64) -> Wallet {
    Wallet { key: Address::new(TREASURY_PUBKEY), lamports }
}

fn stranger(lamports: u64) -> Wallet {
    Wallet { key: Address::new([9u8; 32]), lamports }
}

fn universe(lamports: u64, deposit_fee: u64) -> Account<Universe> {
    let mut data = Universe::blank();
    data.pda = Address::new([3u8; 32]);
    data.cfe = deposit_fee;
    data.p.push("ORNOPU".to_string());
    Account { lamports, lifecycle: Lifecycle::Active, data }
}

fn planet(name: &str, lamports: u64, visits: u64) -> Account<Planet> {
    Account {
        lamports,
        lifecycle: Lifecycle::Active,
        data: Planet {
            name: name.to_string(),
            pda: Address::new([5u8; 32]),
            created: 1_700_000_000,
            bump: 255,
            visits,
        },
    }
}

fn comet(fee: u64, creator: u64) -> CreateComet {
    CreateComet {
        universe: universe(2_000_000, fee),
        planet: planet("ORNOPU", 1_593_840, 4),
        treasury: treasury(50),
        creator: stranger(creator),
    }
}

fn total_of_comet(ctx: &CreateComet) -> u128 {
    ctx.universe.lamports as u128
        + ctx.planet.lamports as u128
        + ctx.treasury.lamports as u128
        + ctx.creator.lamports as u128
}

#[test]
fn new_comet_passes_the_deposit_on_to_the_planet() {
    let mut ctx = comet(0, 10_000);
    let before = ctx.clone();
    assert_eq!(new_comet(&mut ctx, 7_000), Ok(()));
    assert_eq!(ctx.creator.lamports, 3_000);
    assert_eq!(ctx.universe.lamports, 2_000_000);
    assert_eq!(ctx.planet.lamports, 1_593_840 + 7_000);
    assert_eq!(ctx.planet.data.visits, 5);
    assert_eq!(ctx.treasury.lamports, 50);
    assert_eq!(ctx.universe.data, before.universe.data);
    assert_eq!(ctx.planet.data.name, "ORNOPU");
    assert_eq!(total_of_comet(&ctx), total_of_comet(&before));
}

#[test]
fn new_comet_pays_the_fee_to_the_treasury_first() {
    let mut ctx = comet(250, 10_000);
    let before = ctx.clone();
    assert_eq!(new_comet(&mut ctx, 7_000), Ok(()));
    assert_eq!(ctx.treasury.lamports, 300);
    assert_eq!(ctx.creator.lamports, 10_000 - 250 - 7_000);
    assert_eq!(ctx.planet.lamports, 1_593_840 + 7_000);
    assert_eq!(ctx.universe.lamports, 2_000_000);
    assert_eq!(total_of_comet(&ctx), total_of_comet(&before));
}

#[test]
fn new_comet_may_take_all_that_the_depositor_holds() {
    let mut ctx = comet(250, 7_250);
    assert_eq!(new_comet(&mut ctx, 7_000), Ok(()));
    assert_eq!(ctx.creator.lamports, 0);
    let mut ctx = comet(250, 7_249);
    let before = ctx.clone();
    assert_eq!(new_comet(&mut ctx, 7_000), Err(ErrorCode::InsufficientFunds));
    assert_eq!(ctx, before);
    let mut ctx = comet(250, 249);
    assert_eq!(new_comet(&mut ctx, 0), Err(ErrorCode::InsufficientFunds));
    let mut ctx = comet(u64::MAX, u64::MAX);
    assert_eq!(new_comet(&mut ctx, 1), Err(ErrorCode::InsufficientFunds));
}

#[test]
fn new_comet_of_nothing_counts_a_visit() {
    let mut ctx = comet(0, 0);
    assert_eq!(new_comet(&mut ctx, 0), Ok(()));
    assert_eq!(ctx.planet.data.visits, 5);
    assert_eq!(ctx.planet.lamports, 1_593_840);
}

#[test]
fn new_comet_needs_the_treasury() {
    let mut ctx = comet(250, 10_000);
    ctx.treasury = manager(50);
    let before = ctx.clone();
    assert_eq!(new_comet(&mut ctx, 7_000), Err(ErrorCode::AuthorizationFailure));
    assert_eq!(ctx, before);
}

#[test]
fn new_comet_needs_a_universe_and_a_planet() {
    let mut ctx = comet(250, 10_000);
    ctx.universe.lifecycle = Lifecycle::Vacant;
    let before = ctx.clone();
    assert_eq!(new_comet(&mut ctx, 7_000), Err(ErrorCode::AccountNotFound));
    assert_eq!(ctx, before);
    let mut ctx = comet(250, 10_000);
    ctx.planet.lifecycle = Lifecycle::Closed;
    let before = ctx.clone();
    assert_eq!(new_comet(&mut ctx, 7_000), Err(ErrorCode::AccountNotFound));
    assert_eq!(ctx, before);
}

#[test]
fn new_comet_is_rejected_when_a_balance_would_overflow() {
    let mut ctx = comet(250, 10_000);
    ctx.planet.lamports = u64::MAX - 6_999;
    let before = ctx.clone();
    assert_eq!(new_comet(&mut ctx, 7_000), Err(ErrorCode::ArithmeticOverflow));
    assert_eq!(ctx, before);

    let mut ctx = comet(250, 10_000);
    ctx.universe.lamports = u64::MAX - 6_999;
    assert_eq!(new_comet(&mut ctx, 7_000), Err(ErrorCode::ArithmeticOverflow));

    let mut ctx = comet(250, 10_000);
    ctx.treasury.lamports = u64::MAX - 249;
    assert_eq!(new_comet(&mut ctx, 7_000), Err(ErrorCode::ArithmeticOverflow));

    let mut ctx = comet(250, 10_000);
    ctx.planet.data.visits = u64::MAX;
    assert_eq!(new_comet(&mut ctx, 7_000), Err(ErrorCode::ArithmeticOverflow));

    let mut ctx = comet(250, 10_000);
    ctx.planet.lamports = u64::MAX - 7_000;
    ctx.planet.data.visits = u64::MAX - 1;
    assert_eq!(new_comet(&mut ctx, 7_000), Ok(()));
    assert_eq!(ctx.planet.lamports, u64::MAX);
    assert_eq!(ctx.planet.data.visits, u64::MAX);
}

#[test]
fn planet_hop_moves_the_amount_and_counts_the_visit() {
    let mut ctx = PlanetHop {
        to_planet: planet("DORAZ", 1_000, 2),
        from_planet: planet("ORNOPU", 9_000, 7),
        manager: manager(33),
    };
    let before = ctx.clone();
    assert_eq!(planet_hop(&mut ctx, 4_000), Ok(()));
    assert_eq!(ctx.to_planet.lamports, 5_000);
    assert_eq!(ctx.from_planet.lamports, 5_000);
    assert_eq!(ctx.to_planet.data.visits, 3);
    assert_eq!(ctx.from_planet.data.visits, 7);
    assert_eq!(ctx.from_planet.data, before.from_planet.data);
    assert_eq!(ctx.to_planet.data.name, "DORAZ");
    assert_eq!(ctx.manager, before.manager);
}

#[test]
fn planet_hop_may_empty_the_source() {
    let mut ctx = PlanetHop {
        to_planet: planet("DORAZ", 1_000, 2),
        from_planet: planet("ORNOPU", 9_000, 7),
        manager: manager(33),
    };
    assert_eq!(planet_hop(&mut ctx, 9_000), Ok(()));
    assert_eq!(ctx.from_planet.lamports, 0);
    assert_eq!(ctx.to_planet.lamports, 10_000);
    assert_eq!(planet_hop(&mut ctx, 0), Ok(()));
    assert_eq!(ctx.to_planet.data.visits, 4);
}

#[test]
fn planet_hop_to_the_same_planet_is_rejected() {
    let mut ctx = PlanetHop {
        to_planet: planet("ORNOPU", 1_000, 2),
        from_planet: planet("ORNOPU", 9_000, 7),
        manager: manager(33),
    };
    let before = ctx.clone();
    assert_eq!(planet_hop(&mut ctx, 4_000), Err(ErrorCode::SameEndpoint));
    assert_eq!(ctx, before);
}

#[test]
fn planet_hop_of_more_than_the_source_holds_is_rejected() {
    let mut ctx = PlanetHop {
        to_planet: planet("DORAZ", 1_000, 2),
        from_planet: planet("ORNOPU", 9_000, 7),
        manager: manager(33),
    };
    let before = ctx.clone();
    assert_eq!(planet_hop(&mut ctx, 9_001), Err(ErrorCode::InsufficientFunds));
    assert_eq!(ctx, before);
}

#[test]
fn planet_hop_is_for_the_operator_only() {
    let mut ctx = PlanetHop {
        to_planet: planet("ORNOPU", 1_000, 2),
        from_planet: planet("ORNOPU", 9_000, 7),
        manager: stranger(33),
    };
    let before = ctx.clone();
    assert_eq!(planet_hop(&mut ctx, 4_000), Err(ErrorCode::AuthorizationFailure));
    assert_eq!(ctx, before);
}

#[test]
fn planet_hop_needs_both_planets() {
    let mut ctx = PlanetHop {
        to_planet: planet("DORAZ", 1_000, 2),
        from_planet: planet("ORNOPU", 9_000, 7),
        manager: manager(33),
    };
    ctx.to_planet.lifecycle = Lifecycle::Closed;
    let before = ctx.clone();
    assert_eq!(planet_hop(&mut ctx, 4_000), Err(ErrorCode::AccountNotFound));
    assert_eq!(ctx, before);
    ctx.to_planet.lifecycle = Lifecycle::Active;
    ctx.from_planet.lifecycle = Lifecycle::Vacant;
    assert_eq!(planet_hop(&mut ctx, 4_000), Err(ErrorCode::AccountNotFound));
}

#[test]
fn planet_hop_is_rejected_when_the_destination_would_overflow() {
    let mut ctx = PlanetHop {
        to_planet: planet("DORAZ", u64::MAX - 3_999, 2),
        from_planet: planet("ORNOPU", 9_000, 7),
        manager: manager(33),
    };
    let before = ctx.clone();
    assert_eq!(planet_hop(&mut ctx, 4_000), Err(ErrorCode::ArithmeticOverflow));
    assert_eq!(ctx, before);
    ctx.to_planet.lamports = 0;
    ctx.to_planet.data.visits = u64::MAX;
    assert_eq!(planet_hop(&mut ctx, 4_000), Err(ErrorCode::ArithmeticOverflow));
}

#[test]
fn withdraw_of_all_that_the_planet_holds_is_rejected() {
    let mut ctx = WithdrawAccounts {
        from_planet: planet("ORNOPU", 9_000, 7),
        destination: stranger(12),
        manager: manager(33),
    };
    let before = ctx.clone();
    assert_eq!(withdraw(&mut ctx, 9_000), Err(ErrorCode::InsufficientFunds));
    assert_eq!(ctx, before);
    assert_eq!(withdraw(&mut ctx, 9_001), Err(ErrorCode::InsufficientFunds));
    assert_eq!(withdraw(&mut ctx, u64::MAX), Err(ErrorCode::InsufficientFunds));
    assert_eq!(ctx, before);
}

#[test]
fn withdraw_of_one_less_leaves_one() {
    let mut ctx = WithdrawAccounts {
        from_planet: planet("ORNOPU", 9_001, 7),
        destination: stranger(12),
        manager: manager(33),
    };
    let before = ctx.clone();
    assert_eq!(withdraw(&mut ctx, 9_000), Ok(()));
    assert_eq!(ctx.from_planet.lamports, 1);
    assert_eq!(ctx.destination.lamports, 9_012);
    assert_eq!(ctx.from_planet.data, before.from_planet.data);
    assert_eq!(ctx.destination.key, before.destination.key);
    assert_eq!(ctx.manager, before.manager);
}

#[test]
fn withdraw_from_an_empty_planet_is_rejected() {
    let mut ctx = WithdrawAccounts {
        from_planet: planet("ORNOPU", 0, 7),
        destination: stranger(12),
        manager: manager(33),
    };
    assert_eq!(withdraw(&mut ctx, 0), Err(ErrorCode::InsufficientFunds));
    ctx.from_planet.lamports = 1;
    assert_eq!(withdraw(&mut ctx, 0), Ok(()));
    assert_eq!(ctx.from_planet.lamports, 1);
}

#[test]
fn withdraw_is_for_the_operator_only() {
    let mut ctx = WithdrawAccounts {
        from_planet: planet("ORNOPU", 9_001, 7),
        destination: stranger(12),
        manager: treasury(33),
    };
    let before = ctx.clone();
    assert_eq!(withdraw(&mut ctx, 9_000), Err(ErrorCode::AuthorizationFailure));
    assert_eq!(ctx, before);
}

#[test]
fn withdraw_needs_the_planet() {
    let mut ctx = WithdrawAccounts {
        from_planet: planet("ORNOPU", 9_001, 7),
        destination: stranger(12),
        manager: manager(33),
    };
    ctx.from_planet.lifecycle = Lifecycle::Closed;
    let before = ctx.clone();
    assert_eq!(withdraw(&mut ctx, 9_000), Err(ErrorCode::AccountNotFound));
    assert_eq!(ctx, before);
}

#[test]
fn withdraw_is_rejected_when_the_destination_would_overflow() {
    let mut ctx = WithdrawAccounts {
        from_planet: planet("ORNOPU", 9_001, 7),
        destination: stranger(u64::MAX - 8_999),
        manager: manager(33),
    };
    let before = ctx.clone();
    assert_eq!(withdraw(&mut ctx, 9_000), Err(ErrorCode::ArithmeticOverflow));
    assert_eq!(ctx, before);
    ctx.destination.lamports = u64::MAX - 9_000;
    assert_eq!(withdraw(&mut ctx, 9_000), Ok(()));
    assert_eq!(ctx.destination.lamports, u64::MAX);
}
