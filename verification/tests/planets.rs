use oridion::planets::{contains_name, without_name};
use oridion::variables::{MANAGER_PUBKEY, PLANET_MIN_LAMPORTS};
use oridion::{
    create_planet, create_planet_at, delete_planet, Account, Address, CreatePlanet, DeletePlanet,
    ErrorCode, Lifecycle, Planet, Universe, Wallet,
};
use solana_program::pubkey::Pubkey;
use std::str::FromStr;

fn program_id() -> Address {
    Address::new(
        Pubkey::from_str("33J2bC6ZYvg8Y77MWULZEWpWRkxCoM2aziZ5f67dwBXi").unwrap().to_bytes(),
    )
}

fn manager(lamports: u64) -> Wallet {
    Wallet { key: Address::new(MANAGER_PUBKEY), lamports }
}

fn stranger(lamports: u64) -> Wallet {
    Wallet { key: Address::new([9u8; 32]), lamports }
}

fn universe_with(names: &[&str]) -> Account<Universe> {
    let mut data = Universe::blank();
    data.pda = Address::new([3u8; 32]);
    data.bp = 254;
    data.hpfe = 1_000_000;
    for name in names {
        data.p.push(name.to_string());
    }
    Account { lamports: 2_000_000, lifecycle: Lifecycle::Active, data }
}

fn vacant_planet(lamports: u64) -> Account<Planet> {
    Account { lamports, lifecycle: Lifecycle::Vacant, data: Planet::blank() }
}

fn planet(name: &str, lamports: u64, visits: u64) -> Account<Planet> {
    Account {
        lamports,
        lifecycle: Lifecycle::Active,
        data: Planet {
            name: name.to_string(),
            pda: Address::new([5u8; 32]),
            created: 1_700_000_000,
            bump: 255,
            visits,
        },
    }
}

fn names(list: &[&str]) -> Vec<String> {
    list.iter().map(|name| name.to_string()).collect()
}

#[test]
fn create_planet_writes_the_record_and_lists_the_name() {
    let mut ctx = CreatePlanet {
        planet: vacant_planet(PLANET_MIN_LAMPORTS),
        universe: universe_with(&["DORAZ"]),
        creator: manager(10),
    };
    let before = ctx.clone();
    let derived = Some((Address::new([6u8; 32]), 251));
    let result = create_planet_at(&mut ctx, "ORNOPU".to_string(), derived, 1_700_000_111);
    assert_eq!(result, Ok(()));
    assert_eq!(ctx.planet.lifecycle, Lifecycle::Active);
    assert_eq!(ctx.planet.lamports, PLANET_MIN_LAMPORTS);
    assert_eq!(
        ctx.planet.data,
        Planet {
            name: "ORNOPU".to_string(),
            pda: Address::new([6u8; 32]),
            created: 1_700_000_111,
            bump: 251,
            visits: 0,
        }
    );
    assert_eq!(ctx.universe.data.p, names(&["DORAZ", "ORNOPU"]));
    assert_eq!(ctx.universe.lamports, before.universe.lamports);
    assert_eq!(ctx.universe.data.hpfe, before.universe.data.hpfe);
    assert_eq!(ctx.creator, before.creator);
}

#[test]
fn create_planet_leaves_an_empty_account_empty() {
    let mut ctx =
        CreatePlanet { planet: vacant_planet(0), universe: universe_with(&[]), creator: manager(10) };
    let derived = Some((Address::new([6u8; 32]), 251));
    assert_eq!(create_planet_at(&mut ctx, "ORNOPU".to_string(), derived, 1), Ok(()));
    assert_eq!(ctx.planet.lamports, 0);
    assert_eq!(ctx.planet.data.visits, 0);
}

#[test]
fn create_planet_twice_is_rejected_and_leaves_the_list() {
    let id = program_id();
    let mut first =
        CreatePlanet { planet: vacant_planet(0), universe: universe_with(&[]), creator: manager(10) };
    assert_eq!(create_planet(&mut first, "ORNOPU".to_string(), &id, 1_700_000_111), Ok(()));
    assert_eq!(first.universe.data.p, names(&["ORNOPU"]));

    let mut second =
        CreatePlanet { planet: vacant_planet(0), universe: first.universe, creator: manager(10) };
    let before = second.clone();
    let result = create_planet(&mut second, "ORNOPU".to_string(), &id, 1_700_000_222);
    assert_eq!(result, Err(ErrorCode::DuplicateRegistration));
    assert_eq!(second.universe.data.p.len(), 1);
    assert_eq!(second, before);
}

#[test]
fn create_planet_in_a_used_account_is_rejected() {
    let derived = Some((Address::new([6u8; 32]), 251));
    let mut ctx = CreatePlanet {
        planet: planet("DORAZ", 5, 3),
        universe: universe_with(&["DORAZ"]),
        creator: manager(10),
    };
    let before = ctx.clone();
    let result = create_planet_at(&mut ctx, "ORNOPU".to_string(), derived, 1);
    assert_eq!(result, Err(ErrorCode::DuplicateRegistration));
    assert_eq!(ctx, before);

    ctx.planet = vacant_planet(0);
    ctx.planet.lifecycle = Lifecycle::Closed;
    let before = ctx.clone();
    let result = create_planet_at(&mut ctx, "ORNOPU".to_string(), derived, 1);
    assert_eq!(result, Err(ErrorCode::DuplicateRegistration));
    assert_eq!(ctx, before);
}

#[test]
fn create_planet_is_for_the_operator_only() {
    let mut ctx = CreatePlanet {
        planet: vacant_planet(0),
        universe: universe_with(&["ORNOPU"]),
        creator: stranger(10),
    };
    let before = ctx.clone();
    let result = create_planet(&mut ctx, "ORNOPU".to_string(), &program_id(), 1);
    assert_eq!(result, Err(ErrorCode::AuthorizationFailure));
    assert_eq!(ctx, before);
}

#[test]
fn create_planet_needs_a_universe() {
    let mut universe = universe_with(&[]);
    universe.lifecycle = Lifecycle::Vacant;
    let mut ctx = CreatePlanet { planet: vacant_planet(0), universe, creator: manager(10) };
    let before = ctx.clone();
    let result = create_planet(&mut ctx, "ORNOPU".to_string(), &program_id(), 1);
    assert_eq!(result, Err(ErrorCode::AccountNotFound));
    assert_eq!(ctx, before);
}

#[test]
fn create_planet_without_an_address_is_rejected() {
    let mut ctx =
        CreatePlanet { planet: vacant_planet(0), universe: universe_with(&[]), creator: manager(10) };
    let before = ctx.clone();
    assert_eq!(
        create_planet_at(&mut ctx, "ORNOPU".to_string(), None, 1),
        Err(ErrorCode::AddressDerivation)
    );
    assert_eq!(ctx, before);
    // a name of more than 32 bytes has no address
    let result = create_planet(&mut ctx, "O".repeat(33), &program_id(), 1);
    assert_eq!(result, Err(ErrorCode::AddressDerivation));
    assert_eq!(ctx, before);
}

#[test]
fn create_planet_takes_the_address_that_the_ledger_derives() {
    let id = Pubkey::from_str("33J2bC6ZYvg8Y77MWULZEWpWRkxCoM2aziZ5f67dwBXi").unwrap();
    let (expected, bump) = Pubkey::find_program_address(&[b"_PLA_", b"JEBU", b"_NET_"], &id);
    let mut ctx =
        CreatePlanet { planet: vacant_planet(0), universe: universe_with(&[]), creator: manager(10) };
    assert_eq!(create_planet(&mut ctx, "JEBU".to_string(), &program_id(), 77), Ok(()));
    assert_eq!(ctx.planet.data.pda.bytes, expected.to_bytes());
    assert_eq!(ctx.planet.data.bump, bump);
    assert_eq!(ctx.planet.data.name, "JEBU");
    assert_eq!(ctx.planet.data.created, 77);
}

#[test]
fn delete_planet_at_the_threshold_succeeds() {
    let mut ctx = DeletePlanet {
        planet: planet("DORAZ", PLANET_MIN_LAMPORTS, 12),
        universe: universe_with(&["ORNOPU", "DORAZ", "ANDORA"]),
        creator: manager(100),
    };
    let before = ctx.clone();
    assert_eq!(delete_planet(&mut ctx), Ok(()));
    assert_eq!(ctx.universe.data.p, names(&["ORNOPU", "ANDORA"]));
    assert_eq!(ctx.planet.lifecycle, Lifecycle::Closed);
    assert_eq!(ctx.planet.lamports, 0);
    assert_eq!(ctx.planet.data, Planet::blank());
    assert_eq!(ctx.creator.lamports, 100 + 1_593_840);
    assert_eq!(ctx.creator.key, before.creator.key);
    assert_eq!(ctx.universe.lamports, before.universe.lamports);
    assert_eq!(ctx.universe.data.hpfe, before.universe.data.hpfe);
}

#[test]
fn delete_planet_below_the_threshold_succeeds() {
    let mut ctx = DeletePlanet {
        planet: planet("DORAZ", 0, 0),
        universe: universe_with(&["DORAZ"]),
        creator: manager(100),
    };
    assert_eq!(delete_planet(&mut ctx), Ok(()));
    assert!(ctx.universe.data.p.is_empty());
    assert_eq!(ctx.creator.lamports, 100);
}

#[test]
fn delete_planet_above_the_threshold_is_rejected() {
    let mut ctx = DeletePlanet {
        planet: planet("DORAZ", PLANET_MIN_LAMPORTS + 1, 12),
        universe: universe_with(&["ORNOPU", "DORAZ"]),
        creator: manager(100),
    };
    let before = ctx.clone();
    assert_eq!(delete_planet(&mut ctx), Err(ErrorCode::NonEmptyOnDeletion));
    assert_eq!(ctx, before);
    assert_eq!(PLANET_MIN_LAMPORTS, 1_593_840);
}

#[test]
fn delete_planet_is_for_the_operator_only() {
    let mut ctx = DeletePlanet {
        planet: planet("DORAZ", 10, 12),
        universe: universe_with(&["DORAZ"]),
        creator: stranger(100),
    };
    let before = ctx.clone();
    assert_eq!(delete_planet(&mut ctx), Err(ErrorCode::AuthorizationFailure));
    assert_eq!(ctx, before);
}

#[test]
fn delete_planet_needs_a_planet_and_a_universe() {
    let mut ctx = DeletePlanet {
        planet: vacant_planet(10),
        universe: universe_with(&["DORAZ"]),
        creator: manager(100),
    };
    let before = ctx.clone();
    assert_eq!(delete_planet(&mut ctx), Err(ErrorCode::AccountNotFound));
    assert_eq!(ctx, before);

    let mut universe = universe_with(&["DORAZ"]);
    universe.lifecycle = Lifecycle::Closed;
    let mut ctx = DeletePlanet { planet: planet("DORAZ", 10, 12), universe, creator: manager(100) };
    let before = ctx.clone();
    assert_eq!(delete_planet(&mut ctx), Err(ErrorCode::AccountNotFound));
    assert_eq!(ctx, before);
}

#[test]
fn delete_planet_is_rejected_when_the_caller_cannot_take_the_lamports() {
    let mut ctx = DeletePlanet {
        planet: planet("DORAZ", 10, 12),
        universe: universe_with(&["DORAZ"]),
        creator: manager(u64::MAX - 9),
    };
    let before = ctx.clone();
    assert_eq!(delete_planet(&mut ctx), Err(ErrorCode::ArithmeticOverflow));
    assert_eq!(ctx, before);
    ctx.creator.lamports = u64::MAX - 10;
    assert_eq!(delete_planet(&mut ctx), Ok(()));
    assert_eq!(ctx.creator.lamports, u64::MAX);
}

#[test]
fn a_deleted_planet_cannot_be_deleted_again() {
    let mut ctx = DeletePlanet {
        planet: planet("DORAZ", 10, 12),
        universe: universe_with(&["DORAZ"]),
        creator: manager(100),
    };
    assert_eq!(delete_planet(&mut ctx), Ok(()));
    let before = ctx.clone();
    assert_eq!(delete_planet(&mut ctx), Err(ErrorCode::AccountNotFound));
    assert_eq!(ctx, before);
}

#[test]
fn a_deleted_name_can_be_created_again() {
    let mut gone = DeletePlanet {
        planet: planet("DORAZ", 10, 12),
        universe: universe_with(&["DORAZ", "JEBU"]),
        creator: manager(100),
    };
    assert_eq!(delete_planet(&mut gone), Ok(()));
    let mut ctx =
        CreatePlanet { planet: vacant_planet(0), universe: gone.universe, creator: manager(10) };
    let derived = Some((Address::new([6u8; 32]), 251));
    assert_eq!(create_planet_at(&mut ctx, "DORAZ".to_string(), derived, 5), Ok(()));
    assert_eq!(ctx.universe.data.p, names(&["JEBU", "DORAZ"]));
}

#[test]
fn names_are_found_and_removed_by_their_characters() {
    let list = names(&["ORNOPU", "DORAZ", "ANDORA", "DORAZ"]);
    assert!(contains_name(&list, &"ANDORA".to_string()));
    assert!(!contains_name(&list, &"ANDOR".to_string()));
    assert!(!contains_name(&Vec::new(), &"ANDORA".to_string()));
    assert_eq!(without_name(&list, &"DORAZ".to_string()), names(&["ORNOPU", "ANDORA"]));
    assert_eq!(without_name(&list, &"JEBU".to_string()), list);
    assert_eq!(without_name(&Vec::new(), &"JEBU".to_string()), Vec::<String>::new());
}
