use shared_db::constants::{MAX_PLATFORM_LEVEL, STARTING_BALANCE, SYSTEM_RESOURCE_ID};
use shared_db::game::{parse_platform_type, AppRepositories, GameAction, GameError, Resource};
use shared_db::helper::{get_platform_cost, get_platform_profitability, get_platform_upgrade_cost};
use shared_db::ids::parse_id;
use shared_db::model::{
    BeerModel, CreateBeerModel, CreateMoneyTransactionModel, OilPlatformModel, PlatformType,
};
use shared_db::schema::{GenericResponse, PlatformListResponse};
use shared_db::settlement::{on_event, settlement_tick, LoopAction, LoopEvent, LoopState};

const NOW: i64 = 1_700_000_000;

fn id(text: &str) -> u128 {
    parse_id(text).unwrap()
}

fn game_with_balance(amount: i64) -> AppRepositories {
    let mut g = AppRepositories::new();
    g.finances_repo
        .create(CreateMoneyTransactionModel { item_id: None, amount, reduces_balance: false }, NOW)
        .unwrap();
    g
}

fn add_platform(g: &mut AppRepositories, text: &str, t: PlatformType, level: i16, profitability: i64) -> u128 {
    let pid = id(text);
    g.platform_repo
        .load(OilPlatformModel {
            id: pid,
            platform_type: t,
            platform_level: level,
            profitability,
            created_at: Some(NOW),
            updated_at: Some(NOW),
        })
        .unwrap();
    pid
}

fn add_beer(g: &mut AppRepositories, text: &str, cost: i64, purchased: bool) -> u128 {
    let bid = id(text);
    g.beer_repo
        .load(BeerModel {
            id: bid,
            title: "Lager".to_string(),
            description: "Cold".to_string(),
            thumbnail: "lager.png".to_string(),
            cost,
            purchased: Some(purchased),
            created_at: Some(NOW),
            updated_at: Some(NOW),
        })
        .unwrap();
    bid
}

const P1: &str = "a63169d5-4107-4a0a-9d82-dad11b6500b3";
const P2: &str = "226d0256-e280-4262-ab57-b1e30129805d";
const B1: &str = "effaf31e-aedc-42de-adce-322d73ef69d0";
const B2: &str = "8983e5a3-f6b5-40c5-81a2-c02a498116fc";

#[test]
fn scenario_empty_ledger_then_credit() {
    let mut g = AppRepositories::new();
    assert_eq!(g.finances_repo.get_available_balance(), Ok(0));
    g.finances_repo
        .create(CreateMoneyTransactionModel { item_id: None, amount: 1000, reduces_balance: false }, NOW)
        .unwrap();
    assert_eq!(g.finances_repo.get_available_balance(), Ok(1000));
}

#[test]
fn scenario_create_rig_platform() {
    let mut g = game_with_balance(2000);
    let new_id = id("5e6f7a8b-9c0d-4e1f-8a2b-3c4d5e6f7a8b");
    let p = g.create_platform_at(PlatformType::Rig, new_id, NOW + 1).unwrap();
    assert_eq!(p.id, new_id);
    assert_eq!(p.platform_type, PlatformType::Rig);
    assert_eq!(p.platform_level, 0);
    assert_eq!(p.profitability, 5);
    assert_eq!(g.finances_repo.get_available_balance(), Ok(1000));
    let ledger = g.finances_repo.get_all();
    assert_eq!(ledger.len(), 2);
    assert_eq!(ledger[1].amount, 1000);
    assert!(ledger[1].reduces_balance);
    assert_eq!(ledger[1].item_id, new_id);
    assert_eq!(g.platform_repo.get_all(), vec![p]);
}

#[test]
fn scenario_upgrade_rig_from_level_zero() {
    let mut g = game_with_balance(1000);
    let pid = add_platform(&mut g, P1, PlatformType::Rig, 0, 5);
    let p = g.upgrade_platform_at(pid, NOW + 5).unwrap();
    assert_eq!(p.platform_level, 1);
    assert_eq!(p.profitability, 10);
    assert_eq!(p.updated_at, Some(NOW + 5));
    let ledger = g.finances_repo.get_all();
    assert_eq!(ledger.len(), 2);
    assert_eq!(ledger[1].amount, 100);
    assert!(ledger[1].reduces_balance);
    assert_eq!(ledger[1].item_id, pid);
    assert_eq!(g.finances_repo.get_available_balance(), Ok(900));
}

#[test]
fn scenario_upgrade_at_max_level() {
    let mut g = game_with_balance(100_000);
    let pid = add_platform(&mut g, P1, PlatformType::Pump, MAX_PLATFORM_LEVEL, 550);
    let r = g.upgrade_platform_at(pid, NOW + 5);
    assert!(matches!(r, Err(GameError::MaxLevelReached)));
    let p = g.platform_repo.get_by_id(pid).unwrap();
    assert_eq!(p.platform_level, 10);
    assert_eq!(p.profitability, 550);
    assert_eq!(p.updated_at, Some(NOW));
    assert_eq!(g.finances_repo.get_all().len(), 1);
}

#[test]
fn scenario_purchase_without_funds() {
    let mut g = game_with_balance(500);
    let bid = add_beer(&mut g, B1, 1000, false);
    let r = g.purchase_beer_at(bid, NOW + 1);
    assert!(matches!(r, Err(GameError::InsufficientFunds)));
    assert_eq!(g.beer_repo.get_by_id(bid).unwrap().purchased, Some(false));
    assert_eq!(g.finances_repo.get_all().len(), 1);
}

#[test]
fn scenario_settlement_tick() {
    let mut g = game_with_balance(1000);
    add_platform(&mut g, P1, PlatformType::Rig, 0, 5);
    add_platform(&mut g, P2, PlatformType::Pump, 0, 50);
    assert_eq!(g.platform_repo.get_period_platform_earnings(), Ok(55));
    let data = settlement_tick(&mut g, NOW + 10);
    assert_eq!(data.just_earned, 55);
    assert_eq!(data.balance, 1055);
    let ledger = g.finances_repo.get_all();
    assert_eq!(ledger.len(), 2);
    assert_eq!(ledger[1].amount, 55);
    assert!(!ledger[1].reduces_balance);
    assert_eq!(ledger[1].item_id, SYSTEM_RESOURCE_ID);
}

#[test]
fn settlement_tick_without_platforms_credits_zero() {
    let mut g = AppRepositories::new();
    let data = settlement_tick(&mut g, NOW);
    assert_eq!(data.just_earned, 0);
    assert_eq!(data.balance, 0);
    assert_eq!(g.finances_repo.get_all().len(), 1);
}

#[test]
fn settlement_loop_publishes_until_channel_closes() {
    let mut g = game_with_balance(10);
    add_platform(&mut g, P1, PlatformType::Ground, 0, 15);
    let (state, action) = on_event(LoopState::Ticking, &mut g, LoopEvent::TimerFired, NOW);
    assert_eq!(state, LoopState::Ticking);
    match action {
        LoopAction::Publish(d) => {
            assert_eq!(d.just_earned, 15);
            assert_eq!(d.balance, 25);
        }
        LoopAction::Exit => panic!("a tick must publish"),
    }
    let (state, action) = on_event(state, &mut g, LoopEvent::ChannelClosed, NOW);
    assert_eq!((state, action), (LoopState::Stopped, LoopAction::Exit));
    let (state, action) = on_event(state, &mut g, LoopEvent::TimerFired, NOW);
    assert_eq!((state, action), (LoopState::Stopped, LoopAction::Exit));
    assert_eq!(g.finances_repo.get_all().len(), 2);
}

#[test]
fn second_purchase_is_rejected_without_ledger_entry() {
    let mut g = game_with_balance(1000);
    let bid = add_beer(&mut g, B1, 300, false);
    let first = g.purchase_beer_at(bid, NOW + 1).unwrap();
    assert_eq!(first.beer.purchased, Some(true));
    assert_eq!(g.finances_repo.get_all().len(), 2);
    let second = g.purchase_beer_at(bid, NOW + 2);
    assert!(matches!(second, Err(GameError::AlreadyPurchased)));
    assert_eq!(g.finances_repo.get_all().len(), 2);
    assert_eq!(g.finances_repo.get_available_balance(), Ok(700));
}

#[test]
fn purchase_of_last_beer_wins_the_game() {
    let mut g = game_with_balance(1000);
    let b1 = add_beer(&mut g, B1, 100, false);
    let b2 = add_beer(&mut g, B2, 200, false);
    let first = g.purchase_beer_at(b1, NOW).unwrap();
    assert!(!first.game_won);
    let second = g.purchase_beer_at(b2, NOW).unwrap();
    assert!(second.game_won);
    assert_eq!(g.finances_repo.total_spent(), 300);
    assert_eq!(g.finances_repo.total_earned(), 1000);
}

#[test]
fn funds_gate_leaves_everything_unchanged() {
    let mut g = game_with_balance(99);
    let pid = add_platform(&mut g, P1, PlatformType::Rig, 3, 20);
    let bid = add_beer(&mut g, B1, 100, false);
    let platforms = g.platform_repo.get_all();
    let beers = g.beer_repo.get_all().len();
    for action in [
        GameAction::CreatePlatform(PlatformType::Rig),
        GameAction::UpgradePlatform(pid),
        GameAction::PurchaseItem(bid),
    ] {
        let r = g.purchase_or_upgrade_at(action, id(P2), NOW);
        assert!(matches!(r, Err(GameError::InsufficientFunds)));
        let r = g.purchase_or_upgrade(action);
        assert!(matches!(r, Err(GameError::InsufficientFunds)));
    }
    assert_eq!(g.platform_repo.get_all(), platforms);
    assert_eq!(g.beer_repo.get_all().len(), beers);
    assert_eq!(g.beer_repo.get_by_id(bid).unwrap().purchased, Some(false));
    assert_eq!(g.finances_repo.get_all().len(), 1);
}

#[test]
fn dispatcher_reports_each_outcome() {
    let mut g = game_with_balance(20_000);
    let bid = add_beer(&mut g, B1, 100, false);
    match g.purchase_or_upgrade(GameAction::CreatePlatform(PlatformType::Ground)).unwrap().resource {
        Resource::Platform(p) => {
            assert_ne!(p.id, 0);
            assert_eq!(p.profitability, 15);
            let up = g.purchase_or_upgrade(GameAction::UpgradePlatform(p.id)).unwrap();
            match up.resource {
                Resource::Platform(q) => {
                    assert_eq!(q.platform_level, 1);
                    assert_eq!(q.profitability, 30);
                }
                Resource::Beer(_) => panic!("an upgrade returns the platform"),
            }
        }
        Resource::Beer(_) => panic!("building returns the platform"),
    }
    let bought = g.purchase_or_upgrade(GameAction::PurchaseItem(bid)).unwrap();
    assert!(bought.game_won);
    assert_eq!(g.finances_repo.get_available_balance(), Ok(20_000 - 10_000 - 500 - 100));
}

#[test]
fn missing_targets_are_not_found() {
    let mut g = game_with_balance(5000);
    let missing = id(P2);
    assert!(matches!(g.upgrade_platform_at(missing, NOW), Err(GameError::NotFound)));
    assert!(matches!(g.purchase_beer_at(missing, NOW), Err(GameError::NotFound)));
    assert_eq!(g.finances_repo.get_all().len(), 1);
}

#[test]
fn creating_under_a_taken_id_is_a_storage_error() {
    let mut g = game_with_balance(5000);
    let pid = add_platform(&mut g, P1, PlatformType::Rig, 0, 5);
    assert!(matches!(g.create_platform_at(PlatformType::Rig, pid, NOW), Err(GameError::StorageError)));
    assert!(matches!(g.create_platform_at(PlatformType::Rig, 0, NOW), Err(GameError::StorageError)));
    assert_eq!(g.finances_repo.get_available_balance(), Ok(5000));
}

#[test]
fn unreadable_balance_is_a_storage_error() {
    let mut g = AppRepositories::new();
    for _ in 0..2 {
        g.finances_repo
            .create(CreateMoneyTransactionModel { item_id: None, amount: i64::MAX, reduces_balance: false }, NOW)
            .unwrap();
    }
    let r = g.create_platform_at(PlatformType::Rig, id(P1), NOW);
    assert!(matches!(r, Err(GameError::StorageError)));
    assert_eq!(g.platform_repo.get_all().len(), 0);
}

#[test]
fn cost_table() {
    assert_eq!(get_platform_cost(PlatformType::Rig), 1000);
    assert_eq!(get_platform_cost(PlatformType::Ground), 10000);
    assert_eq!(get_platform_cost(PlatformType::Pump), 100000);
    assert_eq!(get_platform_upgrade_cost(PlatformType::Rig), 100);
    assert_eq!(get_platform_upgrade_cost(PlatformType::Ground), 500);
    assert_eq!(get_platform_upgrade_cost(PlatformType::Pump), 1000);
    assert_eq!(get_platform_profitability(PlatformType::Rig), 5);
    assert_eq!(get_platform_profitability(PlatformType::Ground), 15);
    assert_eq!(get_platform_profitability(PlatformType::Pump), 50);
}

#[test]
fn platform_kind_names() {
    assert_eq!(PlatformType::parse("Rig"), Some(PlatformType::Rig));
    assert_eq!(PlatformType::parse("Ground"), Some(PlatformType::Ground));
    assert_eq!(PlatformType::parse("Pump"), Some(PlatformType::Pump));
    assert_eq!(PlatformType::parse("rig"), None);
    assert_eq!(PlatformType::parse(""), None);
    assert_eq!(PlatformType::Ground.to_string(), "Ground");
    assert!(matches!(parse_platform_type("Pump"), Ok(PlatformType::Pump)));
    assert!(matches!(parse_platform_type("Tanker"), Err(GameError::InvalidKind)));
}

#[test]
fn ids_parse_from_text() {
    assert_eq!(parse_id("00000000-0000-0000-0000-000000000001"), Ok(1));
    assert_eq!(
        parse_id("a63169d5-4107-4a0a-9d82-dad11b6500b3"),
        Ok(0xa63169d5_4107_4a0a_9d82_dad11b6500b3)
    );
    assert_eq!(parse_id("not-a-uuid"), Err(GameError::InvalidId));
    assert_eq!(parse_id(""), Err(GameError::InvalidId));
}

#[test]
fn error_messages_and_classes() {
    assert_eq!(GameError::InsufficientFunds.to_string(), "Not enough funds for purchase");
    assert_eq!(GameError::InvalidId.to_string(), "Invalid ID provided");
    assert!(GameError::MaxLevelReached.is_client_error());
    assert!(GameError::AlreadyPurchased.is_client_error());
    assert!(!GameError::StorageError.is_client_error());
    let resp = GenericResponse::from_error(GameError::AlreadyPurchased);
    assert_eq!(resp.status, "error");
    assert_eq!(resp.message, "You have already purchased this beer");
    let list = PlatformListResponse::success(vec![]);
    assert_eq!(list.results, 0);
}

#[test]
fn seeding_fills_only_empty_stores() {
    let mut g = AppRepositories::new();
    let catalog = vec![
        CreateBeerModel { title: "A".to_string(), thumbnail: "a.png".to_string(), description: "a".to_string(), cost: 100 },
        CreateBeerModel { title: "B".to_string(), thumbnail: "b.png".to_string(), description: "b".to_string(), cost: 15000 },
    ];
    let beers = vec![(id(B1), catalog[0].clone()), (id(B2), catalog[1].clone())];
    g.seed_game_entities_at(&beers, id(P1), NOW);
    let all = g.beer_repo.get_all();
    assert_eq!(all.len(), 2);
    assert_eq!(all[1].title, "B");
    assert_eq!(all[1].cost, 15000);
    assert_eq!(all[0].purchased, Some(false));
    let platforms = g.platform_repo.get_all();
    assert_eq!(platforms.len(), 1);
    assert_eq!(platforms[0].platform_type, PlatformType::Rig);
    assert_eq!(platforms[0].profitability, 5);
    assert_eq!(g.finances_repo.get_available_balance(), Ok(STARTING_BALANCE));
    // a second seeding changes nothing
    g.seed_game_entities(&catalog);
    assert_eq!(g.beer_repo.get_all().len(), 2);
    assert_eq!(g.platform_repo.get_all().len(), 1);
    assert_eq!(g.finances_repo.get_all().len(), 1);
}

#[test]
fn seeding_with_fresh_ids() {
    let mut g = AppRepositories::new();
    let catalog = vec![
        CreateBeerModel { title: "A".to_string(), thumbnail: "a.png".to_string(), description: "a".to_string(), cost: 100 },
    ];
    g.seed_game_entities(&catalog);
    let beers = g.beer_repo.get_all();
    assert_eq!(beers.len(), 1);
    assert_ne!(beers[0].id, 0);
    let platforms = g.platform_repo.get_all();
    assert_ne!(platforms[0].id, 0);
    assert_ne!(platforms[0].id, beers[0].id);
    assert!(platforms[0].created_at.unwrap() > 1_600_000_000);
}

#[test]
fn seeding_twice_is_seeding_once() {
    let catalog = vec![
        CreateBeerModel { title: "B".to_string(), thumbnail: "b.png".to_string(), description: "b".to_string(), cost: 15000 },
        CreateBeerModel { title: "A".to_string(), thumbnail: "a.png".to_string(), description: "a".to_string(), cost: 100 },
    ];
    let mut g = AppRepositories::new();
    g.seed_game_entities(&catalog);
    let beers: Vec<(u128, i64)> = g.beer_repo.get_all().iter().map(|b| (b.id, b.cost)).collect();
    let platforms = g.platform_repo.get_all();
    let ledger = g.finances_repo.get_all();
    assert_eq!(beers.iter().map(|b| b.1).collect::<Vec<_>>(), vec![100, 15000]);
    g.seed_game_entities(&catalog);
    let again: Vec<(u128, i64)> = g.beer_repo.get_all().iter().map(|b| (b.id, b.cost)).collect();
    assert_eq!(again, beers);
    assert_eq!(g.platform_repo.get_all(), platforms);
    assert_eq!(g.finances_repo.get_all(), ledger);
}
