use shared_db::ids::parse_id;
use shared_db::model::BeerModel;
use shared_db::repo::beer_repo::{BeerError, BeerRepo};

fn beer(id: &str, n: u32, cost: i64, purchased: bool) -> BeerModel {
    BeerModel {
        id: parse_id(id).unwrap(),
        title: format!("Beer {}", n),
        description: format!("Description {}", n),
        thumbnail: format!("img_{}.png", n),
        cost,
        purchased: Some(purchased),
        created_at: Some(1_700_000_000),
        updated_at: Some(1_700_000_000),
    }
}

fn beers_fixture() -> BeerRepo {
    let mut repo = BeerRepo::new();
    repo.load(beer("8983e5a3-f6b5-40c5-81a2-c02a498116fc", 1, 5, true)).unwrap();
    repo.load(beer("effaf31e-aedc-42de-adce-322d73ef69d0", 2, 10, false)).unwrap();
    repo.load(beer("0b6a0d4c-8a4e-4f0e-9a43-5f1b8e1f2a11", 3, 15, false)).unwrap();
    repo.load(beer("7d3f6a2e-1c4b-4e8a-b1d2-9e0f3a4b5c6d", 4, 20, false)).unwrap();
    repo
}

#[test]
fn beer_repo_unit_tests_test_get_all() {
    let beer_repo = beers_fixture();
    let beers = beer_repo.get_all();
    assert_eq!(beers.len(), 4);
}

#[test]
fn test_get_by_id_success() {
    let beer_repo = beers_fixture();
    let beer_id = parse_id("8983e5a3-f6b5-40c5-81a2-c02a498116fc").unwrap();
    let result = beer_repo.get_by_id(beer_id);
    assert!(result.is_ok());
    let beer = result.unwrap();
    assert_eq!(beer.title, "Beer 1");
    assert_eq!(beer.description, "Description 1");
    assert_eq!(beer.thumbnail, "img_1.png");
    assert_eq!(beer.cost, 5);
    assert_eq!(beer.purchased, Some(true));
}

#[test]
fn test_get_by_id_fail() {
    let beer_repo = beers_fixture();
    // beer with such id does not exist
    let beer_id = parse_id("11111111-2222-4333-8444-555555555555").unwrap();
    let result = beer_repo.get_by_id(beer_id);
    assert!(result.is_err());
    assert_eq!(result.unwrap_err(), BeerError::NotFound);
}

#[test]
fn test_purchase_success() {
    let mut beer_repo = beers_fixture();
    let beer_id = parse_id("effaf31e-aedc-42de-adce-322d73ef69d0").unwrap();
    let beer = beer_repo.get_by_id(beer_id).unwrap();
    assert_eq!(beer.purchased, Some(false));
    let result = beer_repo.purchase(beer_id);
    assert!(result.is_ok());
    let beer = beer_repo.get_by_id(beer_id).unwrap();
    assert_eq!(beer.purchased, Some(true));
}

#[test]
fn test_purchase_fail() {
    let mut beer_repo = beers_fixture();
    let beer_id = parse_id("8983e5a3-f6b5-40c5-81a2-c02a498116fc").unwrap();
    let beer = beer_repo.get_by_id(beer_id).unwrap();
    assert_eq!(beer.purchased, Some(true));
    let result = beer_repo.purchase(beer_id);
    assert!(result.is_err());
    assert_eq!(result.unwrap_err().to_string(), "Beer already purchased");
}

#[test]
fn beer_load_refuses_duplicate_nil_and_negative_cost() {
    let mut beer_repo = beers_fixture();
    let dup = beer("8983e5a3-f6b5-40c5-81a2-c02a498116fc", 9, 1, false);
    assert_eq!(beer_repo.load(dup).unwrap_err(), BeerError::OtherError);
    let mut nil = beer("effaf31e-aedc-42de-adce-322d73ef69d0", 9, 1, false);
    nil.id = 0;
    assert_eq!(beer_repo.load(nil).unwrap_err(), BeerError::OtherError);
    let negative = beer("99999999-aaaa-4bbb-8ccc-dddddddddddd", 9, -1, false);
    assert_eq!(beer_repo.load(negative).unwrap_err(), BeerError::OtherError);
    assert_eq!(beer_repo.len(), 4);
}

#[test]
fn beer_all_purchased_only_when_every_beer_bought() {
    let mut beer_repo = beers_fixture();
    assert!(!beer_repo.all_purchased());
    for id in [
        "effaf31e-aedc-42de-adce-322d73ef69d0",
        "0b6a0d4c-8a4e-4f0e-9a43-5f1b8e1f2a11",
        "7d3f6a2e-1c4b-4e8a-b1d2-9e0f3a4b5c6d",
    ] {
        beer_repo.purchase(parse_id(id).unwrap()).unwrap();
    }
    assert!(beer_repo.all_purchased());
    assert!(BeerRepo::new().all_purchased());
}

#[test]
fn beer_error_messages() {
    assert_eq!(BeerError::NotFound.to_string(), "Beer not found");
    assert_eq!(BeerError::OtherError.to_string(), "Other database-related error");
}

#[test]
fn beers_are_listed_by_cost() {
    let mut beer_repo = BeerRepo::new();
    beer_repo.load(beer("7d3f6a2e-1c4b-4e8a-b1d2-9e0f3a4b5c6d", 1, 20, false)).unwrap();
    beer_repo.load(beer("0b6a0d4c-8a4e-4f0e-9a43-5f1b8e1f2a11", 2, 10, false)).unwrap();
    beer_repo.load(beer("effaf31e-aedc-42de-adce-322d73ef69d0", 3, 20, true)).unwrap();
    let costs: Vec<i64> = beer_repo.get_all().iter().map(|b| b.cost).collect();
    assert_eq!(costs, vec![10, 20, 20]);
    let titles: Vec<String> = beer_repo.get_all().into_iter().map(|b| b.title).collect();
    assert_eq!(titles, vec!["Beer 2", "Beer 1", "Beer 3"]);
}
