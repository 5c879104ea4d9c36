use starwars::credits::CreditBatch;
use starwars::data::{APICharacter, StarWarsAPI};
use starwars::models::{Character, Episode};
use starwars::{MutationRoot, QueryRoot};

fn character_name(c: &Character) -> String {
    match c {
        Character::Human(h) => h.name().to_string(),
        Character::Droid(d) => d.name().to_string(),
    }
}

fn friend_names(c: &Character, api: &StarWarsAPI) -> Vec<String> {
    let friends = match c {
        Character::Human(h) => h.friends(api),
        Character::Droid(d) => d.friends(api),
    };
    friends.iter().map(character_name).collect()
}

#[test]
fn seeded_slots_resolve_to_inserted_records() {
    let api = StarWarsAPI::new();
    let names = [
        "Luke Skywalker",
        "Darth Vader",
        "Han Solo",
        "Leia Organa",
        "Wilhuff Tarkin",
        "R2-D2",
        "C-3PO",
    ];
    for (slot, name) in names.iter().enumerate() {
        let c = api.get_character(slot).unwrap();
        assert_eq!(c.name, *name);
        assert_eq!(c.id, (slot + 1).to_string());
    }
    assert!(api.get_character(7).is_none());
    assert_eq!(api.get_starship_by_idx(0).unwrap().name, "X-Wing");
    assert_eq!(api.get_starship_by_idx(4).unwrap().name, "Millenium Falcon");
    assert!(api.get_starship_by_idx(5).is_none());
    assert_eq!(api.get_planet_by_idx(0).unwrap().name, "Tatooine");
    assert_eq!(api.get_planet_by_idx(1).unwrap().population, 2_000_000_000);
    assert!(api.get_planet_by_idx(2).is_none());
}

#[test]
fn hero_has_two_values() {
    let api = StarWarsAPI::new();
    let q = QueryRoot;
    for ep in [Some(Episode::Empire), None] {
        match q.hero(&api, ep) {
            Character::Human(h) => assert_eq!(h.name(), "Luke Skywalker"),
            Character::Droid(_) => panic!("expected the human hero"),
        }
    }
    for ep in [Episode::NewHope, Episode::Jedi] {
        match q.hero(&api, Some(ep)) {
            Character::Droid(d) => assert_eq!(d.name(), "R2-D2"),
            Character::Human(_) => panic!("expected the droid hero"),
        }
    }
    assert_eq!(api.get_hero(Episode::Empire).name, "Luke Skywalker");
    assert_eq!(api.get_hero(Episode::Jedi).name, "R2-D2");
}

#[test]
fn category_lookup_respects_discriminator() {
    let api = StarWarsAPI::new();
    for id in 1..=7 {
        let id = id.to_string();
        if let Some(h) = api.get_human(id.clone()) {
            assert!(h.is_human);
        }
        if let Some(d) = api.get_droid(id.clone()) {
            assert!(!d.is_human);
        }
    }
    assert!(api.get_human("6".to_string()).is_none());
    assert_eq!(api.get_droid("6".to_string()).unwrap().name, "R2-D2");
    assert!(api.get_droid("1".to_string()).is_none());
    assert_eq!(api.get_human("1".to_string()).unwrap().name, "Luke Skywalker");
}

#[test]
fn humans_and_droids_in_insertion_order() {
    let api = StarWarsAPI::new();
    let q = QueryRoot;
    let humans: Vec<String> = q.humans(&api).iter().map(|h| h.name().to_string()).collect();
    assert_eq!(humans, vec!["Luke Skywalker", "Darth Vader", "Han Solo", "Leia Organa", "Wilhuff Tarkin"]);
    let droids: Vec<String> = q.droids(&api).iter().map(|d| d.name().to_string()).collect();
    assert_eq!(droids, vec!["R2-D2", "C-3PO"]);
    assert_eq!(api.get_humans().len(), 5);
    assert_eq!(api.get_droids().len(), 2);
}

#[test]
fn seeded_friend_lists_are_symmetric() {
    let api = StarWarsAPI::new();
    let q = QueryRoot;
    let rebels = ["1", "3", "4"];
    let all = ["Luke Skywalker", "Han Solo", "Leia Organa", "R2-D2", "C-3PO"];
    for id in rebels {
        let h = q.human(&api, id.to_string()).unwrap();
        let names = friend_names(&Character::Human(h), &api);
        assert_eq!(names.len(), 4);
        let me = q.human(&api, id.to_string()).unwrap().name().to_string();
        for other in all.iter().filter(|n| **n != me) {
            assert!(names.iter().any(|n| n == other));
        }
    }
    for id in ["6", "7"] {
        let d = q.droid(&api, id.to_string()).unwrap();
        let me = d.name().to_string();
        let names = friend_names(&Character::Droid(d), &api);
        assert_eq!(names.len(), 4);
        for other in all.iter().filter(|n| **n != me) {
            assert!(names.iter().any(|n| n == other));
        }
    }
    let vader = q.human(&api, "2".to_string()).unwrap();
    assert_eq!(friend_names(&Character::Human(vader), &api), vec!["Wilhuff Tarkin"]);
    let tarkin = q.human(&api, "5".to_string()).unwrap();
    assert_eq!(friend_names(&Character::Human(tarkin), &api), vec!["Darth Vader"]);
}

#[test]
fn unknown_ids_are_absent() {
    let api = StarWarsAPI::new();
    let q = QueryRoot;
    for id in ["", "8", "99"] {
        assert!(q.human(&api, id.to_string()).is_none());
        assert!(q.droid(&api, id.to_string()).is_none());
        assert!(api.get_human(id.to_string()).is_none());
        assert!(api.get_droid(id.to_string()).is_none());
    }
    assert!(q.starship(&api, "6".to_string()).is_none());
    assert!(q.starship(&api, String::new()).is_none());
}

#[test]
fn credit_batch_omits_missing_ids() {
    let api = StarWarsAPI::new();
    let q = QueryRoot;
    let batch = CreditBatch::from_rows(vec![("4".to_string(), 42)]);
    assert_eq!(batch.get(&"4".to_string()), Some(42));
    assert_eq!(batch.get(&"5".to_string()), None);
    let leia = q.human(&api, "4".to_string()).unwrap();
    assert_eq!(leia.credits(&batch), Some(42));
    let tarkin = q.human(&api, "5".to_string()).unwrap();
    assert_eq!(tarkin.credits(&batch), None);
}

#[test]
fn credit_batch_later_row_wins() {
    let batch = CreditBatch::from_rows(vec![
        ("1".to_string(), 10),
        ("2".to_string(), -3),
        ("1".to_string(), 7),
    ]);
    assert_eq!(batch.get(&"1".to_string()), Some(7));
    assert_eq!(batch.get(&"2".to_string()), Some(-3));
    assert_eq!(CreditBatch::from_rows(vec![]).get(&"1".to_string()), None);
}

#[test]
fn starships_and_planets_resolve() {
    let api = StarWarsAPI::new();
    let q = QueryRoot;
    let falcon = q.starship(&api, "5".to_string()).unwrap();
    assert_eq!(falcon.name(), "Millenium Falcon");
    assert_eq!(falcon.length_mm(), 34750);
    assert_eq!(falcon.id(), "5");
    assert_eq!(api.get_starship("1".to_string()).unwrap().length_mm, 12490);
    let luke = q.human(&api, "1".to_string()).unwrap();
    assert_eq!(luke.home_planet(&api).unwrap().name(), "Tatooine");
    assert_eq!(luke.starship(&api).unwrap().name(), "X-Wing");
    assert_eq!(luke.mass(), 77);
    assert_eq!(luke.appears_in(), vec![Episode::Empire, Episode::NewHope, Episode::Jedi]);
    let leia = q.human(&api, "4".to_string()).unwrap();
    assert_eq!(leia.home_planet(&api).unwrap().id(), "2");
    let han = q.human(&api, "3".to_string()).unwrap();
    assert!(han.home_planet(&api).is_none());
    assert_eq!(han.starship(&api).unwrap().name(), "Millenium Falcon");
    let r2 = q.droid(&api, "6".to_string()).unwrap();
    assert_eq!(r2.primary_function(), Some("Astromech"));
    assert_eq!(r2.id(), "6");
}

#[test]
fn transact_always_succeeds() {
    let m = MutationRoot;
    assert_eq!(m.transact("1".to_string(), "2".to_string(), 5), Ok(true));
    assert_eq!(m.transact(String::new(), String::new(), 0), Ok(true));
}

#[test]
fn builder_sets_fields() {
    let c = APICharacter::build("9", "Someone");
    assert!(!c.is_human);
    assert!(c.friends.is_empty());
    assert_eq!(c.mass, 0);
    let c = c
        .is_human()
        .set_friends(vec![1, 2])
        .appeared_in(vec![Episode::NewHope])
        .home_planet(3)
        .star_ship(4)
        .mass(70)
        .primary_function("Pilot".to_string());
    assert!(c.is_human);
    assert_eq!(c.friends, vec![1, 2]);
    assert_eq!(c.appears_in, vec![Episode::NewHope]);
    assert_eq!(c.home_planet, Some(3));
    assert_eq!(c.star_ship, Some(4));
    assert_eq!(c.mass, 70);
    assert_eq!(c.primary_function.as_deref(), Some("Pilot"));
    let d = c.duplicate().is_droid();
    assert!(!d.is_human);
    assert_eq!(d.name, "Someone");
    assert_eq!(character_name(&Character::from(d)), "Someone");
}
