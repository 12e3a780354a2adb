use animal_api::flagging::{insert, insert_from, is_flagged, list};
use animal_api::store::first_repeat;
use animal_api::{Animal, FactFlag};

fn flag(id: u64, fact_type: Animal, fact_id: u64) -> FactFlag {
    FactFlag {
        id,
        fact_type,
        fact_id,
        reason: None,
        flagger: "someone".to_string(),
    }
}

fn flags() -> Vec<FactFlag> {
    vec![
        flag(100, Animal::Cat, 1),
        flag(101, Animal::Dog, 2),
        flag(102, Animal::Cat, 1),
    ]
}

#[test]
fn flagged_facts_are_known_by_their_id() {
    let stored = flags();
    assert!(is_flagged(&stored, 1));
    assert!(is_flagged(&stored, 2));
    assert!(!is_flagged(&stored, 3));
    // an id of a flag is not an id of a fact
    assert!(!is_flagged(&stored, 100));
    assert!(!is_flagged(&Vec::new(), 1));
}

#[test]
fn a_flag_is_raised_on_a_fact_that_is_flagged_already() {
    let mut stored = flags();
    let created = insert_from(
        &mut stored,
        7,
        Animal::Dog,
        2,
        Some("Wrong".to_string()),
        "a flagger".to_string(),
    );
    let expected = FactFlag {
        id: 7,
        fact_type: Animal::Dog,
        fact_id: 2,
        reason: Some("Wrong".to_string()),
        flagger: "a flagger".to_string(),
    };
    assert_eq!(created, Some(expected.clone()));
    assert_eq!(stored.len(), 4);
    assert_eq!(&stored[..3], &flags()[..]);
    assert_eq!(stored[3], expected);
}

#[test]
fn no_flag_is_raised_on_a_fact_that_no_flag_speaks_of() {
    let mut stored = flags();
    let created = insert_from(&mut stored, 7, Animal::Dog, 3, None, "a flagger".to_string());
    assert_eq!(created, None);
    assert_eq!(stored, flags());

    let mut none: Vec<FactFlag> = Vec::new();
    assert_eq!(
        insert_from(&mut none, 7, Animal::Cat, 1, None, "a flagger".to_string()),
        None
    );
    assert!(none.is_empty());
}

#[test]
fn the_kind_of_animal_is_not_looked_at() {
    // Fact 2 is flagged as a dog fact; a flag that calls it a cat fact is
    // let through all the same.
    let mut stored = flags();
    let created = insert_from(&mut stored, 7, Animal::Cat, 2, None, "a flagger".to_string());
    assert_eq!(created.unwrap().fact_type, Animal::Cat);
}

#[test]
fn a_new_flag_never_shares_an_id() {
    let mut stored = flags();
    let created = insert_from(&mut stored, 100, Animal::Cat, 1, None, "a flagger".to_string());
    assert_eq!(created.unwrap().id, 103);
    let created = insert_from(&mut stored, 102, Animal::Cat, 1, None, "a flagger".to_string());
    assert_eq!(created.unwrap().id, 104);
    assert_eq!(first_repeat(&stored), None);
}

#[test]
fn flags_of_all_kinds_share_one_space_of_ids() {
    let mut stored = flags();
    // 101 is the id of a flag on a dog fact; a flag on a cat fact cannot
    // have it
    let created = insert_from(&mut stored, 101, Animal::Cat, 1, None, "a flagger".to_string());
    assert_eq!(created.unwrap().id, 103);
}

#[test]
fn insert_then_list_holds_the_flag_under_the_id_that_was_reported() {
    let mut stored = flags();
    let created = insert(
        &mut stored,
        Animal::Cat,
        1,
        Some("Again".to_string()),
        "a flagger".to_string(),
    )
    .unwrap();
    let listed = list(&stored);
    assert_eq!(listed.len(), 4);
    assert_eq!(&listed[..3], &flags()[..]);
    assert_eq!(listed[3], created);
    assert_eq!(created.fact_id, 1);
    assert_eq!(created.reason, Some("Again".to_string()));
    assert_eq!(created.flagger, "a flagger");
    assert!(flags().iter().all(|flag| flag.id != created.id));
}

#[test]
fn flags_are_copied_in_order() {
    assert_eq!(list(&flags()), flags());
    assert_eq!(list(&Vec::new()), Vec::<FactFlag>::new());
}
