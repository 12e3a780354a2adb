use animal_api::animal_facts::{get_cat_fact, get_dog_fact, random_pick, Fact, FactLists};
use animal_api::flagging::{check_flagger, set_flag};
use animal_api::{
    load_fact_flags, load_fact_lists, APIState, Admin, Animal, Config, CreatedAction, FactFlag,
    FactFlagRequest, Flagger, JsonResp, Perms, Reply, Resource,
};

const RESP_NOT_LOADED: JsonResp = JsonResp {
    code: 501,
    message: "The requested feature is not currently loaded!",
};
const RESP_BAD_AUTH: JsonResp = JsonResp {
    code: 401,
    message: "Invalid authorization",
};
const RESP_ID_NOT_FOUND: JsonResp = JsonResp {
    code: 404,
    message: "The requested ID doesn't exist",
};

fn gen_admin_add_only() -> Admin {
    Admin {
        name: "Tester".to_string(),
        key: "add_only".to_string(),
        permissions: Perms {
            view_facts: true,
            add_fact: true,
            delete_fact: false,
            view_flags: true,
            add_flag: true,
            delete_flag: false,
        },
    }
}

fn gen_admin_delete_only() -> Admin {
    Admin {
        name: "Tester".to_string(),
        key: "delete_only".to_string(),
        permissions: Perms {
            view_facts: true,
            add_fact: false,
            delete_fact: true,
            view_flags: true,
            add_flag: false,
            delete_flag: true,
        },
    }
}

fn gen_admin_view_only() -> Admin {
    Admin {
        name: "Tester".to_string(),
        key: "view_only".to_string(),
        permissions: Perms {
            view_facts: true,
            add_fact: false,
            delete_fact: false,
            view_flags: false,
            add_flag: false,
            delete_flag: false,
        },
    }
}

fn gen_admin_no_perms() -> Admin {
    Admin {
        name: "Tester".to_string(),
        key: "no_perms".to_string(),
        permissions: Perms {
            view_facts: false,
            add_fact: false,
            delete_fact: false,
            view_flags: false,
            add_flag: false,
            delete_flag: false,
        },
    }
}

fn gen_admin_all_perms() -> Admin {
    Admin {
        name: "Tester".to_string(),
        key: "all_perms".to_string(),
        permissions: Perms {
            view_facts: true,
            add_fact: true,
            delete_fact: true,
            view_flags: true,
            add_flag: false,
            delete_flag: true,
        },
    }
}

fn gen_flagger() -> Flagger {
    Flagger {
        location: "test_location".to_string(),
        key: "flag_key".to_string(),
    }
}

fn cat_facts_file() -> Vec<Fact> {
    vec![
        Fact {
            id: 6682463169732688062,
            content: "Cats sleep for most of the day.".to_string(),
        },
        Fact {
            id: 11904271314433528066,
            content: "A group of cats is called a clowder.".to_string(),
        },
        Fact {
            id: 1737807755558247338,
            content: "Cats have thirty-two muscles in each ear.".to_string(),
        },
    ]
}

fn dog_facts_file() -> Vec<Fact> {
    vec![
        Fact {
            id: 16474038630947140533,
            content: "Dogs sweat through the pads of their paws.".to_string(),
        },
        Fact {
            id: 4312102600113453722,
            content: "A dog's nose print is as unique as a fingerprint.".to_string(),
        },
    ]
}

fn fact_flags_file() -> Vec<FactFlag> {
    vec![
        FactFlag {
            id: 6682463169732628062,
            fact_type: Animal::Cat,
            fact_id: 6682463169732688062,
            reason: Some("It's not funny".to_string()),
            flagger: "test_location".to_string(),
        },
        FactFlag {
            id: 18231197077958934727,
            fact_type: Animal::Dog,
            fact_id: 16474038630947140533,
            reason: None,
            flagger: "Tester".to_string(),
        },
    ]
}

fn gen_config() -> Config {
    Config {
        logging_dir: "./test_logs".to_string(),
        logging_level: "info".to_string(),
        facts_dir: "./example_facts".to_string(),
        animal_fact_types: vec![Animal::Cat, Animal::Dog],
        flagging_enabled: true,
        admins: vec![
            gen_admin_add_only(),
            gen_admin_view_only(),
            gen_admin_delete_only(),
            gen_admin_no_perms(),
            gen_admin_all_perms(),
        ],
        flaggers: vec![gen_flagger()],
    }
}

fn gen_state() -> APIState {
    let config = gen_config();
    APIState {
        fact_lists: load_fact_lists(&config, Some(cat_facts_file()), Some(dog_facts_file()))
            .unwrap(),
        fact_flags: load_fact_flags(&config, Some(fact_flags_file())).unwrap(),
        config,
    }
}

fn test_fact_consumer_req(animal: Animal, state: APIState) {
    let reply = match animal {
        Animal::Cat => get_cat_fact(&state.fact_lists),
        Animal::Dog => get_dog_fact(&state.fact_lists),
    };
    let loaded = match animal {
        Animal::Cat => state.fact_lists.cat_facts,
        Animal::Dog => state.fact_lists.dog_facts,
    };
    match reply {
        Reply::Fact(fact) => assert!(loaded.unwrap().contains(&fact)),
        other => panic!("not a fact: {:?}", other),
    }
}

fn test_flag_consumer_req(req: FactFlagRequest, mut state: APIState) -> JsonResp {
    let before = gen_state();
    let outcome = set_flag(&mut state, req);
    let resp = outcome.reply.message().unwrap();
    assert_eq!(resp.code, outcome.reply.status());
    if outcome.persist.is_none() {
        assert_eq!(state.fact_flags, before.fact_flags);
    }
    assert_eq!(state.fact_lists.cat_facts, before.fact_lists.cat_facts);
    assert_eq!(state.fact_lists.dog_facts, before.fact_lists.dog_facts);
    resp
}

// Fact tests
#[test]
fn consumption_get_fact_cat() {
    // This will fail if for some reason its not returning a fact
    test_fact_consumer_req(Animal::Cat, gen_state())
}

#[test]
fn consumption_get_fact_dog() {
    test_fact_consumer_req(Animal::Dog, gen_state())
}

#[test]
#[should_panic]
fn consumption_get_unloaded_cat() {
    let mut state = gen_state();
    state.fact_lists.cat_facts = None;

    // This will fail because what comes back is a message, not a fact
    test_fact_consumer_req(Animal::Cat, state)
}

#[test]
#[should_panic]
fn consumption_get_unloaded_dog() {
    let mut state = gen_state();
    state.fact_lists.dog_facts = None;

    test_fact_consumer_req(Animal::Dog, state)
}

// Flag tests
#[test]
fn set_flag_unloaded() {
    let mut state = gen_state();
    state.config.flagging_enabled = false;

    let req_json = FactFlagRequest {
        fact_type: Animal::Cat,
        fact_id: 6682463169732688062,
        reason: None,
        key: gen_flagger().key,
        flagger: None,
    };

    assert_eq!(test_flag_consumer_req(req_json, state), RESP_NOT_LOADED)
}

#[test]
fn set_flag_invalid_auth() {
    let req_json = FactFlagRequest {
        fact_type: Animal::Cat,
        fact_id: 6682463169732688062,
        reason: None,
        key: "AGreatPassword".to_string(),
        flagger: None,
    };

    assert_eq!(test_flag_consumer_req(req_json, gen_state()), RESP_BAD_AUTH)
}

#[test]
fn set_flag_bad_factid() {
    let req_json = FactFlagRequest {
        fact_type: Animal::Cat,
        fact_id: 18446744073709551615,
        reason: Some("A Reason".to_string()),
        key: gen_flagger().key,
        flagger: None,
    };

    assert_eq!(
        test_flag_consumer_req(req_json, gen_state()),
        RESP_ID_NOT_FOUND
    )
}

#[test]
fn set_flag_valid() {
    let mut state = gen_state();
    let req_json = FactFlagRequest {
        fact_type: Animal::Cat,
        fact_id: 6682463169732688062,
        reason: Some("A Reason".to_string()),
        key: gen_flagger().key,
        flagger: None,
    };

    let outcome = set_flag(&mut state, req_json);
    let resp = outcome.reply.message().unwrap();

    let expected = JsonResp::new(201, CreatedAction::Flag.as_str());
    assert_eq!(resp, expected);
    assert_eq!(outcome.reply.status(), 201);
    assert_eq!(outcome.persist, Some(Resource::Flags));

    let before = fact_flags_file();
    let after = state.fact_flags.unwrap();
    assert_eq!(after.len(), before.len() + 1);
    assert_eq!(&after[..before.len()], &before[..]);
    let created = &after[before.len()];
    assert_eq!(created.fact_type, Animal::Cat);
    assert_eq!(created.fact_id, 6682463169732688062);
    assert_eq!(created.reason, Some("A Reason".to_string()));
    // No name came with the submission, so the place of the flagger stands in
    assert_eq!(created.flagger, "test_location");
    assert!(before.iter().all(|flag| flag.id != created.id));
}

#[test]
fn a_submission_is_filed_under_the_name_that_comes_with_it() {
    let mut state = gen_state();
    let req_json = FactFlagRequest {
        fact_type: Animal::Dog,
        fact_id: 16474038630947140533,
        reason: None,
        key: gen_flagger().key,
        flagger: Some("user#4711".to_string()),
    };
    let outcome = set_flag(&mut state, req_json);
    assert_eq!(outcome.reply, Reply::Created(CreatedAction::Flag));
    let flags = state.fact_flags.unwrap();
    let created = flags.last().unwrap();
    assert_eq!(created.flagger, "user#4711");
    assert_eq!(created.fact_type, Animal::Dog);
    assert_eq!(created.reason, None);
}

#[test]
fn a_submission_while_flagging_is_off_needs_no_key() {
    let mut state = gen_state();
    state.config.flagging_enabled = false;
    let req_json = FactFlagRequest {
        fact_type: Animal::Cat,
        fact_id: 6682463169732688062,
        reason: None,
        key: "AGreatPassword".to_string(),
        flagger: None,
    };
    let outcome = set_flag(&mut state, req_json);
    assert_eq!(outcome.reply.status(), 501);
    assert_eq!(outcome.reply.message(), Some(RESP_NOT_LOADED));
    assert_eq!(outcome.persist, None);
}

#[test]
fn a_submission_without_a_list_of_flags_is_not_loaded() {
    let mut state = gen_state();
    state.fact_flags = None;
    let req_json = FactFlagRequest {
        fact_type: Animal::Cat,
        fact_id: 6682463169732688062,
        reason: None,
        key: gen_flagger().key,
        flagger: None,
    };
    let outcome = set_flag(&mut state, req_json);
    assert_eq!(outcome.reply.message(), Some(RESP_NOT_LOADED));
    assert_eq!(state.fact_flags, None);
}

#[test]
fn an_admin_key_is_no_flagger_key() {
    let req_json = FactFlagRequest {
        fact_type: Animal::Cat,
        fact_id: 6682463169732688062,
        reason: None,
        key: gen_admin_all_perms().key,
        flagger: None,
    };
    assert_eq!(test_flag_consumer_req(req_json, gen_state()), RESP_BAD_AUTH)
}

#[test]
fn a_submission_on_a_fact_that_nobody_flagged_is_turned_down() {
    // The fact exists among the cat facts, but no flag speaks of it.
    let status = {
        let mut state = gen_state();
        let req_json = FactFlagRequest {
            fact_type: Animal::Cat,
            fact_id: 1737807755558247338,
            reason: None,
            key: gen_flagger().key,
            flagger: None,
        };
        let outcome = set_flag(&mut state, req_json);
        assert_eq!(state.fact_flags.unwrap(), fact_flags_file());
        outcome.reply.status()
    };
    assert_eq!(status, 404);
}

#[test]
fn flaggers_are_found_by_key() {
    let flaggers = vec![
        gen_flagger(),
        Flagger {
            location: "second".to_string(),
            key: "other_key".to_string(),
        },
        Flagger {
            location: "third".to_string(),
            key: "other_key".to_string(),
        },
    ];
    assert_eq!(
        check_flagger("flag_key".to_string(), &flaggers),
        Some(gen_flagger())
    );
    assert_eq!(
        check_flagger("other_key".to_string(), &flaggers)
            .unwrap()
            .location,
        "second"
    );
    assert_eq!(check_flagger("flag_ke".to_string(), &flaggers), None);
    assert_eq!(check_flagger("flag_keys".to_string(), &flaggers), None);
    assert_eq!(check_flagger("flag_key".to_string(), &[]), None);
}

#[test]
fn a_random_pick_is_a_fact_of_the_list() {
    let facts = cat_facts_file();
    for _ in 0..200 {
        let picked = random_pick(&facts).unwrap();
        assert!(facts.iter().any(|fact| fact.id == picked.id));
        assert!(facts.contains(picked));
    }
    let one = vec![Fact {
        id: 9,
        content: "Only this".to_string(),
    }];
    assert_eq!(random_pick(&one), Some(&one[0]));
    assert_eq!(random_pick(&Vec::new()), None);
}

#[test]
fn every_fact_of_a_short_list_is_picked_sooner_or_later() {
    let facts = dog_facts_file();
    let mut seen = [false, false];
    for _ in 0..2000 {
        let picked = random_pick(&facts).unwrap();
        let at = facts.iter().position(|fact| fact == picked).unwrap();
        seen[at] = true;
    }
    assert_eq!(seen, [true, true]);
}

#[test]
fn a_list_without_facts_has_nothing_to_hand_out() {
    let lists = FactLists {
        cat_facts: Some(Vec::new()),
        dog_facts: None,
    };
    assert_eq!(get_cat_fact(&lists).message(), Some(RESP_NOT_LOADED));
    assert_eq!(get_dog_fact(&lists).message(), Some(RESP_NOT_LOADED));
    assert_eq!(get_cat_fact(&lists).status(), 501);
}

#[test]
fn a_fact_is_handed_out_under_status_200() {
    let state = gen_state();
    let reply = get_dog_fact(&state.fact_lists);
    assert_eq!(reply.status(), 200);
    assert_eq!(reply.message(), None);
}
