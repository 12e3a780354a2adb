use animal_api::admin::check_admin_perms;
use animal_api::{Admin, Perms};

fn gen_admin_add_only() -> Admin {
    Admin {
        name: "Tester".to_string(),
        key: "add_only".to_string(),
        permissions: Perms {
            view_facts: true,
            add_fact: true,
            delete_fact: false,
            view_flags: true,
            add_flag: true,
            delete_flag: false,
        },
    }
}

fn gen_admin_no_perms() -> Admin {
    Admin {
        name: "Tester".to_string(),
        key: "no_perms".to_string(),
        permissions: Perms {
            view_facts: false,
            add_fact: false,
            delete_fact: false,
            view_flags: false,
            add_flag: false,
            delete_flag: false,
        },
    }
}

fn gen_admin_all_perms() -> Admin {
    Admin {
        name: "Tester".to_string(),
        key: "all_perms".to_string(),
        permissions: Perms {
            view_facts: true,
            add_fact: true,
            delete_fact: true,
            view_flags: true,
            add_flag: true,
            delete_flag: true,
        },
    }
}

#[test]
fn no_admin_list() {
    assert_eq!(check_admin_perms("TesterKey", &Vec::new()), None);
}

#[test]
fn admin_invalid_key() {
    let admin_list = vec![gen_admin_no_perms(), gen_admin_all_perms()];
    assert_eq!(check_admin_perms("TesterKey", &admin_list), None);
}

#[test]
fn no_perms() {
    let admin_list = vec![gen_admin_no_perms(), gen_admin_all_perms()];
    let expected = (&gen_admin_no_perms(), None);
    assert_eq!(
        check_admin_perms(&admin_list[0].key, &admin_list),
        Some(expected)
    );
}

#[test]
fn some_perms() {
    let admin_list = vec![gen_admin_add_only(), gen_admin_no_perms()];
    let expected = Some((
        &admin_list[0],
        Some(Perms {
            view_facts: true,
            add_fact: true,
            delete_fact: false,
            view_flags: true,
            add_flag: true,
            delete_flag: false,
        }),
    ));
    assert_eq!(check_admin_perms(&admin_list[0].key, &admin_list), expected);
}

#[test]
fn second_admin_is_found_by_its_own_key() {
    let admin_list = vec![gen_admin_no_perms(), gen_admin_all_perms()];
    let found = check_admin_perms("all_perms", &admin_list);
    assert_eq!(
        found,
        Some((&admin_list[1], Some(admin_list[1].permissions)))
    );
}

#[test]
fn first_of_two_admins_with_one_key_is_found() {
    let mut twin = gen_admin_all_perms();
    twin.name = "Twin".to_string();
    twin.key = "no_perms".to_string();
    let admin_list = vec![gen_admin_no_perms(), twin];
    let found = check_admin_perms("no_perms", &admin_list);
    assert_eq!(found, Some((&admin_list[0], None)));
}

#[test]
fn key_must_match_in_full() {
    let admin_list = vec![gen_admin_add_only()];
    assert_eq!(check_admin_perms("add_onl", &admin_list), None);
    assert_eq!(check_admin_perms("add_only ", &admin_list), None);
    assert_eq!(check_admin_perms("Add_only", &admin_list), None);
    assert_eq!(check_admin_perms("", &admin_list), None);
}

#[test]
fn permissions_open_to_everyone_are_not_handed_back() {
    let mut admin = gen_admin_no_perms();
    admin.permissions.view_facts = true;
    admin.permissions.add_flag = true;
    let admin_list = vec![admin];
    assert_eq!(
        check_admin_perms("no_perms", &admin_list),
        Some((&admin_list[0], None))
    );
}

#[test]
fn each_permission_beyond_the_public_ones_is_handed_back() {
    for which in 0..4 {
        let mut admin = gen_admin_no_perms();
        match which {
            0 => admin.permissions.add_fact = true,
            1 => admin.permissions.delete_fact = true,
            2 => admin.permissions.view_flags = true,
            _ => admin.permissions.delete_flag = true,
        }
        let admin_list = vec![admin];
        assert_eq!(
            check_admin_perms("no_perms", &admin_list),
            Some((&admin_list[0], Some(admin_list[0].permissions)))
        );
    }
}
