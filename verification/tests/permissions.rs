use starship::entities::{Planet, PlanetMember, PlanetRole};
use starship::errors::ErrorType;
use starship::permissions::checks::has_permission;
use starship::permissions::constants::{
    administrator_permissions, member_permissions, owner_permissions, viewer_permissions,
};
use starship::permissions::util::{check_permission, update_permissions};

fn create_planet(private: bool) -> Planet {
    Planet {
        private,
        // all other fields are unimportant for this test
        id: "irrelevant".to_string(),
        name: "irrelevant".to_string(),
        owner: "irrelevant".to_string(),
        featured: false,
        member_count: 0,
        verified: false,
        partnered: false,
        featured_description: "irrelevant".to_string(),
        created: 0,
        banned: vec!["irrelevant".to_string()],
        css: "irrelevant".to_string(),
        description: Some("irrelevant".to_string()),
        home: Some("irrelevant".to_string()),
    }
}

fn create_member(permissions: Vec<String>) -> PlanetMember {
    PlanetMember {
        permissions,
        // all other fields are unimportant for this test
        id: "irrelevant".to_string(),
        planet: "irrelevant".to_string(),
        user: "irrelevant".to_string(),
        roles: vec!["irrelevant".to_string()],
        created: 0,
        banned: false,
    }
}

fn create_role(permissions: Vec<String>, position: i32) -> PlanetRole {
    PlanetRole {
        position,
        permissions,
        // all other fields are unimportant for this test
        id: "irrelevant".to_string(),
        planet: "irrelevant".to_string(),
        default: false,
        name: "irrelevant".to_string(),
        color: "#FFFFFF".to_string(),
    }
}

fn strings(v: &[&str]) -> Vec<String> {
    v.iter().map(|s| s.to_string()).collect()
}

#[test]
fn public_permissions() {
    let planet = create_planet(false);

    let check = has_permission("planet.view", &planet, None, None);

    assert!(check, "planet.view not allowed");
}

#[test]
fn private_permissions() {
    let planet = create_planet(true);

    let check = has_permission("planet.view", &planet, None, None);

    assert!(!check, "planet.view allowed");
}

#[test]
fn member_with_permission() {
    let planet = create_planet(true);
    let member = create_member(vec!["+planet.view".to_string()]);

    let check = has_permission("planet.view", &planet, Some(member), None);

    assert!(check, "planet.view not allowed");
}

#[test]
fn member_without_permission() {
    let planet = create_planet(false);
    let member = create_member(vec!["-planet.view".to_string()]);

    let check = has_permission("planet.view", &planet, Some(member), None);

    assert!(!check, "planet.view allowed");
}

#[test]
fn role_with_permission() {
    let planet = create_planet(true);
    let member = create_member(vec![]);
    let role = create_role(vec!["+planet.view".to_string()], 0);

    let check = has_permission("planet.view", &planet, Some(member), Some(vec![role]));

    assert!(check, "planet.view not allowed");
}

#[test]
fn role_without_permission() {
    let planet = create_planet(false);
    let member = create_member(vec![]);
    let role = create_role(vec!["-planet.view".to_string()], 0);

    let check = has_permission("planet.view", &planet, Some(member), Some(vec![role]));

    assert!(!check, "planet.view allowed");
}

#[test]
fn member_supersedes_role() {
    let planet = create_planet(false);
    let member = create_member(vec!["+planet.view".to_string()]);
    let role = create_role(vec!["-planet.view".to_string()], 0);

    let check = has_permission("planet.view", &planet, Some(member), Some(vec![role]));

    assert!(check, "planet.view not allowed");
}

#[test]
fn correct_role_order() {
    let planet = create_planet(false);
    let member = create_member(vec![]);
    let role1 = create_role(vec!["-planet.view".to_string()], 0);
    let role2 = create_role(vec!["+planet.view".to_string()], 1);

    let check = has_permission(
        "planet.view",
        &planet,
        Some(member),
        Some(vec![role2, role1]),
    );

    assert!(check, "planet.view not allowed");
}

#[test]
fn admin_overrides() {
    let planet = create_planet(false);
    let member = create_member(vec![]);
    let role1 = create_role(vec!["+administrator".to_string()], 0);
    let role2 = create_role(vec!["-planet.view".to_string()], 1);

    let check = has_permission(
        "planet.view",
        &planet,
        Some(member),
        Some(vec![role1, role2]),
    );

    assert!(check, "planet.view not allowed");
}

#[test]
fn owner_overrides() {
    let planet = create_planet(false);
    let member = create_member(vec!["+owner".to_string()]);
    let role = create_role(vec!["-planet.view".to_string()], 0);

    let check = has_permission("planet.view", &planet, Some(member), Some(vec![role]));

    assert!(check, "planet.view not allowed");
}

#[test]
fn member_planet_locked() {
    let planet = create_planet(false);
    let mut member = create_member(vec![]);
    member.planet = "different".to_string();

    let check = has_permission("planet.view", &planet, Some(member), None);

    assert!(!check, "permission check did not detect incorrect planet");
}

#[test]
fn role_planet_locked() {
    let planet = create_planet(false);
    let member = create_member(vec![]);
    let mut role = create_role(vec![], 0);
    role.planet = "different".to_string();

    let check = has_permission("planet.view", &planet, Some(member), Some(vec![role]));

    assert!(!check, "permission check did not detect incorrect planet");
}

#[test]
fn equal_positions_later_role_wins() {
    let planet = create_planet(false);
    let grant = create_role(vec!["+planet.view".to_string()], 3);
    let deny = create_role(vec!["-planet.view".to_string()], 3);
    let m = create_member(vec![]);
    assert!(!has_permission("planet.view", &planet, Some(m.clone()), Some(vec![grant.clone(), deny.clone()])));
    assert!(has_permission("planet.view", &planet, Some(m), Some(vec![deny, grant])));
}

#[test]
fn member_last_entry_decides() {
    let planet = create_planet(true);
    let m = create_member(strings(&["+forum.view", "-forum.view"]));
    assert!(!has_permission("forum.view", &planet, Some(m), None));
    let m = create_member(strings(&["-forum.view", "+forum.view"]));
    assert!(has_permission("forum.view", &planet, Some(m), None));
}

#[test]
fn private_planet_member_gets_no_viewer_defaults() {
    let planet = create_planet(true);
    let m = create_member(vec![]);
    assert!(!has_permission("planet.view", &planet, Some(m), None));
}

#[test]
fn administrator_does_not_get_owner_permissions() {
    let planet = create_planet(false);
    let m = create_member(strings(&["+administrator"]));
    assert!(has_permission("planet.roles.create", &planet, Some(m.clone()), None));
    assert!(!has_permission("planet.delete", &planet, Some(m), None));
}

#[test]
fn owner_gets_owner_permissions() {
    let planet = create_planet(true);
    let m = create_member(strings(&["+owner", "-planet.delete"]));
    assert!(has_permission("planet.delete", &planet, Some(m.clone()), None));
    assert!(has_permission("chat.messages.send", &planet, Some(m), None));
}

#[test]
fn owner_flag_from_role_is_ignored() {
    let planet = create_planet(false);
    let m = create_member(vec![]);
    let role = create_role(strings(&["+owner"]), 0);
    assert!(!has_permission("planet.delete", &planet, Some(m), Some(vec![role])));
}

#[test]
fn unknown_permission_is_denied() {
    let planet = create_planet(false);
    assert!(!has_permission("planet.unknown", &planet, None, None));
}

#[test]
fn check_permission_answers_not_found() {
    let planet = create_planet(true);
    let e = check_permission("planet.view", &planet, None, None).unwrap_err();
    assert_eq!(e.error_type, ErrorType::NotFound);
    assert_eq!(e.code, "NOT_FOUND");
    assert_eq!(e.message, "Not found.");
    let planet = create_planet(false);
    assert!(check_permission("planet.view", &planet, None, None).is_ok());
}

#[test]
fn update_permissions_replaces_entry() {
    let v = strings(&["+chat.view", "-planet.view", "+forum.view", "+planet.view"]);
    let r = update_permissions(v, "+planet.view".to_string());
    assert_eq!(r, strings(&["+chat.view", "+forum.view", "+planet.view"]));
}

#[test]
fn update_permissions_fallback_removes() {
    let v = strings(&["+chat.view", "-planet.view"]);
    let r = update_permissions(v, "*planet.view".to_string());
    assert_eq!(r, strings(&["+chat.view"]));
}

#[test]
fn update_permissions_deny_appends() {
    let v = strings(&["+chat.view"]);
    let r = update_permissions(v, "-planet.view".to_string());
    assert_eq!(r, strings(&["+chat.view", "-planet.view"]));
}

#[test]
fn update_permissions_twice_is_once() {
    let v = strings(&["+chat.view", "+planet.view"]);
    let once = update_permissions(v.clone(), "-chat.view".to_string());
    let twice = update_permissions(once.clone(), "-chat.view".to_string());
    assert_eq!(once, twice);
}

#[test]
fn update_then_check_uses_new_setting() {
    let planet = create_planet(false);
    let perms = update_permissions(vec![], "-planet.view".to_string());
    let m = create_member(perms);
    assert!(!has_permission("planet.view", &planet, Some(m), None));
}

#[test]
fn permission_groups_sizes() {
    assert_eq!(viewer_permissions().len(), 10);
    assert_eq!(member_permissions().len(), 14);
    assert_eq!(administrator_permissions().len(), 44);
    assert_eq!(owner_permissions(), vec!["+owner", "+planet.change_publicity", "+planet.delete"]);
    assert_eq!(viewer_permissions()[0], "+planet.view");
}

#[test]
fn role_order_does_not_matter_for_distinct_positions() {
    let planet = create_planet(false);
    let low = create_role(strings(&["+chat.view", "-forum.view"]), 1);
    let mid = create_role(strings(&["-chat.view"]), 5);
    let high = create_role(strings(&["+forum.view"]), 9);
    let orders = vec![
        vec![low.clone(), mid.clone(), high.clone()],
        vec![high.clone(), low.clone(), mid.clone()],
        vec![mid.clone(), high.clone(), low.clone()],
    ];
    for roles in orders {
        let member = create_member(vec![]);
        assert!(!has_permission("chat.view", &planet, Some(member.clone()), Some(roles.clone())));
        assert!(has_permission("forum.view", &planet, Some(member), Some(roles)));
    }
}

#[test]
fn updates_keep_one_setting_per_permission() {
    let mut v = strings(&["+chat.view", "-forum.view"]);
    for entry in ["-chat.view", "+chat.view", "*forum.view", "+forum.view", "+files.view", "-files.view"] {
        let before = v.len();
        v = update_permissions(v, entry.to_string());
        assert!(v.len() <= before + 1);
        let mut bases: Vec<String> = v.iter().map(|p| p.chars().skip(1).collect()).collect();
        bases.sort();
        bases.dedup();
        assert_eq!(bases.len(), v.len());
    }
    assert_eq!(v, strings(&["+chat.view", "+forum.view", "-files.view"]));
}
