use cloud_storage::{Entity, HmacState, Role, Team};

#[test]
fn entity_forms_parse() {
    assert!(matches!(Entity::parse("user-liz@example.com"), Some(Entity::UserEmail(s)) if s == "liz@example.com"));
    assert!(matches!(Entity::parse("user-12345"), Some(Entity::UserId(s)) if s == "12345"));
    assert!(matches!(Entity::parse("group-example@googlegroups.com"), Some(Entity::GroupEmail(s)) if s == "example@googlegroups.com"));
    assert!(matches!(Entity::parse("group-777"), Some(Entity::GroupId(s)) if s == "777"));
    assert!(matches!(Entity::parse("domain-example.com"), Some(Entity::Domain(s)) if s == "example.com"));
    assert!(matches!(Entity::parse("project-viewers-42"), Some(Entity::Project(Team::Viewers, s)) if s == "42"));
    assert!(matches!(Entity::parse("allUsers"), Some(Entity::AllUsers)));
    assert!(matches!(Entity::parse("allAuthenticatedUsers"), Some(Entity::AllAuthenticatedUsers)));
}

#[test]
fn malformed_entities_do_not_parse() {
    assert!(Entity::parse("allusers").is_none());
    assert!(Entity::parse("project-admins-42").is_none());
    assert!(Entity::parse("project-owners-4-2").is_none());
    assert!(Entity::parse("").is_none());
}

#[test]
fn entity_text_forms() {
    assert_eq!(Entity::UserEmail("liz@example.com".to_string()).to_text(), "user-liz@example.com");
    assert_eq!(Entity::Domain("example.com".to_string()).to_text(), "domain-example.com");
    assert_eq!(Entity::Project(Team::Editors, "9".to_string()).to_text(), "project-editors-9");
    assert_eq!(Entity::AllAuthenticatedUsers.to_text(), "allAuthenticatedUsers");
}

#[test]
fn enumerations_parse_case_sensitively() {
    assert_eq!(Role::parse("READER"), Some(Role::Reader));
    assert_eq!(Role::parse("reader"), None);
    assert_eq!(Team::parse("owners"), Some(Team::Owners));
    assert_eq!(Team::parse("Owners"), None);
    assert_eq!(HmacState::parse("INACTIVE"), Some(HmacState::Inactive));
    assert_eq!(HmacState::parse("Inactive"), None);
    assert_eq!(Role::Owner.as_text(), "OWNER");
    assert_eq!(HmacState::Deleted.as_text(), "DELETED");
}
