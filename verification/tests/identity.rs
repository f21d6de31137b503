use std::collections::HashMap;

use chat_core::types::{Account, User};
use chat_core::{get_id, get_system_millis, millis_or_epoch, new_id, ID};

fn account(id: ID, in_hubs: Vec<ID>) -> Account {
    Account {
        id,
        username: "tester".to_string(),
        created: 1234,
        parent_id: "parent".to_string(),
        is_bot: true,
        in_hubs,
    }
}

#[test]
fn generic_account_hashes_each_hub_in_order() {
    let a = account(5, vec![0, 1, 0xa1a2a3a4b1b2c1c2d1d2d3d4d5d6d7d8, u128::MAX, 1]);
    let g = a.to_generic();
    assert_eq!(
        g.hubs_hashed,
        vec![
            "12b9377cbe7e5c94e8a70d9d23929523d14afa954793130f8a3959c7b849aca8".to_string(),
            "7ac1b8d7010bb6cd3a3e84e7f90136b880bbc899e428ece49333372911ab9052".to_string(),
            "622f95399b47734234893234bf33d14129a152ae4cecccec572c62e497db1fdb".to_string(),
            "13984ab878f915021670cd855c9399ebc339676b2581855e4efd60c685f67c8e".to_string(),
            "7ac1b8d7010bb6cd3a3e84e7f90136b880bbc899e428ece49333372911ab9052".to_string(),
        ]
    );
}

#[test]
fn generic_account_keeps_the_other_fields() {
    let a = account(77, vec![]);
    let g = a.to_generic();
    assert_eq!(g.id, 77);
    assert_eq!(g.username, "tester");
    assert_eq!(g.created, 1234);
    assert_eq!(g.parent_id, "parent");
    assert!(g.is_bot);
    assert!(g.hubs_hashed.is_empty());
}

#[test]
fn generic_account_is_the_same_each_time() {
    let a = account(9, vec![3, 2, 1]);
    assert_eq!(a.to_generic(), a.to_generic());
    let b = Account { username: "other".to_string(), ..account(10, vec![3, 2, 1]) };
    assert_eq!(a.to_generic().hubs_hashed, b.to_generic().hubs_hashed);
}

#[test]
fn hub_hash_is_not_the_hub() {
    let g = account(1, vec![1]).to_generic();
    assert_eq!(g.hubs_hashed[0].len(), 64);
    assert!(g.hubs_hashed[0].chars().all(|c| c.is_ascii_digit() || ('a'..='f').contains(&c)));
    assert_ne!(g.hubs_hashed[0], "00000000-0000-0000-0000-000000000001");
    assert_ne!(g.hubs_hashed[0], "1");
}

fn user() -> User {
    let mut accounts = HashMap::new();
    accounts.insert(1, account(1, vec![0]));
    accounts.insert(2, account(2, vec![1, 0]));
    User {
        id: "u".to_string(),
        email: "someone@example.org".to_string(),
        created: 99,
        service: "github".to_string(),
        accounts,
    }
}

#[test]
fn generic_user_holds_the_generic_accounts() {
    let u = user();
    let g = u.to_generic();
    assert_eq!(g.id, "u");
    assert_eq!(g.created, 99);
    assert_eq!(g.users.len(), 2);
    assert_eq!(g.users[&1], u.accounts[&1].to_generic());
    assert_eq!(g.users[&2], u.accounts[&2].to_generic());
    assert_eq!(User::accounts_generic(&u.accounts), g.users);
    assert!(User::accounts_generic(&HashMap::new()).is_empty());
}

#[test]
fn generic_user_does_not_tell_email_or_service() {
    let u = user();
    let other = User {
        email: "else@example.org".to_string(),
        service: "gitlab".to_string(),
        ..user()
    };
    assert_eq!(u.to_generic(), other.to_generic());
    let shown = format!("{:?}", u.to_generic());
    assert!(!shown.contains("someone@example.org"));
}

#[test]
fn user_identifier_is_the_hash_of_both_texts() {
    assert_eq!(
        get_id("12345", "github"),
        "50b4a8a8793d411e02b3fafd5edaeecf3017e932bc61a3a77a43b562be01c78a"
    );
    assert_eq!(get_id("12345gi", "thub"), get_id("12345", "github"));
    assert_eq!(
        get_id("", ""),
        "e3b0c44298fc1c149afbf4c8996fb92427ae41e4649b934ca495991b7852b855"
    );
    assert_eq!(
        get_id("h\u{e9}llo", "svc"),
        "7eccf78b314d742e50657b841b2d541eebc81d1e73d886d15f3cca589ec5d06d"
    );
}

#[test]
fn new_identifiers_are_version_four() {
    let a = new_id();
    let b = new_id();
    assert_ne!(a, b);
    for id in [a, b] {
        assert_eq!((id >> 76) & 0xf, 4);
        assert_eq!((id >> 62) & 0x3, 2);
    }
}

#[test]
fn the_clock_reads_after_2020() {
    let now = get_system_millis();
    assert!(now > 1_577_836_800_000);
    assert!(get_system_millis() >= now);
}

#[test]
fn bytes_in_hexadecimal() {
    assert_eq!(chat_core::hash::to_hex(&[]), "");
    assert_eq!(chat_core::hash::to_hex(&[0x00, 0x0f, 0xf0, 0xbe, 0xef, 0x9a, 0xff]), "000ff0beef9aff");
    assert_eq!(
        chat_core::hash::hash_hex(b"abc"),
        "ba7816bf8f01cfea414140de5dae2223b00361a396177a9cb410ff61f20015ad"
    );
}

#[test]
fn hub_hash_is_the_hash_of_the_hyphenated_identifier() {
    assert_eq!(
        chat_core::ident::hash_hub(0xa1a2a3a4b1b2c1c2d1d2d3d4d5d6d7d8),
        chat_core::hash::hash_hex(b"a1a2a3a4-b1b2-c1c2-d1d2-d3d4d5d6d7d8")
    );
    assert_eq!(
        chat_core::ident::hash_hub(0x0123456789abcdef0011223344556677),
        chat_core::hash::hash_hex(b"01234567-89ab-cdef-0011-223344556677")
    );
}

#[test]
fn a_clock_without_a_reading_is_at_the_epoch() {
    assert_eq!(millis_or_epoch(None), 0);
    assert_eq!(millis_or_epoch(Some(0)), 0);
    assert_eq!(millis_or_epoch(Some(1_600_000_000_000)), 1_600_000_000_000);
    assert_eq!(millis_or_epoch(Some(u128::MAX)), u128::MAX);
}
