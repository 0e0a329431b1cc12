use posterbot_constructor::ids::{
    code_of, new_ban_id, new_invite_code, new_setup_code, new_single_group_id, single_group_id_of,
};

fn upper_hex(s: &str) -> bool {
    s.chars().all(|c| c.is_ascii_digit() || ('A'..='F').contains(&c))
}

#[test]
fn ban_ids_are_ban_and_six_hex_digits() {
    let id = new_ban_id();
    assert_eq!(id.len(), 10);
    assert!(id.starts_with("BAN-"));
    assert!(upper_hex(&id[4..]));
}

#[test]
fn invite_and_setup_codes_are_upper_hex() {
    let a = new_invite_code();
    assert_eq!(a.len(), 8);
    assert!(upper_hex(&a));
    let s = new_setup_code();
    assert_eq!(s.len(), 4);
    assert!(upper_hex(&s));
    // Random: two codes of eight digits are all but never equal.
    assert_ne!(new_invite_code(), new_invite_code());
}

#[test]
fn single_group_ids_hold_a_uuid() {
    let g = new_single_group_id();
    assert_eq!(g.len(), 43);
    assert!(g.starts_with("single_"));
    let u = &g[7..];
    for (i, c) in u.chars().enumerate() {
        if i == 8 || i == 13 || i == 18 || i == 23 {
            assert_eq!(c, '-');
        } else {
            assert!(c.is_ascii_hexdigit() && !c.is_ascii_uppercase());
        }
    }
    assert_ne!(new_single_group_id(), g);
}

#[test]
fn codes_are_the_first_digits_upper_cased() {
    let uuid = "0f9a3bc4e5d6478a9b0c1d2e3f405162";
    assert_eq!(code_of("BAN-", uuid, 6), "BAN-0F9A3B");
    assert_eq!(code_of("", uuid, 8), "0F9A3BC4");
    assert_eq!(code_of("", uuid, 0), "");
    assert_eq!(
        single_group_id_of("67e55044-10b1-426f-9247-bb680e5fe0c8"),
        "single_67e55044-10b1-426f-9247-bb680e5fe0c8"
    );
    // Two fresh codes come from two fresh UUIDs.
    assert_ne!(new_ban_id(), new_ban_id());
}
