use games_service::utils::id_generator::{generate_uuid, reference_from_parts};
use games_service::utils::password_helper::{hash_password, hex_encode};
use games_service::utils::text::{decimal_string, str_equals, strip_hyphens};

#[test]
fn str_equals_compares_characters() {
    assert!(str_equals("Xbox", "Xbox"));
    assert!(!str_equals("Xbox", "Xbo"));
    assert!(!str_equals("Xbox", "xbox"));
    assert!(str_equals("", ""));
    assert!(str_equals("héllo", "héllo"));
}

#[test]
fn strip_hyphens_leaves_out_every_hyphen() {
    assert_eq!(strip_hyphens("a-b--c-"), "abc");
    assert_eq!(strip_hyphens("---"), "");
    assert_eq!(strip_hyphens(""), "");
    assert_eq!(strip_hyphens("no_hyphen"), "no_hyphen");
    assert_eq!(strip_hyphens("é-ü"), "éü");
}

#[test]
fn decimal_string_writes_integers() {
    assert_eq!(decimal_string(0), "0");
    assert_eq!(decimal_string(7), "7");
    assert_eq!(decimal_string(10), "10");
    assert_eq!(decimal_string(-42), "-42");
    assert_eq!(decimal_string(1700014400), "1700014400");
    assert_eq!(decimal_string(i64::MAX), i64::MAX.to_string());
    assert_eq!(decimal_string(i64::MIN), i64::MIN.to_string());
}

#[test]
fn reference_joins_and_strips() {
    let r = reference_from_parts("game_", "67e55044-10b1-426f-9247-bb680e5fe0c8");
    assert_eq!(r, "game_67e5504410b1426f9247bb680e5fe0c8");
    let r = reference_from_parts("my-prefix_", "67e55044-10b1-426f-9247-bb680e5fe0c8");
    assert_eq!(r, "myprefix_67e5504410b1426f9247bb680e5fe0c8");
}

#[test]
fn generate_uuid_shape() {
    let r = generate_uuid("customer_");
    assert_eq!(r.len(), "customer_".len() + 32);
    assert!(r.starts_with("customer_"));
    assert!(!r.contains('-'));
    assert!(r["customer_".len()..].chars().all(|c| c.is_ascii_digit() || ('a'..='f').contains(&c)));
    assert_eq!(&r[9 + 12..9 + 13], "4");
    let r2 = generate_uuid("customer_");
    assert_ne!(r, r2);
}

#[test]
fn generate_uuid_strips_prefix_hyphens() {
    let r = generate_uuid("a-b-");
    assert!(r.starts_with("ab"));
    assert_eq!(r.len(), 2 + 32);
}

#[test]
fn hash_password_is_sha256_hex() {
    assert_eq!(
        hash_password(&"password".to_string()),
        "5e884898da28047151d0e56f8dc6292773603d0d6aabbdd62a11ef721d1542d8"
    );
    assert_eq!(
        hash_password(&String::new()),
        "e3b0c44298fc1c149afbf4c8996fb92427ae41e4649b934ca495991b7852b855"
    );
    assert_eq!(
        hash_password(&"pässwörd".to_string()),
        "46970bef70aced8123f0d5d094717e2a5cd412041e03b26376049fe65b2834a4"
    );
}

#[test]
fn hash_password_is_deterministic() {
    let a = hash_password(&"hunter2".to_string());
    let b = hash_password(&"hunter2".to_string());
    assert_eq!(a, b);
    assert_eq!(a.len(), 64);
    assert_ne!(a, hash_password(&"hunter3".to_string()));
}

#[test]
fn hex_encode_writes_lowercase_pairs() {
    assert_eq!(hex_encode(&[]), "");
    assert_eq!(hex_encode(&[0x00, 0x0f, 0xa5, 0xff]), "000fa5ff");
    assert_eq!(hex_encode(&[0xde, 0xad, 0xbe, 0xef]), "deadbeef");
}

#[test]
fn distinct_uuids_give_distinct_references() {
    let a = reference_from_parts("game_", "67e55044-10b1-426f-9247-bb680e5fe0c8");
    let b = reference_from_parts("game_", "67e55044-10b1-426f-9247-bb680e5fe0c9");
    assert_ne!(a, b);
    let refs: Vec<String> = (0..50).map(|_| generate_uuid("game_")).collect();
    for i in 0..refs.len() {
        assert_eq!(refs[i].len(), 37);
        for j in i + 1..refs.len() {
            assert_ne!(refs[i], refs[j]);
        }
    }
}
