use std::collections::HashSet;

use zero2prod::configuration::Environment;
use zero2prod::token::generate_token;

#[test]
fn generate_token_returns_25_alphanumeric_characters() {
    let t = generate_token();
    assert_eq!(t.len(), 25);
    assert!(t.chars().all(|c| c.is_ascii_alphanumeric()));
}

#[test]
fn generate_token_does_not_collide_over_ten_thousand_draws() {
    let mut seen: HashSet<String> = HashSet::new();
    for _ in 0..10_000 {
        let t = generate_token();
        assert!(seen.insert(t), "two generated tokens collided");
    }
}

#[test]
fn environment_names_round_trip() {
    assert_eq!(Environment::Local.as_str(), "local");
    assert_eq!(Environment::Production.as_str(), "production");
    assert_eq!(Environment::parse("local".to_string()), Ok(Environment::Local));
    assert_eq!(Environment::parse("PRODUCTION".to_string()), Ok(Environment::Production));
    assert_eq!(
        Environment::parse("Staging".to_string()),
        Err(
            "Staging is not a supported environment. Use either `local` or `production`."
                .to_string()
        )
    );
}

#[test]
fn token_from_bytes_spells_the_draws_in_order() {
    let draws: Vec<u8> = (0..25u8).map(|i| b'a' + i).collect();
    let t = zero2prod::token::token_from_bytes(&draws).expect("25 alphanumeric draws");
    assert_eq!(t, "abcdefghijklmnopqrstuvwxy");
}

#[test]
fn token_from_bytes_refuses_bad_draws() {
    let short: Vec<u8> = vec![b'a'; 24];
    assert!(zero2prod::token::token_from_bytes(&short).is_none());
    let long: Vec<u8> = vec![b'a'; 26];
    assert!(zero2prod::token::token_from_bytes(&long).is_none());
    let mut bad: Vec<u8> = vec![b'a'; 25];
    bad[7] = b'!';
    assert!(zero2prod::token::token_from_bytes(&bad).is_none());
}
