use nftablesbuilder::accounts::{
    check_session, logout, message, parse_user_record, second_factor, signed, user_file_name,
    user_of, user_record, LoginOutcome, UserRecord,
};
use nftablesbuilder::hexcode::{decode, encode};

fn s(text: &str) -> String {
    String::from(text)
}

#[test]
fn hexadecimal_text_and_back() {
    assert_eq!(encode(&[0x00, 0x0f, 0xf0, 0xff, 0x9a]), "000ff0ff9a");
    assert_eq!(encode(&[]), "");
    assert_eq!(decode("000FF0ff9A"), Some(vec![0x00, 0x0f, 0xf0, 0xff, 0x9a]));
    assert_eq!(decode(""), Some(vec![]));
    assert_eq!(decode("0"), None);
    assert_eq!(decode("0x"), None);
    assert_eq!(decode(" 00"), None);
    assert_eq!(decode("00\n"), None);
    let all: Vec<u8> = (0u8..=255).collect();
    assert_eq!(decode(&encode(&all)), Some(all));
}

#[test]
fn users_are_filed_under_their_name_in_hexadecimal() {
    assert_eq!(user_file_name("admin"), "61646d696e");
    assert_eq!(user_file_name(""), "");
    assert_eq!(user_file_name("é"), "c3a9");
    assert_eq!(user_of("61646d696e"), Some(s("admin")));
    assert_eq!(user_of("61646D696E"), Some(s("admin")));
    assert_eq!(user_of("admin"), None);
    assert_eq!(user_of("ff"), None);
    assert_eq!(user_of("616"), None);
    assert_eq!(user_of(&user_file_name("a b/c")), Some(s("a b/c")));
}

#[test]
fn a_record_is_two_lines() {
    assert_eq!(user_record("$argon2id$x", "0a0b"), "246172676f6e3269642478\n0a0b");
    assert_eq!(user_record("ab", ""), "6162\n");
    assert_eq!(
        parse_user_record("6162\n0a0b"),
        Some(UserRecord { password_hash: s("ab"), secret: vec![0x0a, 0x0b] })
    );
    assert_eq!(
        parse_user_record("6162\r\n0A0B\nmore\n"),
        Some(UserRecord { password_hash: s("ab"), secret: vec![0x0a, 0x0b] })
    );
    assert_eq!(
        parse_user_record("\n\n"),
        Some(UserRecord { password_hash: s(""), secret: vec![] })
    );
    let text = user_record("$argon2id$v=19$m=19456,t=2,p=1$c2FsdA$aGFzaA", "00ff");
    assert_eq!(
        parse_user_record(&text),
        Some(UserRecord {
            password_hash: s("$argon2id$v=19$m=19456,t=2,p=1$c2FsdA$aGFzaA"),
            secret: vec![0x00, 0xff],
        })
    );
}

#[test]
fn a_corrupt_record_is_none() {
    assert_eq!(parse_user_record(""), None);
    assert_eq!(parse_user_record("6162"), None);
    assert_eq!(parse_user_record("6162\n"), None);
    assert_eq!(parse_user_record("xyz\n0a0b"), None);
    assert_eq!(parse_user_record("ff\n0a0b"), None);
    assert_eq!(parse_user_record("6162\n0a0"), None);
    assert_eq!(parse_user_record("6162\nsecret"), None);
    assert_eq!(parse_user_record(" 6162\n0a0b"), None);
}

#[test]
fn the_second_factor_decides() {
    assert_eq!(second_factor(true, 0, Some(7), Some(7)), LoginOutcome::Accepted);
    assert_eq!(second_factor(true, -1, Some(7), Some(7)), LoginOutcome::Accepted);
    assert_eq!(second_factor(true, 0, Some(8), Some(7)), LoginOutcome::OtherSession);
    assert_eq!(second_factor(true, 0, None, Some(7)), LoginOutcome::InternalError);
    assert_eq!(second_factor(true, 0, Some(7), None), LoginOutcome::InternalError);
    assert_eq!(second_factor(false, 0, Some(7), Some(7)), LoginOutcome::InvalidCredentials);
    assert_eq!(second_factor(false, 2, Some(8), Some(7)), LoginOutcome::TimeDiscrepancy(2));
    assert_eq!(second_factor(false, -3, None, None), LoginOutcome::TimeDiscrepancy(-3));
}

#[test]
fn sessions_are_held_by_one() {
    assert!(check_session(Some(5), Some(5)));
    assert!(!check_session(Some(5), Some(6)));
    assert!(!check_session(Some(5), None));
    assert!(!check_session(None, Some(5)));
    assert!(!check_session(None, None));
    assert_eq!(logout(Some(5), Some(1)), (Some(1), true));
    assert_eq!(logout(Some(1), Some(1)), (Some(1), true));
    assert_eq!(logout(None, Some(1)), (None, false));
    assert_eq!(logout(Some(5), None), (Some(5), false));
}

#[test]
fn outcomes_are_told_in_words() {
    assert_eq!(message(LoginOutcome::Accepted), "OK");
    assert_eq!(message(LoginOutcome::NoUsers), "No users configured");
    assert_eq!(message(LoginOutcome::InvalidCredentials), "Invalid credentials");
    assert_eq!(message(LoginOutcome::CorruptFile), "User file corrupt");
    assert_eq!(message(LoginOutcome::OtherSession), "Another session is active");
    assert_eq!(message(LoginOutcome::TimeDiscrepancy(2)), "Time discrepancy too high: 2");
    assert_eq!(message(LoginOutcome::TimeDiscrepancy(-1)), "Time discrepancy too high: -1");
    assert_eq!(message(LoginOutcome::InternalError), "Internal error");
}

#[test]
fn whole_numbers_as_numerals() {
    for n in [0i16, 1, -1, 9, -10, 255, -256, i16::MAX, i16::MIN] {
        assert_eq!(signed(n), format!("{}", n));
    }
}
