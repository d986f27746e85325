use assistant_relay::key::session_key;

#[test]
fn key_of_zero_is_a_single_digit() {
    assert_eq!(session_key(0), "0");
}

#[test]
fn key_is_the_identifier_in_decimal() {
    assert_eq!(session_key(7), "7");
    assert_eq!(session_key(10), "10");
    assert_eq!(session_key(42), "42");
    assert_eq!(session_key(1000), "1000");
    assert_eq!(session_key(5099812345), "5099812345");
}

#[test]
fn key_of_a_negative_identifier_has_a_minus_sign() {
    assert_eq!(session_key(-1), "-1");
    assert_eq!(session_key(-10), "-10");
    assert_eq!(session_key(-1001234567890), "-1001234567890");
}

#[test]
fn key_of_the_extreme_identifiers() {
    assert_eq!(session_key(i64::MAX), "9223372036854775807");
    assert_eq!(session_key(i64::MIN), "-9223372036854775808");
}

#[test]
fn key_is_what_the_platform_writes() {
    let mut chat_id: i64 = 1;
    for step in 0..62 {
        assert_eq!(session_key(chat_id), chat_id.to_string());
        assert_eq!(session_key(-chat_id), (-chat_id).to_string());
        assert_eq!(session_key(chat_id - 1), (chat_id - 1).to_string());
        chat_id = chat_id * 2 + (step % 2);
    }
}

#[test]
fn keys_of_different_chats_differ() {
    let chats = [0, 1, -1, 10, -10, 11, 101, 110, -110, i64::MAX, i64::MIN];
    for a in chats {
        for b in chats {
            assert_eq!(session_key(a) == session_key(b), a == b);
        }
    }
}
