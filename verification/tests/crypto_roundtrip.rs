use spyrun::crypto::{dec, enc, enc_dec_round_trip};

#[test]
fn test_enc_dec() {
    let sealed = enc("Alice").unwrap();
    assert_eq!(sealed, "EzB4qO+2K66gKXPBNRl7owf4EGpo");
    let opened = dec(&sealed).unwrap();
    assert_eq!(opened, "Alice");
    let rendered = format!(
        "The encrypted text of {} is {}\nThe decrypted text of {} is {}",
        "Alice", sealed, sealed, opened
    );
    assert_eq!(
        rendered,
        "The encrypted text of Alice is EzB4qO+2K66gKXPBNRl7owf4EGpo\nThe decrypted text of EzB4qO+2K66gKXPBNRl7owf4EGpo is Alice"
    );
}

#[test]
fn test_enc_is_not_identity() {
    let sealed = enc("Alice").unwrap();
    assert_ne!(sealed, "Alice");
}

#[test]
fn test_round_trip_assorted() {
    for plain in ["", "a", "hello world", "日本語のテキスト", "line\nbreak & symbols %{}"] {
        assert_eq!(enc_dec_round_trip(plain).unwrap(), plain);
    }
}

#[test]
fn test_dec_rejects_garbage() {
    assert!(dec("not base64 at all!").is_none());
    assert!(dec("QUJDRA==").is_none());
}
