use rumba::urlenc::percent_encode;

#[test]
fn unreserved_characters_pass_through() {
    assert_eq!(percent_encode("abc-XYZ_0.9~"), "abc-XYZ_0.9~");
}

#[test]
fn reserved_characters_are_escaped() {
    assert_eq!(
        percent_encode("https://a.b/c?d=e&f g"),
        "https%3A%2F%2Fa.b%2Fc%3Fd%3De%26f%20g"
    );
}

#[test]
fn the_escape_character_is_itself_escaped() {
    assert_eq!(percent_encode("100%"), "100%25");
}

#[test]
fn empty_input_stays_empty() {
    assert_eq!(percent_encode(""), "");
}
