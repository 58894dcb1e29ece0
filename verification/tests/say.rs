use nano::say::mocking_case;

#[test]
fn mocking_case_raises_every_second_character() {
    assert_eq!(mocking_case("hello world"), "hElLo wOrLd");
    assert_eq!(mocking_case("HELLO"), "HELLO");
    assert_eq!(mocking_case("ab"), "aB");
    assert_eq!(mocking_case("a"), "a");
    assert_eq!(mocking_case(""), "");
}

#[test]
fn mocking_case_counts_characters_and_spares_non_ascii() {
    assert_eq!(mocking_case("éa"), "éA");
    assert_eq!(mocking_case("aébc"), "aébC");
    assert_eq!(mocking_case("a1b2"), "a1b2");
    assert_eq!(mocking_case("xßy"), "xßy");
}
