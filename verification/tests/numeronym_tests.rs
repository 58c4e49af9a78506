use numeronym::generate_numeronym;

#[test]
fn test_well_known_examples() {
    assert_eq!(generate_numeronym("localization"), "l10n");
    assert_eq!(generate_numeronym("internationalizatoin"), "i18n");
    assert_eq!(generate_numeronym("accessibility"), "a11y");
    assert_eq!(generate_numeronym("observability"), "o11y");
}

#[test]
fn test_well_known_example_with_uppercase() {
    assert_eq!(generate_numeronym("Andreessen Horowitz"), "a16z");
}

#[test]
fn test_trimming() {
    assert_eq!(generate_numeronym("shorten"), "s5n");
    assert_eq!(generate_numeronym("   shorten"), "s5n");
    assert_eq!(generate_numeronym("shorten    "), "s5n");
    assert_eq!(generate_numeronym(" shorten "), "s5n");
    assert_eq!(generate_numeronym("    shorten "), "s5n");
}

#[test]
fn test_case_handling() {
    assert_eq!(generate_numeronym("tomato"), "t4o");
    assert_eq!(generate_numeronym("Tomato"), "t4o");
    assert_eq!(generate_numeronym("TOMATO"), "t4o");
    assert_eq!(generate_numeronym("TomatO"), "t4o");
}

#[test]
fn test_non_ascii_characters() {
    assert_eq!(generate_numeronym("Gy\u{151}z\u{151}"), "g3\u{151}");
    assert_eq!(generate_numeronym("\u{c1}lmos"), "\u{e1}3s");
}

#[test]
fn test_emojis() {
    assert_eq!(generate_numeronym("a\u{1f602}c"), "a1c");
    assert_eq!(generate_numeronym("a\u{1f602}\u{1f602}"), "a1\u{1f602}");
    assert_eq!(
        generate_numeronym("\u{1f602}\u{1f602}\u{1f602}"),
        "\u{1f602}1\u{1f602}"
    );
    assert_eq!(
        generate_numeronym("\u{1f40d}\u{1f469}\u{1f3fb}\u{200d}\u{1f52c}\u{1f44c}\u{1f3fe}"),
        "\u{1f40d}1\u{1f44c}\u{1f3fe}"
    );
}

#[test]
fn test_short_inputs() {
    assert_eq!(generate_numeronym(""), "");
    assert_eq!(generate_numeronym("a"), "a");
    assert_eq!(generate_numeronym("ab"), "ab");
    assert_eq!(generate_numeronym("abc"), "a1c");
}

#[test]
fn test_single_cluster_lowercased() {
    assert_eq!(generate_numeronym("A"), "a");
    assert_eq!(generate_numeronym("\u{c5}"), "\u{e5}");
    assert_eq!(generate_numeronym("a\u{310}"), "a\u{310}");
}

#[test]
fn test_two_clusters_lowercased_in_order() {
    assert_eq!(generate_numeronym("AB"), "ab");
    assert_eq!(generate_numeronym("aB"), "ab");
    assert_eq!(generate_numeronym("Ba"), "ba");
}

#[test]
fn test_whitespace_only_input() {
    assert_eq!(generate_numeronym(" "), "");
    assert_eq!(generate_numeronym("  \t\r\n \u{a0}\u{2003}"), "");
}

#[test]
fn test_mixed_whitespace_everywhere() {
    assert_eq!(generate_numeronym("\t A \u{2003}b \n\u{a0}C "), "a1c");
    assert_eq!(generate_numeronym("   shorten "), "s5n");
}

#[test]
fn test_multi_digit_counts_exact() {
    let hundred_two = "x".repeat(104);
    assert_eq!(generate_numeronym(&hundred_two), "x102x");
    let ten = "a".repeat(12);
    assert_eq!(generate_numeronym(&ten), "a10a");
    let nine = "b".repeat(11);
    assert_eq!(generate_numeronym(&nine), "b9b");
}
