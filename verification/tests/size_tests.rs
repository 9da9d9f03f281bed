use music_presence::size::SizeParser;

#[test]
fn well_formed_sizes_parse() {
    assert_eq!(SizeParser.parse("150x150"), Some((150, 150)));
    assert_eq!(SizeParser.parse("1x2"), Some((1, 2)));
    assert_eq!(SizeParser.parse("+3x4"), Some((3, 4)));
}

#[test]
fn split_is_at_the_first_x() {
    // "1x2x3" splits into "1" and "2x3"; the right side does not parse.
    assert_eq!(SizeParser.parse("1x2x3"), None);
}

#[test]
fn malformed_sizes_are_rejected() {
    assert_eq!(SizeParser.parse(""), None);
    assert_eq!(SizeParser.parse("150"), None);
    assert_eq!(SizeParser.parse("x5"), None);
    assert_eq!(SizeParser.parse("5x"), None);
    assert_eq!(SizeParser.parse("ax5"), None);
    assert_eq!(SizeParser.parse("5x-1"), None);
    assert_eq!(SizeParser.parse("4294967296x1"), None);
}
