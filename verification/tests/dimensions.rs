use raytracer::dimensions::parse_dimensions;

#[test]
fn test_parse_dimensions() {
    assert_eq!(parse_dimensions(""), None);
    assert_eq!(parse_dimensions("10x"), None);
    assert_eq!(parse_dimensions("x10"), None);
    assert_eq!(parse_dimensions("10x20foo"), None);
    assert_eq!(parse_dimensions("10x20"), Some((10, 20)));
}

#[test]
fn test_parse_dimensions_signs() {
    assert_eq!(parse_dimensions("+10x20"), Some((10, 20)));
    assert_eq!(parse_dimensions("-10x-20"), Some((-10, -20)));
    assert_eq!(parse_dimensions("-0x+0"), Some((0, 0)));
    assert_eq!(parse_dimensions("+x20"), None);
    assert_eq!(parse_dimensions("10x-"), None);
    assert_eq!(parse_dimensions("--10x20"), None);
}

#[test]
fn test_parse_dimensions_range() {
    assert_eq!(
        parse_dimensions("2147483647x-2147483648"),
        Some((2147483647, -2147483648))
    );
    assert_eq!(parse_dimensions("2147483648x1"), None);
    assert_eq!(parse_dimensions("1x-2147483649"), None);
    assert_eq!(parse_dimensions("99999999999999999999x1"), None);
}

#[test]
fn test_parse_dimensions_shapes() {
    // split happens at the first 'x'
    assert_eq!(parse_dimensions("10x20x30"), None);
    assert_eq!(parse_dimensions("xx"), None);
    assert_eq!(parse_dimensions("0010x0020"), Some((10, 20)));
    assert_eq!(parse_dimensions("10 x 20"), None);
    assert_eq!(parse_dimensions("axb"), None);
    assert_eq!(parse_dimensions("256X256"), None);
    assert_eq!(parse_dimensions("256x256"), Some((256, 256)));
}
