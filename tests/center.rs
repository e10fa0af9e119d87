use tilejson::{delimited_center, delimited_fields, Center, Coord, ParseCenterError};

fn c(x: f64) -> Coord {
    Coord::from_bits(x.to_bits())
}

fn parse(s: &str) -> Result<Center, ParseCenterError> {
    let fields = delimited_fields(s);
    let coords = fields.iter().map(|f| f.parse::<f64>().map(c)).collect();
    Center::from_parsed_fields(coords, &fields)
}

#[test]
fn center_test_parse_err() {
    const E_EMPTY: &str = "cannot parse float from empty string";
    const E_FORMAT: &str = "invalid digit found in string";
    const E_LEN: &str = "Incorrect number of values. Center expects two f64 and one u8 values.";

    let err_to_str = |s| parse(s).unwrap_err().message();

    assert_eq!(err_to_str(""), E_EMPTY);
    assert_eq!(err_to_str("1"), E_LEN);
    assert_eq!(err_to_str("1,2"), E_LEN);
    assert_eq!(err_to_str("1,2,3,4"), E_LEN);
    assert_eq!(err_to_str("1,2,a"), E_FORMAT);
    assert_eq!(err_to_str("1,2,1.1"), E_FORMAT);
    assert_eq!(err_to_str("1,,0"), E_EMPTY);
}

#[test]
fn center_test_parse() {
    let val = |s| parse(s).unwrap();
    assert_eq!(val("0,0,0"), Center::new(c(0.0), c(0.0), 0));
    assert_eq!(val("  1 ,2.0, 3 "), Center::new(c(1.0), c(2.0), 3));
}

#[test]
fn zoom_errors_and_limits() {
    assert!(matches!(parse("1,2,a"), Err(ParseCenterError::ParseZoomError(_))));
    assert!(matches!(parse("1,2,1.1"), Err(ParseCenterError::ParseZoomError(_))));
    assert!(matches!(parse("1,2,256"), Err(ParseCenterError::ParseZoomError(_))));
    assert!(matches!(parse("1,2,-1"), Err(ParseCenterError::ParseZoomError(_))));
    assert!(matches!(parse("1,x,3"), Err(ParseCenterError::ParseCoordError(_))));
    assert_eq!(parse("1,2,a,4").unwrap_err(), parse("1,2,a").unwrap_err());
    assert_eq!(parse("1,2,255"), Ok(Center::new(c(1.0), c(2.0), 255)));
    assert_eq!(parse("1,2,+7"), Ok(Center::new(c(1.0), c(2.0), 7)));
}

#[test]
fn center_from_tuple_and_default() {
    assert_eq!(Center::from((c(1.0), c(2.0), 3)), Center::new(c(1.0), c(2.0), 3));
    assert_eq!(Center::default(), Center::new(c(0.0), c(0.0), 0));
}

#[test]
fn fields_are_split_and_trimmed() {
    assert_eq!(delimited_fields(""), vec![String::new()]);
    assert_eq!(delimited_fields(" a ,\tb\n, ,"), vec!["a", "b", "", ""]);
    assert_eq!(delimited_fields("\u{a0}x\u{3000}"), vec!["x"]);
}

#[test]
fn delimited_text_of_center() {
    assert_eq!(delimited_center("1.5", "-2.5", 8), "1.5,-2.5,8");
    assert_eq!(delimited_center("1.50", "-2.50", 8), "1.50,-2.50,8");
    assert_eq!(delimited_center("0", "0", 0), "0,0,0");
    assert_eq!(delimited_center("a", "b", 10), "a,b,10");
    assert_eq!(delimited_center("a", "b", 100), "a,b,100");
    assert_eq!(delimited_center("a", "b", 255), "a,b,255");
}

#[test]
fn delimited_text_reads_back() {
    for (lon, lat, zoom) in [(1.5, -2.5, 8u8), (0.0, 0.0, 0), (-180.0, 85.0511287798066, 255), (1e-7, 3.25, 30)] {
        let text = delimited_center(&lon.to_string(), &lat.to_string(), zoom);
        assert_eq!(parse(&text), Ok(Center::new(c(lon), c(lat), zoom)), "{text}");
    }
}

#[test]
fn zoom_error_messages() {
    let msg = |s| parse(s).unwrap_err().message();
    assert_eq!(msg("1,2,"), "cannot parse integer from empty string");
    assert_eq!(msg("1,2,x"), "invalid digit found in string");
    assert_eq!(msg("1,2,256"), "number too large to fit in target type");
    assert_eq!(msg("1,a,3"), "invalid float literal");
}
