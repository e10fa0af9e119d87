use tilejson::{delimited_fields, Bounds, Coord, ParseBoundsError};

fn c(x: f64) -> Coord {
    Coord::from_bits(x.to_bits())
}

fn b(left: f64, bottom: f64, right: f64, top: f64) -> Bounds {
    Bounds::new(c(left), c(bottom), c(right), c(top))
}

fn parse(s: &str) -> Result<Bounds, ParseBoundsError> {
    let fields = delimited_fields(s);
    let coords = fields.iter().map(|f| f.parse::<f64>().map(c)).collect();
    Bounds::from_parsed_fields(coords)
}

#[test]
fn bounds_test_parse_err() {
    const E_EMPTY: &str = "cannot parse float from empty string";
    const E_FORMAT: &str = "invalid float literal";
    const E_LEN: &str = "Incorrect number of values. Bounds expects four f64 values.";

    let err_to_str = |v| parse(v).unwrap_err().message();

    assert_eq!(err_to_str(""), E_EMPTY);
    assert_eq!(err_to_str("1"), E_LEN);
    assert_eq!(err_to_str("1,2,3"), E_LEN);
    assert_eq!(err_to_str("1,2,3,4,5"), E_LEN);
    assert_eq!(err_to_str("1,2,3,a"), E_FORMAT);
}

#[test]
fn bounds_test_parse() {
    let val = |s| parse(s).unwrap();
    assert_eq!(val("0,0,0,0"), b(0.0, 0.0, 0.0, 0.0));
    assert_eq!(val(" 1 ,2.0, 3.0,  4.0 "), b(1.0, 2.0, 3.0, 4.0));
}

#[test]
fn test_parse_errors() {
    let err = |s| parse(s).unwrap_err();
    assert_eq!(err("0,0,0"), ParseBoundsError::BadLen);
    assert_eq!(err("0,0,0,0,0"), ParseBoundsError::BadLen);
    assert!(matches!(err(""), ParseBoundsError::ParseCoordError(_)));
    assert!(matches!(err("a"), ParseBoundsError::ParseCoordError(_)));
    assert!(matches!(err("0,0,0,1a"), ParseBoundsError::ParseCoordError(_)));
}

#[test]
fn test_from() -> Result<(), ParseBoundsError> {
    let exp = b(1.0, 2.0, 3.0, 4.0);
    assert_eq!(exp, Bounds::from([c(1.0), c(2.0), c(3.0), c(4.0)]));
    assert_eq!(exp, Bounds::try_from([c(1.0), c(2.0), c(3.0), c(4.0)].as_slice())?);
    assert_eq!(exp, Bounds::try_from(vec![c(1.0), c(2.0), c(3.0), c(4.0)])?);
    let val = vec![c(1.0), c(2.0), c(3.0), c(4.0)];
    assert_eq!(exp, Bounds::try_from(val.as_slice())?);
    assert_eq!(exp, Bounds::try_from(val.as_slice())?);

    // f32
    let from_f32 = |x: f32| c(f64::from(x));
    assert_eq!(exp, Bounds::from([1.0f32, 2.0f32, 3.0f32, 4.0f32].map(from_f32)));
    let val_array = [1.0f32, 2.0f32, 3.0f32, 4.0f32].map(from_f32);
    assert_eq!(exp, Bounds::try_from(val_array.as_slice())?);
    let val: Vec<Coord> = vec![1.0f32, 2.0f32, 3.0f32, 4.0f32].into_iter().map(from_f32).collect();
    let borrowed = &val;
    assert_eq!(exp, Bounds::try_from(borrowed.as_slice())?);
    assert_eq!(exp, Bounds::try_from(val.as_slice())?);

    // i32
    assert_eq!(exp, Bounds::from([1, 2, 3, 4]));
    assert_eq!(exp, Bounds::try_from([1, 2, 3, 4].as_slice())?);
    let val = vec![1, 2, 3, 4];
    let borrowed = &val;
    assert_eq!(exp, Bounds::try_from(borrowed.as_slice())?);
    assert_eq!(exp, Bounds::try_from(val.as_slice())?);
    Ok(())
}

#[test]
fn wrong_length_lists_are_refused() {
    assert_eq!(Bounds::try_from(vec![c(1.0), c(2.0), c(3.0)]), Err(ParseBoundsError::BadLen));
    assert_eq!(Bounds::try_from(vec![c(1.0); 5].as_slice()), Err(ParseBoundsError::BadLen));
    assert_eq!(Bounds::try_from(Vec::<Coord>::new()), Err(ParseBoundsError::BadLen));
}

#[test]
fn default_is_tiled_extent() {
    let d = Bounds::default();
    assert_eq!(d, b(-180.0, -85.05112877980659, 180.0, 85.0511287798066));
    assert_eq!(d, Bounds::max_tiled());
    assert_eq!(Bounds::max(), b(-180.0, -90.0, 180.0, 90.0));
}

#[test]
fn add_encloses_both() {
    assert_eq!(b(1., 3., 7., 9.).add(b(2., 2., 8., 8.)), b(1., 2., 8., 9.));
    let mut value = b(1., 3., 7., 9.);
    value.add_assign(b(2., 2., 8., 8.));
    assert_eq!(value, b(1., 2., 8., 9.));
}

#[test]
fn operators_combine() {
    assert_eq!(b(1., 3., 7., 9.) + b(2., 2., 8., 8.), b(1., 2., 8., 9.));
    let mut value = b(1., 3., 7., 9.);
    value += b(2., 2., 8., 8.);
    assert_eq!(value, b(1., 2., 8., 9.));
}

#[test]
fn add_is_commutative_and_associative() {
    let x = b(-10.5, 3.0, 7.25, 9.0);
    let y = b(2.0, -2.0, 80.0, 8.0);
    let z = b(-11.0, 0.0, 5.0, 100.0);
    assert_eq!(x.add(y), y.add(x));
    assert_eq!(x.add(y).add(z), x.add(y.add(z)));
    assert_eq!(x.add(y).add(z), b(-11.0, -2.0, 80.0, 100.0));
}

#[test]
fn add_and_add_assign_agree_on_signed_zero() {
    let plus = b(0.0, 0.0, 0.0, 0.0);
    let minus = b(-0.0, -0.0, -0.0, -0.0);
    let mut acc = plus;
    acc.add_assign(minus);
    assert_eq!(acc, plus.add(minus));
    let mut acc = minus;
    acc.add_assign(plus);
    assert_eq!(acc, minus.add(plus));
}

#[test]
fn less_than_follows_float_order() {
    let pairs = [(1.0, 2.0), (-1.0, 1.0), (-2.0, -1.0), (0.0, -0.0), (-0.0, 0.0), (f64::NAN, 1.0),
        (1.0, f64::NAN), (f64::NEG_INFINITY, -1e300), (5.0, 5.0), (1e-300, 2e-300)];
    for (x, y) in pairs {
        assert_eq!(c(x).less_than(&c(y)), x < y, "{x} < {y}");
    }
}

#[test]
fn integers_convert_exactly() {
    for n in [0, 1, -1, 2, 3, 7, -8, 180, -180, 1 << 20, i32::MAX, i32::MIN, i32::MIN + 1] {
        assert_eq!(Coord::from_i32(n), c(f64::from(n)), "{n}");
    }
    assert_eq!(Bounds::try_from([1, 2, 3].as_slice()), Err(ParseBoundsError::BadLen));
    assert_eq!(Bounds::from([-180, -90, 180, 90]), Bounds::max());
}
