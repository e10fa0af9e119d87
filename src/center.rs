use crate::coord::Coord;
use crate::text::{
    decimal_of, digits_value, fields_of, has_no_comma, is_digit, is_u8_literal, is_white_space,
    lemma_decimal_digits, lemma_fields_comma, lemma_fields_extend, trim_end_of, trim_of,
    trim_start_of, trimmed_fields_of, unsigned_digits,
};
use vstd::prelude::*;

verus! {

/// A default map position: longitude and latitude in WGS 84 degrees, and a
/// zoom level.
#[derive(Clone, Copy, Debug, PartialEq, Eq, Structural)]
pub struct Center {
    pub longitude: Coord,
    pub latitude: Coord,
    pub zoom: u8,
}

/// Why a list of values does not make a center.
#[derive(Debug, PartialEq, Eq, Clone)]
pub enum ParseCenterError {
    /// Incorrect number of values
    BadLen,
    /// Longitude or latitude did not parse as a number
    ParseCoordError(core::num::ParseFloatError),
    /// The zoom did not parse as a `u8`
    ParseZoomError(core::num::ParseIntError),
}

/// The zoom level that a `u8` literal denotes.
pub open spec fn zoom_of(s: Seq<char>) -> u8 {
    digits_value(unsigned_digits(s)) as u8
}

/// Whether the first `n` outcomes are numbers.
pub open spec fn parsed_upto(c: Seq<Result<Coord, core::num::ParseFloatError>>, n: int) -> bool {
    forall|j: int| 0 <= j < n ==> #[trigger] c[j] is Ok
}

/// The comma-separated text of a center whose longitude and latitude read
/// as `longitude` and `latitude`.
pub open spec fn delimited_text(longitude: Seq<char>, latitude: Seq<char>, zoom: u8) -> Seq<char> {
    longitude + seq![','] + latitude + seq![','] + decimal_of(zoom as nat)
}

/// The comma-separated text of a center: the texts of its longitude and
/// latitude as given, then its zoom in decimal.
pub fn delimited_center(longitude: &str, latitude: &str, zoom: u8) -> (r: String)
    ensures
        r@ == delimited_text(longitude@, latitude@, zoom),
{
    let mut out = String::new();
    out.append(longitude);
    out.append(",");
    out.append(latitude);
    out.append(",");
    crate::text::push_decimal(&mut out, zoom);
    proof {
        reveal_strlit(",");
        assert(out@ =~= delimited_text(longitude@, latitude@, zoom));
    }
    out
}

/// The comma-separated text of a center reads back: where the longitude and
/// latitude texts hold no comma and no white space at their ends, its trimmed
/// fields are those two texts and the zoom's digits, and the digits read as
/// the zoom.
pub proof fn lemma_delimited_center_reads_back(longitude: Seq<char>, latitude: Seq<char>, zoom: u8)
    requires
        has_no_comma(longitude),
        has_no_comma(latitude),
        trim_of(longitude) == longitude,
        trim_of(latitude) == latitude,
    ensures
        trimmed_fields_of(delimited_text(longitude, latitude, zoom)) == seq![
            longitude,
            latitude,
            decimal_of(zoom as nat),
        ],
        is_u8_literal(decimal_of(zoom as nat)),
        zoom_of(decimal_of(zoom as nat)) == zoom,
{
    let d = decimal_of(zoom as nat);
    lemma_decimal_digits(zoom as nat);
    assert(has_no_comma(d)) by {
        assert forall|i: int| 0 <= i < d.len() implies #[trigger] d[i] != ',' by {
            assert(is_digit(d[i]));
        }
    }
    assert(is_digit(d[0]));
    assert(is_digit(d[d.len() - 1]));
    assert(!is_white_space(d[0]));
    assert(trim_start_of(d) == d);
    assert(!is_white_space(d.last()));
    assert(trim_end_of(d) == d);
    let e = Seq::<char>::empty();
    let comma = seq![','];
    lemma_fields_extend(e, longitude);
    assert(e + longitude =~= longitude);
    assert(fields_of(e) == seq![e]);
    assert(fields_of(longitude) =~= seq![longitude]);
    lemma_fields_comma(longitude);
    let t1 = longitude + comma;
    assert(fields_of(t1) =~= seq![longitude, e]);
    lemma_fields_extend(t1, latitude);
    let t2 = t1 + latitude;
    assert(fields_of(t2) =~= seq![longitude, latitude]);
    lemma_fields_comma(t2);
    let t3 = t2 + comma;
    assert(fields_of(t3) =~= seq![longitude, latitude, e]);
    lemma_fields_extend(t3, d);
    assert(fields_of(t3 + d) =~= seq![longitude, latitude, d]);
    assert(t3 + d == delimited_text(longitude, latitude, zoom));
    assert(trimmed_fields_of(delimited_text(longitude, latitude, zoom)) =~= seq![
        longitude,
        latitude,
        d,
    ]);
    assert(d[0] != '+');
    assert(unsigned_digits(d) == d);
}

impl Center {
    #[must_use]
    pub fn new(longitude: Coord, latitude: Coord, zoom: u8) -> (r: Center)
        ensures
            r == (Center { longitude, latitude, zoom }),
    {
        Center { longitude, latitude, zoom }
    }

    /// Read a center from the trimmed fields of a comma-separated string and
    /// the outcomes of parsing each of them as a number, one per field.
    ///
    /// Longitude, latitude and zoom are read in turn; a missing field or a
    /// failed parse ends it, and a fourth field is refused.
    pub fn from_parsed_fields(
        coords: Vec<Result<Coord, core::num::ParseFloatError>>,
        fields: &Vec<String>,
    ) -> (r: Result<Center, ParseCenterError>)
        requires
            coords@.len() == fields@.len(),
        ensures
            fields@.len() < 1 ==> r == Err::<Center, ParseCenterError>(ParseCenterError::BadLen),
            fields@.len() >= 1 && coords@[0] is Err ==> r == Err::<Center, ParseCenterError>(
                ParseCenterError::ParseCoordError(coords@[0]->Err_0),
            ),
            fields@.len() == 1 && parsed_upto(coords@, 1) ==> r == Err::<Center, ParseCenterError>(
                ParseCenterError::BadLen,
            ),
            fields@.len() >= 2 && parsed_upto(coords@, 1) && coords@[1] is Err ==> r == Err::<
                Center,
                ParseCenterError,
            >(ParseCenterError::ParseCoordError(coords@[1]->Err_0)),
            fields@.len() == 2 && parsed_upto(coords@, 2) ==> r == Err::<Center, ParseCenterError>(
                ParseCenterError::BadLen,
            ),
            fields@.len() >= 3 && parsed_upto(coords@, 2) && !is_u8_literal(fields@[2]@) ==> (r is Err
                && r->Err_0 is ParseZoomError),
            fields@.len() > 3 && parsed_upto(coords@, 2) && is_u8_literal(fields@[2]@) ==> r == Err::<
                Center,
                ParseCenterError,
            >(ParseCenterError::BadLen),
            fields@.len() == 3 && parsed_upto(coords@, 2) && is_u8_literal(fields@[2]@) ==> r == Ok::<
                Center,
                ParseCenterError,
            >(
                Center {
                    longitude: coords@[0]->Ok_0,
                    latitude: coords@[1]->Ok_0,
                    zoom: zoom_of(fields@[2]@),
                },
            ),
    {
        let mut coords = coords;
        if fields.len() < 1 {
            return Err(ParseCenterError::BadLen);
        }
        let longitude = match coords[0] {
            Ok(v) => v,
            Err(_) => {
                return match coords.remove(0) {
                    Err(e) => Err(ParseCenterError::ParseCoordError(e)),
                    Ok(_) => Err(ParseCenterError::BadLen),
                };
            },
        };
        if fields.len() < 2 {
            return Err(ParseCenterError::BadLen);
        }
        let latitude = match coords[1] {
            Ok(v) => v,
            Err(_) => {
                return match coords.remove(1) {
                    Err(e) => Err(ParseCenterError::ParseCoordError(e)),
                    Ok(_) => Err(ParseCenterError::BadLen),
                };
            },
        };
        if fields.len() < 3 {
            return Err(ParseCenterError::BadLen);
        }
        let zoom = match crate::text::parse_u8(fields[2].as_str()) {
            Ok(z) => z,
            Err(e) => {
                return Err(ParseCenterError::ParseZoomError(e));
            },
        };
        if fields.len() > 3 {
            Err(ParseCenterError::BadLen)
        } else {
            Ok(Center { longitude, latitude, zoom })
        }
    }
}

impl ParseCenterError {
    /// A message that describes the error: a fixed sentence for a wrong count,
    /// else what the number parser reported.
    pub fn message(&self) -> (r: String)
        ensures
            *self is BadLen ==> r@ == "Incorrect number of values. Center expects two f64 and one u8 values."@,
            *self is ParseCoordError ==> crate::text::is_float_error_message(r@),
            *self is ParseZoomError ==> crate::text::is_int_error_message(r@),
    {
        match self {
            ParseCenterError::BadLen => String::from_str(
                "Incorrect number of values. Center expects two f64 and one u8 values.",
            ),
            ParseCenterError::ParseCoordError(e) => crate::text::float_error_text(e),
            ParseCenterError::ParseZoomError(e) => crate::text::int_error_text(e),
        }
    }
}

impl Default for Center {
    /// Longitude, latitude and zoom all zero.
    fn default() -> (r: Center)
        ensures
            r == (Center { longitude: Coord { bits: 0 }, latitude: Coord { bits: 0 }, zoom: 0 }),
    {
        Center { longitude: Coord { bits: 0 }, latitude: Coord { bits: 0 }, zoom: 0 }
    }
}

impl From<(Coord, Coord, u8)> for Center {
    /// A tuple as a Center value, in the order of [`Center::new`].
    fn from(value: (Coord, Coord, u8)) -> Center {
        Center { longitude: value.0, latitude: value.1, zoom: value.2 }
    }
}

impl vstd::std_specs::convert::FromSpecImpl<(Coord, Coord, u8)> for Center {
    open spec fn obeys_from_spec() -> bool {
        true
    }

    open spec fn from_spec(v: (Coord, Coord, u8)) -> Center {
        Center { longitude: v.0, latitude: v.1, zoom: v.2 }
    }
}

} // verus!
