use crate::coord::Coord;
use vstd::prelude::*;

verus! {

/// A bounding box in WGS 84 degrees: left, bottom, right, top.
///
/// No order between the sides is required: a box whose sides coincide
/// stands for a single point.
#[derive(Clone, Copy, Debug, PartialEq, Eq, Structural)]
pub struct Bounds {
    pub left: Coord,
    pub bottom: Coord,
    pub right: Coord,
    pub top: Coord,
}

/// Why a list of values does not make a bounding box.
#[derive(Debug, PartialEq, Eq, Clone)]
pub enum ParseBoundsError {
    /// Incorrect number of values
    BadLen,
    /// A value did not parse as a number; holds what the number parser reported
    ParseCoordError(core::num::ParseFloatError),
}

/// The lesser of two coordinates as `if a < b { a } else { b }` picks it.
pub open spec fn lower(a: Coord, b: Coord) -> Coord {
    if a.lt(b) {
        a
    } else {
        b
    }
}

/// The greater of two coordinates as `if a > b { a } else { b }` picks it.
pub open spec fn upper(a: Coord, b: Coord) -> Coord {
    if b.lt(a) {
        a
    } else {
        b
    }
}

/// The bounding box that `fields` make: the parse of each of the first four
/// in turn, a missing field or a failed parse ending it; then no fifth field.
pub open spec fn parsed_bounds(fields: Seq<Result<Coord, core::num::ParseFloatError>>) -> Result<
    Bounds,
    ParseBoundsError,
> {
    if fields.len() < 1 {
        Err(ParseBoundsError::BadLen)
    } else if fields[0] is Err {
        Err(ParseBoundsError::ParseCoordError(fields[0]->Err_0))
    } else if fields.len() < 2 {
        Err(ParseBoundsError::BadLen)
    } else if fields[1] is Err {
        Err(ParseBoundsError::ParseCoordError(fields[1]->Err_0))
    } else if fields.len() < 3 {
        Err(ParseBoundsError::BadLen)
    } else if fields[2] is Err {
        Err(ParseBoundsError::ParseCoordError(fields[2]->Err_0))
    } else if fields.len() < 4 {
        Err(ParseBoundsError::BadLen)
    } else if fields[3] is Err {
        Err(ParseBoundsError::ParseCoordError(fields[3]->Err_0))
    } else if fields.len() > 4 {
        Err(ParseBoundsError::BadLen)
    } else {
        Ok(
            Bounds {
                left: fields[0]->Ok_0,
                bottom: fields[1]->Ok_0,
                right: fields[2]->Ok_0,
                top: fields[3]->Ok_0,
            },
        )
    }
}

impl Bounds {
    /// The box that encloses `self` and `rhs`, side by side.
    pub open spec fn combined(self, rhs: Bounds) -> Bounds {
        Bounds {
            left: lower(self.left, rhs.left),
            bottom: lower(self.bottom, rhs.bottom),
            right: upper(self.right, rhs.right),
            top: upper(self.top, rhs.top),
        }
    }

    /// `[-180, -90, 180, 90]`.
    pub open spec fn spec_max() -> Bounds {
        Bounds {
            left: Coord { bits: 0xc066_8000_0000_0000 },
            bottom: Coord { bits: 0xc056_8000_0000_0000 },
            right: Coord { bits: 0x4066_8000_0000_0000 },
            top: Coord { bits: 0x4056_8000_0000_0000 },
        }
    }

    /// `[-180, -85.05112877980659, 180, 85.0511287798066]`.
    pub open spec fn spec_max_tiled() -> Bounds {
        Bounds {
            left: Coord { bits: 0xc066_8000_0000_0000 },
            bottom: Coord { bits: 0xc055_4345_b1a5_49d6 },
            right: Coord { bits: 0x4066_8000_0000_0000 },
            top: Coord { bits: 0x4055_4345_b1a5_49d7 },
        }
    }

    /// Whether no side is NaN.
    pub open spec fn is_numeric(self) -> bool {
        !self.left.is_nan() && !self.bottom.is_nan() && !self.right.is_nan() && !self.top.is_nan()
    }

    /// Whether the two boxes have sides of equal value (IEEE 754 `==`).
    pub open spec fn same_value(self, other: Bounds) -> bool {
        &&& self.left.same_value(other.left)
        &&& self.bottom.same_value(other.bottom)
        &&& self.right.same_value(other.right)
        &&& self.top.same_value(other.top)
    }

    /// Create a new Bounds object.
    pub fn new(left: Coord, bottom: Coord, right: Coord, top: Coord) -> (r: Bounds)
        ensures
            r == (Bounds { left, bottom, right, top }),
    {
        Bounds { left, bottom, right, top }
    }

    /// The whole WGS 84 extent.
    pub fn max() -> (r: Bounds)
        ensures
            r == Bounds::spec_max(),
    {
        Bounds {
            left: Coord { bits: 0xc066_8000_0000_0000 },
            bottom: Coord { bits: 0xc056_8000_0000_0000 },
            right: Coord { bits: 0x4066_8000_0000_0000 },
            top: Coord { bits: 0x4056_8000_0000_0000 },
        }
    }

    /// The largest extent that square web-mercator tiles cover.
    pub fn max_tiled() -> (r: Bounds)
        ensures
            r == Bounds::spec_max_tiled(),
    {
        Bounds {
            left: Coord { bits: 0xc066_8000_0000_0000 },
            bottom: Coord { bits: 0xc055_4345_b1a5_49d6 },
            right: Coord { bits: 0x4066_8000_0000_0000 },
            top: Coord { bits: 0x4055_4345_b1a5_49d7 },
        }
    }

    /// Combine two bounds, resulting in a bounding box that encloses both.
    pub fn add(self, rhs: Bounds) -> (r: Bounds)
        ensures
            r == self.combined(rhs),
    {
        Bounds {
            left: if self.left.less_than(&rhs.left) {
                self.left
            } else {
                rhs.left
            },
            bottom: if self.bottom.less_than(&rhs.bottom) {
                self.bottom
            } else {
                rhs.bottom
            },
            right: if rhs.right.less_than(&self.right) {
                self.right
            } else {
                rhs.right
            },
            top: if rhs.top.less_than(&self.top) {
                self.top
            } else {
                rhs.top
            },
        }
    }

    /// Combine another bounds into this one; the result is the one that
    /// [`Bounds::add`] gives, to the bit.
    pub fn add_assign(&mut self, rhs: Bounds)
        ensures
            *final(self) == old(self).combined(rhs),
    {
        if !self.left.less_than(&rhs.left) {
            self.left = rhs.left;
        }
        if !self.bottom.less_than(&rhs.bottom) {
            self.bottom = rhs.bottom;
        }
        if !rhs.right.less_than(&self.right) {
            self.right = rhs.right;
        }
        if !rhs.top.less_than(&self.top) {
            self.top = rhs.top;
        }
    }

    /// Read the four sides from the outcomes of parsing the fields of a
    /// comma-separated string, one outcome per field, in order.
    pub fn from_parsed_fields(fields: Vec<Result<Coord, core::num::ParseFloatError>>) -> (r: Result<
        Bounds,
        ParseBoundsError,
    >)
        ensures
            r == parsed_bounds(fields@),
    {
        let mut outcomes = fields;
        let mut sides: Vec<Coord> = Vec::new();
        let mut i: usize = 0;
        while i < 4
            invariant
                i <= 4,
                outcomes@ == fields@,
                i <= outcomes@.len(),
                sides@.len() == i,
                forall|j: int| 0 <= j < i ==> #[trigger] outcomes@[j] == Ok::<
                    Coord,
                    core::num::ParseFloatError,
                >(sides@[j]),
            decreases 4 - i,
        {
            proof {
                if i > 0 {
                    assert(outcomes@[0] is Ok);
                }
                if i > 1 {
                    assert(outcomes@[1] is Ok);
                }
                if i > 2 {
                    assert(outcomes@[2] is Ok);
                }
            }
            if i >= outcomes.len() {
                return Err(ParseBoundsError::BadLen);
            }
            match outcomes[i] {
                Ok(v) => {
                    sides.push(v);
                },
                Err(_) => {
                    let failed = outcomes.remove(i);
                    return match failed {
                        Err(e) => Err(ParseBoundsError::ParseCoordError(e)),
                        Ok(_) => Err(ParseBoundsError::BadLen),
                    };
                },
            }
            i += 1;
        }
        if outcomes.len() > 4 {
            Err(ParseBoundsError::BadLen)
        } else {
            Ok(Bounds { left: sides[0], bottom: sides[1], right: sides[2], top: sides[3] })
        }
    }
}

impl ParseBoundsError {
    /// A message that describes the error: a fixed sentence for a wrong count,
    /// else what the number parser reported.
    pub fn message(&self) -> (r: String)
        ensures
            *self is BadLen ==> r@ == "Incorrect number of values. Bounds expects four f64 values."@,
            *self is ParseCoordError ==> crate::text::is_float_error_message(r@),
    {
        match self {
            ParseBoundsError::BadLen => String::from_str(
                "Incorrect number of values. Bounds expects four f64 values.",
            ),
            ParseBoundsError::ParseCoordError(e) => crate::text::float_error_text(e),
        }
    }
}

impl core::ops::Add for Bounds {
    type Output = Bounds;

    /// Combine two bounds, resulting in a bounding box that encloses both.
    fn add(self, rhs: Bounds) -> Bounds {
        Bounds::add(self, rhs)
    }
}

impl vstd::std_specs::ops::AddSpecImpl for Bounds {
    open spec fn obeys_add_spec() -> bool {
        true
    }

    open spec fn add_req(self, rhs: Bounds) -> bool {
        true
    }

    open spec fn add_spec(self, rhs: Bounds) -> Bounds {
        self.combined(rhs)
    }
}

impl core::ops::AddAssign for Bounds {
    /// Combine another bounds into this one.
    fn add_assign(&mut self, rhs: Bounds) {
        Bounds::add_assign(self, rhs)
    }
}

impl Default for Bounds {
    /// The extent that square web-mercator tiles cover.
    fn default() -> (r: Bounds)
        ensures
            r == Bounds::spec_max_tiled(),
    {
        Bounds::max_tiled()
    }
}

impl From<[Coord; 4]> for Bounds {
    /// Four values as a Bounds value, in the order of [`Bounds::new`].
    fn from(value: [Coord; 4]) -> Bounds {
        Bounds { left: value[0], bottom: value[1], right: value[2], top: value[3] }
    }
}

impl vstd::std_specs::convert::FromSpecImpl<[Coord; 4]> for Bounds {
    open spec fn obeys_from_spec() -> bool {
        true
    }

    open spec fn from_spec(v: [Coord; 4]) -> Bounds {
        Bounds { left: v@[0], bottom: v@[1], right: v@[2], top: v@[3] }
    }
}

/// The coordinate whose value is the integer `n`.
pub open spec fn int_coord(n: i32) -> Coord {
    Coord { bits: crate::coord::encoding_of_int(n as int) as u64 }
}

impl From<[i32; 4]> for Bounds {
    /// Four integers as a Bounds value, in the order of [`Bounds::new`].
    fn from(value: [i32; 4]) -> Bounds {
        Bounds {
            left: Coord::from_i32(value[0]),
            bottom: Coord::from_i32(value[1]),
            right: Coord::from_i32(value[2]),
            top: Coord::from_i32(value[3]),
        }
    }
}

impl vstd::std_specs::convert::FromSpecImpl<[i32; 4]> for Bounds {
    open spec fn obeys_from_spec() -> bool {
        true
    }

    open spec fn from_spec(v: [i32; 4]) -> Bounds {
        Bounds {
            left: int_coord(v@[0]),
            bottom: int_coord(v@[1]),
            right: int_coord(v@[2]),
            top: int_coord(v@[3]),
        }
    }
}

impl<'a> TryFrom<&'a [i32]> for Bounds {
    type Error = ParseBoundsError;

    /// Four integers as a Bounds value, in the order of [`Bounds::new`].
    fn try_from(value: &'a [i32]) -> Result<Bounds, ParseBoundsError> {
        if value.len() == 4 {
            Ok(
                Bounds {
                    left: Coord::from_i32(value[0]),
                    bottom: Coord::from_i32(value[1]),
                    right: Coord::from_i32(value[2]),
                    top: Coord::from_i32(value[3]),
                },
            )
        } else {
            Err(ParseBoundsError::BadLen)
        }
    }
}

impl<'a> vstd::std_specs::convert::TryFromSpecImpl<&'a [i32]> for Bounds {
    open spec fn obeys_try_from_spec() -> bool {
        true
    }

    open spec fn try_from_spec(v: &'a [i32]) -> Result<Bounds, ParseBoundsError> {
        if v@.len() == 4 {
            Ok(
                Bounds {
                    left: int_coord(v@[0]),
                    bottom: int_coord(v@[1]),
                    right: int_coord(v@[2]),
                    top: int_coord(v@[3]),
                },
            )
        } else {
            Err(ParseBoundsError::BadLen)
        }
    }
}

/// The parts of a bounding box that a list of values makes: exactly four,
/// in the order of [`Bounds::new`].
pub open spec fn bounds_from_values(v: Seq<Coord>) -> Result<Bounds, ParseBoundsError> {
    if v.len() == 4 {
        Ok(Bounds { left: v[0], bottom: v[1], right: v[2], top: v[3] })
    } else {
        Err(ParseBoundsError::BadLen)
    }
}

impl TryFrom<Vec<Coord>> for Bounds {
    type Error = ParseBoundsError;

    /// Four values as a Bounds value, in the order of [`Bounds::new`].
    fn try_from(value: Vec<Coord>) -> Result<Bounds, ParseBoundsError> {
        if value.len() == 4 {
            Ok(Bounds { left: value[0], bottom: value[1], right: value[2], top: value[3] })
        } else {
            Err(ParseBoundsError::BadLen)
        }
    }
}

impl vstd::std_specs::convert::TryFromSpecImpl<Vec<Coord>> for Bounds {
    open spec fn obeys_try_from_spec() -> bool {
        true
    }

    open spec fn try_from_spec(v: Vec<Coord>) -> Result<Bounds, ParseBoundsError> {
        bounds_from_values(v@)
    }
}

impl<'a> TryFrom<&'a [Coord]> for Bounds {
    type Error = ParseBoundsError;

    /// Four values as a Bounds value, in the order of [`Bounds::new`].
    fn try_from(value: &'a [Coord]) -> Result<Bounds, ParseBoundsError> {
        if value.len() == 4 {
            Ok(Bounds { left: value[0], bottom: value[1], right: value[2], top: value[3] })
        } else {
            Err(ParseBoundsError::BadLen)
        }
    }
}

impl<'a> vstd::std_specs::convert::TryFromSpecImpl<&'a [Coord]> for Bounds {
    open spec fn obeys_try_from_spec() -> bool {
        true
    }

    open spec fn try_from_spec(v: &'a [Coord]) -> Result<Bounds, ParseBoundsError> {
        bounds_from_values(v@)
    }
}

/// Four values read back: four successful parses, one per field, make the
/// bounding box of those values in order.
pub proof fn lemma_parsed_bounds_of_four(b: Bounds)
    ensures
        parsed_bounds(
            seq![
                Ok::<Coord, core::num::ParseFloatError>(b.left),
                Ok(b.bottom),
                Ok(b.right),
                Ok(b.top),
            ],
        ) == Ok::<Bounds, ParseBoundsError>(b),
{
}

/// Combining boxes without NaN sides does not depend on their order: the
/// sides of `a + b` and of `b + a` have equal values.
pub proof fn lemma_combine_commutative(a: Bounds, b: Bounds)
    requires
        a.is_numeric(),
        b.is_numeric(),
    ensures
        a.combined(b).same_value(b.combined(a)),
{
}

/// Combining boxes without NaN sides does not depend on grouping:
/// `(a + b) + c` and `a + (b + c)` are the same box, to the bit.
pub proof fn lemma_combine_associative(a: Bounds, b: Bounds, c: Bounds)
    requires
        a.is_numeric(),
        b.is_numeric(),
        c.is_numeric(),
    ensures
        a.combined(b).combined(c) == a.combined(b.combined(c)),
{
}

/// Each side of `a + b` is exactly the least (left, bottom) or the greatest
/// (right, top) of the two values of that side, when no side is NaN.
pub proof fn lemma_combine_is_min_max(a: Bounds, b: Bounds)
    requires
        a.is_numeric(),
        b.is_numeric(),
    ensures
        a.combined(b).is_numeric(),
        a.combined(b).left.key() == vstd::math::min(a.left.key(), b.left.key()),
        a.combined(b).bottom.key() == vstd::math::min(a.bottom.key(), b.bottom.key()),
        a.combined(b).right.key() == vstd::math::max(a.right.key(), b.right.key()),
        a.combined(b).top.key() == vstd::math::max(a.top.key(), b.top.key()),
{
}

} // verus!
