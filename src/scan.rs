use vstd::prelude::*;

use crate::decimal::Decimal;

verus! {

/// The most projections a scan may hold: the texture that carries them has a
/// 32-bit layer count.
pub const MAX_PROJECTIONS: usize = 0xffff_ffff;

/// Direction of the acquisition turn, both looking down from above.
#[derive(Clone, Copy, Debug, PartialEq, Eq, Structural)]
pub enum RotationDirection {
    /// Clockwise
    CW,
    /// Counterclockwise
    CCW,
}

/// The direction that a descriptor names: `CW` or `CCW`, nothing else.
pub open spec fn direction_named(s: Seq<char>) -> Option<RotationDirection> {
    if s == seq!['C', 'W'] {
        Some(RotationDirection::CW)
    } else if s == seq!['C', 'C', 'W'] {
        Some(RotationDirection::CCW)
    } else {
        None
    }
}

impl RotationDirection {
    /// The sign of the turn: -1 clockwise, +1 counterclockwise.
    pub open spec fn sign(self) -> int {
        match self {
            RotationDirection::CW => -1,
            RotationDirection::CCW => 1,
        }
    }

    pub fn dir(&self) -> (r: i8)
        ensures
            r == self.sign(),
    {
        match self {
            RotationDirection::CW => -1,
            RotationDirection::CCW => 1,
        }
    }

    /// Reads the direction as a descriptor writes it.
    pub fn from_name(s: &str) -> (r: Option<RotationDirection>)
        ensures
            r == direction_named(s@),
    {
        let n = s.unicode_len();
        if n == 2 && s.get_char(0) == 'C' && s.get_char(1) == 'W' {
            assert(s@ =~= seq!['C', 'W']);
            Some(RotationDirection::CW)
        } else if n == 3 && s.get_char(0) == 'C' && s.get_char(1) == 'C' && s.get_char(2) == 'W' {
            assert(s@ =~= seq!['C', 'C', 'W']);
            Some(RotationDirection::CCW)
        } else {
            assert(s@ != seq!['C', 'W'] && s@ != seq!['C', 'C', 'W']) by {
                if s@ == seq!['C', 'W'] {
                    assert(s@[0] == 'C' && s@[1] == 'W');
                }
                if s@ == seq!['C', 'C', 'W'] {
                    assert(s@[0] == 'C' && s@[1] == 'C' && s@[2] == 'W');
                }
            }
            None
        }
    }
}

/// Why a scan's description or its images cannot be rendered.
#[derive(Clone, Copy, Debug, PartialEq, Eq, Structural)]
pub enum GeometryError {
    UnknownDirection,
    InvalidSod,
    InvalidSdd,
    InvalidSweptAngle,
    InvalidPixelSize,
    NonPositivePixelSize,
    NoProjections,
    TooManyProjections,
    ImageCountMismatch,
    EmptyImage,
    ImageSizeMismatch,
}

impl GeometryError {
    /// A line of text for the user.
    pub open spec fn text(self) -> Seq<char> {
        match self {
            GeometryError::UnknownDirection => "direction must be CW or CCW"@,
            GeometryError::InvalidSod => "sod is not a decimal number"@,
            GeometryError::InvalidSdd => "sdd is not a decimal number"@,
            GeometryError::InvalidSweptAngle => "swept_angle is not a decimal number"@,
            GeometryError::InvalidPixelSize => "pixel_size is not a decimal number"@,
            GeometryError::NonPositivePixelSize => "pixel_size must be greater than zero"@,
            GeometryError::NoProjections => "the scan lists no projections"@,
            GeometryError::TooManyProjections => "the scan lists too many projections"@,
            GeometryError::ImageCountMismatch =>
                "the number of images differs from the number of projections"@,
            GeometryError::EmptyImage => "a projection image is empty"@,
            GeometryError::ImageSizeMismatch => "the projection images differ in size"@,
        }
    }

    pub fn message(&self) -> (r: String)
        ensures
            r@ == self.text(),
    {
        match self {
            GeometryError::UnknownDirection => String::from_str("direction must be CW or CCW"),
            GeometryError::InvalidSod => String::from_str("sod is not a decimal number"),
            GeometryError::InvalidSdd => String::from_str("sdd is not a decimal number"),
            GeometryError::InvalidSweptAngle => String::from_str(
                "swept_angle is not a decimal number",
            ),
            GeometryError::InvalidPixelSize => String::from_str(
                "pixel_size is not a decimal number",
            ),
            GeometryError::NonPositivePixelSize => String::from_str(
                "pixel_size must be greater than zero",
            ),
            GeometryError::NoProjections => String::from_str("the scan lists no projections"),
            GeometryError::TooManyProjections => String::from_str(
                "the scan lists too many projections",
            ),
            GeometryError::ImageCountMismatch => String::from_str(
                "the number of images differs from the number of projections",
            ),
            GeometryError::EmptyImage => String::from_str("a projection image is empty"),
            GeometryError::ImageSizeMismatch => String::from_str(
                "the projection images differ in size",
            ),
        }
    }
}

/// The acquisition parameters of a scan and the files of its projections, in
/// the order in which they were taken.
#[derive(Clone, Debug)]
pub struct CtScan {
    pub name: String,
    pub direction: RotationDirection,
    /// source-object distance
    pub sod: Decimal,
    /// source-detector distance
    pub sdd: Decimal,
    /// the whole angle of the turn, in degrees
    pub swept_angle: Decimal,
    pub pixel_size: Decimal,
    pub projection_files: Vec<String>,
}

/// What is wrong with a scan description, the first of its fields in
/// descriptor order that is at fault.
pub open spec fn descriptor_error(
    direction: Seq<char>,
    sod: Seq<char>,
    sdd: Seq<char>,
    swept_angle: Seq<char>,
    pixel_size: Seq<char>,
    n_projections: nat,
) -> Option<GeometryError> {
    if direction_named(direction).is_none() {
        Some(GeometryError::UnknownDirection)
    } else if !crate::decimal::is_bounded_decimal_text(sod) {
        Some(GeometryError::InvalidSod)
    } else if !crate::decimal::is_bounded_decimal_text(sdd) {
        Some(GeometryError::InvalidSdd)
    } else if !crate::decimal::is_bounded_decimal_text(swept_angle) {
        Some(GeometryError::InvalidSweptAngle)
    } else if !crate::decimal::is_bounded_decimal_text(pixel_size) {
        Some(GeometryError::InvalidPixelSize)
    } else if crate::decimal::text_mantissa(pixel_size) <= 0 {
        Some(GeometryError::NonPositivePixelSize)
    } else if n_projections == 0 {
        Some(GeometryError::NoProjections)
    } else if n_projections > MAX_PROJECTIONS {
        Some(GeometryError::TooManyProjections)
    } else {
        None
    }
}

/// The number that decimal text denotes, as `Decimal::parse` reads it.
pub open spec fn decimal_of(s: Seq<char>) -> Decimal {
    Decimal {
        mantissa: crate::decimal::text_mantissa(s) as i64,
        scale: crate::decimal::text_scale(s) as u8,
    }
}

impl CtScan {
    /// Every parameter is a bounded decimal, the pixel size is positive and
    /// there is at least one projection, and no more than a texture can hold.
    pub open spec fn wf(&self) -> bool {
        &&& self.sod.wf()
        &&& self.sdd.wf()
        &&& self.swept_angle.wf()
        &&& self.pixel_size.wf()
        &&& self.pixel_size.is_positive()
        &&& 1 <= self.projection_files.len() <= MAX_PROJECTIONS
    }

    /// The scan holds the direction and the numbers that the given
    /// descriptor text denotes.
    pub open spec fn describes(
        &self,
        direction: Seq<char>,
        sod: Seq<char>,
        sdd: Seq<char>,
        swept_angle: Seq<char>,
        pixel_size: Seq<char>,
    ) -> bool {
        &&& Some(self.direction) == direction_named(direction)
        &&& self.sod == decimal_of(sod)
        &&& self.sdd == decimal_of(sdd)
        &&& self.swept_angle == decimal_of(swept_angle)
        &&& self.pixel_size == decimal_of(pixel_size)
    }

    pub fn is_valid(&self) -> (r: bool)
        ensures
            r == self.wf(),
    {
        let m: i64 = 1_000_000_000_000_000_000;
        let n = self.projection_files.len();
        -m < self.sod.mantissa && self.sod.mantissa < m && self.sod.scale <= 18
            && -m < self.sdd.mantissa && self.sdd.mantissa < m && self.sdd.scale <= 18
            && -m < self.swept_angle.mantissa && self.swept_angle.mantissa < m
            && self.swept_angle.scale <= 18 && -m < self.pixel_size.mantissa
            && self.pixel_size.mantissa < m && self.pixel_size.scale <= 18
            && self.pixel_size.mantissa > 0 && 1 <= n && n <= MAX_PROJECTIONS
    }

    /// Builds a scan from the fields of its descriptor, numbers given as the
    /// text that the descriptor holds.
    pub fn from_descriptor(
        name: String,
        direction: &str,
        sod: &str,
        sdd: &str,
        swept_angle: &str,
        pixel_size: &str,
        projection_files: Vec<String>,
    ) -> (r: Result<CtScan, GeometryError>)
        ensures
            descriptor_error(
                direction@,
                sod@,
                sdd@,
                swept_angle@,
                pixel_size@,
                projection_files@.len(),
            ) matches Some(e) ==> r == Err::<CtScan, GeometryError>(e),
            descriptor_error(
                direction@,
                sod@,
                sdd@,
                swept_angle@,
                pixel_size@,
                projection_files@.len(),
            ) is None ==> (r matches Ok(scan) && scan.wf() && scan.name@ == name@
                && scan.projection_files == projection_files && scan.describes(
                direction@,
                sod@,
                sdd@,
                swept_angle@,
                pixel_size@,
            )),
    {
        let direction = match RotationDirection::from_name(direction) {
            Some(d) => d,
            None => return Err(GeometryError::UnknownDirection),
        };
        let sod = match Decimal::parse(sod) {
            Some(d) => d,
            None => return Err(GeometryError::InvalidSod),
        };
        let sdd = match Decimal::parse(sdd) {
            Some(d) => d,
            None => return Err(GeometryError::InvalidSdd),
        };
        let swept_angle = match Decimal::parse(swept_angle) {
            Some(d) => d,
            None => return Err(GeometryError::InvalidSweptAngle),
        };
        let pixel_size = match Decimal::parse(pixel_size) {
            Some(d) => d,
            None => return Err(GeometryError::InvalidPixelSize),
        };
        if pixel_size.mantissa <= 0 {
            return Err(GeometryError::NonPositivePixelSize);
        }
        if projection_files.len() == 0 {
            return Err(GeometryError::NoProjections);
        }
        if projection_files.len() > MAX_PROJECTIONS {
            return Err(GeometryError::TooManyProjections);
        }
        Ok(CtScan { name, direction, sod, sdd, swept_angle, pixel_size, projection_files })
    }

    /// Checks the decoded images, given by their (width, height), against the
    /// scan: one image for each projection, none empty, all of one size. The
    /// result is the extent of the texture that holds them: width, height and
    /// one layer for each projection.
    pub fn texture_extent(&self, sizes: &Vec<(u32, u32)>) -> (r: Result<
        (u32, u32, u32),
        GeometryError,
    >)
        requires
            self.wf(),
        ensures
            sizes@.len() != self.projection_files@.len() ==> r == Err::<
                (u32, u32, u32),
                GeometryError,
            >(GeometryError::ImageCountMismatch),
            sizes@.len() == self.projection_files@.len() && (sizes@[0].0 == 0 || sizes@[0].1
                == 0) ==> r == Err::<(u32, u32, u32), GeometryError>(GeometryError::EmptyImage),
            sizes@.len() == self.projection_files@.len() && sizes@[0].0 != 0 && sizes@[0].1 != 0
                ==> if forall|i: int| 0 <= i < sizes@.len() ==> #[trigger] sizes@[i] == sizes@[0] {
                r == Ok::<(u32, u32, u32), GeometryError>(
                    (sizes@[0].0, sizes@[0].1, sizes@.len() as u32),
                )
            } else {
                r == Err::<(u32, u32, u32), GeometryError>(GeometryError::ImageSizeMismatch)
            },
    {
        let n = sizes.len();
        if n != self.projection_files.len() {
            return Err(GeometryError::ImageCountMismatch);
        }
        let first = sizes[0];
        if first.0 == 0 || first.1 == 0 {
            return Err(GeometryError::EmptyImage);
        }
        let mut i: usize = 1;
        while i < n
            invariant
                1 <= i <= n,
                n == sizes@.len(),
                n == self.projection_files@.len(),
                first.0 != 0 && first.1 != 0,
                first == sizes@[0],
                forall|j: int| 0 <= j < i ==> #[trigger] sizes@[j] == first,
            decreases n - i,
        {
            if sizes[i].0 != first.0 || sizes[i].1 != first.1 {
                return Err(GeometryError::ImageSizeMismatch);
            }
            i = i + 1;
        }
        Ok((first.0, first.1, n as u32))
    }
}

} // verus!
