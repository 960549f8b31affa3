//! Window geometry: each dimension of an instance's window is either an
//! absolute pixel count (`"800"`) or a percentage of the display
//! dimension (`"66%"`), written as a string in the configuration.
//!
//! A percentage scales the display dimension and rounds to the nearest
//! pixel; an absolute value is used as it is.  The window is centered
//! horizontally and anchored to the top of the display.

use vstd::pervasive::unreached;
use vstd::prelude::*;

use crate::errors::Error;
use crate::text::{all_digits, digits_val, parse_u32_digits};

verus! {

/// One configured dimension, as written: width and height each carry a
/// string of this grammar.
#[derive(Clone, Copy, Debug, PartialEq, Eq, Structural)]
pub enum Dimension {
    /// A plain pixel count.
    Absolute(u32),
    /// A percentage of the display dimension.
    Percent(u32),
}

/// The dimension a configuration string denotes: digits followed by `%`
/// for a percentage, bare digits for an absolute pixel count, `None`
/// for anything else.
pub open spec fn spec_parse_dimension(s: Seq<char>) -> Option<Dimension> {
    if s.len() > 0 && s.last() == '%' {
        let digits = s.drop_last();
        if digits.len() > 0 && all_digits(digits) && digits_val(digits) <= u32::MAX {
            Some(Dimension::Percent(digits_val(digits) as u32))
        } else {
            None
        }
    } else if s.len() > 0 && all_digits(s) && digits_val(s) <= u32::MAX {
        Some(Dimension::Absolute(digits_val(s) as u32))
    } else {
        None
    }
}

/// Parses one configured dimension string.
pub fn parse_dimension(s: &str) -> (r: Option<Dimension>)
    ensures
        r == spec_parse_dimension(s@),
{
    let len = s.unicode_len();
    if len == 0 {
        return None;
    }
    if s.get_char(len - 1) == '%' {
        let digits = s.substring_char(0, len - 1);
        assert(digits@ =~= s@.drop_last());
        match parse_u32_digits(digits) {
            Some(p) => Some(Dimension::Percent(p)),
            None => None,
        }
    } else {
        match parse_u32_digits(s) {
            Some(v) => Some(Dimension::Absolute(v)),
            None => None,
        }
    }
}

/// A percentage of a display dimension, rounded to the nearest pixel
/// (halves round up).
pub open spec fn scaled_dim(screen: int, pct: int) -> int {
    (screen * pct + 50) / 100
}

/// The pixel count a dimension yields against a display dimension.
pub open spec fn dim_value(d: Dimension, screen: int) -> int {
    match d {
        Dimension::Absolute(v) => v as int,
        Dimension::Percent(p) => scaled_dim(screen, p as int),
    }
}

/// Applies one dimension to a display dimension.
pub fn apply_dimension(d: &Dimension, screen: u16) -> (r: u32)
    requires
        dim_value(*d, screen as int) <= u32::MAX,
    ensures
        r as int == dim_value(*d, screen as int),
{
    match d {
        Dimension::Absolute(v) => *v,
        Dimension::Percent(p) => {
            let scaled: u64 = ((screen as u64) * (*p as u64) + 50) / 100;
            assert(scaled as int == scaled_dim(screen as int, *p as int));
            scaled as u32
        },
    }
}

/// The configured geometry of an instance's window, both dimensions in
/// the grammar of `spec_parse_dimension`.
#[derive(Clone, Debug)]
pub struct WindowGeometry {
    pub width: String,
    pub height: String,
}

impl WindowGeometry {
    /// Both dimension strings are well-formed.
    pub open spec fn parses(&self) -> bool {
        &&& spec_parse_dimension(self.width@) is Some
        &&& spec_parse_dimension(self.height@) is Some
    }

    /// The dimensions this geometry yields against a display of
    /// `screen_width` by `screen_height` pixels.
    pub open spec fn spec_dimensions(&self, screen_width: int, screen_height: int) -> (int, int) {
        (
            dim_value(spec_parse_dimension(self.width@)->0, screen_width),
            dim_value(spec_parse_dimension(self.height@)->0, screen_height),
        )
    }

    /// Both computed dimensions fit the result type.
    pub open spec fn fits(&self, screen_width: int, screen_height: int) -> bool {
        &&& self.spec_dimensions(screen_width, screen_height).0 <= u32::MAX
        &&& self.spec_dimensions(screen_width, screen_height).1 <= u32::MAX
    }

    /// Get the dimensions of the instance based on the screen dimensions.
    ///
    /// A percentage `p` yields the display dimension scaled by `p/100`,
    /// rounded to the nearest pixel; an absolute value is returned
    /// unchanged.
    pub fn get_dimensions(&self, screen_width: u16, screen_height: u16) -> (r: (u32, u32))
        requires
            self.parses(),
            self.fits(screen_width as int, screen_height as int),
        ensures
            r.0 as int == self.spec_dimensions(screen_width as int, screen_height as int).0,
            r.1 as int == self.spec_dimensions(screen_width as int, screen_height as int).1,
    {
        let width = match parse_dimension(self.width.as_str()) {
            Some(d) => apply_dimension(&d, screen_width),
            None => unreached(),
        };
        let height = match parse_dimension(self.height.as_str()) {
            Some(d) => apply_dimension(&d, screen_height),
            None => unreached(),
        };
        (width, height)
    }
}

/// Where the window goes: centered horizontally, anchored to the top,
/// borderless, at its configured size.
#[derive(Clone, Copy, Debug, PartialEq, Eq, Structural)]
pub struct Layout {
    pub x: i32,
    pub y: i32,
    pub width: u32,
    pub height: u32,
    pub border_width: u32,
}

/// One dimension's pixel count, computed without a precondition; the
/// value is exact but may exceed what `u32` holds.
fn dim_value_wide(d: &Dimension, screen: u16) -> (r: u64)
    ensures
        r as int == dim_value(*d, screen as int),
{
    match d {
        Dimension::Absolute(v) => *v as u64,
        Dimension::Percent(p) => {
            proof {
                assert(screen as int * (*p as int) <= 0xFFFF * 0xFFFF_FFFF) by (nonlinear_arith)
                    requires
                        screen as int <= 0xFFFF,
                        *p as int <= 0xFFFF_FFFF,
                        0 <= screen as int,
                        0 <= *p as int,
                ;
            }
            ((screen as u64) * (*p as u64) + 50) / 100
        },
    }
}

/// Computes the layout when the geometry is well-formed and fits the
/// display's pixel types, and rejects it otherwise.
pub fn try_layout(geometry: &WindowGeometry, screen_width: u16, screen_height: u16) -> (r: Result<
    Layout,
    Error,
>)
    ensures
        match r {
            Ok(layout) => {
                &&& geometry.parses()
                &&& geometry.fits(screen_width as int, screen_height as int)
                &&& layout.width as int == geometry.spec_dimensions(
                    screen_width as int,
                    screen_height as int,
                ).0
                &&& layout.height as int == geometry.spec_dimensions(
                    screen_width as int,
                    screen_height as int,
                ).1
                &&& layout.width <= screen_width ==> layout.x as int == (screen_width as int
                    - layout.width as int) / 2
                &&& layout.width > screen_width ==> layout.x == 0
                &&& layout.y == 0
                &&& layout.border_width == 0
            },
            Err(e) => {
                &&& e == Error::InvalidGeometry
                &&& !geometry.parses() || !geometry.fits(
                    screen_width as int,
                    screen_height as int,
                )
            },
        },
{
    let width_dim = match parse_dimension(geometry.width.as_str()) {
        Some(d) => d,
        None => {
            return Err(Error::InvalidGeometry);
        },
    };
    let height_dim = match parse_dimension(geometry.height.as_str()) {
        Some(d) => d,
        None => {
            return Err(Error::InvalidGeometry);
        },
    };
    if dim_value_wide(&width_dim, screen_width) > 0xFFFF_FFFF {
        return Err(Error::InvalidGeometry);
    }
    if dim_value_wide(&height_dim, screen_height) > 0xFFFF_FFFF {
        return Err(Error::InvalidGeometry);
    }
    Ok(compute_layout(geometry, screen_width, screen_height))
}

/// Computes the layout of the window against the display.
///
/// A window no wider than the display is centered; a wider one is
/// pinned to the left edge.  The top edge is always the display's.
pub fn compute_layout(geometry: &WindowGeometry, screen_width: u16, screen_height: u16) -> (r:
    Layout)
    requires
        geometry.parses(),
        geometry.fits(screen_width as int, screen_height as int),
    ensures
        r.width as int == geometry.spec_dimensions(
            screen_width as int,
            screen_height as int,
        ).0,
        r.height as int == geometry.spec_dimensions(
            screen_width as int,
            screen_height as int,
        ).1,
        r.width <= screen_width ==> r.x as int == (screen_width as int - r.width as int) / 2,
        r.width > screen_width ==> r.x == 0,
        r.y == 0,
        r.border_width == 0,
{
    let (width, height) = geometry.get_dimensions(screen_width, screen_height);
    let x: i32 = if width <= screen_width as u32 {
        ((screen_width as u32 - width) / 2) as i32
    } else {
        0
    };
    Layout { x, y: 0, width, height, border_width: 0 }
}

} // verus!
