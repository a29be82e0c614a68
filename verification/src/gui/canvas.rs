//! Canvas drawing parameters: alignment, text direction, fonts and font parameters.

use vstd::prelude::*;

verus! {

/// Alignment of an object on the canvas.
#[derive(Clone, Copy, Debug, PartialEq, Eq, Hash, PartialOrd, Ord, Structural)]
pub enum Align {
    /// The values are aligned relative to the right.
    Left,
    /// The values are aligned relative to the left.
    Right,
    /// The values are aligned relative to the top.
    Top,
    /// The values are aligned relative to the bottom.
    Bottom,
    /// The values are aligned relative to the center.
    Center,
}

/// An error converting the firmware's number to a [`Align`].
#[derive(Clone, Copy, Debug, PartialEq, Eq, Hash, PartialOrd, Ord, Structural)]
pub enum FromSysAlignError {
    /// The number names no value.
    Invalid(u8),
}

impl Align {
    /// The firmware's number for this value (its place in the firmware's enumeration).
    pub open spec fn raw(self) -> u8 {
        match self {
            Align::Left => 0,
            Align::Right => 1,
            Align::Top => 2,
            Align::Bottom => 3,
            Align::Center => 4,
        }
    }

    /// The value that the firmware's number `value` names, or why it names none.
    pub open spec fn spec_from_raw(value: u8) -> Result<Align, FromSysAlignError> {
        if value == 0 {
            Ok(Align::Left)
        } else if value == 1 {
            Ok(Align::Right)
        } else if value == 2 {
            Ok(Align::Top)
        } else if value == 3 {
            Ok(Align::Bottom)
        } else if value == 4 {
            Ok(Align::Center)
        } else {
            Err(FromSysAlignError::Invalid(value))
        }
    }

    /// Returns the firmware's number for this value.
    pub fn to_raw(self) -> (r: u8)
        ensures
            r == self.raw(),
    {
        match self {
            Align::Left => 0,
            Align::Right => 1,
            Align::Top => 2,
            Align::Bottom => 3,
            Align::Center => 4,
        }
    }

    /// Returns the value with the firmware's number `value`.
    pub fn from_raw(value: u8) -> (r: Result<Align, FromSysAlignError>)
        ensures
            r == Align::spec_from_raw(value),
    {
        match value {
            0 => Ok(Align::Left),
            1 => Ok(Align::Right),
            2 => Ok(Align::Top),
            3 => Ok(Align::Bottom),
            4 => Ok(Align::Center),
            invalid => Err(FromSysAlignError::Invalid(invalid)),
        }
    }
}

/// Every value survives the trip to the firmware's number and back.
pub proof fn lemma_align_round_trip(x: Align)
    ensures
        Align::spec_from_raw(x.raw()) == Ok::<Align, FromSysAlignError>(x),
{
}

/// Direction of an element on the canvas.
#[derive(Clone, Copy, Debug, PartialEq, Eq, Hash, PartialOrd, Ord, Structural)]
pub enum CanvasDirection {
    /// The direction is from left to right.
    LeftToRight,
    /// The direction is from top to bottom.
    TopToBottom,
    /// The direction is from right to left.
    RightToLeft,
    /// The direction is from bottom to top.
    BottomToTop,
}

/// An error converting the firmware's number to a [`CanvasDirection`].
#[derive(Clone, Copy, Debug, PartialEq, Eq, Hash, PartialOrd, Ord, Structural)]
pub enum FromSysCanvasDirectionError {
    /// The number names no value.
    Invalid(u8),
}

impl CanvasDirection {
    /// The firmware's number for this value (its place in the firmware's enumeration).
    pub open spec fn raw(self) -> u8 {
        match self {
            CanvasDirection::LeftToRight => 0,
            CanvasDirection::TopToBottom => 1,
            CanvasDirection::RightToLeft => 2,
            CanvasDirection::BottomToTop => 3,
        }
    }

    /// The value that the firmware's number `value` names, or why it names none.
    pub open spec fn spec_from_raw(value: u8) -> Result<CanvasDirection, FromSysCanvasDirectionError> {
        if value == 0 {
            Ok(CanvasDirection::LeftToRight)
        } else if value == 1 {
            Ok(CanvasDirection::TopToBottom)
        } else if value == 2 {
            Ok(CanvasDirection::RightToLeft)
        } else if value == 3 {
            Ok(CanvasDirection::BottomToTop)
        } else {
            Err(FromSysCanvasDirectionError::Invalid(value))
        }
    }

    /// Returns the firmware's number for this value.
    pub fn to_raw(self) -> (r: u8)
        ensures
            r == self.raw(),
    {
        match self {
            CanvasDirection::LeftToRight => 0,
            CanvasDirection::TopToBottom => 1,
            CanvasDirection::RightToLeft => 2,
            CanvasDirection::BottomToTop => 3,
        }
    }

    /// Returns the value with the firmware's number `value`.
    pub fn from_raw(value: u8) -> (r: Result<CanvasDirection, FromSysCanvasDirectionError>)
        ensures
            r == CanvasDirection::spec_from_raw(value),
    {
        match value {
            0 => Ok(CanvasDirection::LeftToRight),
            1 => Ok(CanvasDirection::TopToBottom),
            2 => Ok(CanvasDirection::RightToLeft),
            3 => Ok(CanvasDirection::BottomToTop),
            invalid => Err(FromSysCanvasDirectionError::Invalid(invalid)),
        }
    }
}

/// Every value survives the trip to the firmware's number and back.
pub proof fn lemma_canvas_direction_round_trip(x: CanvasDirection)
    ensures
        CanvasDirection::spec_from_raw(x.raw()) == Ok::<CanvasDirection, FromSysCanvasDirectionError>(x),
{
}

/// The font used to draw text.
#[derive(Clone, Copy, Debug, PartialEq, Eq, Hash, PartialOrd, Ord, Structural)]
pub enum Font {
    /// The primary font.
    Primary,
    /// The secondary font.
    Secondary,
    /// The keyboard font.
    Keyboard,
    /// The font with big numbers.
    BigNumbers,
}

/// An error converting the firmware's number to a [`Font`].
#[derive(Clone, Copy, Debug, PartialEq, Eq, Hash, PartialOrd, Ord, Structural)]
pub enum FromSysFontError {
    /// The number is the firmware's count of values, a meta-value.
    Max,
    /// The number names no value.
    Invalid(u8),
}

impl Font {
    /// The firmware's number for this value (its place in the firmware's enumeration).
    pub open spec fn raw(self) -> u8 {
        match self {
            Font::Primary => 0,
            Font::Secondary => 1,
            Font::Keyboard => 2,
            Font::BigNumbers => 3,
        }
    }

    /// The value that the firmware's number `value` names, or why it names none.
    pub open spec fn spec_from_raw(value: u8) -> Result<Font, FromSysFontError> {
        if value == 0 {
            Ok(Font::Primary)
        } else if value == 1 {
            Ok(Font::Secondary)
        } else if value == 2 {
            Ok(Font::Keyboard)
        } else if value == 3 {
            Ok(Font::BigNumbers)
        } else if value == 4 {
            Err(FromSysFontError::Max)
        } else {
            Err(FromSysFontError::Invalid(value))
        }
    }

    /// Returns the firmware's number for this value.
    pub fn to_raw(self) -> (r: u8)
        ensures
            r == self.raw(),
    {
        match self {
            Font::Primary => 0,
            Font::Secondary => 1,
            Font::Keyboard => 2,
            Font::BigNumbers => 3,
        }
    }

    /// Returns the value with the firmware's number `value`.
    pub fn from_raw(value: u8) -> (r: Result<Font, FromSysFontError>)
        ensures
            r == Font::spec_from_raw(value),
    {
        match value {
            0 => Ok(Font::Primary),
            1 => Ok(Font::Secondary),
            2 => Ok(Font::Keyboard),
            3 => Ok(Font::BigNumbers),
            4 => Err(FromSysFontError::Max),
            invalid => Err(FromSysFontError::Invalid(invalid)),
        }
    }
}

/// Every value survives the trip to the firmware's number and back.
pub proof fn lemma_font_round_trip(x: Font)
    ensures
        Font::spec_from_raw(x.raw()) == Ok::<Font, FromSysFontError>(x),
{
}

impl Font {
    /// Gets the total number of available fonts.
    pub fn total_number() -> (r: usize)
        ensures
            r == 4,
    {
        4
    }
}

/// Font parameters as the firmware hands them over.
#[derive(Clone, Copy, Debug, PartialEq, Eq, Hash, Structural)]
pub struct RawCanvasFontParameters {
    pub leading_default: u8,
    pub leading_min: u8,
    pub height: u8,
    pub descender: u8,
}

/// A snapshot of the parameters of a font. The default leading, the minimal leading and
/// the height of a well-formed snapshot are never zero (see [`CanvasFontParametersSnapshot::wf`]).
#[derive(Clone, Copy, Debug, PartialEq, Eq, Hash, Structural)]
pub struct CanvasFontParametersSnapshot {
    pub leading_default: u8,
    pub leading_min: u8,
    pub height: u8,
    pub descender: u8,
}

/// An error converting raw font parameters to a [`CanvasFontParametersSnapshot`].
#[derive(Clone, Copy, Debug, PartialEq, Eq, Hash, PartialOrd, Ord, Structural)]
pub enum FromSysCanvasFontParameters {
    ZeroLeadingDefault,
    ZeroLeadingMin,
    ZeroHeight,
}

impl CanvasFontParametersSnapshot {
    /// The default leading, the minimal leading and the height are not zero.
    pub open spec fn wf(self) -> bool {
        self.leading_default != 0 && self.leading_min != 0 && self.height != 0
    }

    /// The snapshot that holds the same four values as `value`.
    pub open spec fn spec_of_raw(value: RawCanvasFontParameters) -> CanvasFontParametersSnapshot {
        CanvasFontParametersSnapshot {
            leading_default: value.leading_default,
            leading_min: value.leading_min,
            height: value.height,
            descender: value.descender,
        }
    }

    /// What converting `value` gives: the first zero among the default leading, the minimal
    /// leading and the height (in that order) is reported, else the values are kept.
    pub open spec fn spec_try_from_raw(value: RawCanvasFontParameters) -> Result<
        CanvasFontParametersSnapshot,
        FromSysCanvasFontParameters,
    > {
        if value.leading_default == 0 {
            Err(FromSysCanvasFontParameters::ZeroLeadingDefault)
        } else if value.leading_min == 0 {
            Err(FromSysCanvasFontParameters::ZeroLeadingMin)
        } else if value.height == 0 {
            Err(FromSysCanvasFontParameters::ZeroHeight)
        } else {
            Ok(Self::spec_of_raw(value))
        }
    }

    /// Checks raw font parameters and takes a snapshot of them.
    pub fn try_from_raw(value: RawCanvasFontParameters) -> (r: Result<
        CanvasFontParametersSnapshot,
        FromSysCanvasFontParameters,
    >)
        ensures
            r == Self::spec_try_from_raw(value),
            r matches Ok(s) ==> s.wf(),
    {
        if value.leading_default == 0 {
            Err(FromSysCanvasFontParameters::ZeroLeadingDefault)
        } else if value.leading_min == 0 {
            Err(FromSysCanvasFontParameters::ZeroLeadingMin)
        } else if value.height == 0 {
            Err(FromSysCanvasFontParameters::ZeroHeight)
        } else {
            Ok(CanvasFontParametersSnapshot {
                leading_default: value.leading_default,
                leading_min: value.leading_min,
                height: value.height,
                descender: value.descender,
            })
        }
    }

    /// The raw font parameters of this snapshot.
    pub fn to_raw(self) -> (r: RawCanvasFontParameters)
        ensures
            r.leading_default == self.leading_default,
            r.leading_min == self.leading_min,
            r.height == self.height,
            r.descender == self.descender,
    {
        RawCanvasFontParameters {
            leading_default: self.leading_default,
            leading_min: self.leading_min,
            height: self.height,
            descender: self.descender,
        }
    }
}

/// Converting a well-formed snapshot to raw parameters and back gives the snapshot again.
pub proof fn lemma_font_parameters_round_trip(s: CanvasFontParametersSnapshot)
    requires
        s.wf(),
    ensures
        CanvasFontParametersSnapshot::spec_try_from_raw(
            RawCanvasFontParameters {
                leading_default: s.leading_default,
                leading_min: s.leading_min,
                height: s.height,
                descender: s.descender,
            },
        ) == Ok::<CanvasFontParametersSnapshot, FromSysCanvasFontParameters>(s),
{
}

/// The firmware's numbers for every [`Align`], one by one, as the firmware's
/// enumeration lists them.
pub proof fn lemma_align_numbers()
    ensures
        Align::Left.raw() == 0,
        Align::Right.raw() == 1,
        Align::Top.raw() == 2,
        Align::Bottom.raw() == 3,
        Align::Center.raw() == 4,
{
}

/// The firmware's numbers for every [`CanvasDirection`], one by one, as the firmware's
/// enumeration lists them.
pub proof fn lemma_canvas_direction_numbers()
    ensures
        CanvasDirection::LeftToRight.raw() == 0,
        CanvasDirection::TopToBottom.raw() == 1,
        CanvasDirection::RightToLeft.raw() == 2,
        CanvasDirection::BottomToTop.raw() == 3,
{
}

/// The firmware's numbers for every [`Font`], one by one, as the firmware's
/// enumeration lists them.
pub proof fn lemma_font_numbers()
    ensures
        Font::Primary.raw() == 0,
        Font::Secondary.raw() == 1,
        Font::Keyboard.raw() == 2,
        Font::BigNumbers.raw() == 3,
{
}

} // verus!
