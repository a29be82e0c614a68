//! The layers of the GUI and the orientations of view ports.

use vstd::prelude::*;

verus! {

/// A layer of the GUI that view ports are drawn on.
#[derive(Clone, Copy, Debug, PartialEq, Eq, Hash, PartialOrd, Ord, Structural)]
pub enum GuiLayer {
    Desktop,
    Window,
    StatusBarLeft,
    StatusBarRight,
    Fullscreen,
}

/// An error converting the firmware's number to a [`GuiLayer`].
#[derive(Clone, Copy, Debug, PartialEq, Eq, Hash, PartialOrd, Ord, Structural)]
pub enum FromSysGuiLayerError {
    /// The number is the firmware's count of values, a meta-value.
    Max,
    /// The number names no value.
    Invalid(u8),
}

impl GuiLayer {
    /// The firmware's number for this value (its place in the firmware's enumeration).
    pub open spec fn raw(self) -> u8 {
        match self {
            GuiLayer::Desktop => 0,
            GuiLayer::Window => 1,
            GuiLayer::StatusBarLeft => 2,
            GuiLayer::StatusBarRight => 3,
            GuiLayer::Fullscreen => 4,
        }
    }

    /// The value that the firmware's number `value` names, or why it names none.
    pub open spec fn spec_from_raw(value: u8) -> Result<GuiLayer, FromSysGuiLayerError> {
        if value == 0 {
            Ok(GuiLayer::Desktop)
        } else if value == 1 {
            Ok(GuiLayer::Window)
        } else if value == 2 {
            Ok(GuiLayer::StatusBarLeft)
        } else if value == 3 {
            Ok(GuiLayer::StatusBarRight)
        } else if value == 4 {
            Ok(GuiLayer::Fullscreen)
        } else if value == 5 {
            Err(FromSysGuiLayerError::Max)
        } else {
            Err(FromSysGuiLayerError::Invalid(value))
        }
    }

    /// Returns the firmware's number for this value.
    pub fn to_raw(self) -> (r: u8)
        ensures
            r == self.raw(),
    {
        match self {
            GuiLayer::Desktop => 0,
            GuiLayer::Window => 1,
            GuiLayer::StatusBarLeft => 2,
            GuiLayer::StatusBarRight => 3,
            GuiLayer::Fullscreen => 4,
        }
    }

    /// Returns the value with the firmware's number `value`.
    pub fn from_raw(value: u8) -> (r: Result<GuiLayer, FromSysGuiLayerError>)
        ensures
            r == GuiLayer::spec_from_raw(value),
    {
        match value {
            0 => Ok(GuiLayer::Desktop),
            1 => Ok(GuiLayer::Window),
            2 => Ok(GuiLayer::StatusBarLeft),
            3 => Ok(GuiLayer::StatusBarRight),
            4 => Ok(GuiLayer::Fullscreen),
            5 => Err(FromSysGuiLayerError::Max),
            invalid => Err(FromSysGuiLayerError::Invalid(invalid)),
        }
    }
}

/// Every value survives the trip to the firmware's number and back.
pub proof fn lemma_gui_layer_round_trip(x: GuiLayer)
    ensures
        GuiLayer::spec_from_raw(x.raw()) == Ok::<GuiLayer, FromSysGuiLayerError>(x),
{
}

/// The orientation of a view port.
#[derive(Clone, Copy, Debug, PartialEq, Eq, Hash, PartialOrd, Ord, Structural)]
pub enum ViewPortOrientation {
    Horizontal,
    HorizontalFlip,
    Vertical,
    VerticalFlip,
}

/// An error converting the firmware's number to a [`ViewPortOrientation`].
#[derive(Clone, Copy, Debug, PartialEq, Eq, Hash, PartialOrd, Ord, Structural)]
pub enum FromSysViewPortOrientationError {
    /// The number is the firmware's count of values, a meta-value.
    Max,
    /// The number names no value.
    Invalid(u8),
}

impl ViewPortOrientation {
    /// The firmware's number for this value (its place in the firmware's enumeration).
    pub open spec fn raw(self) -> u8 {
        match self {
            ViewPortOrientation::Horizontal => 0,
            ViewPortOrientation::HorizontalFlip => 1,
            ViewPortOrientation::Vertical => 2,
            ViewPortOrientation::VerticalFlip => 3,
        }
    }

    /// The value that the firmware's number `value` names, or why it names none.
    pub open spec fn spec_from_raw(value: u8) -> Result<ViewPortOrientation, FromSysViewPortOrientationError> {
        if value == 0 {
            Ok(ViewPortOrientation::Horizontal)
        } else if value == 1 {
            Ok(ViewPortOrientation::HorizontalFlip)
        } else if value == 2 {
            Ok(ViewPortOrientation::Vertical)
        } else if value == 3 {
            Ok(ViewPortOrientation::VerticalFlip)
        } else if value == 4 {
            Err(FromSysViewPortOrientationError::Max)
        } else {
            Err(FromSysViewPortOrientationError::Invalid(value))
        }
    }

    /// Returns the firmware's number for this value.
    pub fn to_raw(self) -> (r: u8)
        ensures
            r == self.raw(),
    {
        match self {
            ViewPortOrientation::Horizontal => 0,
            ViewPortOrientation::HorizontalFlip => 1,
            ViewPortOrientation::Vertical => 2,
            ViewPortOrientation::VerticalFlip => 3,
        }
    }

    /// Returns the value with the firmware's number `value`.
    pub fn from_raw(value: u8) -> (r: Result<ViewPortOrientation, FromSysViewPortOrientationError>)
        ensures
            r == ViewPortOrientation::spec_from_raw(value),
    {
        match value {
            0 => Ok(ViewPortOrientation::Horizontal),
            1 => Ok(ViewPortOrientation::HorizontalFlip),
            2 => Ok(ViewPortOrientation::Vertical),
            3 => Ok(ViewPortOrientation::VerticalFlip),
            4 => Err(FromSysViewPortOrientationError::Max),
            invalid => Err(FromSysViewPortOrientationError::Invalid(invalid)),
        }
    }
}

/// Every value survives the trip to the firmware's number and back.
pub proof fn lemma_view_port_orientation_round_trip(x: ViewPortOrientation)
    ensures
        ViewPortOrientation::spec_from_raw(x.raw()) == Ok::<ViewPortOrientation, FromSysViewPortOrientationError>(x),
{
}

/// The firmware's numbers for every [`GuiLayer`], one by one, as the firmware's
/// enumeration lists them.
pub proof fn lemma_gui_layer_numbers()
    ensures
        GuiLayer::Desktop.raw() == 0,
        GuiLayer::Window.raw() == 1,
        GuiLayer::StatusBarLeft.raw() == 2,
        GuiLayer::StatusBarRight.raw() == 3,
        GuiLayer::Fullscreen.raw() == 4,
{
}

/// The firmware's numbers for every [`ViewPortOrientation`], one by one, as the firmware's
/// enumeration lists them.
pub proof fn lemma_view_port_orientation_numbers()
    ensures
        ViewPortOrientation::Horizontal.raw() == 0,
        ViewPortOrientation::HorizontalFlip.raw() == 1,
        ViewPortOrientation::Vertical.raw() == 2,
        ViewPortOrientation::VerticalFlip.raw() == 3,
{
}

} // verus!
