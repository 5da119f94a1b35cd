//! Control selectors, their wire request codes, and the relative-motion
//! command domain.

use vstd::prelude::*;

verus! {

/// The logical control family a request addresses.
///
/// Each standard selector has a fixed wire-byte width; a vendor extension
/// control carries a set-identifier GUID (in string form) and a property id,
/// and its width is chosen by the caller's buffer.
pub enum Selector {
    ZoomAbsolute,
    ZoomRelative,
    PanTiltAbsolute,
    PanTiltRelative,
    AutoFocus,
    VendorExtension { set: String, id: u32 },
}

/// Ghost view of a `Selector`.
pub ghost enum SelView {
    ZoomAbsolute,
    ZoomRelative,
    PanTiltAbsolute,
    PanTiltRelative,
    AutoFocus,
    VendorExtension { set: Seq<char>, id: u32 },
}

impl View for Selector {
    type V = SelView;

    open spec fn view(&self) -> SelView {
        match self {
            Selector::ZoomAbsolute => SelView::ZoomAbsolute,
            Selector::ZoomRelative => SelView::ZoomRelative,
            Selector::PanTiltAbsolute => SelView::PanTiltAbsolute,
            Selector::PanTiltRelative => SelView::PanTiltRelative,
            Selector::AutoFocus => SelView::AutoFocus,
            Selector::VendorExtension { set, id } => SelView::VendorExtension {
                set: set@,
                id: *id,
            },
        }
    }
}

impl SelView {
    /// The UVC control-selector code of a standard selector; a vendor
    /// extension control is addressed by GUID and property id instead and has
    /// no code of its own.
    pub open spec fn code_spec(self) -> u8 {
        match self {
            SelView::ZoomAbsolute => 0x0b,
            SelView::ZoomRelative => 0x0c,
            SelView::PanTiltAbsolute => 0x0d,
            SelView::PanTiltRelative => 0x0e,
            SelView::AutoFocus => 0x08,
            SelView::VendorExtension { .. } => 0x00,
        }
    }
}

impl Selector {
    pub fn code(&self) -> (r: u8)
        ensures
            r == self@.code_spec(),
    {
        match self {
            Selector::ZoomAbsolute => 0x0b,
            Selector::ZoomRelative => 0x0c,
            Selector::PanTiltAbsolute => 0x0d,
            Selector::PanTiltRelative => 0x0e,
            Selector::AutoFocus => 0x08,
            Selector::VendorExtension { .. } => 0x00,
        }
    }

    pub fn is_vendor(&self) -> (r: bool)
        ensures
            r == (self@ is VendorExtension),
    {
        match self {
            Selector::VendorExtension { .. } => true,
            _ => false,
        }
    }
}

/// The logical axis of a compound pan/tilt control; pan comes first on the
/// wire, tilt second. Single-axis selectors use `Pan`.
#[derive(Clone, Copy, Debug, PartialEq, Eq, Structural)]
pub enum Axis {
    Pan,
    Tilt,
}

/// The restricted domain of a relative control's direction byte. The
/// magnitude of motion is governed by the control's resolution/step field,
/// not by this value.
#[derive(Clone, Copy, Debug, PartialEq, Eq, Structural)]
pub enum RelativeCommand {
    Negative,
    Stop,
    Positive,
}

impl RelativeCommand {
    /// The direction byte on the wire: a two's-complement `i8` in {-1, 0, 1}.
    pub open spec fn byte_spec(self) -> u8 {
        match self {
            RelativeCommand::Negative => 0xff,
            RelativeCommand::Stop => 0x00,
            RelativeCommand::Positive => 0x01,
        }
    }

    /// The signed logical value in {-1, 0, 1}.
    pub open spec fn value_spec(self) -> int {
        match self {
            RelativeCommand::Negative => -1,
            RelativeCommand::Stop => 0,
            RelativeCommand::Positive => 1,
        }
    }

    pub fn byte(self) -> (r: u8)
        ensures
            r == self.byte_spec(),
    {
        match self {
            RelativeCommand::Negative => 0xff,
            RelativeCommand::Stop => 0x00,
            RelativeCommand::Positive => 0x01,
        }
    }

    pub fn value(self) -> (r: i32)
        ensures
            r == self.value_spec(),
    {
        match self {
            RelativeCommand::Negative => -1,
            RelativeCommand::Stop => 0,
            RelativeCommand::Positive => 1,
        }
    }
}

/// The relative command a direction byte stands for, if it is in the domain.
pub open spec fn rel_of_byte(b: u8) -> Option<RelativeCommand> {
    if b == 0xff {
        Some(RelativeCommand::Negative)
    } else if b == 0x00 {
        Some(RelativeCommand::Stop)
    } else if b == 0x01 {
        Some(RelativeCommand::Positive)
    } else {
        None
    }
}

pub fn decode_relative_command(b: u8) -> (r: Option<RelativeCommand>)
    ensures
        r == rel_of_byte(b),
{
    if b == 0xff {
        Some(RelativeCommand::Negative)
    } else if b == 0x00 {
        Some(RelativeCommand::Stop)
    } else if b == 0x01 {
        Some(RelativeCommand::Positive)
    } else {
        None
    }
}

} // verus!
