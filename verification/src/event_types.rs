//! The numbered kinds, fields and places of low-level events.

use vstd::prelude::*;

verus! {

/// When an event happened, in nanoseconds since the machine started.
pub type CGEventTimestamp = u64;

/// A set of event types, one bit for each: the bit at the place of the
/// type's code.
pub type CGEventMask = u64;

/// The mask with every event type in it.
pub const kCGEventMaskForAllEvents: CGEventMask = 0xFFFF_FFFF_FFFF_FFFF;

/// The layout of a keyboard, by number.
pub type CGEventSourceKeyboardType = u32;

/// A mouse button.
#[derive(Clone, Copy, Debug, PartialEq, Eq, Structural)]
pub enum CGMouseButton {
    /// `kCGMouseButtonLeft`
    Left,
    /// `kCGMouseButtonRight`
    Right,
    /// `kCGMouseButtonCenter`
    Center,
}

impl CGMouseButton {
    /// The integer by which the native framework knows this mouse button.
    pub open spec fn spec_code(self) -> int {
        match self {
            CGMouseButton::Left => 0,
            CGMouseButton::Right => 1,
            CGMouseButton::Center => 2,
        }
    }

    /// The mouse button with the native code `code`, if there is one.
    pub open spec fn spec_from_code(code: int) -> Option<CGMouseButton> {
        if code == 0 {
            Some(CGMouseButton::Left)
        } else if code == 1 {
            Some(CGMouseButton::Right)
        } else if code == 2 {
            Some(CGMouseButton::Center)
        } else {
            None
        }
    }

    pub fn code(self) -> (code: u32)
        ensures
            code == self.spec_code(),
    {
        match self {
            CGMouseButton::Left => 0,
            CGMouseButton::Right => 1,
            CGMouseButton::Center => 2,
        }
    }

    pub fn from_code(code: u32) -> (button: Option<CGMouseButton>)
        ensures
            button == Self::spec_from_code(code as int),
    {
        match code {
            0 => Some(CGMouseButton::Left),
            1 => Some(CGMouseButton::Right),
            2 => Some(CGMouseButton::Center),
            _ => None,
        }
    }

    /// Every mouse button is found again from its own code.
    pub proof fn lemma_code_round_trip(self)
        ensures
            Self::spec_from_code(self.spec_code()) == Some(self),
    {
    }

    /// A code names at most one mouse button: the one whose code it is.
    pub proof fn lemma_from_code_sound(code: int)
        ensures
            match Self::spec_from_code(code) {
                Some(button) => button.spec_code() == code,
                None => forall|button: CGMouseButton| button.spec_code() != code,
            },
    {
    }
}

/// The unit in which a scroll event measures.
#[derive(Clone, Copy, Debug, PartialEq, Eq, Structural)]
pub enum CGScrollEventUnit {
    /// `kCGScrollEventUnitPixel`
    Pixel,
    /// `kCGScrollEventUnitLine`
    Line,
}

impl CGScrollEventUnit {
    /// The integer by which the native framework knows this scroll unit.
    pub open spec fn spec_code(self) -> int {
        match self {
            CGScrollEventUnit::Pixel => 0,
            CGScrollEventUnit::Line => 1,
        }
    }

    /// The scroll unit with the native code `code`, if there is one.
    pub open spec fn spec_from_code(code: int) -> Option<CGScrollEventUnit> {
        if code == 0 {
            Some(CGScrollEventUnit::Pixel)
        } else if code == 1 {
            Some(CGScrollEventUnit::Line)
        } else {
            None
        }
    }

    pub fn code(self) -> (code: u32)
        ensures
            code == self.spec_code(),
    {
        match self {
            CGScrollEventUnit::Pixel => 0,
            CGScrollEventUnit::Line => 1,
        }
    }

    pub fn from_code(code: u32) -> (unit: Option<CGScrollEventUnit>)
        ensures
            unit == Self::spec_from_code(code as int),
    {
        match code {
            0 => Some(CGScrollEventUnit::Pixel),
            1 => Some(CGScrollEventUnit::Line),
            _ => None,
        }
    }

    /// Every scroll unit is found again from its own code.
    pub proof fn lemma_code_round_trip(self)
        ensures
            Self::spec_from_code(self.spec_code()) == Some(self),
    {
    }

    /// A code names at most one scroll unit: the one whose code it is.
    pub proof fn lemma_from_code_sound(code: int)
        ensures
            match Self::spec_from_code(code) {
                Some(unit) => unit.spec_code() == code,
                None => forall|unit: CGScrollEventUnit| unit.spec_code() != code,
            },
    {
    }
}

/// The phase of a momentum scroll.
#[derive(Clone, Copy, Debug, PartialEq, Eq, Structural)]
pub enum CGMomentumScrollPhase {
    /// `kCGMomentumScrollPhaseNone`
    NoPhase,
    /// `kCGMomentumScrollPhaseBegin`
    Begin,
    /// `kCGMomentumScrollPhaseContinue`
    Continue,
    /// `kCGMomentumScrollPhaseEnd`
    End,
}

impl CGMomentumScrollPhase {
    /// The integer by which the native framework knows this momentum scroll phase.
    pub open spec fn spec_code(self) -> int {
        match self {
            CGMomentumScrollPhase::NoPhase => 0,
            CGMomentumScrollPhase::Begin => 1,
            CGMomentumScrollPhase::Continue => 2,
            CGMomentumScrollPhase::End => 3,
        }
    }

    /// The momentum scroll phase with the native code `code`, if there is one.
    pub open spec fn spec_from_code(code: int) -> Option<CGMomentumScrollPhase> {
        if code == 0 {
            Some(CGMomentumScrollPhase::NoPhase)
        } else if code == 1 {
            Some(CGMomentumScrollPhase::Begin)
        } else if code == 2 {
            Some(CGMomentumScrollPhase::Continue)
        } else if code == 3 {
            Some(CGMomentumScrollPhase::End)
        } else {
            None
        }
    }

    pub fn code(self) -> (code: u32)
        ensures
            code == self.spec_code(),
    {
        match self {
            CGMomentumScrollPhase::NoPhase => 0,
            CGMomentumScrollPhase::Begin => 1,
            CGMomentumScrollPhase::Continue => 2,
            CGMomentumScrollPhase::End => 3,
        }
    }

    pub fn from_code(code: u32) -> (phase: Option<CGMomentumScrollPhase>)
        ensures
            phase == Self::spec_from_code(code as int),
    {
        match code {
            0 => Some(CGMomentumScrollPhase::NoPhase),
            1 => Some(CGMomentumScrollPhase::Begin),
            2 => Some(CGMomentumScrollPhase::Continue),
            3 => Some(CGMomentumScrollPhase::End),
            _ => None,
        }
    }

    /// Every momentum scroll phase is found again from its own code.
    pub proof fn lemma_code_round_trip(self)
        ensures
            Self::spec_from_code(self.spec_code()) == Some(self),
    {
    }

    /// A code names at most one momentum scroll phase: the one whose code it is.
    pub proof fn lemma_from_code_sound(code: int)
        ensures
            match Self::spec_from_code(code) {
                Some(phase) => phase.spec_code() == code,
                None => forall|phase: CGMomentumScrollPhase| phase.spec_code() != code,
            },
    {
    }
}

/// The phase of a scroll gesture.
#[derive(Clone, Copy, Debug, PartialEq, Eq, Structural)]
pub enum CGScrollPhase {
    /// `kCGScrollPhaseBegan`
    Began,
    /// `kCGScrollPhaseChanged`
    Changed,
    /// `kCGScrollPhaseEnded`
    Ended,
    /// `kCGScrollPhaseCancelled`
    Cancelled,
    /// `kCGScrollPhaseMayBegin`
    MayBegin,
}

impl CGScrollPhase {
    /// The integer by which the native framework knows this scroll phase.
    pub open spec fn spec_code(self) -> int {
        match self {
            CGScrollPhase::Began => 1,
            CGScrollPhase::Changed => 2,
            CGScrollPhase::Ended => 4,
            CGScrollPhase::Cancelled => 8,
            CGScrollPhase::MayBegin => 128,
        }
    }

    /// The scroll phase with the native code `code`, if there is one.
    pub open spec fn spec_from_code(code: int) -> Option<CGScrollPhase> {
        if code == 1 {
            Some(CGScrollPhase::Began)
        } else if code == 2 {
            Some(CGScrollPhase::Changed)
        } else if code == 4 {
            Some(CGScrollPhase::Ended)
        } else if code == 8 {
            Some(CGScrollPhase::Cancelled)
        } else if code == 128 {
            Some(CGScrollPhase::MayBegin)
        } else {
            None
        }
    }

    pub fn code(self) -> (code: u32)
        ensures
            code == self.spec_code(),
    {
        match self {
            CGScrollPhase::Began => 1,
            CGScrollPhase::Changed => 2,
            CGScrollPhase::Ended => 4,
            CGScrollPhase::Cancelled => 8,
            CGScrollPhase::MayBegin => 128,
        }
    }

    pub fn from_code(code: u32) -> (phase: Option<CGScrollPhase>)
        ensures
            phase == Self::spec_from_code(code as int),
    {
        match code {
            1 => Some(CGScrollPhase::Began),
            2 => Some(CGScrollPhase::Changed),
            4 => Some(CGScrollPhase::Ended),
            8 => Some(CGScrollPhase::Cancelled),
            128 => Some(CGScrollPhase::MayBegin),
            _ => None,
        }
    }

    /// Every scroll phase is found again from its own code.
    pub proof fn lemma_code_round_trip(self)
        ensures
            Self::spec_from_code(self.spec_code()) == Some(self),
    {
    }

    /// A code names at most one scroll phase: the one whose code it is.
    pub proof fn lemma_from_code_sound(code: int)
        ensures
            match Self::spec_from_code(code) {
                Some(phase) => phase.spec_code() == code,
                None => forall|phase: CGScrollPhase| phase.spec_code() != code,
            },
    {
    }
}

/// The phase of a gesture.
#[derive(Clone, Copy, Debug, PartialEq, Eq, Structural)]
pub enum CGGesturePhase {
    /// `kCGGesturePhaseNone`
    NoPhase,
    /// `kCGGesturePhaseBegan`
    Began,
    /// `kCGGesturePhaseChanged`
    Changed,
    /// `kCGGesturePhaseEnded`
    Ended,
    /// `kCGGesturePhaseCancelled`
    Cancelled,
    /// `kCGGesturePhaseMayBegin`
    MayBegin,
}

impl CGGesturePhase {
    /// The integer by which the native framework knows this gesture phase.
    pub open spec fn spec_code(self) -> int {
        match self {
            CGGesturePhase::NoPhase => 0,
            CGGesturePhase::Began => 1,
            CGGesturePhase::Changed => 2,
            CGGesturePhase::Ended => 4,
            CGGesturePhase::Cancelled => 8,
            CGGesturePhase::MayBegin => 128,
        }
    }

    /// The gesture phase with the native code `code`, if there is one.
    pub open spec fn spec_from_code(code: int) -> Option<CGGesturePhase> {
        if code == 0 {
            Some(CGGesturePhase::NoPhase)
        } else if code == 1 {
            Some(CGGesturePhase::Began)
        } else if code == 2 {
            Some(CGGesturePhase::Changed)
        } else if code == 4 {
            Some(CGGesturePhase::Ended)
        } else if code == 8 {
            Some(CGGesturePhase::Cancelled)
        } else if code == 128 {
            Some(CGGesturePhase::MayBegin)
        } else {
            None
        }
    }

    pub fn code(self) -> (code: u32)
        ensures
            code == self.spec_code(),
    {
        match self {
            CGGesturePhase::NoPhase => 0,
            CGGesturePhase::Began => 1,
            CGGesturePhase::Changed => 2,
            CGGesturePhase::Ended => 4,
            CGGesturePhase::Cancelled => 8,
            CGGesturePhase::MayBegin => 128,
        }
    }

    pub fn from_code(code: u32) -> (phase: Option<CGGesturePhase>)
        ensures
            phase == Self::spec_from_code(code as int),
    {
        match code {
            0 => Some(CGGesturePhase::NoPhase),
            1 => Some(CGGesturePhase::Began),
            2 => Some(CGGesturePhase::Changed),
            4 => Some(CGGesturePhase::Ended),
            8 => Some(CGGesturePhase::Cancelled),
            128 => Some(CGGesturePhase::MayBegin),
            _ => None,
        }
    }

    /// Every gesture phase is found again from its own code.
    pub proof fn lemma_code_round_trip(self)
        ensures
            Self::spec_from_code(self.spec_code()) == Some(self),
    {
    }

    /// A code names at most one gesture phase: the one whose code it is.
    pub proof fn lemma_from_code_sound(code: int)
        ensures
            match Self::spec_from_code(code) {
                Some(phase) => phase.spec_code() == code,
                None => forall|phase: CGGesturePhase| phase.spec_code() != code,
            },
    {
    }
}

/// The kinds of low-level events.
#[derive(Clone, Copy, Debug, PartialEq, Eq, Structural)]
pub enum CGEventType {
    /// `kCGEventNull`
    Null,
    /// `kCGEventLeftMouseDown`
    LeftMouseDown,
    /// `kCGEventLeftMouseUp`
    LeftMouseUp,
    /// `kCGEventRightMouseDown`
    RightMouseDown,
    /// `kCGEventRightMouseUp`
    RightMouseUp,
    /// `kCGEventMouseMoved`
    MouseMoved,
    /// `kCGEventLeftMouseDragged`
    LeftMouseDragged,
    /// `kCGEventRightMouseDragged`
    RightMouseDragged,
    /// `kCGEventKeyDown`
    KeyDown,
    /// `kCGEventKeyUp`
    KeyUp,
    /// `kCGEventFlagsChanged`
    FlagsChanged,
    /// `kCGEventScrollWheel`
    ScrollWheel,
    /// `kCGEventTabletPointer`
    TabletPointer,
    /// `kCGEventTabletProximity`
    TabletProximity,
    /// `kCGEventOtherMouseDown`
    OtherMouseDown,
    /// `kCGEventOtherMouseUp`
    OtherMouseUp,
    /// `kCGEventOtherMouseDragged`
    OtherMouseDragged,
    /// `kCGEventTapDisabledByTimeout`
    TapDisabledByTimeout,
    /// `kCGEventTapDisabledByUserInput`
    TapDisabledByUserInput,
}

impl CGEventType {
    /// The integer by which the native framework knows this event type.
    pub open spec fn spec_code(self) -> int {
        match self {
            CGEventType::Null => 0,
            CGEventType::LeftMouseDown => 1,
            CGEventType::LeftMouseUp => 2,
            CGEventType::RightMouseDown => 3,
            CGEventType::RightMouseUp => 4,
            CGEventType::MouseMoved => 5,
            CGEventType::LeftMouseDragged => 6,
            CGEventType::RightMouseDragged => 7,
            CGEventType::KeyDown => 10,
            CGEventType::KeyUp => 11,
            CGEventType::FlagsChanged => 12,
            CGEventType::ScrollWheel => 22,
            CGEventType::TabletPointer => 23,
            CGEventType::TabletProximity => 24,
            CGEventType::OtherMouseDown => 25,
            CGEventType::OtherMouseUp => 26,
            CGEventType::OtherMouseDragged => 27,
            CGEventType::TapDisabledByTimeout => 0xFFFFFFFE,
            CGEventType::TapDisabledByUserInput => 0xFFFFFFFF,
        }
    }

    /// The event type with the native code `code`, if there is one.
    pub open spec fn spec_from_code(code: int) -> Option<CGEventType> {
        if code == 0 {
            Some(CGEventType::Null)
        } else if code == 1 {
            Some(CGEventType::LeftMouseDown)
        } else if code == 2 {
            Some(CGEventType::LeftMouseUp)
        } else if code == 3 {
            Some(CGEventType::RightMouseDown)
        } else if code == 4 {
            Some(CGEventType::RightMouseUp)
        } else if code == 5 {
            Some(CGEventType::MouseMoved)
        } else if code == 6 {
            Some(CGEventType::LeftMouseDragged)
        } else if code == 7 {
            Some(CGEventType::RightMouseDragged)
        } else if code == 10 {
            Some(CGEventType::KeyDown)
        } else if code == 11 {
            Some(CGEventType::KeyUp)
        } else if code == 12 {
            Some(CGEventType::FlagsChanged)
        } else if code == 22 {
            Some(CGEventType::ScrollWheel)
        } else if code == 23 {
            Some(CGEventType::TabletPointer)
        } else if code == 24 {
            Some(CGEventType::TabletProximity)
        } else if code == 25 {
            Some(CGEventType::OtherMouseDown)
        } else if code == 26 {
            Some(CGEventType::OtherMouseUp)
        } else if code == 27 {
            Some(CGEventType::OtherMouseDragged)
        } else if code == 0xFFFFFFFE {
            Some(CGEventType::TapDisabledByTimeout)
        } else if code == 0xFFFFFFFF {
            Some(CGEventType::TapDisabledByUserInput)
        } else {
            None
        }
    }

    pub fn code(self) -> (code: u32)
        ensures
            code == self.spec_code(),
    {
        match self {
            CGEventType::Null => 0,
            CGEventType::LeftMouseDown => 1,
            CGEventType::LeftMouseUp => 2,
            CGEventType::RightMouseDown => 3,
            CGEventType::RightMouseUp => 4,
            CGEventType::MouseMoved => 5,
            CGEventType::LeftMouseDragged => 6,
            CGEventType::RightMouseDragged => 7,
            CGEventType::KeyDown => 10,
            CGEventType::KeyUp => 11,
            CGEventType::FlagsChanged => 12,
            CGEventType::ScrollWheel => 22,
            CGEventType::TabletPointer => 23,
            CGEventType::TabletProximity => 24,
            CGEventType::OtherMouseDown => 25,
            CGEventType::OtherMouseUp => 26,
            CGEventType::OtherMouseDragged => 27,
            CGEventType::TapDisabledByTimeout => 0xFFFFFFFE,
            CGEventType::TapDisabledByUserInput => 0xFFFFFFFF,
        }
    }

    pub fn from_code(code: u32) -> (event_type: Option<CGEventType>)
        ensures
            event_type == Self::spec_from_code(code as int),
    {
        match code {
            0 => Some(CGEventType::Null),
            1 => Some(CGEventType::LeftMouseDown),
            2 => Some(CGEventType::LeftMouseUp),
            3 => Some(CGEventType::RightMouseDown),
            4 => Some(CGEventType::RightMouseUp),
            5 => Some(CGEventType::MouseMoved),
            6 => Some(CGEventType::LeftMouseDragged),
            7 => Some(CGEventType::RightMouseDragged),
            10 => Some(CGEventType::KeyDown),
            11 => Some(CGEventType::KeyUp),
            12 => Some(CGEventType::FlagsChanged),
            22 => Some(CGEventType::ScrollWheel),
            23 => Some(CGEventType::TabletPointer),
            24 => Some(CGEventType::TabletProximity),
            25 => Some(CGEventType::OtherMouseDown),
            26 => Some(CGEventType::OtherMouseUp),
            27 => Some(CGEventType::OtherMouseDragged),
            0xFFFFFFFE => Some(CGEventType::TapDisabledByTimeout),
            0xFFFFFFFF => Some(CGEventType::TapDisabledByUserInput),
            _ => None,
        }
    }

    /// Every event type is found again from its own code.
    pub proof fn lemma_code_round_trip(self)
        ensures
            Self::spec_from_code(self.spec_code()) == Some(self),
    {
    }

    /// A code names at most one event type: the one whose code it is.
    pub proof fn lemma_from_code_sound(code: int)
        ensures
            match Self::spec_from_code(code) {
                Some(event_type) => event_type.spec_code() == code,
                None => forall|event_type: CGEventType| event_type.spec_code() != code,
            },
    {
    }
}

/// The fields of an event that can be read and written by number.
#[derive(Clone, Copy, Debug, PartialEq, Eq, Structural)]
pub enum CGEventField {
    /// `kCGMouseEventNumber`
    MouseEventNumber,
    /// `kCGMouseEventClickState`
    MouseEventClickState,
    /// `kCGMouseEventPressure`
    MouseEventPressure,
    /// `kCGMouseEventButtonNumber`
    MouseEventButtonNumber,
    /// `kCGMouseEventDeltaX`
    MouseEventDeltaX,
    /// `kCGMouseEventDeltaY`
    MouseEventDeltaY,
    /// `kCGMouseEventInstantMouser`
    MouseEventInstantMouser,
    /// `kCGMouseEventSubtype`
    MouseEventSubtype,
    /// `kCGKeyboardEventAutorepeat`
    KeyboardEventAutorepeat,
    /// `kCGKeyboardEventKeycode`
    KeyboardEventKeycode,
    /// `kCGKeyboardEventKeyboardType`
    KeyboardEventKeyboardType,
    /// `kCGScrollWheelEventDeltaAxis1`
    ScrollWheelEventDeltaAxis1,
    /// `kCGScrollWheelEventDeltaAxis2`
    ScrollWheelEventDeltaAxis2,
    /// `kCGScrollWheelEventDeltaAxis3`
    ScrollWheelEventDeltaAxis3,
    /// `kCGScrollWheelEventFixedPtDeltaAxis1`
    ScrollWheelEventFixedPtDeltaAxis1,
    /// `kCGScrollWheelEventFixedPtDeltaAxis2`
    ScrollWheelEventFixedPtDeltaAxis2,
    /// `kCGScrollWheelEventFixedPtDeltaAxis3`
    ScrollWheelEventFixedPtDeltaAxis3,
    /// `kCGScrollWheelEventPointDeltaAxis1`
    ScrollWheelEventPointDeltaAxis1,
    /// `kCGScrollWheelEventPointDeltaAxis2`
    ScrollWheelEventPointDeltaAxis2,
    /// `kCGScrollWheelEventPointDeltaAxis3`
    ScrollWheelEventPointDeltaAxis3,
    /// `kCGScrollWheelEventScrollPhase`
    ScrollWheelEventScrollPhase,
    /// `kCGScrollWheelEventScrollCount`
    ScrollWheelEventScrollCount,
    /// `kCGScrollWheelEventMomentumPhase`
    ScrollWheelEventMomentumPhase,
    /// `kCGScrollWheelEventInstantMouser`
    ScrollWheelEventInstantMouser,
    /// `kCGTabletEventPointX`
    TabletEventPointX,
    /// `kCGTabletEventPointY`
    TabletEventPointY,
    /// `kCGTabletEventPointZ`
    TabletEventPointZ,
    /// `kCGTabletEventPointButtons`
    TabletEventPointButtons,
    /// `kCGTabletEventPointPressure`
    TabletEventPointPressure,
    /// `kCGTabletEventTiltX`
    TabletEventTiltX,
    /// `kCGTabletEventTiltY`
    TabletEventTiltY,
    /// `kCGTabletEventRotation`
    TabletEventRotation,
    /// `kCGTabletEventTangentialPressure`
    TabletEventTangentialPressure,
    /// `kCGTabletEventDeviceID`
    TabletEventDeviceID,
    /// `kCGTabletEventVendor1`
    TabletEventVendor1,
    /// `kCGTabletEventVendor2`
    TabletEventVendor2,
    /// `kCGTabletEventVendor3`
    TabletEventVendor3,
    /// `kCGTabletProximityEventVendorID`
    TabletProximityEventVendorID,
    /// `kCGTabletProximityEventTabletID`
    TabletProximityEventTabletID,
    /// `kCGTabletProximityEventPointerID`
    TabletProximityEventPointerID,
    /// `kCGTabletProximityEventDeviceID`
    TabletProximityEventDeviceID,
    /// `kCGTabletProximityEventSystemTabletID`
    TabletProximityEventSystemTabletID,
    /// `kCGTabletProximityEventVendorPointerType`
    TabletProximityEventVendorPointerType,
    /// `kCGTabletProximityEventVendorPointerSerialNumber`
    TabletProximityEventVendorPointerSerialNumber,
    /// `kCGTabletProximityEventVendorUniqueID`
    TabletProximityEventVendorUniqueID,
    /// `kCGTabletProximityEventCapabilityMask`
    TabletProximityEventCapabilityMask,
    /// `kCGTabletProximityEventPointerType`
    TabletProximityEventPointerType,
    /// `kCGTabletProximityEventEnterProximity`
    TabletProximityEventEnterProximity,
    /// `kCGEventTargetProcessSerialNumber`
    EventTargetProcessSerialNumber,
    /// `kCGEventTargetUnixProcessID`
    EventTargetUnixProcessID,
    /// `kCGEventSourceUnixProcessID`
    EventSourceUnixProcessID,
    /// `kCGEventSourceUserData`
    EventSourceUserData,
    /// `kCGEventSourceUserID`
    EventSourceUserID,
    /// `kCGEventSourceGroupID`
    EventSourceGroupID,
    /// `kCGEventSourceStateID`
    EventSourceStateID,
    /// `kCGScrollWheelEventIsContinuous`
    ScrollWheelEventIsContinuous,
    /// `kCGMouseEventWindowUnderMousePointer`
    MouseEventWindowUnderMousePointer,
    /// `kCGMouseEventWindowUnderMousePointerThatCanHandleThisEvent`
    MouseEventWindowUnderMousePointerThatCanHandleThisEvent,
    /// `kCGEventUnacceleratedPointerMovementX`
    EventUnacceleratedPointerMovementX,
    /// `kCGEventUnacceleratedPointerMovementY`
    EventUnacceleratedPointerMovementY,
}

impl CGEventField {
    /// The integer by which the native framework knows this event field.
    pub open spec fn spec_code(self) -> int {
        match self {
            CGEventField::MouseEventNumber => 0,
            CGEventField::MouseEventClickState => 1,
            CGEventField::MouseEventPressure => 2,
            CGEventField::MouseEventButtonNumber => 3,
            CGEventField::MouseEventDeltaX => 4,
            CGEventField::MouseEventDeltaY => 5,
            CGEventField::MouseEventInstantMouser => 6,
            CGEventField::MouseEventSubtype => 7,
            CGEventField::KeyboardEventAutorepeat => 8,
            CGEventField::KeyboardEventKeycode => 9,
            CGEventField::KeyboardEventKeyboardType => 10,
            CGEventField::ScrollWheelEventDeltaAxis1 => 11,
            CGEventField::ScrollWheelEventDeltaAxis2 => 12,
            CGEventField::ScrollWheelEventDeltaAxis3 => 13,
            CGEventField::ScrollWheelEventFixedPtDeltaAxis1 => 93,
            CGEventField::ScrollWheelEventFixedPtDeltaAxis2 => 94,
            CGEventField::ScrollWheelEventFixedPtDeltaAxis3 => 95,
            CGEventField::ScrollWheelEventPointDeltaAxis1 => 96,
            CGEventField::ScrollWheelEventPointDeltaAxis2 => 97,
            CGEventField::ScrollWheelEventPointDeltaAxis3 => 98,
            CGEventField::ScrollWheelEventScrollPhase => 99,
            CGEventField::ScrollWheelEventScrollCount => 100,
            CGEventField::ScrollWheelEventMomentumPhase => 123,
            CGEventField::ScrollWheelEventInstantMouser => 14,
            CGEventField::TabletEventPointX => 15,
            CGEventField::TabletEventPointY => 16,
            CGEventField::TabletEventPointZ => 17,
            CGEventField::TabletEventPointButtons => 18,
            CGEventField::TabletEventPointPressure => 19,
            CGEventField::TabletEventTiltX => 20,
            CGEventField::TabletEventTiltY => 21,
            CGEventField::TabletEventRotation => 22,
            CGEventField::TabletEventTangentialPressure => 23,
            CGEventField::TabletEventDeviceID => 24,
            CGEventField::TabletEventVendor1 => 25,
            CGEventField::TabletEventVendor2 => 26,
            CGEventField::TabletEventVendor3 => 27,
            CGEventField::TabletProximityEventVendorID => 28,
            CGEventField::TabletProximityEventTabletID => 29,
            CGEventField::TabletProximityEventPointerID => 30,
            CGEventField::TabletProximityEventDeviceID => 31,
            CGEventField::TabletProximityEventSystemTabletID => 32,
            CGEventField::TabletProximityEventVendorPointerType => 33,
            CGEventField::TabletProximityEventVendorPointerSerialNumber => 34,
            CGEventField::TabletProximityEventVendorUniqueID => 35,
            CGEventField::TabletProximityEventCapabilityMask => 36,
            CGEventField::TabletProximityEventPointerType => 37,
            CGEventField::TabletProximityEventEnterProximity => 38,
            CGEventField::EventTargetProcessSerialNumber => 39,
            CGEventField::EventTargetUnixProcessID => 40,
            CGEventField::EventSourceUnixProcessID => 41,
            CGEventField::EventSourceUserData => 42,
            CGEventField::EventSourceUserID => 43,
            CGEventField::EventSourceGroupID => 44,
            CGEventField::EventSourceStateID => 45,
            CGEventField::ScrollWheelEventIsContinuous => 88,
            CGEventField::MouseEventWindowUnderMousePointer => 91,
            CGEventField::MouseEventWindowUnderMousePointerThatCanHandleThisEvent => 92,
            CGEventField::EventUnacceleratedPointerMovementX => 170,
            CGEventField::EventUnacceleratedPointerMovementY => 171,
        }
    }

    /// The event field with the native code `code`, if there is one.
    pub open spec fn spec_from_code(code: int) -> Option<CGEventField> {
        if code == 0 {
            Some(CGEventField::MouseEventNumber)
        } else if code == 1 {
            Some(CGEventField::MouseEventClickState)
        } else if code == 2 {
            Some(CGEventField::MouseEventPressure)
        } else if code == 3 {
            Some(CGEventField::MouseEventButtonNumber)
        } else if code == 4 {
            Some(CGEventField::MouseEventDeltaX)
        } else if code == 5 {
            Some(CGEventField::MouseEventDeltaY)
        } else if code == 6 {
            Some(CGEventField::MouseEventInstantMouser)
        } else if code == 7 {
            Some(CGEventField::MouseEventSubtype)
        } else if code == 8 {
            Some(CGEventField::KeyboardEventAutorepeat)
        } else if code == 9 {
            Some(CGEventField::KeyboardEventKeycode)
        } else if code == 10 {
            Some(CGEventField::KeyboardEventKeyboardType)
        } else if code == 11 {
            Some(CGEventField::ScrollWheelEventDeltaAxis1)
        } else if code == 12 {
            Some(CGEventField::ScrollWheelEventDeltaAxis2)
        } else if code == 13 {
            Some(CGEventField::ScrollWheelEventDeltaAxis3)
        } else if code == 93 {
            Some(CGEventField::ScrollWheelEventFixedPtDeltaAxis1)
        } else if code == 94 {
            Some(CGEventField::ScrollWheelEventFixedPtDeltaAxis2)
        } else if code == 95 {
            Some(CGEventField::ScrollWheelEventFixedPtDeltaAxis3)
        } else if code == 96 {
            Some(CGEventField::ScrollWheelEventPointDeltaAxis1)
        } else if code == 97 {
            Some(CGEventField::ScrollWheelEventPointDeltaAxis2)
        } else if code == 98 {
            Some(CGEventField::ScrollWheelEventPointDeltaAxis3)
        } else if code == 99 {
            Some(CGEventField::ScrollWheelEventScrollPhase)
        } else if code == 100 {
            Some(CGEventField::ScrollWheelEventScrollCount)
        } else if code == 123 {
            Some(CGEventField::ScrollWheelEventMomentumPhase)
        } else if code == 14 {
            Some(CGEventField::ScrollWheelEventInstantMouser)
        } else if code == 15 {
            Some(CGEventField::TabletEventPointX)
        } else if code == 16 {
            Some(CGEventField::TabletEventPointY)
        } else if code == 17 {
            Some(CGEventField::TabletEventPointZ)
        } else if code == 18 {
            Some(CGEventField::TabletEventPointButtons)
        } else if code == 19 {
            Some(CGEventField::TabletEventPointPressure)
        } else if code == 20 {
            Some(CGEventField::TabletEventTiltX)
        } else if code == 21 {
            Some(CGEventField::TabletEventTiltY)
        } else if code == 22 {
            Some(CGEventField::TabletEventRotation)
        } else if code == 23 {
            Some(CGEventField::TabletEventTangentialPressure)
        } else if code == 24 {
            Some(CGEventField::TabletEventDeviceID)
        } else if code == 25 {
            Some(CGEventField::TabletEventVendor1)
        } else if code == 26 {
            Some(CGEventField::TabletEventVendor2)
        } else if code == 27 {
            Some(CGEventField::TabletEventVendor3)
        } else if code == 28 {
            Some(CGEventField::TabletProximityEventVendorID)
        } else if code == 29 {
            Some(CGEventField::TabletProximityEventTabletID)
        } else if code == 30 {
            Some(CGEventField::TabletProximityEventPointerID)
        } else if code == 31 {
            Some(CGEventField::TabletProximityEventDeviceID)
        } else if code == 32 {
            Some(CGEventField::TabletProximityEventSystemTabletID)
        } else if code == 33 {
            Some(CGEventField::TabletProximityEventVendorPointerType)
        } else if code == 34 {
            Some(CGEventField::TabletProximityEventVendorPointerSerialNumber)
        } else if code == 35 {
            Some(CGEventField::TabletProximityEventVendorUniqueID)
        } else if code == 36 {
            Some(CGEventField::TabletProximityEventCapabilityMask)
        } else if code == 37 {
            Some(CGEventField::TabletProximityEventPointerType)
        } else if code == 38 {
            Some(CGEventField::TabletProximityEventEnterProximity)
        } else if code == 39 {
            Some(CGEventField::EventTargetProcessSerialNumber)
        } else if code == 40 {
            Some(CGEventField::EventTargetUnixProcessID)
        } else if code == 41 {
            Some(CGEventField::EventSourceUnixProcessID)
        } else if code == 42 {
            Some(CGEventField::EventSourceUserData)
        } else if code == 43 {
            Some(CGEventField::EventSourceUserID)
        } else if code == 44 {
            Some(CGEventField::EventSourceGroupID)
        } else if code == 45 {
            Some(CGEventField::EventSourceStateID)
        } else if code == 88 {
            Some(CGEventField::ScrollWheelEventIsContinuous)
        } else if code == 91 {
            Some(CGEventField::MouseEventWindowUnderMousePointer)
        } else if code == 92 {
            Some(CGEventField::MouseEventWindowUnderMousePointerThatCanHandleThisEvent)
        } else if code == 170 {
            Some(CGEventField::EventUnacceleratedPointerMovementX)
        } else if code == 171 {
            Some(CGEventField::EventUnacceleratedPointerMovementY)
        } else {
            None
        }
    }

    pub fn code(self) -> (code: u32)
        ensures
            code == self.spec_code(),
    {
        match self {
            CGEventField::MouseEventNumber => 0,
            CGEventField::MouseEventClickState => 1,
            CGEventField::MouseEventPressure => 2,
            CGEventField::MouseEventButtonNumber => 3,
            CGEventField::MouseEventDeltaX => 4,
            CGEventField::MouseEventDeltaY => 5,
            CGEventField::MouseEventInstantMouser => 6,
            CGEventField::MouseEventSubtype => 7,
            CGEventField::KeyboardEventAutorepeat => 8,
            CGEventField::KeyboardEventKeycode => 9,
            CGEventField::KeyboardEventKeyboardType => 10,
            CGEventField::ScrollWheelEventDeltaAxis1 => 11,
            CGEventField::ScrollWheelEventDeltaAxis2 => 12,
            CGEventField::ScrollWheelEventDeltaAxis3 => 13,
            CGEventField::ScrollWheelEventFixedPtDeltaAxis1 => 93,
            CGEventField::ScrollWheelEventFixedPtDeltaAxis2 => 94,
            CGEventField::ScrollWheelEventFixedPtDeltaAxis3 => 95,
            CGEventField::ScrollWheelEventPointDeltaAxis1 => 96,
            CGEventField::ScrollWheelEventPointDeltaAxis2 => 97,
            CGEventField::ScrollWheelEventPointDeltaAxis3 => 98,
            CGEventField::ScrollWheelEventScrollPhase => 99,
            CGEventField::ScrollWheelEventScrollCount => 100,
            CGEventField::ScrollWheelEventMomentumPhase => 123,
            CGEventField::ScrollWheelEventInstantMouser => 14,
            CGEventField::TabletEventPointX => 15,
            CGEventField::TabletEventPointY => 16,
            CGEventField::TabletEventPointZ => 17,
            CGEventField::TabletEventPointButtons => 18,
            CGEventField::TabletEventPointPressure => 19,
            CGEventField::TabletEventTiltX => 20,
            CGEventField::TabletEventTiltY => 21,
            CGEventField::TabletEventRotation => 22,
            CGEventField::TabletEventTangentialPressure => 23,
            CGEventField::TabletEventDeviceID => 24,
            CGEventField::TabletEventVendor1 => 25,
            CGEventField::TabletEventVendor2 => 26,
            CGEventField::TabletEventVendor3 => 27,
            CGEventField::TabletProximityEventVendorID => 28,
            CGEventField::TabletProximityEventTabletID => 29,
            CGEventField::TabletProximityEventPointerID => 30,
            CGEventField::TabletProximityEventDeviceID => 31,
            CGEventField::TabletProximityEventSystemTabletID => 32,
            CGEventField::TabletProximityEventVendorPointerType => 33,
            CGEventField::TabletProximityEventVendorPointerSerialNumber => 34,
            CGEventField::TabletProximityEventVendorUniqueID => 35,
            CGEventField::TabletProximityEventCapabilityMask => 36,
            CGEventField::TabletProximityEventPointerType => 37,
            CGEventField::TabletProximityEventEnterProximity => 38,
            CGEventField::EventTargetProcessSerialNumber => 39,
            CGEventField::EventTargetUnixProcessID => 40,
            CGEventField::EventSourceUnixProcessID => 41,
            CGEventField::EventSourceUserData => 42,
            CGEventField::EventSourceUserID => 43,
            CGEventField::EventSourceGroupID => 44,
            CGEventField::EventSourceStateID => 45,
            CGEventField::ScrollWheelEventIsContinuous => 88,
            CGEventField::MouseEventWindowUnderMousePointer => 91,
            CGEventField::MouseEventWindowUnderMousePointerThatCanHandleThisEvent => 92,
            CGEventField::EventUnacceleratedPointerMovementX => 170,
            CGEventField::EventUnacceleratedPointerMovementY => 171,
        }
    }

    pub fn from_code(code: u32) -> (field: Option<CGEventField>)
        ensures
            field == Self::spec_from_code(code as int),
    {
        match code {
            0 => Some(CGEventField::MouseEventNumber),
            1 => Some(CGEventField::MouseEventClickState),
            2 => Some(CGEventField::MouseEventPressure),
            3 => Some(CGEventField::MouseEventButtonNumber),
            4 => Some(CGEventField::MouseEventDeltaX),
            5 => Some(CGEventField::MouseEventDeltaY),
            6 => Some(CGEventField::MouseEventInstantMouser),
            7 => Some(CGEventField::MouseEventSubtype),
            8 => Some(CGEventField::KeyboardEventAutorepeat),
            9 => Some(CGEventField::KeyboardEventKeycode),
            10 => Some(CGEventField::KeyboardEventKeyboardType),
            11 => Some(CGEventField::ScrollWheelEventDeltaAxis1),
            12 => Some(CGEventField::ScrollWheelEventDeltaAxis2),
            13 => Some(CGEventField::ScrollWheelEventDeltaAxis3),
            93 => Some(CGEventField::ScrollWheelEventFixedPtDeltaAxis1),
            94 => Some(CGEventField::ScrollWheelEventFixedPtDeltaAxis2),
            95 => Some(CGEventField::ScrollWheelEventFixedPtDeltaAxis3),
            96 => Some(CGEventField::ScrollWheelEventPointDeltaAxis1),
            97 => Some(CGEventField::ScrollWheelEventPointDeltaAxis2),
            98 => Some(CGEventField::ScrollWheelEventPointDeltaAxis3),
            99 => Some(CGEventField::ScrollWheelEventScrollPhase),
            100 => Some(CGEventField::ScrollWheelEventScrollCount),
            123 => Some(CGEventField::ScrollWheelEventMomentumPhase),
            14 => Some(CGEventField::ScrollWheelEventInstantMouser),
            15 => Some(CGEventField::TabletEventPointX),
            16 => Some(CGEventField::TabletEventPointY),
            17 => Some(CGEventField::TabletEventPointZ),
            18 => Some(CGEventField::TabletEventPointButtons),
            19 => Some(CGEventField::TabletEventPointPressure),
            20 => Some(CGEventField::TabletEventTiltX),
            21 => Some(CGEventField::TabletEventTiltY),
            22 => Some(CGEventField::TabletEventRotation),
            23 => Some(CGEventField::TabletEventTangentialPressure),
            24 => Some(CGEventField::TabletEventDeviceID),
            25 => Some(CGEventField::TabletEventVendor1),
            26 => Some(CGEventField::TabletEventVendor2),
            27 => Some(CGEventField::TabletEventVendor3),
            28 => Some(CGEventField::TabletProximityEventVendorID),
            29 => Some(CGEventField::TabletProximityEventTabletID),
            30 => Some(CGEventField::TabletProximityEventPointerID),
            31 => Some(CGEventField::TabletProximityEventDeviceID),
            32 => Some(CGEventField::TabletProximityEventSystemTabletID),
            33 => Some(CGEventField::TabletProximityEventVendorPointerType),
            34 => Some(CGEventField::TabletProximityEventVendorPointerSerialNumber),
            35 => Some(CGEventField::TabletProximityEventVendorUniqueID),
            36 => Some(CGEventField::TabletProximityEventCapabilityMask),
            37 => Some(CGEventField::TabletProximityEventPointerType),
            38 => Some(CGEventField::TabletProximityEventEnterProximity),
            39 => Some(CGEventField::EventTargetProcessSerialNumber),
            40 => Some(CGEventField::EventTargetUnixProcessID),
            41 => Some(CGEventField::EventSourceUnixProcessID),
            42 => Some(CGEventField::EventSourceUserData),
            43 => Some(CGEventField::EventSourceUserID),
            44 => Some(CGEventField::EventSourceGroupID),
            45 => Some(CGEventField::EventSourceStateID),
            88 => Some(CGEventField::ScrollWheelEventIsContinuous),
            91 => Some(CGEventField::MouseEventWindowUnderMousePointer),
            92 => Some(CGEventField::MouseEventWindowUnderMousePointerThatCanHandleThisEvent),
            170 => Some(CGEventField::EventUnacceleratedPointerMovementX),
            171 => Some(CGEventField::EventUnacceleratedPointerMovementY),
            _ => None,
        }
    }

    /// Every event field is found again from its own code.
    pub proof fn lemma_code_round_trip(self)
        ensures
            Self::spec_from_code(self.spec_code()) == Some(self),
    {
    }

    /// A code names at most one event field: the one whose code it is.
    pub proof fn lemma_from_code_sound(code: int)
        ensures
            match Self::spec_from_code(code) {
                Some(field) => field.spec_code() == code,
                None => forall|field: CGEventField| field.spec_code() != code,
            },
    {
    }
}

/// What kind of device produced a mouse event.
#[derive(Clone, Copy, Debug, PartialEq, Eq, Structural)]
pub enum CGEventMouseSubtype {
    /// `kCGEventMouseSubtypeDefault`
    Default,
    /// `kCGEventMouseSubtypeTabletPoint`
    TabletPoint,
    /// `kCGEventMouseSubtypeTabletProximity`
    TabletProximity,
}

impl CGEventMouseSubtype {
    /// The integer by which the native framework knows this mouse subtype.
    pub open spec fn spec_code(self) -> int {
        match self {
            CGEventMouseSubtype::Default => 0,
            CGEventMouseSubtype::TabletPoint => 1,
            CGEventMouseSubtype::TabletProximity => 2,
        }
    }

    /// The mouse subtype with the native code `code`, if there is one.
    pub open spec fn spec_from_code(code: int) -> Option<CGEventMouseSubtype> {
        if code == 0 {
            Some(CGEventMouseSubtype::Default)
        } else if code == 1 {
            Some(CGEventMouseSubtype::TabletPoint)
        } else if code == 2 {
            Some(CGEventMouseSubtype::TabletProximity)
        } else {
            None
        }
    }

    pub fn code(self) -> (code: u32)
        ensures
            code == self.spec_code(),
    {
        match self {
            CGEventMouseSubtype::Default => 0,
            CGEventMouseSubtype::TabletPoint => 1,
            CGEventMouseSubtype::TabletProximity => 2,
        }
    }

    pub fn from_code(code: u32) -> (subtype: Option<CGEventMouseSubtype>)
        ensures
            subtype == Self::spec_from_code(code as int),
    {
        match code {
            0 => Some(CGEventMouseSubtype::Default),
            1 => Some(CGEventMouseSubtype::TabletPoint),
            2 => Some(CGEventMouseSubtype::TabletProximity),
            _ => None,
        }
    }

    /// Every mouse subtype is found again from its own code.
    pub proof fn lemma_code_round_trip(self)
        ensures
            Self::spec_from_code(self.spec_code()) == Some(self),
    {
    }

    /// A code names at most one mouse subtype: the one whose code it is.
    pub proof fn lemma_from_code_sound(code: int)
        ensures
            match Self::spec_from_code(code) {
                Some(subtype) => subtype.spec_code() == code,
                None => forall|subtype: CGEventMouseSubtype| subtype.spec_code() != code,
            },
    {
    }
}

/// Where in the event stream a tap is placed.
#[derive(Clone, Copy, Debug, PartialEq, Eq, Structural)]
pub enum CGEventTapLocation {
    /// `kCGHIDEventTap`
    HIDEventTap,
    /// `kCGSessionEventTap`
    SessionEventTap,
    /// `kCGAnnotatedSessionEventTap`
    AnnotatedSessionEventTap,
}

impl CGEventTapLocation {
    /// The integer by which the native framework knows this tap location.
    pub open spec fn spec_code(self) -> int {
        match self {
            CGEventTapLocation::HIDEventTap => 0,
            CGEventTapLocation::SessionEventTap => 1,
            CGEventTapLocation::AnnotatedSessionEventTap => 2,
        }
    }

    /// The tap location with the native code `code`, if there is one.
    pub open spec fn spec_from_code(code: int) -> Option<CGEventTapLocation> {
        if code == 0 {
            Some(CGEventTapLocation::HIDEventTap)
        } else if code == 1 {
            Some(CGEventTapLocation::SessionEventTap)
        } else if code == 2 {
            Some(CGEventTapLocation::AnnotatedSessionEventTap)
        } else {
            None
        }
    }

    pub fn code(self) -> (code: u32)
        ensures
            code == self.spec_code(),
    {
        match self {
            CGEventTapLocation::HIDEventTap => 0,
            CGEventTapLocation::SessionEventTap => 1,
            CGEventTapLocation::AnnotatedSessionEventTap => 2,
        }
    }

    pub fn from_code(code: u32) -> (location: Option<CGEventTapLocation>)
        ensures
            location == Self::spec_from_code(code as int),
    {
        match code {
            0 => Some(CGEventTapLocation::HIDEventTap),
            1 => Some(CGEventTapLocation::SessionEventTap),
            2 => Some(CGEventTapLocation::AnnotatedSessionEventTap),
            _ => None,
        }
    }

    /// Every tap location is found again from its own code.
    pub proof fn lemma_code_round_trip(self)
        ensures
            Self::spec_from_code(self.spec_code()) == Some(self),
    {
    }

    /// A code names at most one tap location: the one whose code it is.
    pub proof fn lemma_from_code_sound(code: int)
        ensures
            match Self::spec_from_code(code) {
                Some(location) => location.spec_code() == code,
                None => forall|location: CGEventTapLocation| location.spec_code() != code,
            },
    {
    }
}

/// Whether a new tap goes before or after the taps already there.
#[derive(Clone, Copy, Debug, PartialEq, Eq, Structural)]
pub enum CGEventTapPlacement {
    /// `kCGHeadInsertEventTap`
    HeadInsertEventTap,
    /// `kCGTailAppendEventTap`
    TailAppendEventTap,
}

impl CGEventTapPlacement {
    /// The integer by which the native framework knows this tap placement.
    pub open spec fn spec_code(self) -> int {
        match self {
            CGEventTapPlacement::HeadInsertEventTap => 0,
            CGEventTapPlacement::TailAppendEventTap => 1,
        }
    }

    /// The tap placement with the native code `code`, if there is one.
    pub open spec fn spec_from_code(code: int) -> Option<CGEventTapPlacement> {
        if code == 0 {
            Some(CGEventTapPlacement::HeadInsertEventTap)
        } else if code == 1 {
            Some(CGEventTapPlacement::TailAppendEventTap)
        } else {
            None
        }
    }

    pub fn code(self) -> (code: u32)
        ensures
            code == self.spec_code(),
    {
        match self {
            CGEventTapPlacement::HeadInsertEventTap => 0,
            CGEventTapPlacement::TailAppendEventTap => 1,
        }
    }

    pub fn from_code(code: u32) -> (placement: Option<CGEventTapPlacement>)
        ensures
            placement == Self::spec_from_code(code as int),
    {
        match code {
            0 => Some(CGEventTapPlacement::HeadInsertEventTap),
            1 => Some(CGEventTapPlacement::TailAppendEventTap),
            _ => None,
        }
    }

    /// Every tap placement is found again from its own code.
    pub proof fn lemma_code_round_trip(self)
        ensures
            Self::spec_from_code(self.spec_code()) == Some(self),
    {
    }

    /// A code names at most one tap placement: the one whose code it is.
    pub proof fn lemma_from_code_sound(code: int)
        ensures
            match Self::spec_from_code(code) {
                Some(placement) => placement.spec_code() == code,
                None => forall|placement: CGEventTapPlacement| placement.spec_code() != code,
            },
    {
    }
}

/// Whether a tap may change events or only sees them.
#[derive(Clone, Copy, Debug, PartialEq, Eq, Structural)]
pub enum CGEventTapOptions {
    /// `kCGEventTapOptionDefault`
    Default,
    /// `kCGEventTapOptionListenOnly`
    ListenOnly,
}

impl CGEventTapOptions {
    /// The integer by which the native framework knows this tap option.
    pub open spec fn spec_code(self) -> int {
        match self {
            CGEventTapOptions::Default => 0,
            CGEventTapOptions::ListenOnly => 1,
        }
    }

    /// The tap option with the native code `code`, if there is one.
    pub open spec fn spec_from_code(code: int) -> Option<CGEventTapOptions> {
        if code == 0 {
            Some(CGEventTapOptions::Default)
        } else if code == 1 {
            Some(CGEventTapOptions::ListenOnly)
        } else {
            None
        }
    }

    pub fn code(self) -> (code: u32)
        ensures
            code == self.spec_code(),
    {
        match self {
            CGEventTapOptions::Default => 0,
            CGEventTapOptions::ListenOnly => 1,
        }
    }

    pub fn from_code(code: u32) -> (options: Option<CGEventTapOptions>)
        ensures
            options == Self::spec_from_code(code as int),
    {
        match code {
            0 => Some(CGEventTapOptions::Default),
            1 => Some(CGEventTapOptions::ListenOnly),
            _ => None,
        }
    }

    /// Every tap option is found again from its own code.
    pub proof fn lemma_code_round_trip(self)
        ensures
            Self::spec_from_code(self.spec_code()) == Some(self),
    {
    }

    /// A code names at most one tap option: the one whose code it is.
    pub proof fn lemma_from_code_sound(code: int)
        ensures
            match Self::spec_from_code(code) {
                Some(options) => options.spec_code() == code,
                None => forall|options: CGEventTapOptions| options.spec_code() != code,
            },
    {
    }
}

/// The state table an event source is tied to.
#[derive(Clone, Copy, Debug, PartialEq, Eq, Structural)]
pub enum CGEventSourceStateID {
    /// `kCGEventSourceStatePrivate`
    Private,
    /// `kCGEventSourceStateCombinedSessionState`
    CombinedSessionState,
    /// `kCGEventSourceStateHIDSystemState`
    HIDSystemState,
}

impl CGEventSourceStateID {
    /// The integer by which the native framework knows this source state.
    pub open spec fn spec_code(self) -> int {
        match self {
            CGEventSourceStateID::Private => -1,
            CGEventSourceStateID::CombinedSessionState => 0,
            CGEventSourceStateID::HIDSystemState => 1,
        }
    }

    /// The source state with the native code `code`, if there is one.
    pub open spec fn spec_from_code(code: int) -> Option<CGEventSourceStateID> {
        if code == -1 {
            Some(CGEventSourceStateID::Private)
        } else if code == 0 {
            Some(CGEventSourceStateID::CombinedSessionState)
        } else if code == 1 {
            Some(CGEventSourceStateID::HIDSystemState)
        } else {
            None
        }
    }

    pub fn code(self) -> (code: i32)
        ensures
            code == self.spec_code(),
    {
        match self {
            CGEventSourceStateID::Private => -1,
            CGEventSourceStateID::CombinedSessionState => 0,
            CGEventSourceStateID::HIDSystemState => 1,
        }
    }

    pub fn from_code(code: i32) -> (state_id: Option<CGEventSourceStateID>)
        ensures
            state_id == Self::spec_from_code(code as int),
    {
        match code {
            -1 => Some(CGEventSourceStateID::Private),
            0 => Some(CGEventSourceStateID::CombinedSessionState),
            1 => Some(CGEventSourceStateID::HIDSystemState),
            _ => None,
        }
    }

    /// Every source state is found again from its own code.
    pub proof fn lemma_code_round_trip(self)
        ensures
            Self::spec_from_code(self.spec_code()) == Some(self),
    {
    }

    /// A code names at most one source state: the one whose code it is.
    pub proof fn lemma_from_code_sound(code: int)
        ensures
            match Self::spec_from_code(code) {
                Some(state_id) => state_id.spec_code() == code,
                None => forall|state_id: CGEventSourceStateID| state_id.spec_code() != code,
            },
    {
    }
}

impl Default for CGEventTapLocation {
    fn default() -> (location: CGEventTapLocation)
        ensures
            location == CGEventTapLocation::HIDEventTap,
    {
        CGEventTapLocation::HIDEventTap
    }
}

impl Default for CGEventTapOptions {
    fn default() -> (options: CGEventTapOptions)
        ensures
            options == CGEventTapOptions::Default,
    {
        CGEventTapOptions::Default
    }
}

} // verus!
