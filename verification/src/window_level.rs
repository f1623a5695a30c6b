//! The levels at which windows are stacked.

use vstd::prelude::*;

verus! {

pub type CGWindowLevel = i32;

pub const kCGNumReservedWindowLevels: i32 = 16;

pub const kCGNumReservedBaseWindowLevels: i32 = 5;

pub const kCGBaseWindowLevel: CGWindowLevel = -0x8000_0000;

pub const kCGMinimumWindowLevel: CGWindowLevel = kCGBaseWindowLevel + kCGNumReservedBaseWindowLevels;

pub const kCGMaximumWindowLevel: CGWindowLevel = 0x7FFF_FFFF - kCGNumReservedWindowLevels;

pub const kCGDesktopWindowLevel: CGWindowLevel = kCGMinimumWindowLevel + 20;

pub const kCGDesktopIconWindowLevel: CGWindowLevel = kCGDesktopWindowLevel + 1;

pub const kCGBackstopMenuLevel: CGWindowLevel = -20;

pub const kCGNormalWindowLevel: CGWindowLevel = 0;

pub const kCGFloatingWindowLevel: CGWindowLevel = 3;

pub const kCGTornOffMenuWindowLevel: CGWindowLevel = 3;

pub const kCGModalPanelWindowLevel: CGWindowLevel = 8;

pub const kCGUtilityWindowLevel: CGWindowLevel = 19;

pub const kCGDockWindowLevel: CGWindowLevel = 20;

pub const kCGMainMenuWindowLevel: CGWindowLevel = 24;

pub const kCGStatusWindowLevel: CGWindowLevel = 25;

pub const kCGPopUpMenuWindowLevel: CGWindowLevel = 101;

pub const kCGOverlayWindowLevel: CGWindowLevel = 102;

pub const kCGHelpWindowLevel: CGWindowLevel = 200;

pub const kCGDraggingWindowLevel: CGWindowLevel = 500;

pub const kCGScreenSaverWindowLevel: CGWindowLevel = 1000;

pub const kCGAssistiveTechHighWindowLevel: CGWindowLevel = 1500;

pub const kCGCursorWindowLevel: CGWindowLevel = kCGMaximumWindowLevel - 1;

/// The named window levels.
#[derive(Clone, Copy, Debug, PartialEq, Eq, Structural)]
pub enum CGWindowLevelKey {
    /// `kCGBaseWindowLevelKey`
    Base,
    /// `kCGMinimumWindowLevelKey`
    Minimum,
    /// `kCGDesktopWindowLevelKey`
    Desktop,
    /// `kCGBackstopMenuLevelKey`
    BackstopMenu,
    /// `kCGNormalWindowLevelKey`
    Normal,
    /// `kCGFloatingWindowLevelKey`
    Floating,
    /// `kCGTornOffMenuWindowLevelKey`
    TornOffMenu,
    /// `kCGDockWindowLevelKey`
    Dock,
    /// `kCGMainMenuWindowLevelKey`
    MainMenu,
    /// `kCGStatusWindowLevelKey`
    Status,
    /// `kCGModalPanelWindowLevelKey`
    ModalPanel,
    /// `kCGPopUpMenuWindowLevelKey`
    PopUpMenu,
    /// `kCGDraggingWindowLevelKey`
    Dragging,
    /// `kCGScreenSaverWindowLevelKey`
    ScreenSaver,
    /// `kCGMaximumWindowLevelKey`
    Maximum,
    /// `kCGOverlayWindowLevelKey`
    Overlay,
    /// `kCGHelpWindowLevelKey`
    Help,
    /// `kCGUtilityWindowLevelKey`
    Utility,
    /// `kCGDesktopIconWindowLevelKey`
    DesktopIcon,
    /// `kCGCursorWindowLevelKey`
    Cursor,
    /// `kCGAssistiveTechHighWindowLevelKey`
    AssistiveTechHigh,
    /// `kCGNumberOfWindowLevelKeys`
    NumberOfKeys,
}

impl CGWindowLevelKey {
    /// The integer by which the native framework knows this level key.
    pub open spec fn spec_code(self) -> int {
        match self {
            CGWindowLevelKey::Base => 0,
            CGWindowLevelKey::Minimum => 1,
            CGWindowLevelKey::Desktop => 2,
            CGWindowLevelKey::BackstopMenu => 3,
            CGWindowLevelKey::Normal => 4,
            CGWindowLevelKey::Floating => 5,
            CGWindowLevelKey::TornOffMenu => 6,
            CGWindowLevelKey::Dock => 7,
            CGWindowLevelKey::MainMenu => 8,
            CGWindowLevelKey::Status => 9,
            CGWindowLevelKey::ModalPanel => 10,
            CGWindowLevelKey::PopUpMenu => 11,
            CGWindowLevelKey::Dragging => 12,
            CGWindowLevelKey::ScreenSaver => 13,
            CGWindowLevelKey::Maximum => 14,
            CGWindowLevelKey::Overlay => 15,
            CGWindowLevelKey::Help => 16,
            CGWindowLevelKey::Utility => 17,
            CGWindowLevelKey::DesktopIcon => 18,
            CGWindowLevelKey::Cursor => 19,
            CGWindowLevelKey::AssistiveTechHigh => 20,
            CGWindowLevelKey::NumberOfKeys => 21,
        }
    }

    /// The level key with the native code `code`, if there is one.
    pub open spec fn spec_from_code(code: int) -> Option<CGWindowLevelKey> {
        if code == 0 {
            Some(CGWindowLevelKey::Base)
        } else if code == 1 {
            Some(CGWindowLevelKey::Minimum)
        } else if code == 2 {
            Some(CGWindowLevelKey::Desktop)
        } else if code == 3 {
            Some(CGWindowLevelKey::BackstopMenu)
        } else if code == 4 {
            Some(CGWindowLevelKey::Normal)
        } else if code == 5 {
            Some(CGWindowLevelKey::Floating)
        } else if code == 6 {
            Some(CGWindowLevelKey::TornOffMenu)
        } else if code == 7 {
            Some(CGWindowLevelKey::Dock)
        } else if code == 8 {
            Some(CGWindowLevelKey::MainMenu)
        } else if code == 9 {
            Some(CGWindowLevelKey::Status)
        } else if code == 10 {
            Some(CGWindowLevelKey::ModalPanel)
        } else if code == 11 {
            Some(CGWindowLevelKey::PopUpMenu)
        } else if code == 12 {
            Some(CGWindowLevelKey::Dragging)
        } else if code == 13 {
            Some(CGWindowLevelKey::ScreenSaver)
        } else if code == 14 {
            Some(CGWindowLevelKey::Maximum)
        } else if code == 15 {
            Some(CGWindowLevelKey::Overlay)
        } else if code == 16 {
            Some(CGWindowLevelKey::Help)
        } else if code == 17 {
            Some(CGWindowLevelKey::Utility)
        } else if code == 18 {
            Some(CGWindowLevelKey::DesktopIcon)
        } else if code == 19 {
            Some(CGWindowLevelKey::Cursor)
        } else if code == 20 {
            Some(CGWindowLevelKey::AssistiveTechHigh)
        } else if code == 21 {
            Some(CGWindowLevelKey::NumberOfKeys)
        } else {
            None
        }
    }

    pub fn code(self) -> (code: i32)
        ensures
            code == self.spec_code(),
    {
        match self {
            CGWindowLevelKey::Base => 0,
            CGWindowLevelKey::Minimum => 1,
            CGWindowLevelKey::Desktop => 2,
            CGWindowLevelKey::BackstopMenu => 3,
            CGWindowLevelKey::Normal => 4,
            CGWindowLevelKey::Floating => 5,
            CGWindowLevelKey::TornOffMenu => 6,
            CGWindowLevelKey::Dock => 7,
            CGWindowLevelKey::MainMenu => 8,
            CGWindowLevelKey::Status => 9,
            CGWindowLevelKey::ModalPanel => 10,
            CGWindowLevelKey::PopUpMenu => 11,
            CGWindowLevelKey::Dragging => 12,
            CGWindowLevelKey::ScreenSaver => 13,
            CGWindowLevelKey::Maximum => 14,
            CGWindowLevelKey::Overlay => 15,
            CGWindowLevelKey::Help => 16,
            CGWindowLevelKey::Utility => 17,
            CGWindowLevelKey::DesktopIcon => 18,
            CGWindowLevelKey::Cursor => 19,
            CGWindowLevelKey::AssistiveTechHigh => 20,
            CGWindowLevelKey::NumberOfKeys => 21,
        }
    }

    pub fn from_code(code: i32) -> (key: Option<CGWindowLevelKey>)
        ensures
            key == Self::spec_from_code(code as int),
    {
        match code {
            0 => Some(CGWindowLevelKey::Base),
            1 => Some(CGWindowLevelKey::Minimum),
            2 => Some(CGWindowLevelKey::Desktop),
            3 => Some(CGWindowLevelKey::BackstopMenu),
            4 => Some(CGWindowLevelKey::Normal),
            5 => Some(CGWindowLevelKey::Floating),
            6 => Some(CGWindowLevelKey::TornOffMenu),
            7 => Some(CGWindowLevelKey::Dock),
            8 => Some(CGWindowLevelKey::MainMenu),
            9 => Some(CGWindowLevelKey::Status),
            10 => Some(CGWindowLevelKey::ModalPanel),
            11 => Some(CGWindowLevelKey::PopUpMenu),
            12 => Some(CGWindowLevelKey::Dragging),
            13 => Some(CGWindowLevelKey::ScreenSaver),
            14 => Some(CGWindowLevelKey::Maximum),
            15 => Some(CGWindowLevelKey::Overlay),
            16 => Some(CGWindowLevelKey::Help),
            17 => Some(CGWindowLevelKey::Utility),
            18 => Some(CGWindowLevelKey::DesktopIcon),
            19 => Some(CGWindowLevelKey::Cursor),
            20 => Some(CGWindowLevelKey::AssistiveTechHigh),
            21 => Some(CGWindowLevelKey::NumberOfKeys),
            _ => None,
        }
    }

    /// Every level key is found again from its own code.
    pub proof fn lemma_code_round_trip(self)
        ensures
            Self::spec_from_code(self.spec_code()) == Some(self),
    {
    }

    /// A code names at most one level key: the one whose code it is.
    pub proof fn lemma_from_code_sound(code: int)
        ensures
            match Self::spec_from_code(code) {
                Some(key) => key.spec_code() == code,
                None => forall|key: CGWindowLevelKey| key.spec_code() != code,
            },
    {
    }
}

} // verus!
