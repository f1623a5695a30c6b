//! Windows as other processes see them.

use vstd::prelude::*;

verus! {

pub type CGWindowID = u32;

/// The id that names no window.
pub const kCGNullWindowID: CGWindowID = 0;

/// How far the contents of a window are shared with other processes.
#[derive(Clone, Copy, Debug, PartialEq, Eq, Structural)]
pub enum CGWindowSharingType {
    /// `kCGWindowSharingNone`
    NotShared,
    /// `kCGWindowSharingReadOnly`
    ReadOnly,
    /// `kCGWindowSharingReadWrite`
    ReadWrite,
}

impl CGWindowSharingType {
    /// The integer by which the native framework knows this sharing type.
    pub open spec fn spec_code(self) -> int {
        match self {
            CGWindowSharingType::NotShared => 0,
            CGWindowSharingType::ReadOnly => 1,
            CGWindowSharingType::ReadWrite => 2,
        }
    }

    /// The sharing type with the native code `code`, if there is one.
    pub open spec fn spec_from_code(code: int) -> Option<CGWindowSharingType> {
        if code == 0 {
            Some(CGWindowSharingType::NotShared)
        } else if code == 1 {
            Some(CGWindowSharingType::ReadOnly)
        } else if code == 2 {
            Some(CGWindowSharingType::ReadWrite)
        } else {
            None
        }
    }

    pub fn code(self) -> (code: u32)
        ensures
            code == self.spec_code(),
    {
        match self {
            CGWindowSharingType::NotShared => 0,
            CGWindowSharingType::ReadOnly => 1,
            CGWindowSharingType::ReadWrite => 2,
        }
    }

    pub fn from_code(code: u32) -> (sharing: Option<CGWindowSharingType>)
        ensures
            sharing == Self::spec_from_code(code as int),
    {
        match code {
            0 => Some(CGWindowSharingType::NotShared),
            1 => Some(CGWindowSharingType::ReadOnly),
            2 => Some(CGWindowSharingType::ReadWrite),
            _ => None,
        }
    }

    /// Every sharing type is found again from its own code.
    pub proof fn lemma_code_round_trip(self)
        ensures
            Self::spec_from_code(self.spec_code()) == Some(self),
    {
    }

    /// A code names at most one sharing type: the one whose code it is.
    pub proof fn lemma_from_code_sound(code: int)
        ensures
            match Self::spec_from_code(code) {
                Some(sharing) => sharing.spec_code() == code,
                None => forall|sharing: CGWindowSharingType| sharing.spec_code() != code,
            },
    {
    }
}

/// How the contents of a window are backed.
#[derive(Clone, Copy, Debug, PartialEq, Eq, Structural)]
pub enum CGWindowBackingType {
    /// `kCGWindowBackingStoreRetained`
    Retained,
    /// `kCGWindowBackingStoreNonretained`
    Nonretained,
    /// `kCGWindowBackingStoreBuffered`
    Buffered,
}

impl CGWindowBackingType {
    /// The integer by which the native framework knows this backing type.
    pub open spec fn spec_code(self) -> int {
        match self {
            CGWindowBackingType::Retained => 0,
            CGWindowBackingType::Nonretained => 1,
            CGWindowBackingType::Buffered => 2,
        }
    }

    /// The backing type with the native code `code`, if there is one.
    pub open spec fn spec_from_code(code: int) -> Option<CGWindowBackingType> {
        if code == 0 {
            Some(CGWindowBackingType::Retained)
        } else if code == 1 {
            Some(CGWindowBackingType::Nonretained)
        } else if code == 2 {
            Some(CGWindowBackingType::Buffered)
        } else {
            None
        }
    }

    pub fn code(self) -> (code: u32)
        ensures
            code == self.spec_code(),
    {
        match self {
            CGWindowBackingType::Retained => 0,
            CGWindowBackingType::Nonretained => 1,
            CGWindowBackingType::Buffered => 2,
        }
    }

    pub fn from_code(code: u32) -> (backing: Option<CGWindowBackingType>)
        ensures
            backing == Self::spec_from_code(code as int),
    {
        match code {
            0 => Some(CGWindowBackingType::Retained),
            1 => Some(CGWindowBackingType::Nonretained),
            2 => Some(CGWindowBackingType::Buffered),
            _ => None,
        }
    }

    /// Every backing type is found again from its own code.
    pub proof fn lemma_code_round_trip(self)
        ensures
            Self::spec_from_code(self.spec_code()) == Some(self),
    {
    }

    /// A code names at most one backing type: the one whose code it is.
    pub proof fn lemma_from_code_sound(code: int)
        ensures
            match Self::spec_from_code(code) {
                Some(backing) => backing.spec_code() == code,
                None => forall|backing: CGWindowBackingType| backing.spec_code() != code,
            },
    {
    }
}

/// The entries of a window description.
#[derive(Clone, Copy, Debug, PartialEq, Eq, Structural)]
pub enum WindowKeys {
    Number,
    StoreType,
    Layer,
    Bounds,
    SharingState,
    Alpha,
    OwnerPID,
    MemoryUsage,
    Workspace,
    OwnerName,
    Name,
    IsOnscreen,
    BackingLocationVideoMemory,
}

impl WindowKeys {
    /// The native constant that holds the string for this entry.
    pub open spec fn spec_symbol(self) -> Seq<char> {
        match self {
            WindowKeys::Number => "kCGWindowNumber"@,
            WindowKeys::StoreType => "kCGWindowStoreType"@,
            WindowKeys::Layer => "kCGWindowLayer"@,
            WindowKeys::Bounds => "kCGWindowBounds"@,
            WindowKeys::SharingState => "kCGWindowSharingState"@,
            WindowKeys::Alpha => "kCGWindowAlpha"@,
            WindowKeys::OwnerPID => "kCGWindowOwnerPID"@,
            WindowKeys::MemoryUsage => "kCGWindowMemoryUsage"@,
            WindowKeys::Workspace => "kCGWindowWorkspace"@,
            WindowKeys::OwnerName => "kCGWindowOwnerName"@,
            WindowKeys::Name => "kCGWindowName"@,
            WindowKeys::IsOnscreen => "kCGWindowIsOnscreen"@,
            WindowKeys::BackingLocationVideoMemory => "kCGWindowBackingLocationVideoMemory"@,
        }
    }

    pub fn symbol(self) -> (symbol: &'static str)
        ensures
            symbol@ == self.spec_symbol(),
    {
        match self {
            WindowKeys::Number => "kCGWindowNumber",
            WindowKeys::StoreType => "kCGWindowStoreType",
            WindowKeys::Layer => "kCGWindowLayer",
            WindowKeys::Bounds => "kCGWindowBounds",
            WindowKeys::SharingState => "kCGWindowSharingState",
            WindowKeys::Alpha => "kCGWindowAlpha",
            WindowKeys::OwnerPID => "kCGWindowOwnerPID",
            WindowKeys::MemoryUsage => "kCGWindowMemoryUsage",
            WindowKeys::Workspace => "kCGWindowWorkspace",
            WindowKeys::OwnerName => "kCGWindowOwnerName",
            WindowKeys::Name => "kCGWindowName",
            WindowKeys::IsOnscreen => "kCGWindowIsOnscreen",
            WindowKeys::BackingLocationVideoMemory => "kCGWindowBackingLocationVideoMemory",
        }
    }

    /// No two of them share a native constant: where two names are of one
    /// length, they differ at the place named in the proof.
    pub proof fn lemma_symbol_injective(self, other: WindowKeys)
        requires
            self.spec_symbol() == other.spec_symbol(),
        ensures
            self == other,
    {
        reveal_strlit("kCGWindowNumber");
        reveal_strlit("kCGWindowStoreType");
        reveal_strlit("kCGWindowLayer");
        reveal_strlit("kCGWindowBounds");
        reveal_strlit("kCGWindowSharingState");
        reveal_strlit("kCGWindowAlpha");
        reveal_strlit("kCGWindowOwnerPID");
        reveal_strlit("kCGWindowMemoryUsage");
        reveal_strlit("kCGWindowWorkspace");
        reveal_strlit("kCGWindowOwnerName");
        reveal_strlit("kCGWindowName");
        reveal_strlit("kCGWindowIsOnscreen");
        reveal_strlit("kCGWindowBackingLocationVideoMemory");
        assert("kCGWindowNumber"@.len() == 15);
        assert("kCGWindowStoreType"@.len() == 18);
        assert("kCGWindowLayer"@.len() == 14);
        assert("kCGWindowBounds"@.len() == 15);
        assert("kCGWindowSharingState"@.len() == 21);
        assert("kCGWindowAlpha"@.len() == 14);
        assert("kCGWindowOwnerPID"@.len() == 17);
        assert("kCGWindowMemoryUsage"@.len() == 20);
        assert("kCGWindowWorkspace"@.len() == 18);
        assert("kCGWindowOwnerName"@.len() == 18);
        assert("kCGWindowName"@.len() == 13);
        assert("kCGWindowIsOnscreen"@.len() == 19);
        assert("kCGWindowBackingLocationVideoMemory"@.len() == 35);
        assert("kCGWindowNumber"@[9] != "kCGWindowBounds"@[9]);
        assert("kCGWindowStoreType"@[9] != "kCGWindowWorkspace"@[9]);
        assert("kCGWindowStoreType"@[9] != "kCGWindowOwnerName"@[9]);
        assert("kCGWindowLayer"@[9] != "kCGWindowAlpha"@[9]);
        assert("kCGWindowWorkspace"@[9] != "kCGWindowOwnerName"@[9]);
    }
}

} // verus!
