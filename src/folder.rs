use vstd::prelude::*;

verus! {

/// The Win32 `BOOL` value for true.
pub const TRUE: i32 = 1;

/// The Win32 `BOOL` value for false.
pub const FALSE: i32 = 0;

/// The longest path that the legacy shell calls write, without its terminator.
pub const MAX_PATH: usize = 260;

/// The longest user name that `GetUserNameW` writes, without its terminator.
pub const UNLEN: u32 = 256;

/// The legacy `CSIDL_DESKTOP` constant.
pub const CSIDL_DESKTOP: i32 = 0;

/// A well-known folder, as named by the legacy special-folder call.
#[derive(Debug, Copy, Clone, PartialEq, Eq, Structural)]
pub enum ConstantSpecialItemIdList {
    Desktop,
}

/// The CSIDL constant that the shell understands for each folder.
pub open spec fn csidl_of(folder: ConstantSpecialItemIdList) -> i32 {
    match folder {
        ConstantSpecialItemIdList::Desktop => CSIDL_DESKTOP,
    }
}

impl ConstantSpecialItemIdList {
    /// The CSIDL constant to hand to `SHGetSpecialFolderPathW`.
    pub fn as_c_int(self) -> (r: i32)
        ensures
            r == csidl_of(self),
    {
        match self {
            ConstantSpecialItemIdList::Desktop => CSIDL_DESKTOP,
        }
    }
}

/// The Win32 `BOOL` for `b`.
pub open spec fn win_bool_of(b: bool) -> i32 {
    if b {
        TRUE
    } else {
        FALSE
    }
}

/// Turns a flag into the Win32 `BOOL` that the native calls take.
pub fn win_bool(b: bool) -> (r: i32)
    ensures
        r == win_bool_of(b),
{
    if b {
        TRUE
    } else {
        FALSE
    }
}

} // verus!
