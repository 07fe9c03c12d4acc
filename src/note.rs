use vstd::prelude::*;
use crate::resolve::{is_separator, join_segment, joined};

verus! {

/// The name of the file written inside the desktop: "NUL".
pub open spec fn note_name() -> Seq<u16> {
    seq!['N' as u16, 'U' as u16, 'L' as u16]
}

/// What the file holds once written: the single line "pranked" with its
/// terminator.
pub open spec fn note_contents() -> Seq<u8> {
    seq!['p' as u8, 'r' as u8, 'a' as u8, 'n' as u8, 'k' as u8, 'e' as u8, 'd' as u8, '\n' as u8]
}

/// The path of the file to write, given the canonical path of the desktop.
///
/// The name goes after a `\`, the native separator: a canonical path carries
/// the `\\?\` prefix, under which Windows takes `/` as part of a name.
pub fn note_path(desktop: Vec<u16>) -> (r: Vec<u16>)
    ensures
        r@ == joined(desktop@, '\\' as u16, note_name()),
        desktop@.len() > 0 && is_separator(desktop@.last()) ==> r@ == desktop@ + note_name(),
        !(desktop@.len() > 0 && is_separator(desktop@.last())) ==> r@ == desktop@ + seq![
            '\\' as u16,
        ] + note_name(),
{
    let name: Vec<u16> = vec!['N' as u16, 'U' as u16, 'L' as u16];
    join_segment(desktop, '\\' as u16, &name)
}

/// The bytes to write into the file, which replace whatever it held.
pub fn note_bytes() -> (r: Vec<u8>)
    ensures
        r@ == note_contents(),
{
    vec!['p' as u8, 'r' as u8, 'a' as u8, 'n' as u8, 'k' as u8, 'e' as u8, 'd' as u8, '\n' as u8]
}

} // verus!
