use vstd::prelude::*;

verus! {

/// Platform-specific window attributes: ToyOS has none.
#[derive(Clone, Copy, Debug, PartialEq, Eq, Structural)]
pub struct PlatformSpecificWindowAttributes;

impl Default for PlatformSpecificWindowAttributes {
    fn default() -> (r: Self)
        ensures
            r == PlatformSpecificWindowAttributes,
    {
        PlatformSpecificWindowAttributes
    }
}

/// The surface size a new window starts with, when none was asked for.
pub const DEFAULT_SURFACE_SIZE: (u32, u32) = (1024, 768);

/// The surface size of a new window: the requested physical size, or 1024 by 768 when none
/// was requested.
pub fn initial_surface_size(requested: Option<(u32, u32)>) -> (r: (u32, u32))
    ensures
        r == match requested {
            Some(size) => size,
            None => (1024u32, 768u32),
        },
{
    match requested {
        Some(size) => size,
        None => DEFAULT_SURFACE_SIZE,
    }
}

} // verus!
