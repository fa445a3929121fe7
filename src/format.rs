use vstd::prelude::*;

verus! {

/// A pixel layout that the engine accepts.
///
/// The spec functions name what the methods return; an impl that does not
/// define them leaves the values unknown, which is all that callers assume.
pub trait Format {
    /// The engine's colorspace tag for this layout.
    open spec fn spec_colorspace() -> i32 {
        arbitrary()
    }

    /// The number of memory planes of an image in this layout.
    open spec fn spec_plane_count() -> i32 {
        arbitrary()
    }

    /// The engine's colorspace tag for this layout.
    fn colorspace() -> (r: i32)
        ensures
            r == Self::spec_colorspace(),
    ;

    /// The number of memory planes of an image in this layout.
    fn plane_count() -> (r: i32)
        ensures
            r == Self::spec_plane_count(),
    ;
}

} // verus!
