use vstd::prelude::*;
use crate::format::Format;

verus! {

/// An image that can be handed over to the engine without copying.
///
/// For a single-plane format, `strides()[0]` is the bytes per pixel times the
/// width, and `planes()[0]` holds at least `strides()[0]` times the height
/// bytes; unused planes have stride zero and no bytes. The spec functions
/// name what the methods return; an impl that does not define them leaves
/// the values unknown, which is all that callers assume.
pub trait Image {
    /// The format of the image.
    type Format: Format;

    /// The stride of each plane, in bytes.
    open spec fn spec_strides(&self) -> Seq<i32> {
        arbitrary()
    }

    /// The bytes of each plane.
    open spec fn spec_planes(&self) -> Seq<Seq<u8>> {
        arbitrary()
    }

    /// The stride of each plane, in bytes.
    fn strides(&self) -> (r: [i32; 4])
        ensures
            r@ == self.spec_strides(),
    ;

    /// The bytes of each plane.
    fn planes(&self) -> (r: [&[u8]; 4])
        ensures
            forall|k: int| 0 <= k < 4 ==> r@[k]@ == #[trigger] self.spec_planes()[k],
    ;
}

/// The strides of a packed, single-plane image.
pub fn packed_strides(bytes_per_pixel: usize, width: usize) -> (r: [i32; 4])
    requires
        bytes_per_pixel * width <= i32::MAX,
    ensures
        r@ == seq![(bytes_per_pixel * width) as i32, 0i32, 0i32, 0i32],
{
    let stride = (bytes_per_pixel * width) as i32;
    let r = [stride, 0, 0, 0];
    assert(r@ =~= seq![(bytes_per_pixel * width) as i32, 0i32, 0i32, 0i32]);
    r
}

/// The planes of a packed, single-plane image: all its bytes, then nothing.
pub fn packed_planes(bytes: &[u8]) -> (r: [&[u8]; 4])
    ensures
        r@[0]@ == bytes@,
        r@[1]@.len() == 0,
        r@[2]@.len() == 0,
        r@[3]@.len() == 0,
{
    let none: &[u8] = &[];
    [bytes, none, none, none]
}

} // verus!
