//! A verified access layer for the x264 video encoder: the output-data view,
//! the session protocol, the configuration builder and the image contract.
//!
//! The engine itself is reached through its C interface by the caller: this
//! crate decides what to hand to each engine call and what to make of what
//! the call returned.

mod data;
mod format;
mod image;
mod setup;

pub use data::{
    cut, flatten, lemma_entirety_of_few, lemma_unit_index_range, priority_of, size_sum, Data, Priority, Unit,
    NAL_PRIORITY_DISPOSABLE, NAL_PRIORITY_HIGH, NAL_PRIORITY_LOW,
};
pub use format::Format;
pub use image::{packed_planes, packed_strides, Image};
pub use setup::{
    comma_join, preset_name, profile_name, tune_name, tune_word, tune_words, untouched, Params,
    Preset, Profile, Setup, Tune, Tuning,
};

use std::marker::PhantomData;
use vstd::prelude::*;

verus! {

/// An opaque error: the engine refused the call.
#[derive(Debug, Copy, Clone, Hash, PartialEq, Eq, Structural)]
pub struct Error;

/// Output picture data, as the engine reported it for one call.
#[derive(Debug, Copy, Clone, PartialEq, Eq, Structural)]
pub struct Picture {
    keyframe: bool,
    pts: i64,
    dts: i64,
}

impl View for Picture {
    /// Whether it is a keyframe, its presentation and its decoding timestamp.
    type V = (bool, i64, i64);

    closed spec fn view(&self) -> (bool, i64, i64) {
        (self.keyframe, self.pts, self.dts)
    }
}

impl Picture {
    /// The picture record from the engine's keyframe flag and timestamps.
    pub fn from_raw(b_keyframe: i32, pts: i64, dts: i64) -> (r: Picture)
        ensures
            r@ == (b_keyframe != 0, pts, dts),
    {
        Picture { keyframe: b_keyframe != 0, pts, dts }
    }

    /// Whether the picture is a keyframe.
    pub fn keyframe(&self) -> (r: bool)
        ensures
            r == self@.0,
    {
        self.keyframe
    }

    /// The presentation timestamp.
    pub fn pts(&self) -> (r: i64)
        ensures
            r == self@.1,
    {
        self.pts
    }

    /// The decoding timestamp.
    pub fn dts(&self) -> (r: i64)
        ensures
            r == self@.2,
    {
        self.dts
    }
}

/// The picture descriptor handed to the engine with a new frame.
pub struct Input<'a> {
    pub pts: i64,
    pub colorspace: i32,
    pub plane_count: i32,
    pub strides: [i32; 4],
    pub planes: [&'a [u8]; 4],
}

/// Describes an image and its timestamp in the engine's terms.
pub fn x264ify<'a, T: Image>(pts: i64, img: &'a T) -> (r: Input<'a>)
    ensures
        r.pts == pts,
        r.colorspace == T::Format::spec_colorspace(),
        r.plane_count == T::Format::spec_plane_count(),
        r.strides@ == img.spec_strides(),
        forall|k: int| 0 <= k < 4 ==> r.planes@[k]@ == #[trigger] img.spec_planes()[k],
{
    Input {
        pts,
        colorspace: T::Format::colorspace(),
        plane_count: T::Format::plane_count(),
        strides: img.strides(),
        planes: img.planes(),
    }
}

/// The session state after a call that asked for frame output: the number
/// of delayed frames that the engine reported after it.
pub open spec fn frame_step(delayed_before: int, delayed_after: i32) -> int {
    delayed_after as int
}

/// The session state after asking for the headers, which touches no frame.
pub open spec fn headers_step(delayed_before: int) -> int {
    delayed_before
}

/// A session is done when no frame is delayed.
pub open spec fn is_done(delayed: int) -> bool {
    delayed == 0
}

/// The result of an engine call that produced units and a picture: a
/// negative status is a failure.
pub open spec fn frame_result(
    status: i32,
    units: Seq<(Priority, Seq<u8>)>,
    picture: (bool, i64, i64),
    r: Result<(Data, Picture), Error>,
) -> bool {
    if status < 0 {
        r is Err
    } else {
        &&& r is Ok
        &&& r->Ok_0.0.wf()
        &&& r->Ok_0.0@ == units
        &&& r->Ok_0.1@ == picture
    }
}

/// An encoder session bound to the format `F`: the decisions of the encode,
/// drain and headers protocol, over what the engine reported. Its state is
/// the number of frames that the engine holds back.
pub struct Encoder<F> {
    delayed: i32,
    spooky: PhantomData<F>,
}

impl<F> View for Encoder<F> {
    type V = int;

    closed spec fn view(&self) -> int {
        self.delayed as int
    }
}

impl<F: Format> Encoder<F> {
    /// A session that the engine has just opened: nothing is delayed.
    pub fn new() -> (r: Encoder<F>)
        ensures
            r@ == 0,
    {
        Encoder { delayed: 0, spooky: PhantomData }
    }

    /// What opening the engine came to, given whether it handed back a
    /// handle: a session with nothing delayed, or a build failure.
    pub fn open(has_handle: bool) -> (r: Result<Encoder<F>, Error>)
        ensures
            has_handle <==> r is Ok,
            r matches Ok(e) ==> e@ == 0,
    {
        if has_handle {
            Ok(Encoder::new())
        } else {
            Err(Error)
        }
    }

    /// The descriptor of a frame to submit: only images of the session's
    /// format are accepted.
    pub fn input<'a, T: Image<Format = F>>(&self, pts: i64, image: &'a T) -> (r: Input<'a>)
        ensures
            r.pts == pts,
            r.colorspace == F::spec_colorspace(),
            r.plane_count == F::spec_plane_count(),
            r.strides@ == image.spec_strides(),
            forall|k: int| 0 <= k < 4 ==> r.planes@[k]@ == #[trigger] image.spec_planes()[k],
    {
        x264ify(pts, image)
    }

    /// What a call that submitted a new frame returned, given the engine's
    /// status, units and picture, and the delayed-frame count after it.
    pub fn encode(&mut self, status: i32, units: Data, picture: Picture, delayed: i32) -> (r: Result<
        (Data, Picture),
        Error,
    >)
        requires
            units.wf(),
        ensures
            final(self)@ == frame_step(old(self)@, delayed),
            frame_result(status, units@, picture@, r),
    {
        self.delayed = delayed;
        if status < 0 {
            Err(Error)
        } else {
            Ok((units, picture))
        }
    }

    /// What a call that asked for further output without a new frame
    /// returned; the same shape as `encode`.
    pub fn work(&mut self, status: i32, units: Data, picture: Picture, delayed: i32) -> (r: Result<
        (Data, Picture),
        Error,
    >)
        requires
            units.wf(),
        ensures
            final(self)@ == frame_step(old(self)@, delayed),
            frame_result(status, units@, picture@, r),
    {
        self.encode(status, units, picture, delayed)
    }

    /// What a call for the stream headers returned.
    pub fn headers(&mut self, status: i32, units: Data) -> (r: Result<Data, Error>)
        requires
            units.wf(),
        ensures
            final(self)@ == headers_step(old(self)@),
            status < 0 <==> r is Err,
            r matches Ok(d) ==> d.wf() && d@ == units@,
    {
        if status < 0 {
            Err(Error)
        } else {
            Ok(units)
        }
    }

    /// Whether the engine holds back no frame.
    pub fn done(&self) -> (r: bool)
        ensures
            r == is_done(self@),
    {
        self.delayed == 0
    }
}

/// Asking for the headers leaves `done` as it was; once frames are submitted
/// and drained, `done` says exactly whether the engine reported no delayed
/// frame, whether or not the headers were asked for before.
pub proof fn lemma_done_follows_delayed(before: int, delayed: i32)
    ensures
        is_done(headers_step(before)) == is_done(before),
        is_done(frame_step(headers_step(before), delayed)) == (delayed == 0),
        is_done(frame_step(headers_step(before), delayed)) == is_done(frame_step(before, delayed)),
{
}

} // verus!
