use x264_framing::{
    packed_planes, packed_strides, x264ify, Data, Encoder, Error, Format, Image, Picture,
};

struct Bgra;

impl Format for Bgra {
    fn colorspace() -> i32 {
        15
    }

    fn plane_count() -> i32 {
        1
    }
}

struct Frame {
    width: usize,
    bytes: Vec<u8>,
}

impl Image for Frame {
    type Format = Bgra;

    fn strides(&self) -> [i32; 4] {
        packed_strides(4, self.width)
    }

    fn planes(&self) -> [&[u8]; 4] {
        packed_planes(&self.bytes)
    }
}

fn frame() -> Frame {
    Frame { width: 2, bytes: vec![0, 1, 0, 255, 0, 1, 0, 255, 0, 1, 0, 255, 0, 1, 0, 255] }
}

fn units() -> Data {
    Data::from_raw_parts(vec![0, 0, 0, 1, 0x65, 0x88], vec![3], &[6]).unwrap()
}

#[test]
fn fresh_session_is_done() {
    let e: Encoder<Bgra> = Encoder::new();
    assert!(e.done());
}

#[test]
fn headers_leave_done_alone() {
    let mut e: Encoder<Bgra> = Encoder::new();
    let h = e.headers(0, units()).unwrap();
    assert_eq!(h.entirety(), &[0, 0, 0, 1, 0x65, 0x88]);
    assert!(e.done());
    let pic = Picture::from_raw(0, 0, 0);
    let (d, _) = e.encode(0, Data::new(), pic, 1).unwrap();
    assert_eq!(d.len(), 0);
    assert!(!e.done());
    let _ = e.headers(0, Data::new()).unwrap();
    assert!(!e.done());
}

#[test]
fn draining_ends_when_nothing_is_delayed() {
    let mut e: Encoder<Bgra> = Encoder::new();
    let pic = Picture::from_raw(1, 0, -2);
    e.encode(0, Data::new(), pic, 2).unwrap();
    assert!(!e.done());
    e.work(0, units(), Picture::from_raw(1, 0, -2), 1).unwrap();
    assert!(!e.done());
    e.work(0, units(), Picture::from_raw(0, 1, -1), 0).unwrap();
    assert!(e.done());
}

#[test]
fn negative_status_is_an_error() {
    let mut e: Encoder<Bgra> = Encoder::new();
    assert!(matches!(e.encode(-1, units(), Picture::from_raw(0, 0, 0), 0), Err(Error)));
    assert!(matches!(e.work(-5, units(), Picture::from_raw(0, 0, 0), 0), Err(Error)));
    assert_eq!(e.headers(-1, units()).err(), Some(Error));
}

#[test]
fn successful_calls_hand_back_units_and_picture() {
    let mut e: Encoder<Bgra> = Encoder::new();
    let (d, p) = e.encode(6, units(), Picture::from_raw(1, 7, 5), 0).unwrap();
    assert_eq!(d.entirety(), &[0, 0, 0, 1, 0x65, 0x88]);
    assert!(p.keyframe());
    assert_eq!(p.pts(), 7);
    assert_eq!(p.dts(), 5);
}

#[test]
fn picture_keyframe_flag_is_nonzero() {
    assert!(Picture::from_raw(2, 0, 0).keyframe());
    assert!(Picture::from_raw(-1, 0, 0).keyframe());
    assert!(!Picture::from_raw(0, 3, 4).keyframe());
}

#[test]
fn packed_strides_are_bytes_per_pixel_times_width() {
    assert_eq!(packed_strides(4, 1280), [5120, 0, 0, 0]);
    assert_eq!(packed_strides(3, 7), [21, 0, 0, 0]);
    assert_eq!(packed_strides(3, 0), [0, 0, 0, 0]);
}

#[test]
fn packed_planes_hold_one_plane() {
    let bytes = [1u8, 2, 3];
    let planes = packed_planes(&bytes);
    assert_eq!(planes[0], &bytes);
    assert!(planes[1].is_empty() && planes[2].is_empty() && planes[3].is_empty());
}

#[test]
fn descriptor_follows_format_and_image() {
    let f = frame();
    let d = x264ify(42, &f);
    assert_eq!(d.pts, 42);
    assert_eq!(d.colorspace, 15);
    assert_eq!(d.plane_count, 1);
    assert_eq!(d.strides, [8, 0, 0, 0]);
    assert_eq!(d.planes[0].len(), 16);
    let e: Encoder<Bgra> = Encoder::new();
    let i = e.input(-3, &f);
    assert_eq!(i.pts, -3);
    assert_eq!(i.strides, [8, 0, 0, 0]);
}

#[test]
fn opening_without_a_handle_fails() {
    assert!(matches!(Encoder::<Bgra>::open(false), Err(Error)));
    let e = Encoder::<Bgra>::open(true).unwrap();
    assert!(e.done());
}

#[test]
fn descriptor_carries_every_plane() {
    let f = frame();
    let d = x264ify(0, &f);
    assert_eq!(d.planes[0], &f.bytes[..]);
    assert!(d.planes[1].is_empty() && d.planes[2].is_empty() && d.planes[3].is_empty());
}
