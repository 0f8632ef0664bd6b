use dav1d::{
    BitsPerComponent, FrameMeta, Picture, PixelLayout, PlanarImageComponent, LAYOUT_I400,
    LAYOUT_I420, LAYOUT_I422, LAYOUT_I444, NO_TIMESTAMP,
};

fn meta(height: i32, layout: u32) -> FrameMeta {
    FrameMeta {
        width: 64,
        height,
        layout,
        bpc: 8,
        stride_luma: 128,
        stride_chroma: 64,
        hbd: Some(0),
        timestamp: 40,
        duration: 20,
        offset: 3,
    }
}

#[test]
fn chroma_heights_per_layout() {
    for (layout, h, rows) in [
        (LAYOUT_I420, 5, 3),
        (LAYOUT_I420, 6, 3),
        (LAYOUT_I420, 0, 0),
        (LAYOUT_I400, 5, 5),
        (LAYOUT_I422, 5, 5),
        (LAYOUT_I444, 7, 7),
    ] {
        let p: Picture<()> = Picture::new((), meta(h, layout));
        let u = p.plane_data_geometry(PlanarImageComponent::U);
        let v = p.plane_data_geometry(PlanarImageComponent::V);
        assert_eq!(u, v);
        assert_eq!(u.1, rows);
        assert_eq!(p.plane_data_geometry(PlanarImageComponent::Y).1, h as u32);
    }
}

#[test]
fn i420_height_at_the_top_of_the_range() {
    let p: Picture<()> = Picture::new((), meta(-1, LAYOUT_I420));
    assert_eq!(p.height(), u32::MAX);
    assert_eq!(p.plane_data_geometry(PlanarImageComponent::U).1, 1u32 << 31);
}

#[test]
fn plane_length_is_stride_times_rows() {
    let p: Picture<()> = Picture::new((), meta(5, LAYOUT_I420));
    assert_eq!(p.plane(PlanarImageComponent::Y).byte_len(), 128 * 5);
    assert_eq!(p.plane(PlanarImageComponent::U).byte_len(), 64 * 3);
    assert_eq!(p.plane(PlanarImageComponent::V).byte_len(), 64 * 3);
}

#[test]
fn largest_plane_length_fits() {
    let mut m = meta(-1, LAYOUT_I444);
    m.stride_luma = u32::MAX as isize;
    let p: Picture<()> = Picture::new((), m);
    assert_eq!(
        p.plane(PlanarImageComponent::Y).byte_len(),
        (u32::MAX as u64) * (u32::MAX as u64)
    );
}

#[test]
fn strides_use_two_slots() {
    let p: Picture<()> = Picture::new((), meta(5, LAYOUT_I444));
    assert_eq!(p.stride(PlanarImageComponent::Y), 128);
    assert_eq!(p.stride(PlanarImageComponent::U), 64);
    assert_eq!(p.stride(PlanarImageComponent::V), 64);
}

#[test]
fn clone_outlives_original() {
    let p: Picture<Vec<u8>> = Picture::new(vec![1, 2, 3], meta(5, LAYOUT_I420));
    let before = p.plane(PlanarImageComponent::U);
    let q = p.clone();
    drop(p);
    let after = q.plane(PlanarImageComponent::U);
    assert_eq!(before.byte_len(), after.byte_len());
    assert_eq!(before.source().frame(), &vec![1u8, 2, 3]);
    assert_eq!(after.source().frame(), &vec![1u8, 2, 3]);
    assert_eq!(after.selector(), PlanarImageComponent::U);
    let again = after.clone();
    drop(q);
    assert_eq!(again.byte_len(), 64 * 3);
}

#[test]
fn layouts_from_tags() {
    assert_eq!(PixelLayout::from_native(LAYOUT_I400), PixelLayout::I400);
    assert_eq!(PixelLayout::from_native(LAYOUT_I420), PixelLayout::I420);
    assert_eq!(PixelLayout::from_native(LAYOUT_I422), PixelLayout::I422);
    assert_eq!(PixelLayout::from_native(LAYOUT_I444), PixelLayout::I444);
    assert_eq!(PixelLayout::from_native(4), PixelLayout::Unknown);
    let p: Picture<()> = Picture::new((), meta(5, 9));
    assert_eq!(p.pixel_layout(), PixelLayout::Unknown);
    assert_eq!(p.plane_data_geometry(PlanarImageComponent::Y), (128, 5));
}

#[test]
fn bits_per_component_from_indicator() {
    let expect = [(Some(0u8), Some(8usize)), (Some(1), Some(10)), (Some(2), Some(12)), (Some(3), None), (None, None)];
    for (hbd, bits) in expect {
        let mut m = meta(5, LAYOUT_I420);
        m.hbd = hbd;
        let p: Picture<()> = Picture::new((), m);
        assert_eq!(p.bits_per_component().map(|b: BitsPerComponent| b.0), bits);
    }
}

#[test]
fn timestamp_sentinel_is_absent() {
    let mut m = meta(5, LAYOUT_I420);
    let p: Picture<()> = Picture::new((), m);
    assert_eq!(p.timestamp(), Some(40));
    m.timestamp = NO_TIMESTAMP;
    let p: Picture<()> = Picture::new((), m);
    assert_eq!(p.timestamp(), None);
    m.timestamp = i64::MIN + 1;
    let p: Picture<()> = Picture::new((), m);
    assert_eq!(p.timestamp(), Some(i64::MIN + 1));
}

#[test]
fn plain_getters() {
    let mut m = meta(5, LAYOUT_I420);
    m.bpc = 10;
    let p: Picture<()> = Picture::new((), m);
    assert_eq!(p.width(), 64);
    assert_eq!(p.height(), 5);
    assert_eq!(p.bit_depth(), 10);
    assert_eq!(p.duration(), 20);
    assert_eq!(p.offset(), 3);
    assert_eq!(p.meta().layout, LAYOUT_I420);
}

#[test]
fn component_indices() {
    assert_eq!(PlanarImageComponent::from_index(0), Some(PlanarImageComponent::Y));
    assert_eq!(PlanarImageComponent::from_index(1), Some(PlanarImageComponent::U));
    assert_eq!(PlanarImageComponent::from_index(2), Some(PlanarImageComponent::V));
    assert_eq!(PlanarImageComponent::from_index(3), None);
    assert_eq!(usize::from(PlanarImageComponent::V), 2);
    assert_eq!(PlanarImageComponent::U.index(), 1);
}

#[test]
fn timestamp_round_trip() {
    let base = dav1d::DataProps { offset: -1, timestamp: NO_TIMESTAMP, duration: 0 };
    let sent = base.apply(None, Some(123_456), None);
    let mut m = meta(5, LAYOUT_I420);
    m.timestamp = sent.timestamp;
    let p: Picture<()> = Picture::new((), m);
    assert_eq!(p.timestamp(), Some(123_456));
    let unset = base.apply(None, None, None);
    m.timestamp = unset.timestamp;
    let p: Picture<()> = Picture::new((), m);
    assert_eq!(p.timestamp(), None);
}
