use std::sync::Arc;
use vstd::prelude::*;

verus! {

/// Native tags of the pixel layouts that the engine reports.
pub const LAYOUT_I400: u32 = 0;

pub const LAYOUT_I420: u32 = 1;

pub const LAYOUT_I422: u32 = 2;

pub const LAYOUT_I444: u32 = 3;

/// The timestamp value the engine uses for "no timestamp".
pub const NO_TIMESTAMP: i64 = i64::MIN;

/// How chroma is laid out relative to luma in a decoded frame.
#[derive(Debug, Clone, Copy, PartialEq, Eq)]
pub enum PixelLayout {
    I400,
    I420,
    I422,
    I444,
    Unknown,
}

/// One colour component of a planar frame.
#[derive(Debug, Clone, Copy, PartialEq, Eq)]
pub enum PlanarImageComponent {
    Y,
    U,
    V,
}

/// The number of bits used to store one component sample.
#[derive(Debug, Clone, Copy)]
pub struct BitsPerComponent(pub usize);

/// The metadata of one decoded frame, as plain values read from the engine's
/// frame record when the frame is retrieved.
#[derive(Debug, Clone, Copy)]
pub struct FrameMeta {
    pub width: i32,
    pub height: i32,
    /// The engine's pixel layout tag.
    pub layout: u32,
    pub bpc: i32,
    /// Row stride of the luma plane, in bytes.
    pub stride_luma: isize,
    /// Row stride shared by both chroma planes, in bytes.
    pub stride_chroma: isize,
    /// The high bit depth indicator of the frame's sequence header, when the
    /// frame refers to one.
    pub hbd: Option<u8>,
    pub timestamp: i64,
    pub duration: i64,
    pub offset: i64,
}

pub open spec fn layout_of(tag: u32) -> PixelLayout {
    if tag == LAYOUT_I400 {
        PixelLayout::I400
    } else if tag == LAYOUT_I420 {
        PixelLayout::I420
    } else if tag == LAYOUT_I422 {
        PixelLayout::I422
    } else if tag == LAYOUT_I444 {
        PixelLayout::I444
    } else {
        PixelLayout::Unknown
    }
}

pub open spec fn component_index(c: PlanarImageComponent) -> nat {
    match c {
        PlanarImageComponent::Y => 0,
        PlanarImageComponent::U => 1,
        PlanarImageComponent::V => 2,
    }
}

/// The frame height the metadata reports, as an unsigned value.
pub open spec fn frame_height(m: FrameMeta) -> u32 {
    m.height as u32
}

/// Luma reads the first stride slot; both chroma components read the second.
pub open spec fn stride_of(m: FrameMeta, c: PlanarImageComponent) -> u32 {
    match c {
        PlanarImageComponent::Y => m.stride_luma as u32,
        _ => m.stride_chroma as u32,
    }
}

/// Whether the height of plane `c` is determined by the metadata: always for
/// luma, and for chroma when the layout is one of the known ones.
pub open spec fn geometry_defined(m: FrameMeta, c: PlanarImageComponent) -> bool {
    c == PlanarImageComponent::Y || layout_of(m.layout) != PixelLayout::Unknown
}

/// The number of rows of plane `c`: chroma has half the rows, rounded up,
/// under 4:2:0 subsampling, and as many as luma otherwise.
pub open spec fn effective_height(m: FrameMeta, c: PlanarImageComponent) -> nat {
    let h = frame_height(m) as nat;
    if c != PlanarImageComponent::Y && layout_of(m.layout) == PixelLayout::I420 {
        (h + 1) / 2
    } else {
        h
    }
}

/// The number of bytes of plane `c`.
pub open spec fn plane_len(m: FrameMeta, c: PlanarImageComponent) -> nat {
    stride_of(m, c) as nat * effective_height(m, c)
}

pub open spec fn bits_of(hbd: Option<u8>) -> Option<usize> {
    match hbd {
        Some(v) => if v == 0 {
            Some(8usize)
        } else if v == 1 {
            Some(10usize)
        } else if v == 2 {
            Some(12usize)
        } else {
            None
        },
        None => None,
    }
}

pub open spec fn timestamp_of(ts: i64) -> Option<i64> {
    if ts == NO_TIMESTAMP {
        None
    } else {
        Some(ts)
    }
}

impl PixelLayout {
    /// Maps the engine's layout tag to a layout; unknown tags give `Unknown`.
    pub fn from_native(tag: u32) -> (r: PixelLayout)
        ensures
            r == layout_of(tag),
    {
        if tag == LAYOUT_I400 {
            PixelLayout::I400
        } else if tag == LAYOUT_I420 {
            PixelLayout::I420
        } else if tag == LAYOUT_I422 {
            PixelLayout::I422
        } else if tag == LAYOUT_I444 {
            PixelLayout::I444
        } else {
            PixelLayout::Unknown
        }
    }
}

impl PlanarImageComponent {
    /// The component stored at plane index `index`, if there is one.
    pub fn from_index(index: usize) -> (r: Option<PlanarImageComponent>)
        ensures
            index < 3 <==> r is Some,
            r is Some ==> component_index(r->0) == index,
    {
        if index == 0 {
            Some(PlanarImageComponent::Y)
        } else if index == 1 {
            Some(PlanarImageComponent::U)
        } else if index == 2 {
            Some(PlanarImageComponent::V)
        } else {
            None
        }
    }

    /// The plane index of this component.
    pub fn index(self) -> (r: usize)
        ensures
            r == component_index(self),
    {
        match self {
            PlanarImageComponent::Y => 0,
            PlanarImageComponent::U => 1,
            PlanarImageComponent::V => 2,
        }
    }
}

impl From<PlanarImageComponent> for usize {
    fn from(component: PlanarImageComponent) -> (r: usize) {
        component.index()
    }
}

impl vstd::std_specs::convert::FromSpecImpl<PlanarImageComponent> for usize {
    open spec fn obeys_from_spec() -> bool {
        true
    }

    open spec fn from_spec(component: PlanarImageComponent) -> usize {
        component_index(component) as usize
    }
}

/// Relies on `Arc::clone`: the new pointer refers to the same allocation.
#[verifier::external_body]
fn share<H>(a: &Arc<H>) -> (r: Arc<H>)
    ensures
        r == *a,
{
    Arc::clone(a)
}

/// A decoded frame: a shared handle `H` on the engine's frame record, which
/// releases that record when the last clone is dropped, together with the
/// frame's metadata. The metadata never changes after construction.
pub struct Picture<H> {
    inner: Arc<H>,
    meta: FrameMeta,
}

impl<H> View for Picture<H> {
    type V = FrameMeta;

    closed spec fn view(&self) -> FrameMeta {
        self.meta
    }
}

impl<H> Clone for Picture<H> {
    /// Another handle on the same frame, with the same metadata.
    fn clone(&self) -> (r: Self)
        ensures
            r@ == self@,
    {
        Picture { inner: share(&self.inner), meta: self.meta }
    }
}

impl<H> Picture<H> {
    /// Wraps a retrieved frame record and its metadata.
    pub fn new(frame: H, meta: FrameMeta) -> (r: Self)
        ensures
            r@ == meta,
    {
        Picture { inner: Arc::new(frame), meta }
    }

    /// The engine's frame record behind this picture.
    pub fn frame(&self) -> &H {
        &*self.inner
    }

    /// The frame's metadata.
    pub fn meta(&self) -> (r: FrameMeta)
        ensures
            r == self@,
    {
        self.meta
    }

    /// The row stride of `component`, in bytes.
    pub fn stride(&self, component: PlanarImageComponent) -> (r: u32)
        ensures
            r == stride_of(self@, component),
    {
        match component {
            PlanarImageComponent::Y => self.meta.stride_luma as u32,
            _ => self.meta.stride_chroma as u32,
        }
    }

    /// The stride and the number of rows of `component`.
    pub fn plane_data_geometry(&self, component: PlanarImageComponent) -> (r: (u32, u32))
        requires
            geometry_defined(self@, component),
        ensures
            r.0 == stride_of(self@, component),
            r.1 == effective_height(self@, component),
    {
        let height = self.height();
        let rows: u32 = match component {
            PlanarImageComponent::Y => height,
            _ => match self.pixel_layout() {
                PixelLayout::I420 => height / 2 + height % 2,
                _ => height,
            },
        };
        (self.stride(component), rows)
    }

    /// A view of one plane of this picture, which keeps the frame alive.
    pub fn plane(&self, component: PlanarImageComponent) -> (r: Plane<H>)
        ensures
            r.picture()@ == self@,
            r.component() == component,
    {
        Plane(self.clone(), component)
    }

    /// The bit depth of the frame's samples.
    pub fn bit_depth(&self) -> (r: usize)
        ensures
            r == self@.bpc as usize,
    {
        self.meta.bpc as usize
    }

    /// The storage size of one sample, from the sequence header's high bit
    /// depth indicator; `None` for an indicator outside 0, 1, 2 and for a
    /// frame without a sequence header.
    pub fn bits_per_component(&self) -> (r: Option<BitsPerComponent>)
        ensures
            match r {
                Some(b) => bits_of(self@.hbd) == Some(b.0),
                None => bits_of(self@.hbd) is None,
            },
    {
        match self.meta.hbd {
            Some(0) => Some(BitsPerComponent(8)),
            Some(1) => Some(BitsPerComponent(10)),
            Some(2) => Some(BitsPerComponent(12)),
            _ => None,
        }
    }

    pub fn width(&self) -> (r: u32)
        ensures
            r == self@.width as u32,
    {
        self.meta.width as u32
    }

    pub fn height(&self) -> (r: u32)
        ensures
            r == frame_height(self@),
    {
        self.meta.height as u32
    }

    pub fn pixel_layout(&self) -> (r: PixelLayout)
        ensures
            r == layout_of(self@.layout),
    {
        PixelLayout::from_native(self.meta.layout)
    }

    /// The presentation timestamp, absent when the engine's sentinel for "no
    /// timestamp" is stored.
    pub fn timestamp(&self) -> (r: Option<i64>)
        ensures
            r == timestamp_of(self@.timestamp),
    {
        let ts = self.meta.timestamp;
        if ts == NO_TIMESTAMP {
            None
        } else {
            Some(ts)
        }
    }

    pub fn duration(&self) -> (r: i64)
        ensures
            r == self@.duration,
    {
        self.meta.duration
    }

    pub fn offset(&self) -> (r: i64)
        ensures
            r == self@.offset,
    {
        self.meta.offset
    }
}

/// One colour plane of a picture. It holds its own handle on the picture, so
/// the frame memory it describes stays alive as long as the plane does.
pub struct Plane<H>(Picture<H>, PlanarImageComponent);

impl<H> Clone for Plane<H> {
    fn clone(&self) -> (r: Self)
        ensures
            r.picture()@ == self.picture()@,
            r.component() == self.component(),
    {
        Plane(self.0.clone(), self.1)
    }
}

impl<H> Plane<H> {
    pub closed spec fn picture(&self) -> Picture<H> {
        self.0
    }

    pub closed spec fn component(&self) -> PlanarImageComponent {
        self.1
    }

    /// The picture this plane belongs to.
    pub fn source(&self) -> (r: &Picture<H>)
        ensures
            *r == self.picture(),
    {
        &self.0
    }

    /// The component this plane shows.
    pub fn selector(&self) -> (r: PlanarImageComponent)
        ensures
            r == self.component(),
    {
        self.1
    }

    /// The number of bytes of the plane: its stride times its number of rows.
    pub fn byte_len(&self) -> (r: u64)
        requires
            geometry_defined(self.picture()@, self.component()),
        ensures
            r == plane_len(self.picture()@, self.component()),
    {
        let (stride, rows) = self.0.plane_data_geometry(self.1);
        let (s, h) = (stride as u64, rows as u64);
        proof {
            assert(s * h <= u32::MAX as int * u32::MAX as int) by (nonlinear_arith)
                requires
                    s <= u32::MAX,
                    h <= u32::MAX,
            ;
        }
        s * h
    }
}

} // verus!
