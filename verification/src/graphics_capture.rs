//! Offscreen BGRA capture: staging-surface sizing and row packing.

use vstd::prelude::*;

verus! {

/// What keeping the staging surface at a new size involves.
#[derive(Debug, Clone, Copy, PartialEq, Eq, Structural)]
pub enum SurfaceAction {
    Keep,
    /// Create a surface of the new size, destroying the old one first where it exists.
    Create { destroy_old: bool },
}

/// The capture resources: whether the render target and the staging surface exist, and
/// the staging surface's size.
pub struct BgraCapture {
    texrender: bool,
    stagesurface: bool,
    width: u32,
    height: u32,
}

pub struct CaptureView {
    pub texrender: bool,
    pub stagesurface: bool,
    pub width: u32,
    pub height: u32,
}

impl View for BgraCapture {
    type V = CaptureView;

    closed spec fn view(&self) -> CaptureView {
        CaptureView {
            texrender: self.texrender,
            stagesurface: self.stagesurface,
            width: self.width,
            height: self.height,
        }
    }
}

/// Rows `0..n` of an image stored `linesize` bytes apart, `row` bytes each, packed.
pub open spec fn packed_rows(src: Seq<u8>, linesize: int, row: int, n: int) -> Seq<u8>
    decreases n,
{
    if n <= 0 {
        Seq::empty()
    } else {
        packed_rows(src, linesize, row, n - 1) + src.subrange(
            (n - 1) * linesize,
            (n - 1) * linesize + row,
        )
    }
}

fn push_range(out: &mut Vec<u8>, src: &[u8], start: usize, n: usize)
    requires
        start + n <= src@.len(),
    ensures
        final(out)@ == old(out)@ + src@.subrange(start as int, start + n),
{
    let src_len = src.len();
    let mut i: usize = 0;
    while i < n
        invariant
            i <= n,
            start + n <= src@.len(),
            src_len == src@.len(),
            out@ == old(out)@ + src@.subrange(start as int, start + i),
        decreases n - i,
    {
        out.push(src[start + i]);
        assert(src@.subrange(start as int, start + i + 1) == src@.subrange(
            start as int,
            start + i,
        ).push(src@[start + i]));
        i = i + 1;
    }
}

/// Pack a mapped BGRA surface (`linesize` bytes per row) into `width * 4` bytes per row.
pub fn pack_rows(src: &[u8], linesize: u32, width: u32, height: u32) -> (out: Vec<u8>)
    requires
        width as int * height as int * 4 <= u32::MAX,
        height > 0 ==> (height - 1) as int * linesize as int + width as int * 4 <= src@.len(),
    ensures
        out@ == packed_rows(src@, linesize as int, width as int * 4, height as int),
        out@.len() == width as int * height as int * 4,
{
    let mut out: Vec<u8> = Vec::new();
    if height == 0 {
        return out;
    }
    proof {
        assert(width as int * 4 <= width as int * height as int * 4) by (nonlinear_arith)
            requires
                height >= 1,
        ;
    }
    let row = width as usize * 4;
    let h = height as usize;
    let ls = linesize as usize;
    let src_len = src.len();
    let mut y: usize = 0;
    while y < h
        invariant
            y <= h,
            h == height,
            ls == linesize,
            row == width as int * 4,
            (height - 1) as int * linesize as int + width as int * 4 <= src@.len(),
            src_len == src@.len(),
            height >= 1,
            out@ == packed_rows(src@, ls as int, row as int, y as int),
            out@.len() == y * row,
        decreases h - y,
    {
        proof {
            assert(y * ls + row <= (h - 1) * ls + row) by (nonlinear_arith)
                requires
                    y < h,
            ;
            assert(0 <= y * ls) by (nonlinear_arith);
        }
        let off = y * ls;
        push_range(&mut out, src, off, row);
        proof {
            assert((y + 1) * row == y * row + row) by (nonlinear_arith);
        }
        y = y + 1;
    }
    proof {
        assert(h * row == width as int * height as int * 4) by (nonlinear_arith)
            requires
                h == height,
                row == width as int * 4,
        ;
    }
    out
}

impl BgraCapture {
    /// Capture resources after creating the render target (`texrender` tells whether
    /// that succeeded); no staging surface yet.
    pub fn new(texrender: bool) -> (c: Self)
        ensures
            c@ == (CaptureView { texrender, stagesurface: false, width: 0, height: 0 }),
    {
        BgraCapture { texrender, stagesurface: false, width: 0, height: 0 }
    }

    /// Whether a capture of `width` x `height` can be attempted at all.
    pub fn can_capture(&self, width: u32, height: u32) -> (r: bool)
        ensures
            r == (width != 0 && height != 0 && self@.texrender),
    {
        width != 0 && height != 0 && self.texrender
    }

    /// Keep the staging surface at `width` x `height`: nothing for an empty size or where
    /// a surface of that size exists; otherwise a new surface of that size is due.
    pub fn ensure_size(&mut self, width: u32, height: u32) -> (a: SurfaceAction)
        ensures
            (width == 0 || height == 0 || (old(self)@.width == width && old(self)@.height
                == height && old(self)@.stagesurface)) ==> a == SurfaceAction::Keep
                && final(self)@ == old(self)@,
            !(width == 0 || height == 0 || (old(self)@.width == width && old(self)@.height
                == height && old(self)@.stagesurface)) ==> a == (SurfaceAction::Create {
                destroy_old: old(self)@.stagesurface,
            }) && final(self)@ == (CaptureView {
                texrender: old(self)@.texrender,
                stagesurface: false,
                width,
                height,
            }),
    {
        if width == 0 || height == 0 {
            return SurfaceAction::Keep;
        }
        if self.width == width && self.height == height && self.stagesurface {
            return SurfaceAction::Keep;
        }
        let destroy_old = self.stagesurface;
        self.stagesurface = false;
        self.width = width;
        self.height = height;
        SurfaceAction::Create { destroy_old }
    }

    /// Record whether creating the staging surface succeeded.
    pub fn surface_created(&mut self, ok: bool)
        ensures
            final(self)@ == (CaptureView { stagesurface: ok, ..old(self)@ }),
    {
        self.stagesurface = ok;
    }

    pub fn has_surface(&self) -> (r: bool)
        ensures
            r == self@.stagesurface,
    {
        self.stagesurface
    }

    /// All resources released.
    pub fn destroy(&mut self)
        ensures
            final(self)@ == (CaptureView { texrender: false, stagesurface: false, width: 0, height: 0 }),
    {
        self.stagesurface = false;
        self.texrender = false;
        self.width = 0;
        self.height = 0;
    }
}

} // verus!
