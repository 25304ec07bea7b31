//! Pixel rasters: the packed RGBA buffer every stage works on, and the
//! padded plane a native decoder hands out.

use vstd::prelude::*;
use vstd::arithmetic::div_mod::lemma_fundamental_div_mod_converse;

verus! {

/// Mathematical model of a packed RGBA image: four bytes per pixel, rows
/// from top to bottom, no padding between rows.
pub struct Raster {
    pub width: nat,
    pub height: nat,
    pub data: Seq<u8>,
}

impl Raster {
    /// The data holds exactly `width * height` pixels.
    pub open spec fn wf(self) -> bool {
        self.data.len() == self.width * self.height * 4
    }

    /// Channel `c` of the pixel in column `x` of row `y`.
    pub open spec fn sample(self, x: int, y: int, c: int) -> u8 {
        self.data[(y * self.width + x) * 4 + c]
    }
}

/// A packed RGBA image.
#[derive(Debug)]
pub struct PixelBuffer {
    pub width: u32,
    pub height: u32,
    pub data: Vec<u8>,
}

impl View for PixelBuffer {
    type V = Raster;

    open spec fn view(&self) -> Raster {
        Raster { width: self.width as nat, height: self.height as nat, data: self.data@ }
    }
}

impl PixelBuffer {
    /// Well-formedness: the byte count matches the dimensions.
    pub open spec fn wf(&self) -> bool {
        self@.wf()
    }

    /// Builds a buffer from packed RGBA bytes; `None` unless `data` holds
    /// exactly `width * height * 4` bytes.
    pub fn from_raw(width: u32, height: u32, data: Vec<u8>) -> (r: Option<PixelBuffer>)
        ensures
            r is Some <==> data@.len() == width * height * 4,
            r matches Some(b) ==> b.wf() && b.width == width && b.height == height && b.data@
                == data@,
    {
        assert((width as int) * (height as int) <= 0xFFFF_FFFF * 0xFFFF_FFFF) by (nonlinear_arith)
            requires
                width <= 0xFFFF_FFFF,
                height <= 0xFFFF_FFFF,
        ;
        let need: u128 = (width as u128) * (height as u128) * 4;
        if data.len() as u128 == need {
            Some(PixelBuffer { width, height, data })
        } else {
            None
        }
    }

    /// The four channels of the pixel in column `x` of row `y`.
    pub fn get_pixel(&self, x: u32, y: u32) -> (p: [u8; 4])
        requires
            self.wf(),
            x < self.width,
            y < self.height,
        ensures
            forall|c: int| 0 <= c < 4 ==> p[c] == #[trigger] self@.sample(x as int, y as int, c),
    {
        let len: usize = self.data.len();
        let row: usize = self.width as usize;
        let col: usize = x as usize;
        let line: usize = y as usize;
        assert(0 <= line * row <= line * row + col && (line * row + col) * 4 + 3 < self.width
            * self.height * 4 == len) by (nonlinear_arith)
            requires
                0 <= col < row,
                row == self.width,
                0 <= line < self.height,
                len == self.width * self.height * 4,
        ;
        let base: usize = (line * row + col) * 4;
        [self.data[base], self.data[base + 1], self.data[base + 2], self.data[base + 3]]
    }
}

/// A decoded RGBA plane as a native decoder lays it out: each row starts
/// `stride` bytes after the previous one and may end in padding.
#[derive(Debug)]
pub struct StridedPlane {
    pub width: u32,
    pub height: u32,
    pub stride: usize,
    pub data: Vec<u8>,
}

impl StridedPlane {
    /// Bytes of pixel data in one row.
    pub open spec fn row_bytes(&self) -> int {
        4 * self.width
    }

    /// Every row lies inside the data and rows do not overlap.
    pub open spec fn covers_rows(&self) -> bool {
        &&& self.stride >= self.row_bytes()
        &&& (self.height == 0 || (self.height - 1) * self.stride + self.row_bytes()
            <= self.data@.len())
    }

    /// Byte `i` of the packed image: byte `i % row_bytes` of row `i / row_bytes`.
    pub open spec fn packed_byte(&self, i: int) -> u8 {
        self.data@[(i / self.row_bytes()) * self.stride + i % self.row_bytes()]
    }

    /// The image without its padding.
    pub open spec fn packed(&self) -> Raster {
        Raster {
            width: self.width as nat,
            height: self.height as nat,
            data: Seq::new(
                (self.width * self.height * 4) as nat,
                |i: int| self.packed_byte(i),
            ),
        }
    }
}

/// Copies the first `width * 4` bytes of each row into a packed buffer.
/// `None` when the plane is malformed: a stride shorter than a row, or
/// data that ends before the last row does.
pub fn strip_stride(plane: &StridedPlane) -> (r: Option<PixelBuffer>)
    ensures
        r is Some <==> plane.covers_rows(),
        r matches Some(b) ==> b.wf() && b@ == plane.packed(),
{
    let len: usize = plane.data.len();
    let stride: usize = plane.stride;
    let row64: u64 = (plane.width as u64) * 4;
    if (stride as u64) < row64 {
        return None;
    }
    let row: usize = row64 as usize;
    if plane.height == 0 {
        let empty = PixelBuffer { width: plane.width, height: 0, data: Vec::new() };
        assert(empty@.data =~= plane.packed().data);
        return Some(empty);
    }
    let last: usize = (plane.height - 1) as usize;
    if len < row {
        assert(last * stride >= 0) by (nonlinear_arith)
            requires
                last >= 0,
                stride >= 0,
        ;
        return None;
    }
    if last > 0 && stride > (len - row) / last {
        assert(last * stride > len - row) by (nonlinear_arith)
            requires
                last > 0,
                len - row >= 0,
                stride > (len - row) / (last as int),
        ;
        return None;
    }
    assert(last * stride <= len - row) by (nonlinear_arith)
        requires
            last >= 0,
            stride >= 0,
            len - row >= 0,
            last > 0 ==> stride <= (len - row) / (last as int),
    ;
    let mut out: Vec<u8> = Vec::new();
    let mut y: u32 = 0;
    while y < plane.height
        invariant
            y <= plane.height,
            plane.height >= 1,
            last == plane.height - 1,
            row == plane.row_bytes(),
            stride == plane.stride,
            stride >= row,
            len == plane.data@.len(),
            last * stride <= len - row,
            out@.len() == y * row,
            forall|j: int| 0 <= j < out@.len() ==> out@[j] == plane.packed_byte(j),
        decreases plane.height - y,
    {
        assert(y * stride <= last * stride) by (nonlinear_arith)
            requires
                y <= last,
                stride >= 0,
        ;
        let start: usize = (y as usize) * stride;
        let mut k: usize = 0;
        while k < row
            invariant
                k <= row,
                row == plane.row_bytes(),
                stride == plane.stride,
                len == plane.data@.len(),
                start == y * stride,
                start + row <= len,
                out@.len() == y * row + k,
                forall|j: int| 0 <= j < out@.len() ==> out@[j] == plane.packed_byte(j),
            decreases row - k,
        {
            proof {
                lemma_fundamental_div_mod_converse(y * row + k, row as int, y as int, k as int);
            }
            out.push(plane.data[start + k]);
            k += 1;
        }
        assert((y + 1) * row == y * row + row) by (nonlinear_arith);
        y += 1;
    }
    assert(plane.width * plane.height * 4 == plane.height * row) by (nonlinear_arith)
        requires
            row == 4 * plane.width,
    ;
    let packed = PixelBuffer { width: plane.width, height: plane.height, data: out };
    assert(packed@.data =~= plane.packed().data);
    Some(packed)
}

/// Stripped rows are the plane's rows without their padding: byte `k` of
/// row `y` of the packed image is byte `k` of row `y` of the plane, and
/// the packed image holds `width * height * 4` bytes.
pub proof fn lemma_packed_rows(plane: &StridedPlane, y: int, k: int)
    requires
        0 <= y < plane.height,
        0 <= k < plane.row_bytes(),
    ensures
        plane.packed().wf(),
        plane.packed().data.len() == plane.width * plane.height * 4,
        0 <= y * plane.row_bytes() + k < plane.packed().data.len(),
        plane.packed().data[y * plane.row_bytes() + k] == plane.data@[y * plane.stride + k],
{
    let row = plane.row_bytes();
    lemma_fundamental_div_mod_converse(y * row + k, row, y, k);
    assert(0 <= y * row + k < plane.width * plane.height * 4) by (nonlinear_arith)
        requires
            0 <= y < plane.height,
            0 <= k < row,
            row == 4 * plane.width,
    ;
}

} // verus!
