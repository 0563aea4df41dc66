use vstd::prelude::*;

use crate::errors::LoadError;

verus! {

/// A decoded tile holds 64 pixel values, stored column-major: the pixel at
/// column `px`, row `py` sits at `px * 8 + py`.
pub open spec fn dot_at(dots: Seq<u8>, px: int, py: int) -> u8 {
    dots[px * 8 + py]
}

/// Bit `j` of an 8-bit value, as 0 or 1.
pub open spec fn bit_of(b: u8, j: u8) -> u8 {
    (b >> j) & 1
}

/// The pixel a 16-byte tile record yields at column `px`, row `py`: the two
/// bitplane bytes for the row each contribute one bit, the low plane at
/// position 0 and the high plane at position 1; columns run opposite to bit
/// order, so column `px` takes bit `7 - px`.
pub open spec fn tile_dot_spec(rec: Seq<u8>, px: int, py: int) -> u8 {
    (bit_of(rec[py], (7 - px) as u8) + 2 * bit_of(rec[py + 8], (7 - px) as u8)) as u8
}

/// The decoded tile matches the 16-byte record at every pixel.
pub open spec fn tile_ok(dots: Seq<u8>, rec: Seq<u8>) -> bool {
    forall|px: int, py: int|
        0 <= px < 8 && 0 <= py < 8 ==> #[trigger] dot_at(dots, px, py) == tile_dot_spec(
            rec,
            px,
            py,
        )
}

/// Every pixel of the tile is blank.
pub open spec fn tile_zero(dots: Seq<u8>) -> bool {
    forall|k: int| 0 <= k < 64 ==> #[trigger] dots[k] == 0
}

/// One 8x8 tile of 2-bit pixel-intensity values, decoded once from 16 bytes
/// of tile data and immutable thereafter.
pub struct NesImage {
    dot: Vec<u8>,
}

impl View for NesImage {
    type V = Seq<u8>;

    closed spec fn view(&self) -> Seq<u8> {
        self.dot@
    }
}

impl NesImage {
    pub open spec fn wf(&self) -> bool {
        &&& self@.len() == 64
        &&& forall|k: int| 0 <= k < 64 ==> #[trigger] self@[k] < 4
    }

    /// Decode one 16-byte tile record: two 8-byte bitplanes combined
    /// bit-by-bit into 64 two-bit pixels.
    pub fn new(data: &[u8]) -> (r: NesImage)
        requires
            data@.len() == 16,
        ensures
            r.wf(),
            tile_ok(r@, data@),
    {
        let mut dot: Vec<u8> = Vec::new();
        let mut px: usize = 0;
        while px < 8
            invariant
                px <= 8,
                dot@.len() == px * 8,
                data@.len() == 16,
                forall|k: int| 0 <= k < dot@.len() ==> #[trigger] dot@[k] < 4,
                forall|p: int, q: int|
                    0 <= p < px && 0 <= q < 8 ==> #[trigger] dot_at(dot@, p, q) == tile_dot_spec(
                        data@,
                        p,
                        q,
                    ),
            decreases 8 - px,
        {
            let sh: u8 = 7 - (px as u8);
            let mut py: usize = 0;
            while py < 8
                invariant
                    px < 8,
                    py <= 8,
                    sh == 7 - px,
                    dot@.len() == px * 8 + py,
                    data@.len() == 16,
                    forall|k: int| 0 <= k < dot@.len() ==> #[trigger] dot@[k] < 4,
                    forall|p: int, q: int|
                        0 <= p < px && 0 <= q < 8 ==> #[trigger] dot_at(dot@, p, q)
                            == tile_dot_spec(data@, p, q),
                    forall|q: int|
                        0 <= q < py ==> #[trigger] dot_at(dot@, px as int, q) == tile_dot_spec(
                            data@,
                            px as int,
                            q,
                        ),
                decreases 8 - py,
            {
                let b0 = data[py];
                let b1 = data[py + 8];
                let lo = (b0 >> sh) & 1;
                let hi = (b1 >> sh) & 1;
                proof {
                    assert((b0 >> sh) & 1 <= 1 && (b1 >> sh) & 1 <= 1) by (bit_vector);
                }
                let v = lo + 2 * hi;
                let ghost prev = dot@;
                dot.push(v);
                proof {
                    assert((7 - px as int) as u8 == sh);
                    assert(dot_at(dot@, px as int, py as int) == v);
                    assert(v == tile_dot_spec(data@, px as int, py as int));
                    assert forall|p: int, q: int| 0 <= p < px && 0 <= q < 8 implies #[trigger] dot_at(
                        dot@,
                        p,
                        q,
                    ) == tile_dot_spec(data@, p, q) by {
                        assert(p * 8 + q < px * 8 + py);
                        assert(dot_at(prev, p, q) == tile_dot_spec(data@, p, q));
                    }
                    assert forall|q: int| 0 <= q < py + 1 implies #[trigger] dot_at(
                        dot@,
                        px as int,
                        q,
                    ) == tile_dot_spec(data@, px as int, q) by {
                        if q < py {
                            assert(dot_at(prev, px as int, q) == tile_dot_spec(data@, px as int, q));
                        }
                    }
                }
                py = py + 1;
            }
            px = px + 1;
        }
        NesImage { dot }
    }

    /// A blank tile: every pixel zero.
    pub fn empty() -> (r: NesImage)
        ensures
            r.wf(),
            tile_zero(r@),
    {
        let mut dot: Vec<u8> = Vec::new();
        let mut k: usize = 0;
        while k < 64
            invariant
                k <= 64,
                dot@.len() == k,
                forall|j: int| 0 <= j < k ==> #[trigger] dot@[j] == 0,
            decreases 64 - k,
        {
            dot.push(0);
            k = k + 1;
        }
        NesImage { dot }
    }

    /// The pixel at column `x`, row `y`.
    pub fn get_dot(&self, x: usize, y: usize) -> (r: u8)
        requires
            self.wf(),
            x < 8,
            y < 8,
        ensures
            r == dot_at(self@, x as int, y as int),
    {
        self.dot[x * 8 + y]
    }
}

/// Mathematical model of the PPU: the 16KiB video memory, the 16-bit write
/// pointer, and the 512 decoded tiles.
pub ghost struct PpuModel {
    pub vram: Seq<u8>,
    pub ptr: u16,
    pub tiles: Seq<Seq<u8>>,
}

/// Effect of one cycle's value on the VRAM address port: a nonzero byte
/// shifts the pointer's low byte up and ORs the new byte in below it; a
/// zero byte means "no address update".
pub open spec fn latch_step(p: PpuModel, io6: u8) -> PpuModel {
    if io6 != 0 {
        PpuModel { ptr: ((p.ptr % 256) * 256 + io6) as u16, ..p }
    } else {
        p
    }
}

/// Effect of one cycle's value on the VRAM data port: a nonzero byte is
/// stored at the pointer (taken modulo the video memory size) and the
/// pointer advances by one, wrapping at 16 bits; a zero byte means "no
/// write".
pub open spec fn data_step(p: PpuModel, io7: u8) -> PpuModel {
    if io7 != 0 {
        PpuModel {
            vram: p.vram.update(p.ptr as int % 0x4000, io7),
            ptr: (if p.ptr == 0xFFFF {
                0u16
            } else {
                (p.ptr + 1) as u16
            }),
            ..p
        }
    } else {
        p
    }
}

/// Effect of one 8-byte I/O window snapshot on the PPU state: the address
/// port is consumed before the data port.
pub open spec fn update_spec(p: PpuModel, io: Seq<u8>) -> PpuModel {
    data_step(latch_step(p, io[6]), io[7])
}

/// The picture processing unit: video memory, write pointer, decoded tiles.
pub struct Ppu {
    memory: Vec<u8>,
    ptr: u16,
    images: Vec<NesImage>,
}

impl View for Ppu {
    type V = PpuModel;

    closed spec fn view(&self) -> PpuModel {
        PpuModel {
            vram: self.memory@,
            ptr: self.ptr,
            tiles: Seq::new(self.images@.len(), |t: int| self.images@[t]@),
        }
    }
}

/// Decode tile data into the fixed 512-entry tile store; records beyond the
/// data are blank tiles.
fn create_image_array(data: &[u8]) -> (r: Vec<NesImage>)
    requires
        data@.len() <= 0x2000,
    ensures
        r@.len() == 512,
        forall|t: int|
            0 <= t < data@.len() / 16 ==> (#[trigger] r@[t]).wf() && tile_ok(
                r@[t]@,
                data@.subrange(16 * t, 16 * t + 16),
            ),
        forall|t: int|
            data@.len() / 16 <= t < 512 ==> (#[trigger] r@[t]).wf() && tile_zero(r@[t]@),
{
    let n = data.len() / 16;
    let mut images: Vec<NesImage> = Vec::new();
    let mut t: usize = 0;
    while t < 512
        invariant
            n == data@.len() / 16,
            data@.len() <= 0x2000,
            t <= 512,
            images@.len() == t,
            forall|u: int|
                0 <= u < t && u < n ==> (#[trigger] images@[u]).wf() && tile_ok(
                    images@[u]@,
                    data@.subrange(16 * u, 16 * u + 16),
                ),
            forall|u: int| n <= u < t ==> (#[trigger] images@[u]).wf() && tile_zero(images@[u]@),
        decreases 512 - t,
    {
        if t < n {
            assert(t * 16 + 16 <= data@.len());
            let img = NesImage::new(&data[t * 16..t * 16 + 16]);
            images.push(img);
        } else {
            images.push(NesImage::empty());
        }
        t = t + 1;
    }
    images
}

impl Ppu {
    pub open spec fn wf(&self) -> bool {
        &&& self@.vram.len() == 0x4000
        &&& self@.tiles.len() == 512
        &&& forall|t: int| 0 <= t < 512 ==> (#[trigger] self@.tiles[t]).len() == 64
        &&& forall|t: int, k: int| 0 <= t < 512 && 0 <= k < 64 ==> #[trigger] self@.tiles[t][k] < 4
    }

    /// A PPU at power-on: video memory clear, pointer at zero, every tile
    /// blank.
    pub fn new() -> (r: Ppu)
        ensures
            r.wf(),
            r@.ptr == 0,
            forall|a: int| 0 <= a < 0x4000 ==> r@.vram[a] == 0,
            forall|t: int| 0 <= t < 512 ==> tile_zero(#[trigger] r@.tiles[t]),
    {
        let mut memory: Vec<u8> = Vec::new();
        let mut i: usize = 0;
        while i < 0x4000
            invariant
                i <= 0x4000,
                memory@.len() == i,
                forall|a: int| 0 <= a < i ==> memory@[a] == 0,
            decreases 0x4000 - i,
        {
            memory.push(0);
            i = i + 1;
        }
        let mut images: Vec<NesImage> = Vec::new();
        let mut t: usize = 0;
        while t < 512
            invariant
                t <= 512,
                images@.len() == t,
                forall|u: int| 0 <= u < t ==> (#[trigger] images@[u]).wf() && tile_zero(images@[u]@),
            decreases 512 - t,
        {
            images.push(NesImage::empty());
            t = t + 1;
        }
        Ppu { memory, ptr: 0, images }
    }

    /// Ingest tile data: decode each 16-byte record once; the tile store is
    /// replaced wholesale.  Fails, leaving the PPU untouched, when the data
    /// would overrun the 512-tile store.
    pub fn read_chr_rom(&mut self, chr: &[u8]) -> (r: Result<(), LoadError>)
        requires
            old(self).wf(),
        ensures
            final(self).wf(),
            chr@.len() > 0x2000 ==> r == Err::<(), LoadError>(LoadError::TileDataTooLarge)
                && *final(self) == *old(self),
            chr@.len() <= 0x2000 ==> r == Ok::<(), LoadError>(()) && final(self)@.vram == old(
                self,
            )@.vram && final(self)@.ptr == old(self)@.ptr && (forall|t: int|
                0 <= t < chr@.len() / 16 ==> tile_ok(
                    #[trigger] final(self)@.tiles[t],
                    chr@.subrange(16 * t, 16 * t + 16),
                )) && (forall|t: int|
                chr@.len() / 16 <= t < 512 ==> tile_zero(#[trigger] final(self)@.tiles[t])),
    {
        if chr.len() > 0x2000 {
            return Err(LoadError::TileDataTooLarge);
        }
        self.images = create_image_array(chr);
        Ok(())
    }

    /// Apply one 8-byte I/O window snapshot to the PPU state.
    pub fn update(&mut self, io: &Vec<u8>)
        requires
            old(self).wf(),
            io@.len() == 8,
        ensures
            final(self).wf(),
            final(self)@ == update_spec(old(self)@, io@),
    {
        if io[6] != 0 {
            let p: u16 = (self.ptr % 256) * 256 + (io[6] as u16);
            self.ptr = p;
        }
        if io[7] != 0 {
            let idx = self.ptr as usize % 0x4000;
            self.memory[idx] = io[7];
            if self.ptr == 0xFFFF {
                self.ptr = 0;
            } else {
                self.ptr = self.ptr + 1;
            }
        }
        proof {
            assert(final(self)@.tiles =~= old(self)@.tiles);
        }
    }

    /// A copy-free window onto video memory.
    pub fn get_memory(&self, start: usize, end: usize) -> (r: &[u8])
        requires
            self.wf(),
            start <= end,
            end <= 0x4000,
        ensures
            r@ == self@.vram.subrange(start as int, end as int),
    {
        &self.memory.as_slice()[start..end]
    }

    /// The current 16-bit VRAM write pointer.
    pub fn get_ptr(&self) -> (r: u16)
        ensures
            r == self@.ptr,
    {
        self.ptr
    }

    /// Composite the 256x240 RGBA raster: the 960-byte name table maps each
    /// 8x8 cell of the 32x30 grid to a decoded tile, and every 2-bit pixel
    /// goes through the 4-entry grayscale palette.  Pure with respect to
    /// the PPU: presenting the raster is the caller's affair.
    pub fn draw(&self) -> (r: Vec<u8>)
        requires
            self.wf(),
        ensures
            frame_ok(r@, self@),
    {
        let mut frame: Vec<u8> = Vec::new();
        let mut y: usize = 0;
        while y < 240
            invariant
                self.wf(),
                y <= 240,
                frame@.len() == 4 * (y * 256),
                forall|xx: int, yy: int|
                    0 <= xx < 256 && 0 <= yy < 240 && yy * 256 + xx < y * 256
                        ==> #[trigger] pixel_ok(frame@, self@, xx, yy),
            decreases 240 - y,
        {
            let mut x: usize = 0;
            while x < 256
                invariant
                    self.wf(),
                    y < 240,
                    x <= 256,
                    frame@.len() == 4 * (y * 256 + x),
                    forall|xx: int, yy: int|
                        0 <= xx < 256 && 0 <= yy < 240 && yy * 256 + xx < y * 256 + x
                            ==> #[trigger] pixel_ok(frame@, self@, xx, yy),
                decreases 256 - x,
            {
                let cell = (y / 8) * 32 + x / 8;
                let tindex = self.memory[0x2000 + cell] as usize;
                let img = &self.images[tindex];
                proof {
                    assert(img@ == self@.tiles[tindex as int]);
                    assert forall|k: int| 0 <= k < 64 implies #[trigger] img@[k] < 4 by {
                        assert(self@.tiles[tindex as int][k] < 4);
                    }
                }
                let v = img.get_dot(x % 8, y % 8);
                let g = gray_of(v);
                let ghost prev = frame@;
                frame.push(g);
                frame.push(g);
                frame.push(g);
                frame.push(0xff);
                proof {
                    assert(v == pixel_value(self@, x as int, y as int));
                    assert(pix_base(x as int, y as int) == prev.len());
                    assert(pixel_ok(frame@, self@, x as int, y as int));
                    assert forall|xx: int, yy: int|
                        0 <= xx < 256 && 0 <= yy < 240 && yy * 256 + xx < y * 256 + x implies #[trigger] pixel_ok(
                        frame@,
                        self@,
                        xx,
                        yy,
                    ) by {
                        assert(pixel_ok(prev, self@, xx, yy));
                        assert(pix_base(xx, yy) + 3 < prev.len());
                    }
                }
                x = x + 1;
            }
            y = y + 1;
        }
        frame
    }
}

/// The four-entry grayscale palette: one intensity per 2-bit pixel value.
pub open spec fn gray(v: u8) -> u8 {
    if v == 0 {
        0x00
    } else if v == 1 {
        0x55
    } else if v == 2 {
        0xaa
    } else {
        0xff
    }
}

/// The 2-bit value of screen pixel (x, y): the name table entry for its
/// 8x8 cell selects the tile, and the position within the cell selects the
/// pixel.
pub open spec fn pixel_value(p: PpuModel, x: int, y: int) -> u8 {
    dot_at(p.tiles[p.vram[0x2000 + (y / 8) * 32 + x / 8] as int], x % 8, y % 8)
}

/// Byte offset of pixel (x, y) in the row-major RGBA raster.
pub open spec fn pix_base(x: int, y: int) -> int {
    4 * (y * 256 + x)
}

/// The four raster bytes of pixel (x, y) hold its palette intensity in the
/// three color channels and a fully opaque alpha.
pub open spec fn pixel_ok(frame: Seq<u8>, p: PpuModel, x: int, y: int) -> bool {
    &&& frame[pix_base(x, y)] == gray(pixel_value(p, x, y))
    &&& frame[pix_base(x, y) + 1] == gray(pixel_value(p, x, y))
    &&& frame[pix_base(x, y) + 2] == gray(pixel_value(p, x, y))
    &&& frame[pix_base(x, y) + 3] == 0xff
}

/// The raster is the full 256x240 composition of the name table.
pub open spec fn frame_ok(frame: Seq<u8>, p: PpuModel) -> bool {
    &&& frame.len() == 245760
    &&& forall|x: int, y: int| 0 <= x < 256 && 0 <= y < 240 ==> #[trigger] pixel_ok(frame, p, x, y)
}

/// The palette, as executable code.
fn gray_of(v: u8) -> (r: u8)
    ensures
        r == gray(v),
{
    if v == 0 {
        0x00
    } else if v == 1 {
        0x55
    } else if v == 2 {
        0xaa
    } else {
        0xff
    }
}

/// Law: two sequential nonzero writes to the VRAM address port assemble the
/// 16-bit pointer high byte first, and a following nonzero write to the
/// data port stores that byte there and advances the pointer by exactly
/// one.  (An assembled address beyond the video memory is stored modulo its
/// size; such addresses are left out here.)
pub proof fn lemma_vram_write_protocol(p: PpuModel, h: u8, l: u8, v: u8)
    requires
        p.vram.len() == 0x4000,
        h != 0,
        l != 0,
        v != 0,
        (h as int) * 256 + l < 0x4000,
    ensures
        ({
            let p3 = update_spec(
                update_spec(update_spec(p, seq![0u8, 0, 0, 0, 0, 0, h, 0]), seq![0u8, 0, 0, 0, 0, 0, l, 0]),
                seq![0u8, 0, 0, 0, 0, 0, 0, v],
            );
            &&& p3.vram[(h as int) * 256 + l] == v
            &&& p3.ptr == (h as int) * 256 + l + 1
        }),
{
    let p1 = update_spec(p, seq![0u8, 0, 0, 0, 0, 0, h, 0]);
    assert(p1.ptr == ((p.ptr % 256) * 256 + h) as u16);
    assert(((p.ptr % 256) * 256 + h) % 256 == h as int);
    let p2 = update_spec(p1, seq![0u8, 0, 0, 0, 0, 0, l, 0]);
    assert(p2.ptr == (h as int) * 256 + l);
    let p3 = update_spec(p2, seq![0u8, 0, 0, 0, 0, 0, 0, v]);
    assert(p2.ptr as int % 0x4000 == (h as int) * 256 + l);
}

} // verus!
