//! Captured frames: tightly packed 8-bit RGB rasters, and the pool-scalar
//! change detector computed over them.

use vstd::prelude::*;
use crate::color::Rgb;

verus! {

/// A captured rectangle of pixels. `data` holds `width * height` pixels in
/// row-major order, three bytes (red, green, blue) per pixel.
#[derive(Clone, Debug)]
pub struct Frame {
    pub width: usize,
    pub height: usize,
    pub data: Vec<u8>,
}

impl Frame {
    pub open spec fn wf(self) -> bool {
        &&& self.width <= 0xFFF
        &&& self.height <= 0xFFF
        &&& self.data@.len() == self.width * self.height * 3
    }

    /// The color of the pixel at column `x`, row `y`.
    pub open spec fn spec_pixel(self, x: int, y: int) -> Rgb {
        Rgb {
            r: self.data@[(y * self.width + x) * 3],
            g: self.data@[(y * self.width + x) * 3 + 1],
            b: self.data@[(y * self.width + x) * 3 + 2],
        }
    }

    pub fn get_pixel(&self, x: usize, y: usize) -> (c: Rgb)
        requires
            self.wf(),
            x < self.width,
            y < self.height,
        ensures
            c == self.spec_pixel(x as int, y as int),
    {
        proof {
            lemma_pixel_index_in_range(self.width as int, self.height as int, x as int, y as int);
        }
        let n: usize = self.data.len();
        assert((y * self.width + x) * 3 + 2 < n);
        let base: usize = (y * self.width + x) * 3;
        Rgb { r: self.data[base], g: self.data[base + 1], b: self.data[base + 2] }
    }

    /// The leftmost column of the frame, top to bottom: the shape in which
    /// the flag strip is sampled.
    pub fn first_column(&self) -> (col: Vec<Rgb>)
        requires
            self.wf(),
            self.width >= 1,
        ensures
            col@.len() == self.height,
            forall|y: int| 0 <= y < self.height ==> col@[y] == self.spec_pixel(0, y),
    {
        let mut col: Vec<Rgb> = Vec::new();
        let mut y: usize = 0;
        while y < self.height
            invariant
                self.wf(),
                self.width >= 1,
                y <= self.height,
                col@.len() == y,
                forall|i: int| 0 <= i < y ==> col@[i] == self.spec_pixel(0, i),
            decreases self.height - y,
        {
            let c = self.get_pixel(0, y);
            col.push(c);
            y = y + 1;
        }
        col
    }

    /// Overwrite the pixel at column `x`, row `y`.
    pub fn set_pixel(&mut self, x: usize, y: usize, c: Rgb)
        requires
            old(self).wf(),
            x < old(self).width,
            y < old(self).height,
        ensures
            final(self).wf(),
            final(self).width == old(self).width,
            final(self).height == old(self).height,
            forall|u: int, v: int|
                0 <= u < old(self).width && 0 <= v < old(self).height
                    ==> #[trigger] final(self).spec_pixel(u, v) == (if u == x && v == y {
                    c
                } else {
                    old(self).spec_pixel(u, v)
                }),
    {
        proof {
            lemma_pixel_index_in_range(self.width as int, self.height as int, x as int, y as int);
        }
        let n: usize = self.data.len();
        assert((y * self.width + x) * 3 + 2 < n);
        let base: usize = (y * self.width + x) * 3;
        self.data[base] = c.r;
        self.data[base + 1] = c.g;
        self.data[base + 2] = c.b;
        proof {
            let w = old(self).width as int;
            let bidx = (y as int) * w + (x as int);
            assert(self.data@ == old(self).data@.update(bidx * 3, c.r).update(
                bidx * 3 + 1,
                c.g,
            ).update(bidx * 3 + 2, c.b));
            assert forall|u: int, v: int|
                0 <= u < old(self).width && 0 <= v < old(self).height && !(u == x && v == y)
                    implies #[trigger] self.spec_pixel(u, v) == old(self).spec_pixel(u, v) by {
                lemma_pixel_offsets_injective(w, old(self).height as int, u, v, x as int, y as int);
                lemma_pixel_index_in_range(w, old(self).height as int, u, v);
                let a = v * w + u;
                assert(a != bidx);
                assert(a * 3 != bidx * 3 && a * 3 != bidx * 3 + 1 && a * 3 != bidx * 3 + 2);
                assert(a * 3 + 1 != bidx * 3 && a * 3 + 1 != bidx * 3 + 1 && a * 3 + 1 != bidx * 3
                    + 2);
                assert(a * 3 + 2 != bidx * 3 && a * 3 + 2 != bidx * 3 + 1 && a * 3 + 2 != bidx * 3
                    + 2);
                assert(self.data@[a * 3] == old(self).data@[a * 3]);
                assert(self.data@[a * 3 + 1] == old(self).data@[a * 3 + 1]);
                assert(self.data@[a * 3 + 2] == old(self).data@[a * 3 + 2]);
                assert(self.width == old(self).width);
                assert((v * self.width as int + u) * 3 == a * 3);
            }
        }
    }
}

/// For a pixel inside the frame, the byte offsets of its three channels are
/// inside the data buffer.
proof fn lemma_pixel_index_in_range(width: int, height: int, x: int, y: int)
    requires
        0 <= x < width,
        0 <= y < height,
    ensures
        0 <= (y * width + x) * 3,
        (y * width + x) * 3 + 2 < width * height * 3,
{
    assert((y * width + x) * 3 + 2 < width * height * 3) by (nonlinear_arith)
        requires
            0 <= x < width,
            0 <= y < height,
    ;
    assert(0 <= (y * width + x) * 3) by (nonlinear_arith)
        requires
            0 <= x,
            0 <= y,
            0 < width,
    ;
}


/// Distinct pixels use distinct byte offsets.
proof fn lemma_pixel_offsets_injective(width: int, height: int, u: int, v: int, x: int, y: int)
    requires
        0 <= u < width,
        0 <= v < height,
        0 <= x < width,
        0 <= y < height,
        !(u == x && v == y),
    ensures
        v * width + u != y * width + x,
{
    if v != y {
        assert(v * width + u != y * width + x) by (nonlinear_arith)
            requires
                0 <= u < width,
                0 <= x < width,
                v != y,
        ;
    }
}

/// The sum of the red channel over the first `n` pixels of a packed raster.
pub open spec fn spec_red_sum(data: Seq<u8>, n: int) -> int
    decreases n,
{
    if n <= 0 {
        0
    } else {
        spec_red_sum(data, n - 1) + data[3 * (n - 1)]
    }
}

pub proof fn lemma_red_sum_bounds(data: Seq<u8>, n: int)
    requires
        0 <= n,
        3 * n <= data.len(),
    ensures
        0 <= spec_red_sum(data, n) <= 255 * n,
    decreases n,
{
    if n > 0 {
        lemma_red_sum_bounds(data, n - 1);
    }
}

/// The pool scalar: the sum of the red channel over every pixel of a packed
/// raster. A coarse fingerprint of the detail panel, used to detect when it
/// has stopped animating.
pub fn calc_pool(data: &Vec<u8>) -> (pool: u64)
    requires
        data@.len() < 0x4_0000_0000,
    ensures
        pool == spec_red_sum(data@, (data@.len() / 3) as int),
{
    let total: usize = data.len();
    let len: usize = total / 3;
    proof {
        vstd::arithmetic::div_mod::lemma_fundamental_div_mod(data@.len() as int, 3);
    }
    assert(3 * len <= total);
    let mut pool: u64 = 0;
    let mut i: usize = 0;
    while i < len
        invariant
            len == data@.len() / 3,
            total == data@.len(),
            3 * len <= total,
            data@.len() < 0x4_0000_0000,
            i <= len,
            pool == spec_red_sum(data@, i as int),
            pool <= 255 * i,
        decreases len - i,
    {
        assert(3 * (i as int) + 2 < data@.len());
        pool = pool + data[i * 3] as u64;
        i = i + 1;
    }
    pool
}

} // verus!
