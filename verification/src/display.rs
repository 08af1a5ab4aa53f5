//! The logical 64x32 monochrome display buffer and the XOR-compositing
//! sprite-row draw operation, with its collision outcome. Presentation on a
//! real screen is a host concern: the host reads the buffer and paints it.

use vstd::prelude::*;

verus! {

/// The logical display: 2048 cells in row-major order, 64 per row. A cell
/// holds 1 for a lit pixel and 0 for a dark one; the snapshot/restore
/// operations accept arbitrary bytes, and compositing treats exactly the
/// value 1 as lit when deciding collisions.
pub struct Display {
    pub display: Vec<u8>,
}

/// Buffer cell written by column `col` of a sprite row drawn at base
/// coordinates `(x, y)`. The base coordinates wrap modulo the screen extent;
/// the final index wraps modulo the buffer size.
pub open spec fn pixel_index(x: int, y: int, col: int) -> int {
    ((x % 64) + col + (y % 32) * 64) % 2048
}

/// Bit of the sprite-row byte shown in column `col`, highest bit first.
pub open spec fn col_bit(buff: u8, col: int) -> u8 {
    (buff >> ((7 - col) as u8)) & 1
}

/// The display buffer after XOR-compositing the first `ncols` columns of the
/// sprite-row byte `buff` at base coordinates `(x, y)`.
pub open spec fn draw_cols(d: Seq<u8>, x: int, y: int, buff: u8, ncols: int) -> Seq<u8>
    decreases ncols,
{
    if ncols <= 0 {
        d
    } else {
        let prev = draw_cols(d, x, y, buff, ncols - 1);
        let idx = pixel_index(x, y, ncols - 1);
        prev.update(idx, prev[idx] ^ col_bit(buff, ncols - 1))
    }
}

/// Whether compositing the first `ncols` columns of the sprite-row byte
/// `buff` at `(x, y)` turns some lit pixel dark.
pub open spec fn collision_cols(d: Seq<u8>, x: int, y: int, buff: u8, ncols: int) -> bool
    decreases ncols,
{
    if ncols <= 0 {
        false
    } else {
        let prev = draw_cols(d, x, y, buff, ncols - 1);
        collision_cols(d, x, y, buff, ncols - 1) || (prev[pixel_index(x, y, ncols - 1)] == 1
            && col_bit(buff, ncols - 1) == 1)
    }
}

impl Display {
    /// The buffer always covers exactly 64 x 32 cells.
    pub open spec fn wf(&self) -> bool {
        self.display@.len() == 2048
    }

    /// A fresh display with every pixel dark.
    pub fn new() -> (r: Display)
        ensures
            r.wf(),
            r.display@ == Seq::new(2048, |j: int| 0u8),
    {
        let d = Display { display: vec![0u8; 2048] };
        proof {
            assert(d.display@ =~= Seq::new(2048, |j: int| 0u8));
        }
        d
    }

    /// Turns every pixel dark.
    pub fn clear_screen(&mut self)
        ensures
            final(self).wf(),
            final(self).display@ == Seq::new(2048, |j: int| 0u8),
    {
        self.display = vec![0u8; 2048];
        proof {
            assert(self.display@ =~= Seq::new(2048, |j: int| 0u8));
        }
    }

    /// A copy of the buffer, row-major, 64 cells per row.
    pub fn get_display(&self) -> (r: Vec<u8>)
        requires
            self.wf(),
        ensures
            r@ == self.display@,
    {
        let mut r: Vec<u8> = Vec::new();
        let mut k: usize = 0;
        while k < 2048
            invariant
                k <= 2048,
                self.wf(),
                r@ =~= self.display@.subrange(0, k as int),
            decreases 2048 - k,
        {
            r.push(self.display[k]);
            k = k + 1;
        }
        proof {
            assert(r@ =~= self.display@);
        }
        r
    }

    /// Replaces the whole buffer.
    pub fn set_display(&mut self, display: Vec<u8>)
        requires
            display@.len() == 2048,
        ensures
            final(self).wf(),
            final(self).display@ == display@,
    {
        self.display = display;
    }

    /// XOR-composites one 8-pixel sprite row at base coordinates `(x, y)`,
    /// wrapping modulo the screen extent, and reports whether some lit pixel
    /// went dark.
    pub fn draw(&mut self, x: u32, y: u32, buff: u8) -> (collision: bool)
        requires
            old(self).wf(),
        ensures
            final(self).wf(),
            final(self).display@ == draw_cols(old(self).display@, x as int, y as int, buff, 8),
            collision == collision_cols(old(self).display@, x as int, y as int, buff, 8),
    {
        let xm: u32 = x % 64;
        let ym: u32 = y % 32;
        let mut collision = false;
        let mut col: u32 = 0;
        while col < 8
            invariant
                col <= 8,
                xm == x % 64,
                ym == y % 32,
                self.wf(),
                self.display@ == draw_cols(old(self).display@, x as int, y as int, buff,
                    col as int),
                collision == collision_cols(old(self).display@, x as int, y as int, buff,
                    col as int),
            decreases 8 - col,
        {
            let bit = (buff >> ((7 - col) as u8)) & 0x01;
            let display_coord = ((xm + col + ym * 64) % 2048) as usize;
            proof {
                assert(bit == col_bit(buff, col as int));
                assert(display_coord == pixel_index(x as int, y as int, col as int));
            }
            if self.display[display_coord] == 1 && bit == 1 {
                collision = true;
            }
            let cell = self.display[display_coord] ^ bit;
            self.display[display_coord] = cell;
            col = col + 1;
        }
        collision
    }
}

} // verus!
