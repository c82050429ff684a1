//! The two instructions that change the framebuffer.

use vstd::prelude::*;
use crate::chip::errors::ChipError;
use crate::chip::interpreter::{Chip8, OPCODE_SIZE, SCREEN_HEIGHT, SCREEN_WIDTH};
use crate::chip::laws::lemma_ring;
use crate::chip::machine::{lands, Machine};

verus! {

/// Whether the sprite has a set pixel on the cell (`cy`, `cx`) among its
/// pixels that are drawn before the one at (`row`, `col`).
spec fn covers_before(m: Machine, vx: int, vy: int, row: int, col: int, cy: int, cx: int) -> bool {
    let r = (cy - vy) % 32;
    let c = (cx - vx) % 64;
    (r < row || (r == row && c < col)) && c < 8 && m.sprite_pixel(r, c)
}

/// Whether one of the sprite pixels drawn before the one at (`row`, `col`)
/// fell on a lit cell.
spec fn collides_before(m: Machine, vx: int, vy: int, row: int, col: int) -> bool {
    exists|cy: int, cx: int|
        0 <= cy < 32 && 0 <= cx < 64 && m.screen[cy][cx] && #[trigger] covers_before(
            m,
            vx,
            vy,
            row,
            col,
            cy,
            cx,
        )
}

/// Drawing the pixel at (`row`, `col`) adds exactly the cell that it falls on.
proof fn lemma_pixel_covers(m: Machine, vx: int, vy: int, row: int, col: int, cy: int, cx: int)
    requires
        0 <= vx < 256,
        0 <= vy < 256,
        0 <= row < 16,
        0 <= col < 8,
        0 <= cy < 32,
        0 <= cx < 64,
    ensures
        covers_before(m, vx, vy, row, col + 1, cy, cx) == (covers_before(
            m,
            vx,
            vy,
            row,
            col,
            cy,
            cx,
        ) || (cy == (vy + row) % 32 && cx == (vx + col) % 64 && m.sprite_pixel(row, col))),
{
    lemma_ring(vy, row, cy, 32);
    lemma_ring(vx, col, cx, 64);
}

/// Drawing the pixel at (`row`, `col`) adds exactly the cell that it falls
/// on, and collides exactly if that cell was lit.
proof fn lemma_pixel_drawn(m: Machine, vx: int, vy: int, row: int, col: int)
    requires
        0 <= vx < 256,
        0 <= vy < 256,
        0 <= row < 16,
        0 <= col < 8,
    ensures
        forall|cy: int, cx: int|
            0 <= cy < 32 && 0 <= cx < 64 ==> #[trigger] covers_before(m, vx, vy, row, col + 1, cy, cx)
                == (covers_before(m, vx, vy, row, col, cy, cx) || (cy == (vy + row) % 32 && cx == (vx
                + col) % 64 && m.sprite_pixel(row, col))),
        collides_before(m, vx, vy, row, col + 1) == (collides_before(m, vx, vy, row, col) || (
        m.screen[(vy + row) % 32][(vx + col) % 64] && m.sprite_pixel(row, col))),
{
    let cy0 = (vy + row) % 32;
    let cx0 = (vx + col) % 64;
    assert forall|cy: int, cx: int| 0 <= cy < 32 && 0 <= cx < 64 implies #[trigger] covers_before(
        m,
        vx,
        vy,
        row,
        col + 1,
        cy,
        cx,
    ) == (covers_before(m, vx, vy, row, col, cy, cx) || (cy == cy0 && cx == cx0 && m.sprite_pixel(
        row,
        col,
    ))) by {
        lemma_pixel_covers(m, vx, vy, row, col, cy, cx);
    }
    if collides_before(m, vx, vy, row, col + 1) {
        let (cy, cx) = choose|cy: int, cx: int|
            0 <= cy < 32 && 0 <= cx < 64 && m.screen[cy][cx] && #[trigger] covers_before(
                m,
                vx,
                vy,
                row,
                col + 1,
                cy,
                cx,
            );
        if covers_before(m, vx, vy, row, col, cy, cx) {
            assert(collides_before(m, vx, vy, row, col));
        }
    }
    if collides_before(m, vx, vy, row, col) {
        let (cy, cx) = choose|cy: int, cx: int|
            0 <= cy < 32 && 0 <= cx < 64 && m.screen[cy][cx] && #[trigger] covers_before(
                m,
                vx,
                vy,
                row,
                col,
                cy,
                cx,
            );
        assert(covers_before(m, vx, vy, row, col + 1, cy, cx));
    }
    if m.screen[cy0][cx0] && m.sprite_pixel(row, col) {
        assert(covers_before(m, vx, vy, row, col + 1, cy0, cx0));
    }
}

/// The end of one sprite row is the start of the next.
proof fn lemma_row_drawn(m: Machine, vx: int, vy: int, row: int)
    ensures
        forall|cy: int, cx: int| #[trigger]
            covers_before(m, vx, vy, row, 8, cy, cx) == covers_before(m, vx, vy, row + 1, 0, cy, cx),
        collides_before(m, vx, vy, row, 8) == collides_before(m, vx, vy, row + 1, 0),
{
    if collides_before(m, vx, vy, row, 8) {
        let (cy, cx) = choose|cy: int, cx: int|
            0 <= cy < 32 && 0 <= cx < 64 && m.screen[cy][cx] && #[trigger] covers_before(
                m,
                vx,
                vy,
                row,
                8,
                cy,
                cx,
            );
        assert(covers_before(m, vx, vy, row + 1, 0, cy, cx));
    }
    if collides_before(m, vx, vy, row + 1, 0) {
        let (cy, cx) = choose|cy: int, cx: int|
            0 <= cy < 32 && 0 <= cx < 64 && m.screen[cy][cx] && #[trigger] covers_before(
                m,
                vx,
                vy,
                row + 1,
                0,
                cy,
                cx,
            );
        assert(covers_before(m, vx, vy, row, 8, cy, cx));
    }
}

/// Before the first row nothing is drawn; after the last one the whole
/// sprite is.
proof fn lemma_sprite_drawn(m: Machine, vx: int, vy: int, n: int)
    requires
        0 <= n,
    ensures
        forall|cy: int, cx: int| !#[trigger] covers_before(m, vx, vy, 0, 0, cy, cx),
        !collides_before(m, vx, vy, 0, 0),
        forall|cy: int, cx: int| #[trigger]
            covers_before(m, vx, vy, n, 0, cy, cx) == m.sprite_covers(vx, vy, n, cy, cx),
        collides_before(m, vx, vy, n, 0) == m.sprite_collides(vx, vy, n),
{
    if collides_before(m, vx, vy, n, 0) {
        let (cy, cx) = choose|cy: int, cx: int|
            0 <= cy < 32 && 0 <= cx < 64 && m.screen[cy][cx] && #[trigger] covers_before(
                m,
                vx,
                vy,
                n,
                0,
                cy,
                cx,
            );
        assert(m.sprite_covers(vx, vy, n, cy, cx));
    }
    if m.sprite_collides(vx, vy, n) {
        let (cy, cx) = choose|cy: int, cx: int|
            0 <= cy < 32 && 0 <= cx < 64 && m.screen[cy][cx] && #[trigger] m.sprite_covers(
                vx,
                vy,
                n,
                cy,
                cx,
            );
        assert(covers_before(m, vx, vy, n, 0, cy, cx));
    }
}

impl Chip8 {
    /// CLS - clear the display
    pub(super) fn op_00e0(&mut self) -> (res: Result<(), ChipError>)
        ensures
            lands(old(self)@, final(self)@, res, old(self)@.cls()),
    {
        let next = match self.next_pc(OPCODE_SIZE) {
            Ok(p) => p,
            Err(e) => return Err(e),
        };
        proof {
            use_type_invariant(&*self);
        }
        let mut i: usize = 0;
        while i < SCREEN_HEIGHT
            invariant
                i <= 32,
                self.same_scalars(*old(self)),
                self.ram == old(self).ram,
                self.regs == old(self).regs,
                forall|cy: int, cx: int| 0 <= cy < i && 0 <= cx < 64 ==> #[trigger] self.screen[cy][cx] == 0,
            decreases 32 - i,
        {
            let mut j: usize = 0;
            while j < SCREEN_WIDTH
                invariant
                    i < 32,
                    j <= 64,
                    self.same_scalars(*old(self)),
                    self.ram == old(self).ram,
                    self.regs == old(self).regs,
                    forall|cy: int, cx: int|
                        0 <= cy < i && 0 <= cx < 64 ==> #[trigger] self.screen[cy][cx] == 0,
                    forall|cx: int| 0 <= cx < j ==> #[trigger] self.screen[i as int][cx] == 0,
                decreases 64 - j,
            {
                proof {
                    use_type_invariant(&*self);
                }
                self.screen[i][j] = 0;
                j += 1;
            }
            i += 1;
        }
        proof {
            use_type_invariant(&*self);
        }
        self.pc = next;
        proof {
            let after = old(self)@.cls()->Ok_0;
            assert(self@.screen =~~= after.screen);
            assert(self@ =~= after);
        }
        Ok(())
    }

    /// DRW - Display n-byte sprite starting at memory location I at (Vx, Vy), set VF = collision.
    /// The sprite is XORed onto the screen, one byte per row and the most
    /// significant bit first, wrapping around the edges.
    pub(super) fn op_dxyn(&mut self, x: usize, y: usize, n: usize) -> (res: Result<(), ChipError>)
        requires
            x < 16,
            y < 16,
            n < 16,
        ensures
            lands(old(self)@, final(self)@, res, old(self)@.drw(x as int, y as int, n as int)),
    {
        if n > 0 && self.i as usize + n > 4096 {
            return Err(ChipError::AddressBoundaryError);
        }
        let next = match self.next_pc(OPCODE_SIZE) {
            Ok(p) => p,
            Err(e) => return Err(e),
        };
        proof {
            use_type_invariant(&*self);
        }
        let ghost before = self@;
        let vx = self.regs[x] as usize;
        let vy = self.regs[y] as usize;
        self.regs[0x0F] = 0;
        proof {
            lemma_sprite_drawn(before, vx as int, vy as int, n as int);
        }
        let mut byte: usize = 0;
        while byte < n
            invariant
                byte <= n < 16,
                n > 0 ==> self.i + n <= 4096,
                vx < 256,
                vy < 256,
                before == old(self)@,
                self.same_scalars(*old(self)),
                self.ram == old(self).ram,
                forall|r: int| 0 <= r < 15 ==> self.regs[r] == old(self).regs[r],
                self.regs[15] <= 1,
                (self.regs[15] == 1) == collides_before(before, vx as int, vy as int, byte as int, 0),
                forall|cy: int, cx: int|
                    0 <= cy < 32 && 0 <= cx < 64 ==> (#[trigger] self.screen[cy][cx] == 1u8) == (
                    before.screen[cy][cx] != covers_before(
                        before,
                        vx as int,
                        vy as int,
                        byte as int,
                        0,
                        cy,
                        cx,
                    )),
            decreases n - byte,
        {
            let sprite = self.ram[self.i as usize + byte];
            let cy = (vy + byte) % SCREEN_HEIGHT;
            let mut bit: usize = 0;
            while bit < 8
                invariant
                    bit <= 8,
                    byte < n < 16,
                    self.i + n <= 4096,
                    vx < 256,
                    vy < 256,
                    cy == (vy + byte) % 32,
                    sprite == before.memory[before.index + byte],
                    before == old(self)@,
                    self.same_scalars(*old(self)),
                    self.ram == old(self).ram,
                    forall|r: int| 0 <= r < 15 ==> self.regs[r] == old(self).regs[r],
                    self.regs[15] <= 1,
                    (self.regs[15] == 1) == collides_before(
                        before,
                        vx as int,
                        vy as int,
                        byte as int,
                        bit as int,
                    ),
                    forall|cy: int, cx: int|
                        0 <= cy < 32 && 0 <= cx < 64 ==> (#[trigger] self.screen[cy][cx] == 1u8) == (
                        before.screen[cy][cx] != covers_before(
                            before,
                            vx as int,
                            vy as int,
                            byte as int,
                            bit as int,
                            cy,
                            cx,
                        )),
                decreases 8 - bit,
            {
                // for each bit from the most significant to the least
                let cx = (vx + bit) % SCREEN_WIDTH;
                let shift: u8 = 7 - bit as u8;
                let pixel: u8 = (sprite >> shift) & 1;
                let cell: u8 = self.screen[cy][cx];
                let flag: u8 = self.regs[0x0F];
                proof {
                    use_type_invariant(&*self);
                    lemma_pixel_drawn(before, vx as int, vy as int, byte as int, bit as int);
                    assert(pixel <= 1) by (bit_vector)
                        requires
                            pixel == (sprite >> shift) & 1,
                    ;
                    assert((pixel ^ cell) <= 1 && ((pixel ^ cell) == 1) == ((cell == 1) != (pixel
                        == 1))) by (bit_vector)
                        requires
                            pixel <= 1,
                            cell <= 1,
                    ;
                    assert((flag | (pixel & cell)) <= 1 && ((flag | (pixel & cell)) == 1) == (flag
                        == 1 || (pixel == 1 && cell == 1))) by (bit_vector)
                        requires
                            pixel <= 1,
                            cell <= 1,
                            flag <= 1,
                    ;
                    assert((pixel == 1) == before.sprite_pixel(byte as int, bit as int));
                    assert((cell == 1) == before.screen[cy as int][cx as int]);
                }
                self.regs[0x0F] = flag | (pixel & cell);
                self.screen[cy][cx] = pixel ^ cell;
                bit += 1;
            }
            proof {
                lemma_row_drawn(before, vx as int, vy as int, byte as int);
            }
            byte += 1;
        }
        proof {
            use_type_invariant(&*self);
        }
        self.screen_drawed = true;
        self.pc = next;
        proof {
            let after = old(self)@.drw(x as int, y as int, n as int)->Ok_0;
            assert(self@.regs =~= after.regs);
            assert(self@.screen =~~= after.screen);
            assert(self@ =~= after);
        }
        Ok(())
    }
}

} // verus!
