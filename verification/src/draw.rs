//! The instructions that work on the framebuffer.

use vstd::prelude::*;
use crate::consts::{FLAG, SCREEN_HEIGHT, SCREEN_SIZE, SCREEN_WIDTH};
use crate::emu::Emu;
use crate::machine::{cell_of, lemma_cell_of, sprite_bit, sprite_col, sprite_row, Machine};

verus! {

impl Machine {
    /// Whether `cell` carries a set pixel among those of the sprite that
    /// come before pixel `c` of row `r`, going row by row.
    pub(crate) open spec fn sprite_covers_before(self, vx: u8, vy: u8, r: int, c: int, cell: int) -> bool {
        let pc = sprite_col(vx, cell);
        let pr = sprite_row(vy, cell);
        pc < 8 && (pr < r || (pr == r && pc < c)) && sprite_bit(self.ram[self.i + pr], pc as u8)
    }

    /// Whether a lit cell carries a set pixel among those that come before
    /// pixel `c` of row `r`.
    pub(crate) open spec fn sprite_collides_before(self, vx: u8, vy: u8, r: int, c: int) -> bool {
        exists|cell: int|
            0 <= cell < 2048 && self.screen[cell] && #[trigger] self.sprite_covers_before(
                vx,
                vy,
                r,
                c,
                cell,
            )
    }
}

/// Whether pixel `c` of a sprite row is set.
fn pixel_set(row: u8, c: u8) -> (b: bool)
    requires
        c < 8,
    ensures
        b == sprite_bit(row, c),
{
    row & (0x80u8 >> c) != 0
}

impl Emu {
    /// `00E0`.
    pub(crate) fn clr_scr(&mut self)
        ensures
            final(self)@ == old(self)@.clear_screen(),
    {
        proof {
            use_type_invariant(&*self);
        }
        self.screen = [false; SCREEN_SIZE];
        assert(self@.screen =~= old(self)@.clear_screen().screen);
    }

    /// Flips the framebuffer cell on which pixel `c` of row `r` falls, and
    /// says whether it was lit.
    fn flip_pixel(&mut self, vx: u8, vy: u8, r: u8, c: u8) -> (lit: bool)
        requires
            r < 16,
            c < 8,
        ensures
            lit == old(self)@.screen[cell_of(vx, vy, r as int, c as int)],
            final(self)@ == (Machine {
                screen: old(self)@.screen.update(cell_of(vx, vy, r as int, c as int), !lit),
                ..old(self)@
            }),
    {
        proof {
            use_type_invariant(&*self);
        }
        let px = (vx as usize + c as usize) % SCREEN_WIDTH;
        let py = (vy as usize + r as usize) % SCREEN_HEIGHT;
        let idx = px + py * SCREEN_WIDTH;
        let lit = self.screen[idx];
        self.screen[idx] = !lit;
        lit
    }

    /// Draws one row of a sprite.
    fn draw_row(&mut self, vx: u8, vy: u8, r: u8, before: Ghost<Machine>, flipped: bool) -> (now: bool)
        requires
            r < 16,
            before@.i + r < 4096,
            before@.wf(),
            old(self)@ == (Machine { screen: old(self)@.screen, ..before@ }),
            forall|cell: int|
                0 <= cell < 2048 ==> old(self)@.screen[cell] == (before@.screen[cell]
                    != before@.sprite_covers_before(vx, vy, r as int, 0, cell)),
            flipped == before@.sprite_collides_before(vx, vy, r as int, 0),
        ensures
            final(self)@ == (Machine { screen: final(self)@.screen, ..before@ }),
            forall|cell: int|
                0 <= cell < 2048 ==> final(self)@.screen[cell] == (before@.screen[cell]
                    != before@.sprite_covers_before(vx, vy, r as int, 8, cell)),
            now == before@.sprite_collides_before(vx, vy, r as int, 8),
    {
        let pixels = self.ram[self.i_reg as usize + r as usize];
        let mut flipped = flipped;
        let mut c: u8 = 0;
        while c < 8
            invariant
                c <= 8,
                r < 16,
                before@.i + r < 4096,
                before@.wf(),
                pixels == before@.ram[before@.i + r],
                self@ == (Machine { screen: self@.screen, ..before@ }),
                forall|cell: int|
                    0 <= cell < 2048 ==> self@.screen[cell] == (before@.screen[cell]
                        != before@.sprite_covers_before(vx, vy, r as int, c as int, cell)),
                flipped == before@.sprite_collides_before(vx, vy, r as int, c as int),
            decreases 8 - c,
        {
            let ghost prev = self@;
            let ghost target = cell_of(vx, vy, r as int, c as int);
            proof {
                assert forall|cell: int| 0 <= cell < 2048 implies (sprite_col(vx, cell) == c
                    && sprite_row(vy, cell) == r) == (cell == target) by {
                    lemma_cell_of(vx, vy, r as int, c as int, cell);
                }
                lemma_cell_of(vx, vy, r as int, c as int, 0);
            }
            if pixel_set(pixels, c) {
                let lit = self.flip_pixel(vx, vy, r, c);
                proof {
                    assert(!before@.sprite_covers_before(vx, vy, r as int, c as int, target));
                    assert(before@.sprite_covers_before(vx, vy, r as int, c + 1, target));
                    assert forall|cell: int| 0 <= cell < 2048 implies self@.screen[cell] == (
                    before@.screen[cell] != before@.sprite_covers_before(
                        vx,
                        vy,
                        r as int,
                        c + 1,
                        cell,
                    )) by {
                        if cell != target {
                            assert(prev.screen[cell] == self@.screen[cell]);
                            assert(before@.sprite_covers_before(vx, vy, r as int, c + 1, cell)
                                == before@.sprite_covers_before(vx, vy, r as int, c as int, cell));
                        }
                    }
                    if flipped || lit {
                        if flipped {
                            let w = choose|cell: int|
                                0 <= cell < 2048 && before@.screen[cell]
                                    && #[trigger] before@.sprite_covers_before(
                                    vx,
                                    vy,
                                    r as int,
                                    c as int,
                                    cell,
                                );
                            assert(before@.sprite_covers_before(vx, vy, r as int, c + 1, w));
                        } else {
                            assert(before@.screen[target]);
                        }
                        assert(before@.sprite_collides_before(vx, vy, r as int, c + 1));
                    } else {
                        assert forall|cell: int|
                            0 <= cell < 2048 && before@.screen[cell] implies !before@.sprite_covers_before(
                            vx,
                            vy,
                            r as int,
                            c + 1,
                            cell,
                        ) by {
                            if cell != target {
                                assert(!before@.sprite_covers_before(
                                    vx,
                                    vy,
                                    r as int,
                                    c as int,
                                    cell,
                                ));
                            }
                        }
                    }
                }
                flipped = flipped || lit;
            } else {
                proof {
                    assert forall|cell: int| 0 <= cell < 2048 implies before@.sprite_covers_before(
                        vx,
                        vy,
                        r as int,
                        c + 1,
                        cell,
                    ) == before@.sprite_covers_before(vx, vy, r as int, c as int, cell) by {}
                    if flipped {
                        let w = choose|cell: int|
                            0 <= cell < 2048 && before@.screen[cell]
                                && #[trigger] before@.sprite_covers_before(
                                vx,
                                vy,
                                r as int,
                                c as int,
                                cell,
                            );
                        assert(before@.sprite_covers_before(vx, vy, r as int, c + 1, w));
                    }
                }
            }
            c += 1;
        }
        flipped
    }

    /// `DXYN`.
    pub(crate) fn draw_sprite(&mut self, x: u8, y: u8, rows: u8)
        requires
            x < 16,
            y < 16,
            rows < 16,
            rows == 0 || old(self)@.i + rows <= 4096,
        ensures
            final(self)@ == old(self)@.draw(x, y, rows),
    {
        proof {
            use_type_invariant(&*self);
        }
        let vx = self.v_reg[x as usize];
        let vy = self.v_reg[y as usize];
        let ghost before = self@;
        let mut flipped = false;
        let mut r: u8 = 0;
        while r < rows
            invariant
                r <= rows < 16,
                rows == 0 || before.i + rows <= 4096,
                before.wf(),
                self.sp <= 16,
                self@ == (Machine { screen: self@.screen, ..before }),
                forall|cell: int|
                    0 <= cell < 2048 ==> self@.screen[cell] == (before.screen[cell]
                        != before.sprite_covers_before(vx, vy, r as int, 0, cell)),
                flipped == before.sprite_collides_before(vx, vy, r as int, 0),
            decreases rows - r,
        {
            flipped = self.draw_row(vx, vy, r, Ghost(before), flipped);
            proof {
                use_type_invariant(&*self);
                assert forall|cell: int| 0 <= cell < 2048 implies before.sprite_covers_before(
                    vx,
                    vy,
                    r + 1,
                    0,
                    cell,
                ) == before.sprite_covers_before(vx, vy, r as int, 8, cell) by {}
                if flipped {
                    let w = choose|cell: int|
                        0 <= cell < 2048 && before.screen[cell]
                            && #[trigger] before.sprite_covers_before(vx, vy, r as int, 8, cell);
                    assert(before.sprite_covers_before(vx, vy, r + 1, 0, w));
                }
            }
            r += 1;
        }
        proof {
            assert forall|cell: int| 0 <= cell < 2048 implies before.sprite_covers_before(
                vx,
                vy,
                rows as int,
                0,
                cell,
            ) == before.sprite_covers(vx, vy, rows, cell) by {}
            if flipped {
                let w = choose|cell: int|
                    0 <= cell < 2048 && before.screen[cell]
                        && #[trigger] before.sprite_covers_before(vx, vy, rows as int, 0, cell);
                assert(before.sprite_covers(vx, vy, rows, w));
            }
            assert(self@.screen =~= before.draw(x, y, rows).screen);
        }
        self.v_reg[FLAG] = if flipped {
            1
        } else {
            0
        };
    }
}

} // verus!
