//! A scrolling text panel: a 32 by 32 grid of character cells and palette
//! bank cells, packed four cells to a word, with a write position that walks
//! the grid line by line.
//!
//! The cells are kept as whole words because the display's tile memory only
//! takes full-width stores; a single cell is placed by replacing one byte
//! lane of its word and preserving the other three.

use vstd::prelude::*;
use vstd::wrapping::u16_specs;
use vstd::wrapping::u32_specs;

use crate::bits::{set_field32, u32_set_field};

verus! {

/// The number of byte cells in the grid.
pub open spec fn grid_cells() -> int {
    1024
}

/// The word a cell grid holds when every one of its four byte lanes is `b`.
pub open spec fn word_of_byte(b: u8) -> u32 {
    (b + b * 256 + b * 65536 + b * 16777216) as u32
}

/// The write position after moving `delta` lines from `pos`: the position is
/// snapped to the start of its line, moved, and wrapped within the grid.
pub open spec fn line_changed(pos: u32, delta: i32) -> u32 {
    ((u32_specs::wrapping_add(pos / 32, delta as u32) % 32) * 32) as u32
}

/// The cell grid `chars` with the byte cell at `pos` replaced by `b`: one
/// byte lane of one word changes and everything else is preserved.
pub open spec fn cell_put(chars: Seq<u32>, pos: u32, b: u8) -> Seq<u32> {
    chars.update(pos as int / 4, u32_set_field(chars[pos as int / 4], ((pos % 4) * 8) as u32, 8, b as u32))
}

/// The panel state `(chars, pos)` after one byte is pushed: a newline moves
/// to the next line; any other byte lands in the cell at `pos`, and when the
/// position then reaches the line's print margin, the panel moves to the
/// next line.
pub open spec fn pushed_byte(chars: Seq<u32>, pos: u32, b: u8) -> (Seq<u32>, u32) {
    if b == 10 {
        (chars, line_changed(pos, 1))
    } else {
        let chars2 = cell_put(chars, pos, b);
        let pos2 = (pos + 1) as u32;
        if pos2 % 32 == 30 {
            (chars2, line_changed(pos2, 1))
        } else {
            (chars2, pos2)
        }
    }
}

/// The panel state after every byte of `bytes` is pushed in order.
pub open spec fn pushed_bytes(chars: Seq<u32>, pos: u32, bytes: Seq<u8>) -> (Seq<u32>, u32)
    decreases bytes.len(),
{
    if bytes.len() == 0 {
        (chars, pos)
    } else {
        let s = pushed_byte(chars, pos, bytes[0]);
        pushed_bytes(s.0, s.1, bytes.drop_first())
    }
}

/// Pushing bytes one prefix at a time composes: pushing `bytes` and then one
/// more byte `b` is pushing `bytes.push(b)` at once.
pub proof fn lemma_pushed_bytes_snoc(chars: Seq<u32>, pos: u32, bytes: Seq<u8>, b: u8)
    ensures
        pushed_bytes(chars, pos, bytes.push(b)).0 == pushed_byte(
            pushed_bytes(chars, pos, bytes).0,
            pushed_bytes(chars, pos, bytes).1,
            b,
        ).0,
        pushed_bytes(chars, pos, bytes.push(b)).1 == pushed_byte(
            pushed_bytes(chars, pos, bytes).0,
            pushed_bytes(chars, pos, bytes).1,
            b,
        ).1,
    decreases bytes.len(),
{
    assert(bytes.push(b).len() == bytes.len() + 1);
    if bytes.len() == 0 {
        assert(bytes.push(b)[0] == b);
        assert(bytes.push(b).drop_first() =~= Seq::<u8>::empty());
        let s = pushed_byte(chars, pos, b);
        assert(pushed_bytes(s.0, s.1, Seq::<u8>::empty()).0 == s.0);
        assert(pushed_bytes(chars, pos, bytes.push(b)).0 == s.0);
        assert(pushed_bytes(chars, pos, bytes).0 == chars);
        assert(pushed_bytes(chars, pos, bytes).1 == pos);
    } else {
        assert(bytes.push(b)[0] == bytes[0]);
        let s = pushed_byte(chars, pos, bytes[0]);
        assert(bytes.push(b).drop_first() =~= bytes.drop_first().push(b));
        lemma_pushed_bytes_snoc(s.0, s.1, bytes.drop_first(), b);
        assert(pushed_bytes(chars, pos, bytes.push(b)).0 == pushed_bytes(
            s.0,
            s.1,
            bytes.drop_first().push(b),
        ).0);
        assert(pushed_bytes(chars, pos, bytes).0 == pushed_bytes(s.0, s.1, bytes.drop_first()).0);
    }
}

/// The vertical scroll offset that keeps the panel's current line visible:
/// the line is held near the bottom of the display, with all arithmetic
/// wrapping as the hardware's offset registers do.
pub open spec fn scroll_of(pos: u32) -> u16 {
    u16_specs::wrapping_sub(
        0,
        u16_specs::wrapping_mul(u16_specs::wrapping_sub(19, (pos / 32) as u16), 8),
    )
}

/// A 32 by 32 terminal panel: character cells, palette bank cells and the
/// write position.
pub struct TerminalPanel {
    chars: Vec<u32>,
    banks: Vec<u32>,
    position: u32,
}

impl TerminalPanel {
    /// The character cells, four to a word.
    pub closed spec fn spec_chars(self) -> Seq<u32> {
        self.chars@
    }

    /// The palette bank cells, four to a word.
    pub closed spec fn spec_banks(self) -> Seq<u32> {
        self.banks@
    }

    /// The write position: the byte cell the next character lands in.
    pub closed spec fn spec_position(self) -> u32 {
        self.position
    }

    /// The grids hold exactly the 1024 cells each, and the position is
    /// inside the grid, short of its line's print margin.
    pub closed spec fn wf(self) -> bool {
        self.chars@.len() * 4 == grid_cells() && self.banks@.len() * 4 == grid_cells()
            && self.position < grid_cells() && self.position % 32 < 30
    }

    /// A cleared panel: every cell zero, the position at the first cell.
    pub fn new() -> (r: Self)
        ensures
            r.wf(),
            r.spec_position() == 0,
            r.spec_chars().len() == 256,
            r.spec_banks().len() == 256,
            forall|i: int| 0 <= i < 256 ==> r.spec_chars()[i] == 0u32,
            forall|i: int| 0 <= i < 256 ==> r.spec_banks()[i] == 0u32,
    {
        let mut chars: Vec<u32> = Vec::new();
        let mut banks: Vec<u32> = Vec::new();
        let mut n: usize = 0;
        while n < 256
            invariant
                n <= 256,
                chars@.len() == n,
                banks@.len() == n,
                forall|i: int| 0 <= i < n ==> chars@[i] == 0u32,
                forall|i: int| 0 <= i < n ==> banks@[i] == 0u32,
            decreases 256 - n,
        {
            chars.push(0);
            banks.push(0);
            n = n + 1;
        }
        TerminalPanel { chars, banks, position: 0 }
    }

    /// The character cells, four to a word, for handing to the display.
    pub fn char_words(&self) -> (r: &Vec<u32>)
        ensures
            r@ == self.spec_chars(),
    {
        &self.chars
    }

    /// The palette bank cells, four to a word, for handing to the display.
    pub fn bank_words(&self) -> (r: &Vec<u32>)
        ensures
            r@ == self.spec_banks(),
    {
        &self.banks
    }

    /// The write position.
    pub fn position(&self) -> (r: u32)
        ensures
            r == self.spec_position(),
    {
        self.position
    }

    /// Fills every character cell with `ch`'s low byte: each word gets the
    /// byte in all four lanes.
    pub fn set_all_chars(&mut self, ch: char)
        requires
            old(self).wf(),
        ensures
            final(self).wf(),
            final(self).spec_chars().len() == old(self).spec_chars().len(),
            forall|i: int|
                0 <= i < old(self).spec_chars().len() ==> final(self).spec_chars()[i]
                    == word_of_byte((ch as u32 % 256) as u8),
            final(self).spec_banks() == old(self).spec_banks(),
            final(self).spec_position() == old(self).spec_position(),
    {
        let b: u8 = (ch as u32 % 256) as u8;
        let u: u32 = (b as u32) * 0x0101_0101;
        let mut n: usize = 0;
        while n < 256
            invariant
                old(self).wf(),
                self.chars@.len() == 256,
                n <= 256,
                u == word_of_byte((ch as u32 % 256) as u8),
                forall|i: int| 0 <= i < n ==> self.chars@[i] == u,
                self.banks@ == old(self).spec_banks(),
                self.position == old(self).spec_position(),
            decreases 256 - n,
        {
            self.chars[n] = u;
            n = n + 1;
        }
    }

    /// Fills every palette bank cell with `b`: each word gets the byte in
    /// all four lanes.
    pub fn set_all_banks(&mut self, b: u8)
        requires
            old(self).wf(),
        ensures
            final(self).wf(),
            final(self).spec_banks().len() == old(self).spec_banks().len(),
            forall|i: int|
                0 <= i < old(self).spec_banks().len() ==> final(self).spec_banks()[i]
                    == word_of_byte(b),
            final(self).spec_chars() == old(self).spec_chars(),
            final(self).spec_position() == old(self).spec_position(),
    {
        let u: u32 = (b as u32) * 0x0101_0101;
        let mut n: usize = 0;
        while n < 256
            invariant
                old(self).wf(),
                self.banks@.len() == 256,
                n <= 256,
                u == word_of_byte(b),
                forall|i: int| 0 <= i < n ==> self.banks@[i] == u,
                self.chars@ == old(self).spec_chars(),
                self.position == old(self).spec_position(),
            decreases 256 - n,
        {
            self.banks[n] = u;
            n = n + 1;
        }
    }

    /// Moves the write position `delta` lines, snapping it to the start of
    /// its line and wrapping within the grid.
    pub fn change_line(&mut self, delta: i32)
        requires
            old(self).spec_chars().len() * 4 == grid_cells(),
            old(self).spec_banks().len() * 4 == grid_cells(),
        ensures
            final(self).wf(),
            final(self).spec_position() == line_changed(old(self).spec_position(), delta),
            final(self).spec_chars() == old(self).spec_chars(),
            final(self).spec_banks() == old(self).spec_banks(),
    {
        let line: u32 = self.position / 32;
        #[verifier::truncate]
        let d: u32 = delta as u32;
        self.position = (line.wrapping_add(d) % 32) * 32;
    }

    /// Pushes one byte into the panel as `pushed_byte` describes: a newline
    /// moves to the next line, any other byte lands in the cell at the write
    /// position.
    fn push_one(&mut self, byte: u8)
        requires
            old(self).wf(),
        ensures
            final(self).wf(),
            final(self).spec_chars() == pushed_byte(
                old(self).spec_chars(),
                old(self).spec_position(),
                byte,
            ).0,
            final(self).spec_position() == pushed_byte(
                old(self).spec_chars(),
                old(self).spec_position(),
                byte,
            ).1,
            final(self).spec_banks() == old(self).spec_banks(),
    {
        if byte == 10 {
            self.change_line(1);
        } else {
            let w: usize = (self.position / 4) as usize;
            let lane: u32 = (self.position % 4) * 8;
            let updated = set_field32(self.chars[w], lane, 8, byte as u32);
            self.chars[w] = updated;
            self.position = self.position + 1;
            if self.position % 32 == 30 {
                self.change_line(1);
            }
        }
    }

    /// Pushes every byte of `bytes` in order, as `pushed_bytes` describes.
    pub fn push_bytes(&mut self, bytes: &[u8])
        requires
            old(self).wf(),
        ensures
            final(self).wf(),
            final(self).spec_chars() == pushed_bytes(
                old(self).spec_chars(),
                old(self).spec_position(),
                bytes@,
            ).0,
            final(self).spec_position() == pushed_bytes(
                old(self).spec_chars(),
                old(self).spec_position(),
                bytes@,
            ).1,
            final(self).spec_banks() == old(self).spec_banks(),
    {
        let n = bytes.len();
        let mut i: usize = 0;
        while i < n
            invariant
                self.wf(),
                n == bytes@.len(),
                i <= n,
                self.spec_chars() == pushed_bytes(
                    old(self).spec_chars(),
                    old(self).spec_position(),
                    bytes@.subrange(0, i as int),
                ).0,
                self.spec_position() == pushed_bytes(
                    old(self).spec_chars(),
                    old(self).spec_position(),
                    bytes@.subrange(0, i as int),
                ).1,
                self.spec_banks() == old(self).spec_banks(),
            decreases n - i,
        {
            let b = bytes[i];
            proof {
                assert(bytes@.subrange(0, i + 1) =~= bytes@.subrange(0, i as int).push(bytes@[
                    i as int]));
                lemma_pushed_bytes_snoc(
                    old(self).spec_chars(),
                    old(self).spec_position(),
                    bytes@.subrange(0, i as int),
                    bytes@[i as int],
                );
            }
            self.push_one(b);
            i = i + 1;
        }
        proof {
            assert(bytes@.subrange(0, n as int) =~= bytes@);
        }
    }

    /// The vertical scroll offset that keeps the current line visible, as
    /// `scroll_of` describes.
    pub fn scroll_point(&self) -> (r: u16)
        requires
            self.wf(),
        ensures
            r == scroll_of(self.spec_position()),
    {
        let line: u16 = (self.position / 32) as u16;
        0u16.wrapping_sub(19u16.wrapping_sub(line).wrapping_mul(8))
    }
}

} // verus!
