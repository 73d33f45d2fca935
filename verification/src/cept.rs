//! Stateful CEPT escape-sequence encoder.
//!
//! A `Cept` value is one encoding session: an append-only byte buffer plus
//! the tracked terminal state (cursor, palette, colors, character size,
//! charset designation).  Every operation appends a fixed control sequence
//! (or encoded text) to the buffer and updates the tracked state.  The
//! tracked state matters only while building one fragment: concatenating two
//! fragments is pure buffer concatenation, and the right-hand fragment's
//! emitted codes govern whatever terminal state follows.

use vstd::prelude::*;

verus! {

/// The tracked terminal state of one encoding session.
///
/// `row`/`col` are the cursor position on the 24x40 grid (1-based).
/// `palette` is the active palette slot; `fg`, `screen_bg` and `line_bg` the
/// tracked color slots.  `double_height`, `parallel` and `left_g3` are the
/// standing modes: character size, parallel-attribute convention, and
/// whether the line-drawing set is designated into the left charset slot.
#[derive(Clone, Copy, Debug, PartialEq, Eq, Structural)]
pub struct CeptState {
    pub row: u8,
    pub col: u8,
    pub palette: u8,
    pub fg: u8,
    pub screen_bg: u8,
    pub line_bg: u8,
    pub double_height: bool,
    pub parallel: bool,
    pub left_g3: bool,
}

/// One protocol fragment under construction: the emitted bytes, the logical
/// character count (characters of text emitted, independent of how many
/// bytes each one took), and the tracked terminal state.
pub struct Cept {
    pub data: Vec<u8>,
    pub chars: Ghost<nat>,
    pub state: CeptState,
}

impl View for Cept {
    type V = Seq<u8>;

    open spec fn view(&self) -> Seq<u8> {
        self.data@
    }
}

/// The byte encoding of one character of text.
///
/// Characters of the base 7-bit repertoire are one byte.  The German letters
/// outside it are an alternate-character-set invocation (`0x19`, the G2
/// single-shift) followed by a combining-diaeresis code and the base letter,
/// or the dedicated sharp-s code.  `\r` and `\n` pass through as line
/// control.  Any other character is deterministically substituted by `?`,
/// never dropped, so that column-alignment arithmetic stays valid.
pub open spec fn encode_char(c: char) -> Seq<u8> {
    if c == '\r' {
        seq![0x0du8]
    } else if c == '\n' {
        seq![0x0au8]
    } else if 0x20 <= c as u32 && c as u32 <= 0x7e {
        seq![(c as u32) as u8]
    } else if c == 'ä' {
        seq![0x19u8, 0x48u8, 0x61u8]
    } else if c == 'ö' {
        seq![0x19u8, 0x48u8, 0x6fu8]
    } else if c == 'ü' {
        seq![0x19u8, 0x48u8, 0x75u8]
    } else if c == 'Ä' {
        seq![0x19u8, 0x48u8, 0x41u8]
    } else if c == 'Ö' {
        seq![0x19u8, 0x48u8, 0x4fu8]
    } else if c == 'Ü' {
        seq![0x19u8, 0x48u8, 0x55u8]
    } else if c == 'ß' {
        seq![0x19u8, 0x7bu8]
    } else {
        seq![0x3fu8]
    }
}

/// The byte encoding of a string of text: the characters' encodings in order.
pub open spec fn encode_str(s: Seq<char>) -> Seq<u8>
    decreases s.len(),
{
    if s.len() == 0 {
        Seq::empty()
    } else {
        encode_str(s.drop_last()) + encode_char(s.last())
    }
}

/// Text encoding distributes over concatenation: encoding two strings one
/// after the other emits the same bytes as encoding their concatenation.
pub proof fn lemma_encode_str_concat(a: Seq<char>, b: Seq<char>)
    ensures
        encode_str(a + b) == encode_str(a) + encode_str(b),
    decreases b.len(),
{
    if b.len() == 0 {
        assert(a + b =~= a);
        assert(encode_str(a) + encode_str(b) =~= encode_str(a));
    } else {
        assert((a + b).drop_last() =~= a + b.drop_last());
        lemma_encode_str_concat(a, b.drop_last());
        assert(encode_str(a) + encode_str(b) =~= (encode_str(a) + encode_str(b.drop_last()))
            + encode_char(b.last()));
        assert(encode_str(a + b) == encode_str((a + b).drop_last()) + encode_char((a + b).last()));
        assert((a + b).last() == b.last());
    }
}

proof fn lemma_encode_str_take_step(s: Seq<char>, i: int)
    requires
        0 <= i < s.len(),
    ensures
        encode_str(s.take(i + 1)) == encode_str(s.take(i)) + encode_char(s[i]),
{
    assert(s.take(i + 1).drop_last() =~= s.take(i));
    assert(s.take(i + 1).last() == s[i]);
}

impl Cept {
    /// Tracked-state bounds: the cursor stays on the 24x40 grid and the
    /// color/palette slots stay in their tables.
    pub open spec fn wf(self) -> bool {
        &&& 1 <= self.state.row <= 24
        &&& 1 <= self.state.col <= 40
        &&& self.state.palette <= 3
        &&& self.state.fg <= 31
        &&& self.state.screen_bg <= 7
        &&& self.state.line_bg <= 7
    }

    /// The logical character count of the fragment.
    pub open spec fn char_count(self) -> nat {
        self.chars@
    }

    /// A fresh fragment: empty buffer, cursor at the origin, palette 0,
    /// white foreground on black, normal size, serial mode, text charset.
    pub fn new() -> (c: Cept)
        ensures
            c@ == Seq::<u8>::empty(),
            c.char_count() == 0,
            c.state == (CeptState {
                row: 1,
                col: 1,
                palette: 0,
                fg: 7,
                screen_bg: 0,
                line_bg: 0,
                double_height: false,
                parallel: false,
                left_g3: false,
            }),
            c.wf(),
    {
        Cept {
            data: Vec::new(),
            chars: Ghost(0),
            state: CeptState {
                row: 1,
                col: 1,
                palette: 0,
                fg: 7,
                screen_bg: 0,
                line_bg: 0,
                double_height: false,
                parallel: false,
                left_g3: false,
            },
        }
    }

    /// Address the cursor.  Positions outside the grid are a caller error
    /// and are excluded outright rather than clamped.
    pub fn set_cursor(&mut self, row: u8, col: u8)
        requires
            old(self).wf(),
            1 <= row <= 24,
            1 <= col <= 40,
        ensures
            final(self)@ == old(self)@ + seq![0x1fu8, (0x40 + row) as u8, (0x40 + col) as u8],
            final(self).char_count() == old(self).char_count(),
            final(self).state == (CeptState { row, col, ..old(self).state }),
            final(self).wf(),
    {
        self.data.push(0x1f);
        self.data.push(0x40 + row);
        self.data.push(0x40 + col);
        self.state.row = row;
        self.state.col = col;
    }

    /// Address the cursor, validating the position first: a row or column
    /// outside the addressable grid is reported loudly as
    /// `InvalidCursorPosition` -- never silently clamped -- and leaves the
    /// fragment untouched.
    pub fn try_set_cursor(&mut self, row: u8, col: u8) -> (r: Result<(), crate::PageError>)
        requires
            old(self).wf(),
        ensures
            r is Ok <==> (1 <= row <= 24 && 1 <= col <= 40),
            r matches Err(e) ==> e == crate::PageError::InvalidCursorPosition && *final(self)
                == *old(self),
            r is Ok ==> final(self)@ == old(self)@ + seq![
                0x1fu8,
                (0x40 + row) as u8,
                (0x40 + col) as u8,
            ] && final(self).char_count() == old(self).char_count() && final(self).state == (
            CeptState { row, col, ..old(self).state }),
            final(self).wf(),
    {
        if 1 <= row && row <= 24 && 1 <= col && col <= 40 {
            self.set_cursor(row, col);
            Ok(())
        } else {
            Err(crate::PageError::InvalidCursorPosition)
        }
    }

    /// Select one of the palette slots; later color codes are interpreted
    /// relative to it.
    pub fn set_palette(&mut self, idx: u8)
        requires
            old(self).wf(),
            idx <= 3,
        ensures
            final(self)@ == old(self)@ + seq![0x9bu8, (0x30 + idx) as u8, 0x40u8],
            final(self).char_count() == old(self).char_count(),
            final(self).state == (CeptState { palette: idx, ..old(self).state }),
            final(self).wf(),
    {
        self.data.push(0x9b);
        self.data.push(0x30 + idx);
        self.data.push(0x40);
        self.state.palette = idx;
    }

    /// Foreground color from the reduced 8-entry table.
    pub fn set_fg_color_simple(&mut self, c: u8)
        requires
            old(self).wf(),
            c <= 7,
        ensures
            final(self)@ == old(self)@ + seq![(0x80 + c) as u8],
            final(self).char_count() == old(self).char_count(),
            final(self).state == (CeptState { fg: c, ..old(self).state }),
            final(self).wf(),
    {
        self.data.push(0x80 + c);
        self.state.fg = c;
    }

    /// Foreground color from the full direct-code table.
    pub fn set_fg_color(&mut self, c: u8)
        requires
            old(self).wf(),
            c <= 31,
        ensures
            final(self)@ == old(self)@ + seq![0x1bu8, 0x23u8, 0x40u8, (0x40 + c) as u8],
            final(self).char_count() == old(self).char_count(),
            final(self).state == (CeptState { fg: c, ..old(self).state }),
            final(self).wf(),
    {
        self.data.push(0x1b);
        self.data.push(0x23);
        self.data.push(0x40);
        self.data.push(0x40 + c);
        self.state.fg = c;
    }

    /// Background color of the whole screen, from the 8-entry table.
    pub fn set_screen_bg_color_simple(&mut self, c: u8)
        requires
            old(self).wf(),
            c <= 7,
        ensures
            final(self)@ == old(self)@ + seq![0x1bu8, 0x23u8, 0x20u8, (0x50 + c) as u8],
            final(self).char_count() == old(self).char_count(),
            final(self).state == (CeptState { screen_bg: c, ..old(self).state }),
            final(self).wf(),
    {
        self.data.push(0x1b);
        self.data.push(0x23);
        self.data.push(0x20);
        self.data.push(0x50 + c);
        self.state.screen_bg = c;
    }

    /// Background color of the current line, from the 8-entry table.
    pub fn set_line_bg_color_simple(&mut self, c: u8)
        requires
            old(self).wf(),
            c <= 7,
        ensures
            final(self)@ == old(self)@ + seq![0x1bu8, 0x23u8, 0x21u8, (0x50 + c) as u8],
            final(self).char_count() == old(self).char_count(),
            final(self).state == (CeptState { line_bg: c, ..old(self).state }),
            final(self).wf(),
    {
        self.data.push(0x1b);
        self.data.push(0x23);
        self.data.push(0x21);
        self.data.push(0x50 + c);
        self.state.line_bg = c;
    }

    /// Switch to double-height characters; a standing mode until
    /// `normal_size` is called.
    pub fn double_height(&mut self)
        requires
            old(self).wf(),
        ensures
            final(self)@ == old(self)@ + seq![0x8du8],
            final(self).char_count() == old(self).char_count(),
            final(self).state == (CeptState { double_height: true, ..old(self).state }),
            final(self).wf(),
    {
        self.data.push(0x8d);
        self.state.double_height = true;
    }

    /// Return to normal-size characters.
    pub fn normal_size(&mut self)
        requires
            old(self).wf(),
        ensures
            final(self)@ == old(self)@ + seq![0x8cu8],
            final(self).char_count() == old(self).char_count(),
            final(self).state == (CeptState { double_height: false, ..old(self).state }),
            final(self).wf(),
    {
        self.data.push(0x8c);
        self.state.double_height = false;
    }

    /// Switch to the parallel-attribute charset-designation convention; a
    /// standing mode, not a one-shot emission.
    pub fn parallel_mode(&mut self)
        requires
            old(self).wf(),
        ensures
            final(self)@ == old(self)@ + seq![0x1bu8, 0x22u8, 0x41u8],
            final(self).char_count() == old(self).char_count(),
            final(self).state == (CeptState { parallel: true, ..old(self).state }),
            final(self).wf(),
    {
        self.data.push(0x1b);
        self.data.push(0x22);
        self.data.push(0x41);
        self.state.parallel = true;
    }

    /// The fixed attribute-boundary marker emitted after a run of
    /// palette/color/size changes.  An opaque one-byte commit marker; no
    /// further behavior is attached to it.
    pub fn code_9e(&mut self)
        requires
            old(self).wf(),
        ensures
            final(self)@ == old(self)@ + seq![0x9eu8],
            final(self).char_count() == old(self).char_count(),
            final(self).state == old(self).state,
            final(self).wf(),
    {
        self.data.push(0x9e);
    }

    /// Designate the default text set into the left charset slot.
    pub fn set_left_g0(&mut self)
        requires
            old(self).wf(),
        ensures
            final(self)@ == old(self)@ + seq![0x0fu8],
            final(self).char_count() == old(self).char_count(),
            final(self).state == (CeptState { left_g3: false, ..old(self).state }),
            final(self).wf(),
    {
        self.data.push(0x0f);
        self.state.left_g3 = false;
    }

    /// Designate the line-drawing set into the left charset slot; a standing
    /// mode used together with `repeat` to draw divider rules.
    pub fn set_left_g3(&mut self)
        requires
            old(self).wf(),
        ensures
            final(self)@ == old(self)@ + seq![0x1bu8, 0x6fu8],
            final(self).char_count() == old(self).char_count(),
            final(self).state == (CeptState { left_g3: true, ..old(self).state }),
            final(self).wf(),
    {
        self.data.push(0x1b);
        self.data.push(0x6f);
        self.state.left_g3 = true;
    }

    /// Append literal bytes, bypassing text encoding; used for
    /// escape-sequence introducers and line-control bytes.
    pub fn add_raw(&mut self, bytes: &[u8])
        requires
            old(self).wf(),
        ensures
            final(self)@ == old(self)@ + bytes@,
            final(self).char_count() == old(self).char_count(),
            final(self).state == old(self).state,
            final(self).wf(),
    {
        self.data.extend_from_slice(bytes);
    }

    /// Emit one literal byte value `count` times; used for rule fills and
    /// column padding.  Each repetition stands for one character cell, so
    /// the logical character count advances by `count`.
    pub fn repeat(&mut self, byte: u8, count: usize)
        requires
            old(self).wf(),
        ensures
            final(self)@ == old(self)@ + Seq::new(count as nat, |i: int| byte),
            final(self).char_count() == old(self).char_count() + count,
            final(self).state == old(self).state,
            final(self).wf(),
    {
        let mut i: usize = 0;
        while i < count
            invariant
                i <= count,
                self.data@ == old(self).data@ + Seq::new(i as nat, |j: int| byte),
                self.chars == old(self).chars,
                self.state == old(self).state,
            decreases count - i,
        {
            self.data.push(byte);
            assert(Seq::new((i + 1) as nat, |j: int| byte) =~= Seq::new(i as nat, |j: int| byte).push(byte));
            i = i + 1;
        }
        self.chars = Ghost((self.chars@ + count) as nat);
    }

    /// Encode one character of text into the buffer.
    fn add_char(&mut self, c: char)
        requires
            old(self).wf(),
        ensures
            final(self)@ == old(self)@ + encode_char(c),
            final(self).char_count() == old(self).char_count() + 1,
            final(self).state == old(self).state,
            final(self).wf(),
    {
        if c == '\r' {
            self.data.push(0x0d);
        } else if c == '\n' {
            self.data.push(0x0a);
        } else if 0x20 <= c as u32 && c as u32 <= 0x7e {
            self.data.push(c as u8);
        } else if c == 'ä' {
            self.data.push(0x19);
            self.data.push(0x48);
            self.data.push(0x61);
        } else if c == 'ö' {
            self.data.push(0x19);
            self.data.push(0x48);
            self.data.push(0x6f);
        } else if c == 'ü' {
            self.data.push(0x19);
            self.data.push(0x48);
            self.data.push(0x75);
        } else if c == 'Ä' {
            self.data.push(0x19);
            self.data.push(0x48);
            self.data.push(0x41);
        } else if c == 'Ö' {
            self.data.push(0x19);
            self.data.push(0x48);
            self.data.push(0x4f);
        } else if c == 'Ü' {
            self.data.push(0x19);
            self.data.push(0x48);
            self.data.push(0x55);
        } else if c == 'ß' {
            self.data.push(0x19);
            self.data.push(0x7b);
        } else {
            self.data.push(0x3f);
        }
        self.chars = Ghost((self.chars@ + 1) as nat);
        assert(final(self)@ =~= old(self)@ + encode_char(c));
    }

    /// Encode a textual string into protocol-conformant bytes.  The logical
    /// character count advances by exactly the number of characters of the
    /// string, however many bytes each took.
    pub fn add_str(&mut self, s: &str)
        requires
            old(self).wf(),
        ensures
            final(self)@ == old(self)@ + encode_str(s@),
            final(self).char_count() == old(self).char_count() + s@.len(),
            final(self).state == old(self).state,
            final(self).wf(),
    {
        let n = s.unicode_len();
        let mut i: usize = 0;
        while i < n
            invariant
                i <= n,
                n == s@.len(),
                self@ == old(self)@ + encode_str(s@.take(i as int)),
                self.char_count() == old(self).char_count() + i,
                self.state == old(self).state,
                self.wf(),
            decreases n - i,
        {
            let c = s.get_char(i);
            self.add_char(c);
            proof {
                lemma_encode_str_take_step(s@, i as int);
            }
            i = i + 1;
        }
        assert(s@.take(n as int) =~= s@);
    }

    /// Concatenate another fragment onto this one: pure buffer
    /// concatenation, no re-validation across the boundary.  The logical
    /// character counts add up, and the tracked state becomes the other
    /// fragment's, since its emitted codes are what the terminal saw last.
    pub fn append(&mut self, other: &Cept)
        requires
            old(self).wf(),
            other.wf(),
        ensures
            final(self)@ == old(self)@ + other@,
            final(self).char_count() == old(self).char_count() + other.char_count(),
            final(self).state == other.state,
            final(self).wf(),
    {
        self.data.extend_from_slice(other.data.as_slice());
        self.chars = Ghost((self.chars@ + other.chars@) as nat);
        self.state = other.state;
    }

    /// The emitted bytes, for transmission.
    pub fn bytes(&self) -> (r: &Vec<u8>)
        ensures
            r@ == self@,
    {
        &self.data
    }
}

} // verus!

