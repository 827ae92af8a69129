//! Spinners: indicators of ongoing activity that cycle through a fixed set of
//! frames, one glyph per frame.

use vstd::arithmetic::div_mod::{lemma_add_mod_noop_right, lemma_mod_mod};
use vstd::prelude::*;

use crate::braille::{braille, braille_char};

verus! {

/// An indicator that animates through `period()` frames.
///
/// Advancing the frame by one shows the next frame of the animation; both
/// setters wrap around instead of failing, so a spinner can be stepped
/// forever.
pub trait Spinner: Sized {
    /// Number of distinct frames.
    spec fn period() -> nat;

    /// The frame currently shown, in `0..period()`.
    spec fn frame(&self) -> nat;

    /// The glyph shown in frame `f`.
    spec fn glyph_at(f: nat) -> char;

    /// A spinner has at least one frame, and at most as many as a `u32` has
    /// values.
    proof fn period_bounds()
        ensures
            0 < Self::period() <= 0x1_0000_0000,
    ;

    /// Show frame `value`, reduced modulo the period.
    fn set(&mut self, value: u32)
        ensures
            final(self).frame() == value as nat % Self::period(),
    ;

    /// Advance the animation by `count` frames, wrapping around.
    fn step(&mut self, count: u32)
        ensures
            final(self).frame() == (old(self).frame() + count as nat) % Self::period(),
    ;

    /// The glyph of the current frame. Rendering reads the state only, so two
    /// renderings of an unchanged spinner agree.
    fn glyph(&self) -> (r: char)
        ensures
            r == Self::glyph_at(self.frame()),
    ;
}

/// Stepping by `count` from frame `f` shows the same glyph as setting the frame
/// to `(f + count) mod period()` directly.
pub proof fn lemma_step_agrees_with_set<S: Spinner>(f: nat, count: u32)
    ensures
        S::glyph_at((f + count as nat) % S::period()) == S::glyph_at(
            (((f + count as nat) % S::period()) as u32) as nat % S::period(),
        ),
{
    S::period_bounds();
    let target = (f + count as nat) % S::period();
    assert(target < S::period());
    assert((target as u32) as nat == target);
    vstd::arithmetic::div_mod::lemma_small_mod(target, S::period());
}

/// Stepping a spinner by exactly its period brings back the glyph it showed.
pub proof fn lemma_full_turn<S: Spinner>(f: nat)
    requires
        f < S::period(),
        S::period() <= u32::MAX,
    ensures
        S::glyph_at((f + (S::period() as u32) as nat) % S::period()) == S::glyph_at(f),
{
    S::period_bounds();
    let p = S::period();
    vstd::arithmetic::div_mod::lemma_mod_add_multiples_vanish(f as int, p as int);
    vstd::arithmetic::div_mod::lemma_small_mod(f, p);
}

/// A spinner that counts through 256 frames in binary, one braille dot per bit.
#[derive(Eq, PartialEq, Ord, PartialOrd, Debug, Copy, Clone)]
pub struct Counter256 {
    state: u8,
}

impl Counter256 {
    /// A counter showing the empty cell.
    pub fn new() -> (r: Self)
        ensures
            r.frame() == 0,
    {
        Counter256 { state: 0 }
    }
}

impl Spinner for Counter256 {
    open spec fn period() -> nat {
        256
    }

    closed spec fn frame(&self) -> nat {
        self.state as nat
    }

    open spec fn glyph_at(f: nat) -> char {
        braille_char(f as u8)
    }

    proof fn period_bounds() {
    }

    fn set(&mut self, value: u32) {
        self.state = (value % 256) as u8;
    }

    fn step(&mut self, count: u32) {
        self.state = self.state.wrapping_add((count % 256) as u8);
    }

    fn glyph(&self) -> (r: char) {
        braille(self.state)
    }
}

/// Reducing a byte counter modulo a period that divides 256 gives the same
/// frame as reducing the unbounded sum.
proof fn lemma_byte_wrap(state: nat, count: nat, p: nat, q: nat)
    requires
        p > 0,
        q > 0,
        p * q == 256,
    ensures
        ((state + count % 256) % 256) % p == (state + count) % p,
{
    lemma_add_mod_noop_right(state as int, count as int, 256);
    lemma_mod_mod((state + count) as int, p as int, q as int);
}

/// A spinner that cycles through 8 frames with a single braille dot going round.
#[derive(Eq, PartialEq, Ord, PartialOrd, Debug, Copy, Clone)]
pub struct Spinner8 {
    state: u8,
}

impl Spinner8 {
    /// The frame is always within the period.
    #[verifier::type_invariant]
    spec fn inv(&self) -> bool {
        self.state < 8
    }

    /// A spinner showing its first frame.
    pub fn new() -> (r: Self)
        ensures
            r.frame() == 0,
    {
        Spinner8 { state: 0 }
    }
}

impl Spinner for Spinner8 {
    open spec fn period() -> nat {
        8
    }

    closed spec fn frame(&self) -> nat {
        self.state as nat
    }

    open spec fn glyph_at(f: nat) -> char {
        seq!['⡀', '⠄', '⠂', '⠁', '⠈', '⠐', '⠠', '⢀'][f as int]
    }

    proof fn period_bounds() {
    }

    fn set(&mut self, value: u32) {
        *self = Spinner8 { state: (value % 8) as u8 };
        proof {
            lemma_mod_mod(value as int, 8, 32);
        }
    }

    fn step(&mut self, count: u32) {
        proof {
            use_type_invariant(&*self);
            lemma_byte_wrap(self.state as nat, count as nat, 8, 32);
        }
        *self = Spinner8 { state: self.state.wrapping_add((count % 256) as u8) % 8 };
    }

    fn glyph(&self) -> (r: char) {
        proof {
            use_type_invariant(self);
        }
        match self.state {
            0 => '⡀',
            1 => '⠄',
            2 => '⠂',
            3 => '⠁',
            4 => '⠈',
            5 => '⠐',
            6 => '⠠',
            _ => '⢀',
        }
    }
}

/// A spinner that counts through 16 frames in binary, one quadrant block per bit.
#[derive(Eq, PartialEq, Ord, PartialOrd, Debug, Copy, Clone)]
pub struct Counter16 {
    state: u8,
}

impl Counter16 {
    /// The frame is always within the period.
    #[verifier::type_invariant]
    spec fn inv(&self) -> bool {
        self.state < 16
    }

    /// A spinner showing its first frame.
    pub fn new() -> (r: Self)
        ensures
            r.frame() == 0,
    {
        Counter16 { state: 0 }
    }
}

impl Spinner for Counter16 {
    open spec fn period() -> nat {
        16
    }

    closed spec fn frame(&self) -> nat {
        self.state as nat
    }

    open spec fn glyph_at(f: nat) -> char {
        seq![' ', '▘', '▖', '▌', '▝', '▀', '▞', '▛', '▗', '▚', '▄', '▙', '▐', '▜', '▟', '█'][f as int]
    }

    proof fn period_bounds() {
    }

    fn set(&mut self, value: u32) {
        *self = Counter16 { state: (value % 16) as u8 };
        proof {
            lemma_mod_mod(value as int, 16, 16);
        }
    }

    fn step(&mut self, count: u32) {
        proof {
            use_type_invariant(&*self);
            lemma_byte_wrap(self.state as nat, count as nat, 16, 16);
        }
        *self = Counter16 { state: self.state.wrapping_add((count % 256) as u8) % 16 };
    }

    fn glyph(&self) -> (r: char) {
        proof {
            use_type_invariant(self);
        }
        match self.state {
            0 => ' ',
            1 => '▘',
            2 => '▖',
            3 => '▌',
            4 => '▝',
            5 => '▀',
            6 => '▞',
            7 => '▛',
            8 => '▗',
            9 => '▚',
            10 => '▄',
            11 => '▙',
            12 => '▐',
            13 => '▜',
            14 => '▟',
            _ => '█',
        }
    }
}

/// A spinner that cycles through 4 frames with a single quadrant block going round.
#[derive(Eq, PartialEq, Ord, PartialOrd, Debug, Copy, Clone)]
pub struct Spinner4 {
    state: u8,
}

impl Spinner4 {
    /// The frame is always within the period.
    #[verifier::type_invariant]
    spec fn inv(&self) -> bool {
        self.state < 4
    }

    /// A spinner showing its first frame.
    pub fn new() -> (r: Self)
        ensures
            r.frame() == 0,
    {
        Spinner4 { state: 0 }
    }
}

impl Spinner for Spinner4 {
    open spec fn period() -> nat {
        4
    }

    closed spec fn frame(&self) -> nat {
        self.state as nat
    }

    open spec fn glyph_at(f: nat) -> char {
        seq!['▖', '▘', '▝', '▗'][f as int]
    }

    proof fn period_bounds() {
    }

    fn set(&mut self, value: u32) {
        *self = Spinner4 { state: (value % 4) as u8 };
        proof {
            lemma_mod_mod(value as int, 4, 64);
        }
    }

    fn step(&mut self, count: u32) {
        proof {
            use_type_invariant(&*self);
            lemma_byte_wrap(self.state as nat, count as nat, 4, 64);
        }
        *self = Spinner4 { state: self.state.wrapping_add((count % 256) as u8) % 4 };
    }

    fn glyph(&self) -> (r: char) {
        proof {
            use_type_invariant(self);
        }
        match self.state {
            0 => '▖',
            1 => '▘',
            2 => '▝',
            _ => '▗',
        }
    }
}

/// Half the snake's period: the run of lit dots grows for this many frames and
/// then shrinks for as many.
pub const WOBBLE: u32 = 5;

/// Where frame `s` stands within the grow-and-shrink period.
pub open spec fn snake_phase(s: u32) -> int {
    s as int % (2 * WOBBLE) as int
}

/// Number of lit dots in frame `s`: from `WOBBLE + 1` down to one and back.
pub open spec fn snake_length(s: u32) -> int {
    let d = snake_phase(s) - WOBBLE;
    (if d < 0 { -d } else { d }) + 1
}

/// How far the run has travelled round the track in frame `s`: `WOBBLE`
/// dots per full period, plus the steps taken while shrinking.
pub open spec fn snake_position(s: u32) -> int {
    let d = snake_phase(s) - WOBBLE;
    WOBBLE * (s as int / (2 * WOBBLE) as int) + (if d > 0 { d } else { 0 })
}

/// The low `len` bits set.
pub open spec fn run_mask(len: u8) -> u8 {
    !(0xFFu8 << len)
}

/// `b` rotated right by `r` places, for `r < 8`.
pub open spec fn rotate_right8(b: u8, r: u8) -> u8 {
    (b >> r) | (b << ((8 - r) % 8) as u8)
}

/// `b` with its high nibble reversed: the track runs down the left column and
/// up the right one, while the cell's bitmap runs down both.
pub open spec fn turn_high_nibble(b: u8) -> u8 {
    (b & 0x0F) | ((b & 0x80) >> 3u8) | ((b & 0x40) >> 1u8) | ((b & 0x20) << 1u8) | ((b & 0x10) << 3u8)
}

/// The bitmap of lit dots in frame `s`.
pub open spec fn snake_dots(s: u32) -> u8 {
    turn_high_nibble(rotate_right8(run_mask(snake_length(s) as u8), (snake_position(s) % 8) as u8))
}

/// A spinner with a snake of one to six braille dots that travels round the
/// cell, growing and shrinking as it turns.
#[derive(Eq, PartialEq, Ord, PartialOrd, Debug, Copy, Clone)]
pub struct Snake {
    state: u32,
}

impl Snake {
    /// A snake at its first frame.
    pub fn new() -> (r: Self)
        ensures
            r.frame() == 0,
    {
        Snake { state: 0 }
    }
}

impl Spinner for Snake {
    open spec fn period() -> nat {
        0x1_0000_0000
    }

    closed spec fn frame(&self) -> nat {
        self.state as nat
    }

    open spec fn glyph_at(f: nat) -> char {
        braille_char(snake_dots(f as u32))
    }

    proof fn period_bounds() {
    }

    fn set(&mut self, value: u32) {
        self.state = value;
    }

    fn step(&mut self, count: u32) {
        self.state = self.state.wrapping_add(count);
    }

    fn glyph(&self) -> (r: char) {
        let s = self.state;
        let phase = s % (2 * WOBBLE);
        let length: u8 = if phase < WOBBLE {
            (WOBBLE - phase + 1) as u8
        } else {
            (phase - WOBBLE + 1) as u8
        };
        let bits: u8 = !(0xFFu8 << length);
        let position: u32 = WOBBLE * (s / (2 * WOBBLE)) + phase.saturating_sub(WOBBLE);
        let r: u8 = (position % 8) as u8;
        let snake: u8 = (bits >> r) | (bits << ((8 - r) % 8));
        let dots: u8 = (snake & 0x0F) | ((snake & 0x80) >> 3u8) | ((snake & 0x40) >> 1u8)
            | ((snake & 0x20) << 1u8) | ((snake & 0x10) << 3u8);
        braille(dots)
    }
}

} // verus!
