//! The stream of colors given to bodies that can move.
//!
//! The stream is a xorshift generator of 32-bit words.  Its state is four
//! words; a step drops the first, keeps the other three and appends the word
//! that the generator yields.  A color takes three steps, one per channel,
//! and each channel is the upper half of its word.  The same state therefore
//! always gives the same colors.

use rand::RngCore;
use rand::SeedableRng;
use rand_xorshift::XorShiftRng;
use vstd::prelude::*;
use crate::math::Color;

verus! {

/// The word that a xorshift generator yields first when its state holds the
/// words `x`, `y`, `z`, `w`, in this order.
pub uninterp spec fn xorshift_word(x: u32, y: u32, z: u32, w: u32) -> u32;

/// Seeds an `XorShiftRng` with the four words, each in little-endian byte
/// order, which is how `from_seed` reads them back, and returns what
/// `next_u32` yields first.  The result depends on the four words alone.
#[verifier::external_body]
fn next_word(x: u32, y: u32, z: u32, w: u32) -> (word: u32)
    ensures
        word == xorshift_word(x, y, z, w),
{
    let mut seed = [0u8; 16];
    seed[0..4].copy_from_slice(&x.to_le_bytes());
    seed[4..8].copy_from_slice(&y.to_le_bytes());
    seed[8..12].copy_from_slice(&z.to_le_bytes());
    seed[12..16].copy_from_slice(&w.to_le_bytes());
    XorShiftRng::from_seed(seed).next_u32()
}

/// The channel that a generator word stands for: its upper sixteen bits,
/// read as a fraction of one.
pub open spec fn channel_of(word: u32) -> i32 {
    (word >> 16) as i32
}

/// A channel is at least zero and less than one.
pub proof fn lemma_channel_range(word: u32)
    ensures
        0 <= channel_of(word) < 65536,
{
    assert(word >> 16 < 65536) by (bit_vector);
}

/// State of the color stream.
#[derive(Clone, Copy, Debug, PartialEq, Eq)]
pub struct ColorStream {
    pub x: u32,
    pub y: u32,
    pub z: u32,
    pub w: u32,
}

impl ColorStream {
    /// The word that the next step yields.
    pub open spec fn word(self) -> u32 {
        xorshift_word(self.x, self.y, self.z, self.w)
    }

    /// The state after one step.
    pub open spec fn stepped(self) -> ColorStream {
        ColorStream { x: self.y, y: self.z, z: self.w, w: self.word() }
    }

    /// The state after `n` steps.
    pub open spec fn advanced(self, n: nat) -> ColorStream
        decreases n,
    {
        if n == 0 {
            self
        } else {
            self.advanced((n - 1) as nat).stepped()
        }
    }

    /// The color that the next three steps yield.
    pub open spec fn color(self) -> Color {
        Color {
            r: channel_of(self.word()),
            g: channel_of(self.stepped().word()),
            b: channel_of(self.stepped().stepped().word()),
        }
    }

    /// A stream that starts from the given four words.
    pub fn new(x: u32, y: u32, z: u32, w: u32) -> (stream: ColorStream)
        ensures
            stream == (ColorStream { x, y, z, w }),
    {
        ColorStream { x, y, z, w }
    }

    /// Takes one step and returns the word it yields.
    pub fn next_u32(&mut self) -> (word: u32)
        ensures
            word == old(self).word(),
            *final(self) == old(self).stepped(),
    {
        let word = next_word(self.x, self.y, self.z, self.w);
        self.x = self.y;
        self.y = self.z;
        self.z = self.w;
        self.w = word;
        word
    }

    /// Takes three steps and returns the color they yield.
    pub fn next_color(&mut self) -> (color: Color)
        ensures
            color == old(self).color(),
            *final(self) == old(self).advanced(3),
    {
        let r = self.next_u32();
        let g = self.next_u32();
        let b = self.next_u32();
        proof {
            reveal_with_fuel(ColorStream::advanced, 4);
        }
        Color { r: (r >> 16) as i32, g: (g >> 16) as i32, b: (b >> 16) as i32 }
    }

    /// Takes and drops `count` colors.
    pub fn skip(&mut self, count: usize)
        ensures
            *final(self) == old(self).advanced(3 * count as nat),
    {
        let mut i: usize = 0;
        while i < count
            invariant
                i <= count,
                *self == old(self).advanced(3 * i as nat),
            decreases count - i,
        {
            let _ = self.next_color();
            proof {
                lemma_advanced_sum(*old(self), 3 * i as nat, 3);
            }
            i = i + 1;
        }
    }
}

/// Taking `a` steps and then `b` steps is taking `a + b` steps.
pub proof fn lemma_advanced_sum(stream: ColorStream, a: nat, b: nat)
    ensures
        stream.advanced(a).advanced(b) == stream.advanced(a + b),
    decreases b,
{
    if b > 0 {
        lemma_advanced_sum(stream, a, (b - 1) as nat);
    }
}

} // verus!
