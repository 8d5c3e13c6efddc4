use vstd::prelude::*;

verus! {

/// Whether bit `k` of `bits` is set.
pub open spec fn bit_set(bits: u8, k: u8) -> bool {
    bits & (1u8 << k) != 0
}

/// Input bitmask:
/// bit 0=left, 1=right, 2=up(jump), 3=down(crouch),
/// 4=light_attack, 5=heavy_attack, 6=special, 7=block
#[derive(Debug, Clone, Copy, PartialEq, Eq, Structural, Hash)]
pub struct Input(pub u8);

impl Input {
    pub open spec fn left(self) -> bool {
        bit_set(self.0, 0)
    }

    pub open spec fn right(self) -> bool {
        bit_set(self.0, 1)
    }

    pub open spec fn up(self) -> bool {
        bit_set(self.0, 2)
    }

    pub open spec fn down(self) -> bool {
        bit_set(self.0, 3)
    }

    pub open spec fn light(self) -> bool {
        bit_set(self.0, 4)
    }

    pub open spec fn heavy(self) -> bool {
        bit_set(self.0, 5)
    }

    pub open spec fn special(self) -> bool {
        bit_set(self.0, 6)
    }

    pub open spec fn block(self) -> bool {
        bit_set(self.0, 7)
    }

    pub fn is_left(self) -> (r: bool)
        ensures
            r == self.left(),
    {
        self.0 & (1u8 << 0u8) != 0
    }

    pub fn is_right(self) -> (r: bool)
        ensures
            r == self.right(),
    {
        self.0 & (1u8 << 1u8) != 0
    }

    pub fn is_up(self) -> (r: bool)
        ensures
            r == self.up(),
    {
        self.0 & (1u8 << 2u8) != 0
    }

    pub fn is_down(self) -> (r: bool)
        ensures
            r == self.down(),
    {
        self.0 & (1u8 << 3u8) != 0
    }

    pub fn is_light(self) -> (r: bool)
        ensures
            r == self.light(),
    {
        self.0 & (1u8 << 4u8) != 0
    }

    pub fn is_heavy(self) -> (r: bool)
        ensures
            r == self.heavy(),
    {
        self.0 & (1u8 << 5u8) != 0
    }

    pub fn is_special(self) -> (r: bool)
        ensures
            r == self.special(),
    {
        self.0 & (1u8 << 6u8) != 0
    }

    pub fn is_block(self) -> (r: bool)
        ensures
            r == self.block(),
    {
        self.0 & (1u8 << 7u8) != 0
    }
}

} // verus!
