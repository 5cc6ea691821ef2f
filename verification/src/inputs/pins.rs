use vstd::prelude::*;

use crate::inputs::joy_featherwing::{Button, ButtonSet};

verus! {

/// Which level of a pin means "pressed".
#[derive(Clone, Copy, Debug, PartialEq, Eq, Structural)]
pub enum Polarity {
    /// A set bit is a pressed button.
    ActiveHigh,
    /// A cleared bit is a pressed button: the button pulls its pin to ground.
    ActiveLow,
}

/// The word with only bit `pin` set.
pub open spec fn pin_bit(pin: u8) -> u32 {
    1u32 << (pin as u32)
}

/// Where each button is wired, and how a pressed button reads.
///
/// Both differ between revisions of the board, so neither is built in.
#[derive(Clone, Copy, Debug, PartialEq, Eq, Structural)]
pub struct PinAssignment {
    pub up: u8,
    pub down: u8,
    pub left: u8,
    pub right: u8,
    pub select: u8,
    pub polarity: Polarity,
}

impl PinAssignment {
    /// Every button has a pin of the 32-bit register, and no two share one.
    pub open spec fn valid(self) -> bool {
        &&& self.up < 32 && self.down < 32 && self.left < 32 && self.right < 32 && self.select
            < 32
        &&& self.up != self.down && self.up != self.left && self.up != self.right && self.up
            != self.select
        &&& self.down != self.left && self.down != self.right && self.down != self.select
        &&& self.left != self.right && self.left != self.select
        &&& self.right != self.select
    }

    /// The pin of `button`; `Neutral` has none.
    pub open spec fn pin(self, button: Button) -> Option<u8> {
        match button {
            Button::Neutral => None,
            Button::Up => Some(self.up),
            Button::Down => Some(self.down),
            Button::Left => Some(self.left),
            Button::Right => Some(self.right),
            Button::Select => Some(self.select),
        }
    }

    /// The register word with exactly the five button pins set.
    pub open spec fn mask(self) -> u32 {
        pin_bit(self.up) | pin_bit(self.down) | pin_bit(self.left) | pin_bit(self.right)
            | pin_bit(self.select)
    }

    /// Whether the button on `pin` is pressed when the GPIO register reads
    /// `word`.
    pub open spec fn pressed(self, word: u32, pin: u8) -> bool {
        match self.polarity {
            Polarity::ActiveHigh => word & pin_bit(pin) != 0,
            Polarity::ActiveLow => word & pin_bit(pin) == 0,
        }
    }

    /// The buttons that are pressed when the GPIO register reads `word`.
    /// Bits that belong to no button play no part.
    pub open spec fn decode(self, word: u32) -> ButtonSet {
        ButtonSet {
            up: self.pressed(word, self.up),
            down: self.pressed(word, self.down),
            left: self.pressed(word, self.left),
            right: self.pressed(word, self.right),
            select: self.pressed(word, self.select),
        }
    }
}

/// A pin assignment that has been checked: see `PinAssignment::valid`.
#[derive(Clone, Copy, Debug)]
pub struct PinMap {
    pins: PinAssignment,
}

impl View for PinMap {
    type V = PinAssignment;

    closed spec fn view(&self) -> PinAssignment {
        self.pins
    }
}

impl PinMap {
    #[verifier::type_invariant]
    spec fn checked(self) -> bool {
        self.pins.valid()
    }

    /// Checks an assignment. `None` if a pin lies outside the register or
    /// two buttons share a pin.
    pub fn new(pins: PinAssignment) -> (map: Option<PinMap>)
        ensures
            map is Some <==> pins.valid(),
            map matches Some(m) ==> m@ == pins,
    {
        let in_range = pins.up < 32 && pins.down < 32 && pins.left < 32 && pins.right < 32
            && pins.select < 32;
        let apart = pins.up != pins.down && pins.up != pins.left && pins.up != pins.right
            && pins.up != pins.select && pins.down != pins.left && pins.down != pins.right
            && pins.down != pins.select && pins.left != pins.right && pins.left != pins.select
            && pins.right != pins.select;
        if in_range && apart {
            Some(PinMap { pins })
        } else {
            None
        }
    }

    pub fn assignment(&self) -> (pins: PinAssignment)
        ensures
            pins == self@,
            pins.valid(),
    {
        proof {
            use_type_invariant(self);
        }
        self.pins
    }

    /// The register word with exactly the five button pins set.
    pub fn mask(&self) -> (word: u32)
        ensures
            word == self@.mask(),
    {
        proof {
            use_type_invariant(self);
        }
        (1u32 << (self.pins.up as u32)) | (1u32 << (self.pins.down as u32)) | (1u32 << (
        self.pins.left as u32)) | (1u32 << (self.pins.right as u32)) | (1u32 << (
        self.pins.select as u32))
    }

    /// Whether the button on `pin`, one of the five, reads as pressed in
    /// `masked`, the register word with all other bits cleared.
    fn reads_pressed(&self, word: Ghost<u32>, masked: u32, pin: u8) -> (down: bool)
        requires
            pin < 32,
            masked & pin_bit(pin) == word@ & pin_bit(pin),
        ensures
            down == self@.pressed(word@, pin),
    {
        let bit: u32 = 1u32 << (pin as u32);
        match self.pins.polarity {
            Polarity::ActiveHigh => masked & bit != 0,
            Polarity::ActiveLow => masked & bit == 0,
        }
    }

    /// The buttons that are pressed when the GPIO register reads `word`.
    pub fn decode(&self, word: u32) -> (set: ButtonSet)
        ensures
            set == self@.decode(word),
    {
        proof {
            use_type_invariant(self);
        }
        let masked: u32 = word & self.mask();
        let up = self.pins.up;
        let down = self.pins.down;
        let left = self.pins.left;
        let right = self.pins.right;
        let select = self.pins.select;
        proof {
            let m = self@.mask();
            assert(m == (1u32 << (up as u32)) | (1u32 << (down as u32)) | (1u32 << (left as u32))
                | (1u32 << (right as u32)) | (1u32 << (select as u32)));
            assert((word & m) & (1u32 << (up as u32)) == word & (1u32 << (up as u32))) by (bit_vector)
                requires
                    m == (1u32 << (up as u32)) | (1u32 << (down as u32)) | (1u32 << (left as u32))
                        | (1u32 << (right as u32)) | (1u32 << (select as u32)),
            ;
            assert((word & m) & (1u32 << (down as u32)) == word & (1u32 << (down as u32))) by (bit_vector)
                requires
                    m == (1u32 << (up as u32)) | (1u32 << (down as u32)) | (1u32 << (left as u32))
                        | (1u32 << (right as u32)) | (1u32 << (select as u32)),
            ;
            assert((word & m) & (1u32 << (left as u32)) == word & (1u32 << (left as u32))) by (bit_vector)
                requires
                    m == (1u32 << (up as u32)) | (1u32 << (down as u32)) | (1u32 << (left as u32))
                        | (1u32 << (right as u32)) | (1u32 << (select as u32)),
            ;
            assert((word & m) & (1u32 << (right as u32)) == word & (1u32 << (right as u32))) by (bit_vector)
                requires
                    m == (1u32 << (up as u32)) | (1u32 << (down as u32)) | (1u32 << (left as u32))
                        | (1u32 << (right as u32)) | (1u32 << (select as u32)),
            ;
            assert((word & m) & (1u32 << (select as u32)) == word & (1u32 << (select as u32))) by (bit_vector)
                requires
                    m == (1u32 << (up as u32)) | (1u32 << (down as u32)) | (1u32 << (left as u32))
                        | (1u32 << (right as u32)) | (1u32 << (select as u32)),
            ;
        }
        ButtonSet {
            up: self.reads_pressed(Ghost(word), masked, up),
            down: self.reads_pressed(Ghost(word), masked, down),
            left: self.reads_pressed(Ghost(word), masked, left),
            right: self.reads_pressed(Ghost(word), masked, right),
            select: self.reads_pressed(Ghost(word), masked, select),
        }
    }
}

/// A register word in which the bit of one button alone is set reads, on
/// a board whose buttons set their bits, as that button and no other. On a
/// board whose buttons clear their bits the same holds of the word in
/// which the bit of one button alone is cleared.
pub proof fn lemma_lone_bit_is_lone_button(pins: PinAssignment, button: Button)
    requires
        pins.valid(),
        button != Button::Neutral,
    ensures
        pins.polarity == Polarity::ActiveHigh ==> pins.decode(pin_bit(pins.pin(button)->0))
            == ButtonSet::only(button),
        pins.polarity == Polarity::ActiveLow ==> pins.decode(!pin_bit(pins.pin(button)->0))
            == ButtonSet::only(button),
{
    let p = pins.pin(button)->0;
    lemma_bits_apart(p, pins.up);
    lemma_bits_apart(p, pins.down);
    lemma_bits_apart(p, pins.left);
    lemma_bits_apart(p, pins.right);
    lemma_bits_apart(p, pins.select);
}

/// Two pins share a bit only where they are the same pin.
proof fn lemma_bits_apart(a: u8, b: u8)
    requires
        a < 32,
        b < 32,
    ensures
        pin_bit(a) & pin_bit(b) != 0 <==> a == b,
        !pin_bit(a) & pin_bit(b) == 0 <==> a == b,
{
    assert(((1u32 << (a as u32)) & (1u32 << (b as u32)) != 0) <==> a == b) by (bit_vector)
        requires
            a < 32,
            b < 32,
    ;
    assert(((!(1u32 << (a as u32))) & (1u32 << (b as u32)) == 0) <==> a == b) by (bit_vector)
        requires
            a < 32,
            b < 32,
    ;
}

/// The two polarities mirror each other: a board whose buttons clear their
/// bits reads a word as a board whose buttons set them reads the word with
/// every bit turned over.
pub proof fn lemma_polarity_mirrors(pins: PinAssignment, word: u32)
    requires
        pins.valid(),
        pins.polarity == Polarity::ActiveLow,
    ensures
        pins.decode(word) == (PinAssignment { polarity: Polarity::ActiveHigh, ..pins }).decode(
            !word,
        ),
{
    lemma_bit_turned(word, pins.up);
    lemma_bit_turned(word, pins.down);
    lemma_bit_turned(word, pins.left);
    lemma_bit_turned(word, pins.right);
    lemma_bit_turned(word, pins.select);
}

/// A bit is clear in a word where it is set in the word turned over.
proof fn lemma_bit_turned(word: u32, pin: u8)
    requires
        pin < 32,
    ensures
        word & pin_bit(pin) == 0 <==> !word & pin_bit(pin) != 0,
{
    assert((word & (1u32 << (pin as u32)) == 0) <==> ((!word) & (1u32 << (pin as u32)) != 0))
        by (bit_vector)
        requires
            pin < 32,
    ;
}

/// Of a checked assignment's mask, the bits that are set are those of the
/// five button pins, and no others.
pub proof fn lemma_mask_bits(pins: PinAssignment, pin: u8)
    requires
        pins.valid(),
        pin < 32,
    ensures
        pins.mask() & pin_bit(pin) != 0 <==> (pin == pins.up || pin == pins.down || pin
            == pins.left || pin == pins.right || pin == pins.select),
{
    let a = pins.up;
    let b = pins.down;
    let c = pins.left;
    let d = pins.right;
    let e = pins.select;
    let m = pins.mask();
    assert(m == (1u32 << (a as u32)) | (1u32 << (b as u32)) | (1u32 << (c as u32)) | (1u32 << (
    d as u32)) | (1u32 << (e as u32)));
    assert((m & (1u32 << (pin as u32)) != 0) <==> (pin == a || pin == b || pin == c || pin == d
        || pin == e)) by (bit_vector)
        requires
            m == (1u32 << (a as u32)) | (1u32 << (b as u32)) | (1u32 << (c as u32)) | (1u32 << (
            d as u32)) | (1u32 << (e as u32)),
            a < 32,
            b < 32,
            c < 32,
            d < 32,
            e < 32,
            pin < 32,
    ;
}

} // verus!
