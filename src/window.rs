use crate::colour::be_bytes;
use vstd::prelude::*;

verus! {

/// The bytes of an address-set payload: two 16-bit values, each most
/// significant byte first.
pub open spec fn coords_bytes(a: u16, b: u16) -> Seq<u8> {
    be_bytes(a) + be_bytes(b)
}

/// Encodes two 16-bit coordinates as an address-set payload.
pub fn encode_coords(x: u16, y: u16) -> (bytes: [u8; 4])
    ensures
        bytes@ == coords_bytes(x, y),
{
    let bytes = [(x / 256) as u8, (x % 256) as u8, (y / 256) as u8, (y % 256) as u8];
    assert(bytes@ =~= coords_bytes(x, y));
    bytes
}

/// A rectangle of the panel's graphics memory, bounds included on all sides.
pub struct AddressWindow {
    x0: u16,
    y0: u16,
    x1: u16,
    y1: u16,
}

/// The number of pixels of a window with these bounds.
pub open spec fn pixel_count_of(w: (u16, u16, u16, u16)) -> nat {
    ((w.2 - w.0 + 1) * (w.3 - w.1 + 1)) as nat
}

impl View for AddressWindow {
    type V = (u16, u16, u16, u16);

    /// The bounds `(x0, y0, x1, y1)`.
    closed spec fn view(&self) -> (u16, u16, u16, u16) {
        (self.x0, self.y0, self.x1, self.y1)
    }
}

impl AddressWindow {
    #[verifier::type_invariant]
    spec fn ordered(&self) -> bool {
        self.x0 <= self.x1 && self.y0 <= self.y1
    }

    /// The window from `(x0, y0)` to `(x1, y1)`; there is none where a lower
    /// bound exceeds the upper one.
    pub fn new(x0: u16, y0: u16, x1: u16, y1: u16) -> (w: Option<AddressWindow>)
        ensures
            w is Some <==> x0 <= x1 && y0 <= y1,
            w is Some ==> w->0@ == (x0, y0, x1, y1),
    {
        if x0 <= x1 && y0 <= y1 {
            Some(AddressWindow { x0, y0, x1, y1 })
        } else {
            None
        }
    }

    /// The lower column bound.
    pub fn x0(&self) -> (r: u16)
        ensures
            r == self@.0,
    {
        self.x0
    }

    /// The lower page bound.
    pub fn y0(&self) -> (r: u16)
        ensures
            r == self@.1,
    {
        self.y0
    }

    /// The upper column bound.
    pub fn x1(&self) -> (r: u16)
        ensures
            r == self@.2,
    {
        self.x1
    }

    /// The upper page bound.
    pub fn y1(&self) -> (r: u16)
        ensures
            r == self@.3,
    {
        self.y1
    }

    /// The number of pixels in the window.
    pub fn pixel_count(&self) -> (n: u64)
        ensures
            n == pixel_count_of(self@),
    {
        proof {
            use_type_invariant(self);
        }
        let w: u64 = (self.x1 - self.x0) as u64 + 1;
        let h: u64 = (self.y1 - self.y0) as u64 + 1;
        assert(w * h <= 65536 * 65536) by (nonlinear_arith)
            requires
                w <= 65536,
                h <= 65536,
        ;
        w * h
    }
}

} // verus!
