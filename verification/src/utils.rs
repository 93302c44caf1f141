//! Utility data types: coordinate tuples of one to four dimensions.

use vstd::prelude::*;

verus! {

/// An n-tuple of 1-4 dimensions.
///
/// The arity is fixed at construction and determines the dimensionality:
/// spatial `X`, `XY`, `XYZ`, or time-plus-space `TXYZ`.
#[derive(Debug, Clone, Copy)]
pub enum NTuple {
    /// One spatial component.
    X(u8),
    /// Two spatial components.
    XY(u8, u8),
    /// Three spatial components.
    XYZ(u8, u8, u8),
    /// A time component followed by three spatial components.
    TXYZ(u8, u8, u8, u8),
}

impl NTuple {
    /// The components of the tuple as a sequence, in declaration order
    /// (time first where present).
    pub open spec fn components(self) -> Seq<u8> {
        match self {
            NTuple::X(x) => seq![x],
            NTuple::XY(x, y) => seq![x, y],
            NTuple::XYZ(x, y, z) => seq![x, y, z],
            NTuple::TXYZ(t, x, y, z) => seq![t, x, y, z],
        }
    }

    /// Returns the dimentionality of this NTuple.
    pub fn get_dims(&self) -> (r: u8)
        ensures
            r as int == self.components().len(),
            1 <= r <= 4,
    {
        match *self {
            NTuple::X(..) => 1,
            NTuple::XY(..) => 2,
            NTuple::XYZ(..) => 3,
            NTuple::TXYZ(..) => 4,
        }
    }

    /// Return the largest value within the NTuple: it is one of the
    /// components, and no component exceeds it.
    pub fn max(&self) -> (r: u8)
        ensures
            self.components().contains(r),
            forall|i: int| 0 <= i < self.components().len() ==> self.components()[i] <= r,
    {
        match *self {
            NTuple::X(x) => {
                proof {
                    assert(self.components()[0] == x);
                }
                x
            },
            NTuple::XY(x, y) => {
                let m: u8 = if y > x { y } else { x };
                proof {
                    assert(self.components()[0] == x);
                    assert(self.components()[1] == y);
                }
                m
            },
            NTuple::XYZ(x, y, z) => {
                let mut m: u8 = x;
                if y > m {
                    m = y;
                }
                if z > m {
                    m = z;
                }
                proof {
                    assert(self.components()[0] == x);
                    assert(self.components()[1] == y);
                    assert(self.components()[2] == z);
                }
                m
            },
            NTuple::TXYZ(t, x, y, z) => {
                let mut m: u8 = t;
                if x > m {
                    m = x;
                }
                if y > m {
                    m = y;
                }
                if z > m {
                    m = z;
                }
                proof {
                    assert(self.components()[0] == t);
                    assert(self.components()[1] == x);
                    assert(self.components()[2] == y);
                    assert(self.components()[3] == z);
                }
                m
            },
        }
    }
}

} // verus!
