use vstd::prelude::*;

verus! {

/// The seven piece kinds.
#[derive(Clone, Copy, Debug, PartialEq, Eq, Structural)]
pub enum Kind {
    I,
    O,
    T,
    S,
    Z,
    J,
    L,
}

/// The four rotation states, in clockwise order.
#[derive(Clone, Copy, Debug, PartialEq, Eq, Structural)]
pub enum Rotation {
    R0,
    R1,
    R2,
    R3,
}

/// Number of piece kinds.
pub const KIND_COUNT: usize = 7;

impl Kind {
    pub open spec fn index_spec(self) -> nat {
        match self {
            Kind::I => 0,
            Kind::O => 1,
            Kind::T => 2,
            Kind::S => 3,
            Kind::Z => 4,
            Kind::J => 5,
            Kind::L => 6,
        }
    }

    /// Position of this kind in the order I, O, T, S, Z, J, L.
    pub fn index(self) -> (r: usize)
        ensures
            r == self.index_spec(),
            r < KIND_COUNT,
    {
        match self {
            Kind::I => 0,
            Kind::O => 1,
            Kind::T => 2,
            Kind::S => 3,
            Kind::Z => 4,
            Kind::J => 5,
            Kind::L => 6,
        }
    }

    /// The kind at position `i` of the order I, O, T, S, Z, J, L.
    pub fn from_index(i: usize) -> (r: Kind)
        requires
            i < KIND_COUNT,
        ensures
            r.index_spec() == i,
    {
        if i == 0 {
            Kind::I
        } else if i == 1 {
            Kind::O
        } else if i == 2 {
            Kind::T
        } else if i == 3 {
            Kind::S
        } else if i == 4 {
            Kind::Z
        } else if i == 5 {
            Kind::J
        } else {
            Kind::L
        }
    }
}

impl Rotation {
    pub open spec fn next_spec(self) -> Rotation {
        match self {
            Rotation::R0 => Rotation::R1,
            Rotation::R1 => Rotation::R2,
            Rotation::R2 => Rotation::R3,
            Rotation::R3 => Rotation::R0,
        }
    }

    /// The rotation state one clockwise quarter turn further.
    pub fn next(self) -> (r: Rotation)
        ensures
            r == self.next_spec(),
    {
        match self {
            Rotation::R0 => Rotation::R1,
            Rotation::R1 => Rotation::R2,
            Rotation::R2 => Rotation::R3,
            Rotation::R3 => Rotation::R0,
        }
    }
}

/// The shape table: the four cell offsets `(dx, dy)` of a kind in a rotation
/// state, relative to the piece's anchor; `dy` grows downward.
pub open spec fn shape(kind: Kind, rot: Rotation) -> Seq<(int, int)> {
    match kind {
        Kind::I => match rot {
            Rotation::R0 => seq![(0, 1), (1, 1), (2, 1), (3, 1)],
            Rotation::R1 => seq![(2, 0), (2, 1), (2, 2), (2, 3)],
            Rotation::R2 => seq![(0, 2), (1, 2), (2, 2), (3, 2)],
            Rotation::R3 => seq![(1, 0), (1, 1), (1, 2), (1, 3)],
        },
        Kind::O => seq![(1, 0), (2, 0), (1, 1), (2, 1)],
        Kind::T => match rot {
            Rotation::R0 => seq![(1, 0), (0, 1), (1, 1), (2, 1)],
            Rotation::R1 => seq![(1, 0), (1, 1), (2, 1), (1, 2)],
            Rotation::R2 => seq![(0, 1), (1, 1), (2, 1), (1, 2)],
            Rotation::R3 => seq![(1, 0), (0, 1), (1, 1), (1, 2)],
        },
        Kind::S => match rot {
            Rotation::R0 => seq![(1, 0), (2, 0), (0, 1), (1, 1)],
            Rotation::R1 => seq![(1, 0), (1, 1), (2, 1), (2, 2)],
            Rotation::R2 => seq![(1, 1), (2, 1), (0, 2), (1, 2)],
            Rotation::R3 => seq![(0, 0), (0, 1), (1, 1), (1, 2)],
        },
        Kind::Z => match rot {
            Rotation::R0 => seq![(0, 0), (1, 0), (1, 1), (2, 1)],
            Rotation::R1 => seq![(2, 0), (1, 1), (2, 1), (1, 2)],
            Rotation::R2 => seq![(0, 1), (1, 1), (1, 2), (2, 2)],
            Rotation::R3 => seq![(1, 0), (0, 1), (1, 1), (0, 2)],
        },
        Kind::J => match rot {
            Rotation::R0 => seq![(0, 0), (0, 1), (1, 1), (2, 1)],
            Rotation::R1 => seq![(1, 0), (2, 0), (1, 1), (1, 2)],
            Rotation::R2 => seq![(0, 1), (1, 1), (2, 1), (2, 2)],
            Rotation::R3 => seq![(1, 0), (1, 1), (0, 2), (1, 2)],
        },
        Kind::L => match rot {
            Rotation::R0 => seq![(2, 0), (0, 1), (1, 1), (2, 1)],
            Rotation::R1 => seq![(1, 0), (1, 1), (1, 2), (2, 2)],
            Rotation::R2 => seq![(0, 1), (1, 1), (2, 1), (0, 2)],
            Rotation::R3 => seq![(0, 0), (1, 0), (1, 1), (1, 2)],
        },
    }
}

/// Every offset of the table lies in `0..4` on both axes.
pub proof fn lemma_shape_bounds(kind: Kind, rot: Rotation, i: int)
    requires
        0 <= i < 4,
    ensures
        shape(kind, rot).len() == 4,
        0 <= shape(kind, rot)[i].0 < 4,
        0 <= shape(kind, rot)[i].1 < 4,
{
}

/// The cell offsets of `kind` in rotation state `rot`, as in `shape`.
pub fn offsets(kind: Kind, rot: Rotation) -> (r: [(i32, i32); 4])
    ensures
        forall|i: int|
            0 <= i < 4 ==> (#[trigger] r[i]).0 as int == shape(kind, rot)[i].0 && r[i].1 as int
                == shape(kind, rot)[i].1,
{
    match kind {
        Kind::I => match rot {
            Rotation::R0 => [(0, 1), (1, 1), (2, 1), (3, 1)],
            Rotation::R1 => [(2, 0), (2, 1), (2, 2), (2, 3)],
            Rotation::R2 => [(0, 2), (1, 2), (2, 2), (3, 2)],
            Rotation::R3 => [(1, 0), (1, 1), (1, 2), (1, 3)],
        },
        Kind::O => [(1, 0), (2, 0), (1, 1), (2, 1)],
        Kind::T => match rot {
            Rotation::R0 => [(1, 0), (0, 1), (1, 1), (2, 1)],
            Rotation::R1 => [(1, 0), (1, 1), (2, 1), (1, 2)],
            Rotation::R2 => [(0, 1), (1, 1), (2, 1), (1, 2)],
            Rotation::R3 => [(1, 0), (0, 1), (1, 1), (1, 2)],
        },
        Kind::S => match rot {
            Rotation::R0 => [(1, 0), (2, 0), (0, 1), (1, 1)],
            Rotation::R1 => [(1, 0), (1, 1), (2, 1), (2, 2)],
            Rotation::R2 => [(1, 1), (2, 1), (0, 2), (1, 2)],
            Rotation::R3 => [(0, 0), (0, 1), (1, 1), (1, 2)],
        },
        Kind::Z => match rot {
            Rotation::R0 => [(0, 0), (1, 0), (1, 1), (2, 1)],
            Rotation::R1 => [(2, 0), (1, 1), (2, 1), (1, 2)],
            Rotation::R2 => [(0, 1), (1, 1), (1, 2), (2, 2)],
            Rotation::R3 => [(1, 0), (0, 1), (1, 1), (0, 2)],
        },
        Kind::J => match rot {
            Rotation::R0 => [(0, 0), (0, 1), (1, 1), (2, 1)],
            Rotation::R1 => [(1, 0), (2, 0), (1, 1), (1, 2)],
            Rotation::R2 => [(0, 1), (1, 1), (2, 1), (2, 2)],
            Rotation::R3 => [(1, 0), (1, 1), (0, 2), (1, 2)],
        },
        Kind::L => match rot {
            Rotation::R0 => [(2, 0), (0, 1), (1, 1), (2, 1)],
            Rotation::R1 => [(1, 0), (1, 1), (1, 2), (2, 2)],
            Rotation::R2 => [(0, 1), (1, 1), (2, 1), (0, 2)],
            Rotation::R3 => [(0, 0), (1, 0), (1, 1), (1, 2)],
        },
    }
}

/// A piece: its kind, rotation state and anchor. `y` may be negative while
/// the piece is partly above the visible board.
#[derive(Clone, Copy, Debug, PartialEq, Eq, Structural)]
pub struct Piece {
    pub kind: Kind,
    pub rot: Rotation,
    pub x: i32,
    pub y: i32,
}

impl Piece {
    /// Absolute position of the piece's `i`-th cell.
    pub open spec fn cell(self, i: int) -> (int, int) {
        (self.x + shape(self.kind, self.rot)[i].0, self.y + shape(self.kind, self.rot)[i].1)
    }

    /// Whether one of the piece's cells is at column `x`, row `y`.
    pub open spec fn covers(self, x: int, y: int) -> bool {
        exists|i: int| 0 <= i < 4 && #[trigger] self.cell(i) == (x, y)
    }

    /// The same piece with its anchor shifted by `(dx, dy)`.
    pub open spec fn shifted(self, dx: int, dy: int) -> Piece {
        Piece { x: (self.x + dx) as i32, y: (self.y + dy) as i32, ..self }
    }
}

} // verus!
