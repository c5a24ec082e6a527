//! Plain data carried by commands: pieces, placements, the playfield grid,
//! launch options, and the errors reported at the bridge boundary.

use vstd::prelude::*;

verus! {

/// Number of rows a playfield grid must have.
pub const FIELD_ROWS: usize = 40;

/// Number of cells in each playfield row.
pub const FIELD_COLS: usize = 10;

/// One of the seven tetromino kinds the engine knows about.
#[derive(Clone, Copy, PartialEq, Eq, Structural, Debug)]
pub enum Piece {
    I,
    O,
    T,
    L,
    J,
    S,
    Z,
}

/// Orientation of a placed piece.
#[derive(Clone, Copy, PartialEq, Eq, Structural, Debug)]
pub enum Rotation {
    North,
    East,
    South,
    West,
}

/// A placement descriptor: where a piece ends up on the field. The bridge
/// never interprets these values; they are carried verbatim to the engine.
#[derive(Clone, Copy, PartialEq, Eq, Structural, Debug)]
pub struct FallingPiece {
    pub piece: Piece,
    pub rotation: Rotation,
    pub x: i32,
    pub y: i32,
}

/// Why a call at the bridge boundary failed.
#[derive(Clone, Copy, PartialEq, Eq, Structural, Debug)]
pub enum BridgeError {
    /// A caller-supplied value does not have the expected shape.
    Decode,
    /// A value decoded but is semantically invalid: the grid has the wrong
    /// number of rows. Carries the row count that was supplied.
    Argument { rows: usize },
    /// The worker no longer accepts commands; the handle was closed.
    WorkerUnavailable,
}

/// The launch configuration this core interprets. Whether hold is enabled
/// decides how many opening pieces the worker buffers before it can
/// construct the engine. Everything else in the engine's configuration is
/// opaque to the bridge and stays with the caller.
#[derive(Clone, Copy, PartialEq, Eq, Structural, Debug)]
pub struct Options {
    pub use_hold: bool,
}

impl Default for Options {
    /// Hold is enabled by default.
    fn default() -> (r: Options)
        ensures
            r.use_hold == true,
    {
        Options { use_hold: true }
    }
}

/// The piece a character names, if any. Exactly the seven upper-case
/// letters of the tetromino kinds decode.
pub open spec fn piece_from_char(c: char) -> Option<Piece> {
    if c == 'I' {
        Some(Piece::I)
    } else if c == 'O' {
        Some(Piece::O)
    } else if c == 'T' {
        Some(Piece::T)
    } else if c == 'L' {
        Some(Piece::L)
    } else if c == 'J' {
        Some(Piece::J)
    } else if c == 'S' {
        Some(Piece::S)
    } else if c == 'Z' {
        Some(Piece::Z)
    } else {
        None
    }
}

/// Decodes a piece identifier, failing on anything but the seven known
/// kinds.
pub fn decode_piece(c: char) -> (r: Result<Piece, BridgeError>)
    ensures
        match r {
            Ok(p) => piece_from_char(c) == Some(p),
            Err(e) => piece_from_char(c) is None && e == BridgeError::Decode,
        },
{
    match c {
        'I' => Ok(Piece::I),
        'O' => Ok(Piece::O),
        'T' => Ok(Piece::T),
        'L' => Ok(Piece::L),
        'J' => Ok(Piece::J),
        'S' => Ok(Piece::S),
        'Z' => Ok(Piece::Z),
        _ => Err(BridgeError::Decode),
    }
}

/// Every row of the grid has exactly `FIELD_COLS` cells.
pub open spec fn rows_decodable(rows: Seq<Seq<bool>>) -> bool {
    forall|i: int| 0 <= i < rows.len() ==> #[trigger] rows[i].len() == FIELD_COLS
}

/// A well-formed playfield grid: `FIELD_ROWS` rows of `FIELD_COLS` cells
/// each. The first row is the bottom of the field.
pub struct BoardField {
    pub rows: Vec<Vec<bool>>,
}

impl View for BoardField {
    type V = Seq<Seq<bool>>;

    open spec fn view(&self) -> Seq<Seq<bool>> {
        self.rows.deep_view()
    }
}

impl BoardField {
    /// The grid has the required shape.
    pub open spec fn wf(self) -> bool {
        self@.len() == FIELD_ROWS && rows_decodable(self@)
    }

    /// Validates a caller-supplied grid. A row of the wrong width is a
    /// shape mismatch (`Decode`); a decodable grid with the wrong row count
    /// is semantically invalid (`Argument`). A valid grid is taken verbatim.
    pub fn from_rows(rows: Vec<Vec<bool>>) -> (r: Result<BoardField, BridgeError>)
        ensures
            match r {
                Ok(b) => b == (BoardField { rows }) && b.wf(),
                Err(e) => {
                    &&& !(rows_decodable(rows.deep_view()) && rows@.len() == FIELD_ROWS)
                    &&& if !rows_decodable(rows.deep_view()) {
                        e == BridgeError::Decode
                    } else {
                        e == (BridgeError::Argument { rows: rows@.len() as usize })
                    }
                },
            },
    {
        let n = rows.len();
        let mut i: usize = 0;
        while i < n
            invariant
                i <= n,
                n == rows@.len(),
                forall|j: int| 0 <= j < i ==> #[trigger] rows.deep_view()[j].len() == FIELD_COLS,
            decreases n - i,
        {
            if rows[i].len() != FIELD_COLS {
                assert(rows.deep_view()[i as int].len() != FIELD_COLS);
                return Err(BridgeError::Decode);
            }
            i += 1;
        }
        if n != FIELD_ROWS {
            Err(BridgeError::Argument { rows: n })
        } else {
            Ok(BoardField { rows })
        }
    }
}

} // verus!
