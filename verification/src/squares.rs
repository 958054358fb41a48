//! Files, ranks and squares by number, for a board whose squares are counted
//! from a1 along the ranks.

use vstd::prelude::*;

verus! {

/// A file of the board.
#[derive(Clone, Copy, Debug, PartialEq, Eq, Structural)]
pub enum File {
    A,
    B,
    C,
    D,
    E,
    F,
    G,
    H,
}

/// A rank of the board.
#[derive(Clone, Copy, Debug, PartialEq, Eq, Structural)]
pub enum Rank {
    R1,
    R2,
    R3,
    R4,
    R5,
    R6,
    R7,
    R8,
}

/// A square of the board by its number: a1 is 0, b1 is 1, h8 is 63.
#[derive(Clone, Copy, Debug, PartialEq, Eq, Structural)]
pub struct SQ(pub u8);

impl File {
    /// The number of a file, a being 0.
    pub open spec fn number(self) -> int {
        match self {
            File::A => 0,
            File::B => 1,
            File::C => 2,
            File::D => 3,
            File::E => 4,
            File::F => 5,
            File::G => 6,
            File::H => 7,
        }
    }

    /// The number of a file, a being 0.
    pub fn index(self) -> (index: u8)
        ensures
            index == self.number(),
    {
        match self {
            File::A => 0,
            File::B => 1,
            File::C => 2,
            File::D => 3,
            File::E => 4,
            File::F => 5,
            File::G => 6,
            File::H => 7,
        }
    }
}

impl Rank {
    /// The number of a rank, the first being 0.
    pub open spec fn number(self) -> int {
        match self {
            Rank::R1 => 0,
            Rank::R2 => 1,
            Rank::R3 => 2,
            Rank::R4 => 3,
            Rank::R5 => 4,
            Rank::R6 => 5,
            Rank::R7 => 6,
            Rank::R8 => 7,
        }
    }

    /// The number of a rank, the first being 0.
    pub fn index(self) -> (index: u8)
        ensures
            index == self.number(),
    {
        match self {
            Rank::R1 => 0,
            Rank::R2 => 1,
            Rank::R3 => 2,
            Rank::R4 => 3,
            Rank::R5 => 4,
            Rank::R6 => 5,
            Rank::R7 => 6,
            Rank::R8 => 7,
        }
    }
}

/// The file with a number from 0 to 7.
pub fn to_file(file: usize) -> (found: File)
    requires
        file < 8,
    ensures
        found.number() == file,
{
    if file == 0 {
        File::A
    } else if file == 1 {
        File::B
    } else if file == 2 {
        File::C
    } else if file == 3 {
        File::D
    } else if file == 4 {
        File::E
    } else if file == 5 {
        File::F
    } else if file == 6 {
        File::G
    } else {
        File::H
    }
}

/// The rank with a number from 0 to 7.
pub fn to_rank(rank: usize) -> (found: Rank)
    requires
        rank < 8,
    ensures
        found.number() == rank,
{
    if rank == 0 {
        Rank::R1
    } else if rank == 1 {
        Rank::R2
    } else if rank == 2 {
        Rank::R3
    } else if rank == 3 {
        Rank::R4
    } else if rank == 4 {
        Rank::R5
    } else if rank == 5 {
        Rank::R6
    } else if rank == 6 {
        Rank::R7
    } else {
        Rank::R8
    }
}

/// `SQ::make` of the `pleco` crate, on its own files and ranks taken from
/// `ALL_FILES` and `ALL_RANKS` by number. As its source shows, the square's
/// number is the rank's number shifted left by three, plus the file's: eight
/// times the rank plus the file.
#[verifier::external_body]
fn pleco_square(file: u8, rank: u8) -> (number: u8)
    requires
        file < 8,
        rank < 8,
    ensures
        number == 8 * rank + file,
{
    let file = pleco::core::ALL_FILES[usize::from(file)];
    let rank = pleco::core::ALL_RANKS[usize::from(rank)];
    pleco::SQ::make(file, rank).0
}

/// The square on a rank and a file, both by number from 0 to 7.
pub fn pos_to_sq(rank: usize, file: usize) -> (square: SQ)
    requires
        rank < 8,
        file < 8,
    ensures
        square.0 == 8 * rank + file,
{
    let rank = to_rank(rank);
    let file = to_file(file);
    SQ(pleco_square(file.index(), rank.index()))
}

} // verus!
