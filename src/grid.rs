//! Launch geometry: how many blocks, and how many threads in each.
use vstd::prelude::*;

verus! {

/// The number of blocks of a launch along each of three dimensions.
#[derive(Debug, Clone, Copy, PartialEq, Eq, Structural)]
pub struct Grid {
    pub x: u32,
    pub y: u32,
    pub z: u32,
}

/// The number of threads in each block along each of three dimensions.
#[derive(Debug, Clone, Copy, PartialEq, Eq, Structural)]
pub struct Block {
    pub x: u32,
    pub y: u32,
    pub z: u32,
}

impl Grid {
    /// `x` blocks in one dimension.
    pub fn x(x: u32) -> (r: Grid)
        ensures
            r == (Grid { x, y: 1, z: 1 }),
    {
        Grid { x, y: 1, z: 1 }
    }

    /// `x` by `y` blocks.
    pub fn xy(x: u32, y: u32) -> (r: Grid)
        ensures
            r == (Grid { x, y, z: 1 }),
    {
        Grid { x, y, z: 1 }
    }

    /// `x` by `y` by `z` blocks.
    pub fn xyz(x: u32, y: u32, z: u32) -> (r: Grid)
        ensures
            r == (Grid { x, y, z }),
    {
        Grid { x, y, z }
    }
}

impl Block {
    /// `x` threads in one dimension.
    pub fn x(x: u32) -> (r: Block)
        ensures
            r == (Block { x, y: 1, z: 1 }),
    {
        Block { x, y: 1, z: 1 }
    }

    /// `x` by `y` threads.
    pub fn xy(x: u32, y: u32) -> (r: Block)
        ensures
            r == (Block { x, y, z: 1 }),
    {
        Block { x, y, z: 1 }
    }

    /// `x` by `y` by `z` threads.
    pub fn xyz(x: u32, y: u32, z: u32) -> (r: Block)
        ensures
            r == (Block { x, y, z }),
    {
        Block { x, y, z }
    }
}

} // verus!
