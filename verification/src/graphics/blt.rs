use vstd::prelude::*;

verus! {

/// Rotations the platform performs.
#[derive(Debug, Clone, Copy, PartialEq, Eq, Structural)]
pub enum RotateDegree {
    Deg90,
    Deg180,
    Deg270,
}

impl RotateDegree {
    /// The angle in degrees, as the platform takes it.
    pub fn degrees(self) -> (res: i32)
        ensures
            res == match self {
                RotateDegree::Deg90 => 90i32,
                RotateDegree::Deg180 => 180i32,
                RotateDegree::Deg270 => 270i32,
            },
    {
        match self {
            RotateDegree::Deg90 => 90,
            RotateDegree::Deg180 => 180,
            RotateDegree::Deg270 => 270,
        }
    }
}

/// Mirror directions.
#[derive(Debug, Clone, Copy, PartialEq, Eq, Structural)]
pub enum MirrorDirection {
    Horizontal,
    Vertical,
}

impl MirrorDirection {
    /// The platform's code for the direction.
    pub fn code(self) -> (res: i32)
        ensures
            res == match self {
                MirrorDirection::Horizontal => 0i32,
                MirrorDirection::Vertical => 1i32,
            },
    {
        match self {
            MirrorDirection::Horizontal => 0,
            MirrorDirection::Vertical => 1,
        }
    }
}

} // verus!
