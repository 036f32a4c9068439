//! Point-cloud snapshots.
//!
//! A `PointCloudFrame` is one complete, immutable snapshot of the point
//! cloud: an ordered sequence of positions paired one-to-one with an ordered
//! sequence of colors. A frame is produced wholesale and replaced wholesale;
//! it is never partially mutated.

use vstd::prelude::*;
use crate::geometry::Vec3Milli;

verus! {

/// An sRGB color with alpha, one byte per channel.
#[derive(Clone, Copy, PartialEq, Eq, Structural, Debug)]
pub struct Color {
    pub r: u8,
    pub g: u8,
    pub b: u8,
    pub a: u8,
}

/// One complete snapshot of the point cloud: positions and colors paired
/// one-to-one.
#[derive(Clone, PartialEq, Debug)]
pub struct PointCloudFrame {
    pub positions: Vec<Vec3Milli>,
    pub colors: Vec<Color>,
}

impl PointCloudFrame {
    /// The pairing invariant: every position has exactly one color.
    pub open spec fn wf(self) -> bool {
        self.positions@.len() == self.colors@.len()
    }

    /// Builds a frame from paired sequences; rejects mismatched lengths.
    pub fn new(positions: Vec<Vec3Milli>, colors: Vec<Color>) -> (r: Option<PointCloudFrame>)
        ensures
            r is Some <==> positions@.len() == colors@.len(),
            r matches Some(f) ==> f.wf() && f.positions@ == positions@ && f.colors@ == colors@,
    {
        if positions.len() == colors.len() {
            Some(PointCloudFrame { positions, colors })
        } else {
            None
        }
    }

    /// Number of points in the snapshot.
    pub fn len(&self) -> (n: usize)
        ensures
            n == self.positions@.len(),
    {
        self.positions.len()
    }
}

} // verus!
