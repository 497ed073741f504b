//! A shape in nine parts that adapts to the size it is drawn at: four
//! corners, four edges and a center.

use vstd::prelude::*;

verus! {

pub const EDGE_LEFT: usize = 0;
pub const EDGE_TOP: usize = 1;
pub const EDGE_RIGHT: usize = 2;
pub const EDGE_BOTTOM: usize = 3;

pub const CORNER_BL: usize = 0;
pub const CORNER_TL: usize = 1;
pub const CORNER_TR: usize = 2;
pub const CORNER_BR: usize = 3;

/// Nine optional parts of type `S`: the edges by `EDGE_*`, the corners by
/// `CORNER_*`, and the center.
pub struct AdaptiveShape<S> {
    pub edges: [Option<S>; 4],
    pub corners: [Option<S>; 4],
    pub center: Option<S>,
}

impl<S> AdaptiveShape<S> {
    /// The shape with the given parts, named clockwise from the bottom left
    /// corner, the center last.
    pub fn new(
        bl: Option<S>,
        l: Option<S>,
        tl: Option<S>,
        t: Option<S>,
        tr: Option<S>,
        r: Option<S>,
        br: Option<S>,
        b: Option<S>,
        c: Option<S>,
    ) -> (shape: Self)
        ensures
            shape.edges@ == seq![l, t, r, b],
            shape.corners@ == seq![bl, tl, tr, br],
            shape.center == c,
    {
        AdaptiveShape { edges: [l, t, r, b], corners: [bl, tl, tr, br], center: c }
    }

    /// The shape with the parts of `parts`, which are in the order of the
    /// parameters of `new`.
    pub fn from_arr(parts: [Option<S>; 9]) -> (shape: Self)
        ensures
            shape.edges@ == seq![parts@[1], parts@[3], parts@[5], parts@[7]],
            shape.corners@ == seq![parts@[0], parts@[2], parts@[4], parts@[6]],
            shape.center == parts@[8],
    {
        let mut parts = parts;
        let bl = parts[0].take();
        let l = parts[1].take();
        let tl = parts[2].take();
        let t = parts[3].take();
        let tr = parts[4].take();
        let r = parts[5].take();
        let br = parts[6].take();
        let b = parts[7].take();
        let c = parts[8].take();
        Self::new(bl, l, tl, t, tr, r, br, b, c)
    }
}

} // verus!
