//! Expansion of a rectangular region into one `Mine` task per block, top
//! layer first, so that no worker digs out the floor under itself.

use vstd::prelude::*;

use crate::work::{BlockPos, Task};

verus! {

/// `Mine` for each block of the row at `(x, y)`, `z` ascending from `lo_z` to `hi_z`.
pub open spec fn row(x: int, y: int, lo_z: int, hi_z: int) -> Seq<Task> {
    Seq::new(
        if hi_z >= lo_z {
            (hi_z - lo_z + 1) as nat
        } else {
            0nat
        },
        |i: int| Task::Mine(BlockPos { x: x as i32, y: y as i32, z: (lo_z + i) as i32 }),
    )
}

/// The rows of layer `y` for `x` from `lo_x` up to, not including, `x_end`.
pub open spec fn layer(y: int, lo_x: int, x_end: int, lo_z: int, hi_z: int) -> Seq<Task>
    decreases x_end - lo_x,
{
    if x_end <= lo_x {
        Seq::empty()
    } else {
        layer(y, lo_x, x_end - 1, lo_z, hi_z) + row(x_end - 1, y, lo_z, hi_z)
    }
}

/// The layers of the box `lo..=hi` from the top layer `hi.y` down to layer `y`.
pub open spec fn layers_down(lo: BlockPos, hi: BlockPos, y: int) -> Seq<Task>
    decreases hi.y - y + 1,
{
    if y > hi.y {
        Seq::empty()
    } else {
        layers_down(lo, hi, y + 1) + layer(y, lo.x as int, hi.x + 1, lo.z as int, hi.z as int)
    }
}

/// The corner of the box with the smallest coordinates.
pub open spec fn low_corner(a: BlockPos, b: BlockPos) -> BlockPos {
    BlockPos {
        x: if a.x <= b.x { a.x } else { b.x },
        y: if a.y <= b.y { a.y } else { b.y },
        z: if a.z <= b.z { a.z } else { b.z },
    }
}

/// The corner of the box with the largest coordinates.
pub open spec fn high_corner(a: BlockPos, b: BlockPos) -> BlockPos {
    BlockPos {
        x: if a.x >= b.x { a.x } else { b.x },
        y: if a.y >= b.y { a.y } else { b.y },
        z: if a.z >= b.z { a.z } else { b.z },
    }
}

/// Every block of the box spanned by corners `a` and `b`: layers by
/// descending `y`, within a layer `x` ascending, then `z` ascending.
pub open spec fn region_tasks(a: BlockPos, b: BlockPos) -> Seq<Task> {
    let lo = low_corner(a, b);
    let hi = high_corner(a, b);
    layers_down(lo, hi, lo.y as int)
}

/// The `Mine` tasks for the box spanned by corners `from` and `to`, in
/// safe digging order.
pub fn demolish_tasks(from: BlockPos, to: BlockPos) -> (r: Vec<Task>)
    ensures
        r@ == region_tasks(from, to),
{
    let lo = BlockPos {
        x: if from.x <= to.x { from.x } else { to.x },
        y: if from.y <= to.y { from.y } else { to.y },
        z: if from.z <= to.z { from.z } else { to.z },
    };
    let hi = BlockPos {
        x: if from.x >= to.x { from.x } else { to.x },
        y: if from.y >= to.y { from.y } else { to.y },
        z: if from.z >= to.z { from.z } else { to.z },
    };
    let mut out: Vec<Task> = Vec::new();
    let mut y: i64 = hi.y as i64;
    while y >= lo.y as i64
        invariant
            lo == low_corner(from, to),
            hi == high_corner(from, to),
            lo.y - 1 <= y <= hi.y,
            out@ == layers_down(lo, hi, y + 1),
        decreases y - lo.y + 1,
    {
        let mut x: i64 = lo.x as i64;
        while x <= hi.x as i64
            invariant
                lo == low_corner(from, to),
                hi == high_corner(from, to),
                lo.y <= y <= hi.y,
                lo.x <= x <= hi.x + 1,
                out@ == layers_down(lo, hi, y + 1) + layer(
                    y as int,
                    lo.x as int,
                    x as int,
                    lo.z as int,
                    hi.z as int,
                ),
            decreases hi.x + 1 - x,
        {
            let ghost before = out@;
            let mut z: i64 = lo.z as i64;
            while z <= hi.z as i64
                invariant
                    lo == low_corner(from, to),
                    hi == high_corner(from, to),
                    lo.y <= y <= hi.y,
                    lo.x <= x <= hi.x,
                    lo.z <= z <= hi.z + 1,
                    out@ == before + row(x as int, y as int, lo.z as int, z - 1),
                decreases hi.z + 1 - z,
            {
                out.push(Task::Mine(BlockPos { x: x as i32, y: y as i32, z: z as i32 }));
                assert(out@ =~= before + row(x as int, y as int, lo.z as int, z as int));
                z = z + 1;
            }
            assert(before + row(x as int, y as int, lo.z as int, hi.z as int) =~= layers_down(
                lo,
                hi,
                y + 1,
            ) + layer(y as int, lo.x as int, x + 1, lo.z as int, hi.z as int));
            x = x + 1;
        }
        assert(layers_down(lo, hi, y as int) == layers_down(lo, hi, y + 1) + layer(
            y as int,
            lo.x as int,
            hi.x + 1,
            lo.z as int,
            hi.z as int,
        ));
        y = y - 1;
    }
    out
}

/// How many whole coordinates lie from `lo` to `hi`, both included.
pub open spec fn span(lo: int, hi: int) -> int {
    if hi >= lo {
        hi - lo + 1
    } else {
        0
    }
}

proof fn lemma_layer_len(y: int, lo_x: int, x_end: int, lo_z: int, hi_z: int)
    requires
        lo_x <= x_end,
    ensures
        layer(y, lo_x, x_end, lo_z, hi_z).len() == (x_end - lo_x) * span(lo_z, hi_z),
    decreases x_end - lo_x,
{
    let w = span(lo_z, hi_z);
    if x_end > lo_x {
        lemma_layer_len(y, lo_x, x_end - 1, lo_z, hi_z);
        assert(row(x_end - 1, y, lo_z, hi_z).len() == w);
        assert(layer(y, lo_x, x_end, lo_z, hi_z).len() == layer(y, lo_x, x_end - 1, lo_z, hi_z).len()
            + w);
        assert((x_end - 1 - lo_x) * span(lo_z, hi_z) + span(lo_z, hi_z) == (x_end - lo_x) * span(
            lo_z,
            hi_z,
        )) by (nonlinear_arith);
    } else {
        assert(0 * w == 0) by (nonlinear_arith);
    }
}

proof fn lemma_layers_len(lo: BlockPos, hi: BlockPos, y: int)
    requires
        lo.x <= hi.x,
        y <= hi.y + 1,
    ensures
        layers_down(lo, hi, y).len() == (hi.y - y + 1) * ((hi.x - lo.x + 1) * span(
            lo.z as int,
            hi.z as int,
        )),
    decreases hi.y - y + 1,
{
    let per_layer = (hi.x - lo.x + 1) * span(lo.z as int, hi.z as int);
    if y <= hi.y {
        lemma_layers_len(lo, hi, y + 1);
        lemma_layer_len(y, lo.x as int, hi.x + 1, lo.z as int, hi.z as int);
        assert((hi.y - y) * per_layer + per_layer == (hi.y - y + 1) * per_layer) by (nonlinear_arith);
    } else {
        assert(0 * per_layer == 0) by (nonlinear_arith);
    }
}

/// A demolished box holds one task per block: as many as the product of
/// its three side lengths.
pub proof fn lemma_region_len(a: BlockPos, b: BlockPos)
    ensures
        region_tasks(a, b).len() == span(low_corner(a, b).x as int, high_corner(a, b).x as int)
            * span(low_corner(a, b).y as int, high_corner(a, b).y as int) * span(
            low_corner(a, b).z as int,
            high_corner(a, b).z as int,
        ),
{
    let lo = low_corner(a, b);
    let hi = high_corner(a, b);
    lemma_layers_len(lo, hi, lo.y as int);
    let dx = span(lo.x as int, hi.x as int);
    let dy = span(lo.y as int, hi.y as int);
    let dz = span(lo.z as int, hi.z as int);
    assert(dy * (dx * dz) == dx * dy * dz) by (nonlinear_arith);
}

} // verus!
