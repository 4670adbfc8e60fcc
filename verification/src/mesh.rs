//! Topology of the map's lit-mesh grid: the triangle list over a grid of
//! cells whose corner vertices are numbered row by row.

use vstd::prelude::*;

verus! {

/// The six vertex indices (two triangles) of cell `(j, i)` — row `j`,
/// column `i` — of a grid `nx` cells wide, vertices numbered row by row
/// (`nx + 1` per row).
pub open spec fn cell_indices(nx: int, j: int, i: int) -> Seq<u32> {
    let s = nx + 1;
    let i00 = j * s + i;
    seq![
        i00 as u32,
        (i00 + 1) as u32,
        (i00 + s + 1) as u32,
        i00 as u32,
        (i00 + s + 1) as u32,
        (i00 + s) as u32,
    ]
}

/// The six entries of `v` that belong to cell `(j, i)` of a grid `nx`
/// cells wide, cells taken row by row.
pub open spec fn cell_entries(v: Seq<u32>, nx: int, j: int, i: int) -> Seq<u32> {
    v.subrange(6 * (j * nx + i), 6 * (j * nx + i) + 6)
}

proof fn lemma_cell_order(nx: int, jj: int, ii: int, j: int, i: int)
    requires
        0 <= ii < nx,
        0 <= jj,
        0 <= i <= nx,
        jj < j || (jj == j && ii < i),
    ensures
        jj * nx + ii + 1 <= j * nx + i,
{
    if jj < j {
        assert((jj + 1) * nx <= j * nx) by (nonlinear_arith)
            requires
                jj < j,
                0 <= nx,
        ;
        assert((jj + 1) * nx == jj * nx + nx) by (nonlinear_arith);
    }
}

proof fn lemma_index_bound(nx: int, ny: int, j: int, i: int)
    requires
        0 <= j < ny,
        0 <= i < nx,
    ensures
        j * (nx + 1) + i + (nx + 1) + 1 < (nx + 1) * (ny + 1),
        0 <= j * (nx + 1),
        j * nx + i < nx * ny,
{
    assert(j * (nx + 1) + (nx + 1) <= ny * (nx + 1)) by (nonlinear_arith)
        requires
            j < ny,
            0 <= nx,
    ;
    assert(ny * (nx + 1) + (nx + 1) == (nx + 1) * (ny + 1)) by (nonlinear_arith);
    assert(0 <= j * (nx + 1)) by (nonlinear_arith)
        requires
            0 <= j,
            0 <= nx,
    ;
    assert(j * nx + nx <= ny * nx) by (nonlinear_arith)
        requires
            j < ny,
            0 <= nx,
    ;
    assert(ny * nx == nx * ny) by (nonlinear_arith);
}

/// Triangle indices for a grid of `nx` × `ny` cells: two triangles per
/// cell, cells row by row.
pub fn grid_indices(nx: u32, ny: u32) -> (v: Vec<u32>)
    requires
        (nx + 1) * (ny + 1) <= u32::MAX,
        6 * nx * ny <= usize::MAX,
    ensures
        v.len() == 6 * nx * ny,
        forall|j: int, i: int|
            0 <= j < ny && 0 <= i < nx ==> #[trigger] cell_entries(v@, nx as int, j, i)
                == cell_indices(nx as int, j, i),
{
    proof {
        assert(nx + 1 <= (nx + 1) * (ny + 1)) by (nonlinear_arith);
    }
    let stride = nx + 1;
    let mut v: Vec<u32> = Vec::new();
    let mut j: u32 = 0;
    while j < ny
        invariant
            stride == nx + 1,
            (nx + 1) * (ny + 1) <= u32::MAX,
            j <= ny,
            v.len() == 6 * (j * nx),
            forall|jj: int, ii: int|
                0 <= jj < j && 0 <= ii < nx ==> #[trigger] cell_entries(v@, nx as int, jj, ii)
                    == cell_indices(nx as int, jj, ii),
        decreases ny - j,
    {
        let mut i: u32 = 0;
        while i < nx
            invariant
                stride == nx + 1,
                (nx + 1) * (ny + 1) <= u32::MAX,
                j < ny,
                i <= nx,
                v.len() == 6 * (j * nx + i),
                forall|jj: int, ii: int|
                    0 <= jj < ny && 0 <= ii < nx && (jj < j || (jj == j && ii < i))
                        ==> #[trigger] cell_entries(v@, nx as int, jj, ii) == cell_indices(
                        nx as int,
                        jj,
                        ii,
                    ),
            decreases nx - i,
        {
            proof {
                lemma_index_bound(nx as int, ny as int, j as int, i as int);
            }
            let i00 = j * stride + i;
            let i10 = i00 + 1;
            let i01 = i00 + stride;
            let i11 = i01 + 1;
            let ghost before = v@;
            v.push(i00);
            v.push(i10);
            v.push(i11);
            v.push(i00);
            v.push(i11);
            v.push(i01);
            proof {
                assert(v@ =~= before + cell_indices(nx as int, j as int, i as int));
                assert forall|jj: int, ii: int|
                    0 <= jj < ny && 0 <= ii < nx && (jj < j || (jj == j && ii < i + 1))
                        implies #[trigger] cell_entries(v@, nx as int, jj, ii) == cell_indices(
                        nx as int,
                        jj,
                        ii,
                    ) by {
                    if jj == j && ii == i {
                        assert(cell_entries(v@, nx as int, jj, ii) =~= cell_indices(
                            nx as int,
                            jj,
                            ii,
                        ));
                    } else {
                        lemma_cell_order(nx as int, jj, ii, j as int, i as int);
                        assert(0 <= jj * nx) by (nonlinear_arith)
                            requires
                                0 <= jj,
                                0 <= nx,
                        ;
                        assert(cell_entries(v@, nx as int, jj, ii) =~= cell_entries(
                            before,
                            nx as int,
                            jj,
                            ii,
                        ));
                    }
                }
            }
            i = i + 1;
        }
        proof {
            assert((j + 1) * nx == j * nx + nx) by (nonlinear_arith);
        }
        j = j + 1;
    }
    proof {
        assert(6 * (ny * nx) == 6 * nx * ny) by (nonlinear_arith);
    }
    v
}

} // verus!
