//! Topology of the terrain plane: the terrain is a grid of `resolution` by
//! `resolution` patch vertices, and every grid cell is one quad patch.
use vstd::arithmetic::div_mod::lemma_fundamental_div_mod;
use vstd::prelude::*;

use crate::assets::handle::Handle;
use crate::assets::storage::{ready_in, AssetContainer, AssetRef};

verus! {

/// The vertex index of corner `corner` (0 to 3) of quad (`x`, `y`): its first
/// corner has index `x + y * resolution`, then come the index one row of
/// `resolution` further, the one after that, and the one after the first. The
/// vertex list holds the patch vertices by first coordinate, then second, so
/// index `x + y * resolution` is patch vertex (`y`, `x`).
pub open spec fn quad_corner(resolution: int, x: int, y: int, corner: int) -> int {
    let base: int = x + y * resolution;
    if corner == 0 {
        base
    } else if corner == 1 {
        base + resolution
    } else if corner == 2 {
        base + resolution + 1
    } else {
        base + 1
    }
}

/// Where corner `corner` of quad (`x`, `y`) stands in the index list: quads come
/// by increasing `x`, and for each `x` by increasing `y`, four indices each.
pub open spec fn quad_slot(cells: int, x: int, y: int, corner: int) -> int {
    (x * cells + y) * 4 + corner
}

proof fn lemma_corner_bounds(resolution: int, x: int, y: int)
    requires
        resolution >= 1,
        0 <= x < resolution - 1,
        0 <= y < resolution - 1,
    ensures
        0 <= x + y * resolution,
        x + y * resolution + resolution + 1 < resolution * resolution,
{
    assert(y * resolution <= (resolution - 2) * resolution) by (nonlinear_arith)
        requires
            0 <= y <= resolution - 2,
            resolution >= 1,
    ;
    assert((resolution - 2) * resolution + resolution + resolution == resolution * resolution)
        by (nonlinear_arith);
    assert(0 <= y * resolution) by (nonlinear_arith)
        requires
            0 <= y,
            resolution >= 1,
    ;
}

proof fn lemma_slot_step(cells: int, x: int, y: int)
    requires
        cells >= 1,
        0 <= x < cells,
        0 <= y < cells,
    ensures
        quad_slot(cells, x, y, 0) + 4 == if y + 1 < cells {
            quad_slot(cells, x, y + 1, 0)
        } else {
            quad_slot(cells, x + 1, 0, 0)
        },
        quad_slot(cells, x, y, 0) + 4 <= cells * cells * 4,
{
    assert((x * cells + y) * 4 + 4 == (x * cells + y + 1) * 4);
    assert((x + 1) * cells == x * cells + cells) by (nonlinear_arith);
    assert(x * cells + y + 1 <= cells * cells) by (nonlinear_arith)
        requires
            0 <= x < cells,
            0 <= y < cells,
    ;
}

/// Slot `i` of the index list holds corner `i % 4` of quad
/// (`(i / 4) / cells`, `(i / 4) % cells`).
proof fn lemma_slot_decomposition(cells: int, i: int)
    requires
        cells >= 1,
        0 <= i < cells * cells * 4,
    ensures
        0 <= (i / 4) / cells < cells,
        0 <= (i / 4) % cells < cells,
        0 <= i % 4 < 4,
        i == quad_slot(cells, (i / 4) / cells, (i / 4) % cells, i % 4),
{
    let q: int = i / 4;
    lemma_fundamental_div_mod(i, 4);
    lemma_fundamental_div_mod(q, cells);
    assert(0 <= q < cells * cells) by (nonlinear_arith)
        requires
            i == 4 * q + i % 4,
            0 <= i % 4 < 4,
            0 <= i < cells * cells * 4,
    ;
    assert(0 <= q / cells < cells) by (nonlinear_arith)
        requires
            q == cells * (q / cells) + q % cells,
            0 <= q % cells < cells,
            0 <= q < cells * cells,
            cells >= 1,
    ;
    assert(cells * (q / cells) == (q / cells) * cells) by (nonlinear_arith);
}

/// The last index list entry but one, corner 2 of the last quad, is the last
/// vertex of the grid.
proof fn lemma_last_corner(resolution: int)
    requires
        resolution >= 2,
    ensures
        quad_corner(resolution, resolution - 2, resolution - 2, 2) == resolution * resolution - 1,
        quad_slot(resolution - 1, resolution - 2, resolution - 2, 2) == (resolution - 1) * (
        resolution - 1) * 4 - 2,
{
    assert((resolution - 2) + (resolution - 2) * resolution + resolution + 1 == resolution
        * resolution - 1) by (nonlinear_arith);
    assert(((resolution - 2) * (resolution - 1) + (resolution - 2)) * 4 + 2 == (resolution - 1) * (
    resolution - 1) * 4 - 2) by (nonlinear_arith);
}

/// The corners of quad (`x`, `y`): the first is vertex `x + y * resolution`,
/// the others lie one row of `resolution` further, one row and one further, and
/// one further.
pub proof fn law_quad_corners(resolution: int, x: int, y: int)
    ensures
        quad_corner(resolution, x, y, 0) == x + y * resolution,
        quad_corner(resolution, x, y, 1) == x + y * resolution + resolution,
        quad_corner(resolution, x, y, 2) == x + y * resolution + resolution + 1,
        quad_corner(resolution, x, y, 3) == x + y * resolution + 1,
{
}

/// Every corner of every quad of the grid is a vertex of the grid, and corner 2
/// of the last quad is its last vertex, so the index list spans all
/// `resolution * resolution` vertices.
pub proof fn law_corners_in_grid(resolution: int, x: int, y: int, corner: int)
    requires
        resolution >= 2,
        0 <= x < resolution - 1,
        0 <= y < resolution - 1,
        0 <= corner < 4,
    ensures
        0 <= quad_corner(resolution, x, y, corner) < resolution * resolution,
        quad_corner(resolution, resolution - 2, resolution - 2, 2) == resolution * resolution - 1,
{
    lemma_corner_bounds(resolution, x, y);
    lemma_last_corner(resolution);
}

/// The index list of the terrain plane: four vertex indices per quad patch,
/// for the `(resolution - 1)` by `(resolution - 1)` quads of the grid.
pub fn terrain_indices(resolution: u32) -> (indices: Vec<u32>)
    requires
        resolution >= 1,
        resolution * resolution <= 0x1_0000_0000,
    ensures
        indices.len() == (resolution - 1) * (resolution - 1) * 4,
        forall|x: int, y: int, corner: int|
            0 <= x < resolution - 1 && 0 <= y < resolution - 1 && 0 <= corner < 4
                ==> #[trigger] indices@[quad_slot(resolution - 1, x, y, corner)] == quad_corner(
                resolution as int,
                x,
                y,
                corner,
            ),
            forall|i: int|
                0 <= i < indices.len() ==> #[trigger] indices@[i] == (i / 4) / (resolution - 1) + ((i
                    / 4) % (resolution - 1)) * resolution + (if i % 4 == 1 || i % 4 == 2 {
                    resolution as int
                } else {
                    0
                }) + (if i % 4 >= 2 {
                    1int
                } else {
                    0
                }),
            forall|i: int| 0 <= i < indices.len() ==> #[trigger] indices@[i] < resolution * resolution,
            resolution >= 2 ==> indices@[indices.len() - 2] == resolution * resolution - 1,
{
    let cells: u32 = resolution - 1;
    let mut indices: Vec<u32> = Vec::new();
    let mut x: u32 = 0;
    while x < cells
        invariant
            cells == resolution - 1,
            resolution >= 1,
            resolution * resolution <= 0x1_0000_0000,
            x <= cells,
            indices.len() == quad_slot(cells as int, x as int, 0, 0),
            forall|qx: int, qy: int, corner: int|
                0 <= qx < x && 0 <= qy < cells && 0 <= corner < 4 ==> #[trigger] indices@[quad_slot(
                    cells as int,
                    qx,
                    qy,
                    corner,
                )] == quad_corner(resolution as int, qx, qy, corner),
        decreases cells - x,
    {
        let mut y: u32 = 0;
        while y < cells
            invariant
                cells == resolution - 1,
                resolution >= 1,
                resolution * resolution <= 0x1_0000_0000,
                x < cells,
                y <= cells,
                indices.len() == quad_slot(cells as int, x as int, y as int, 0),
                forall|qx: int, qy: int, corner: int|
                    (0 <= qx < x && 0 <= qy < cells || qx == x && 0 <= qy < y) && 0 <= corner < 4
                        ==> #[trigger] indices@[quad_slot(cells as int, qx, qy, corner)]
                        == quad_corner(resolution as int, qx, qy, corner),
            decreases cells - y,
        {
            proof {
                lemma_corner_bounds(resolution as int, x as int, y as int);
                lemma_slot_step(cells as int, x as int, y as int);
            }
            let base: u32 = x + y * resolution;
            let ghost start = indices.len() as int;
            indices.push(base);
            indices.push(base + resolution);
            indices.push(base + resolution + 1);
            indices.push(base + 1);
            assert forall|qx: int, qy: int, corner: int|
                (0 <= qx < x && 0 <= qy < cells || qx == x && 0 <= qy < y + 1) && 0 <= corner < 4
                    implies #[trigger] indices@[quad_slot(cells as int, qx, qy, corner)]
                    == quad_corner(resolution as int, qx, qy, corner) by {
                if qx == x && qy == y {
                    assert(quad_slot(cells as int, qx, qy, corner) == start + corner);
                } else {
                    assert(quad_slot(cells as int, qx, qy, corner) < start) by (nonlinear_arith)
                        requires
                            start == (x * cells + y) * 4,
                            0 <= corner < 4,
                            0 <= qy < cells,
                            0 <= qx < x && 0 <= qy < cells || qx == x && 0 <= qy < y,
                            quad_slot(cells as int, qx, qy, corner) == (qx * cells + qy) * 4
                                + corner,
                    ;
                }
            }
            y = y + 1;
        }
        proof {
            assert((x as int + 1) * cells == x * cells + cells) by (nonlinear_arith);
        }
        x = x + 1;
    }
    proof {
        assert(cells * cells * 4 == (cells * cells + 0) * 4);
        if cells >= 1 {
            assert forall|i: int| 0 <= i < indices.len() implies #[trigger] indices@[i] == (i / 4)
                / (resolution - 1) + ((i / 4) % (resolution - 1)) * resolution + (if i % 4 == 1 || i
                % 4 == 2 {
                resolution as int
            } else {
                0
            }) + (if i % 4 >= 2 {
                1int
            } else {
                0
            }) && indices@[i] < resolution * resolution by {
                lemma_slot_decomposition(cells as int, i);
                let x: int = (i / 4) / (cells as int);
                let y: int = (i / 4) % (cells as int);
                let k: int = i % 4;
                assert(indices@[quad_slot(cells as int, x, y, k)] == quad_corner(
                    resolution as int,
                    x,
                    y,
                    k,
                ));
                lemma_corner_bounds(resolution as int, x, y);
            }
            lemma_last_corner(resolution as int);
            let last: int = cells as int - 1;
            assert(indices@[quad_slot(cells as int, last, last, 2)] == quad_corner(
                resolution as int,
                last,
                last,
                2,
            ));
        }
    }
    indices
}


/// A terrain: handles to its height map, normal map, diffuse texture and mesh.
pub struct Terrain<H, N, D, M> {
    pub height_map: Handle<H>,
    pub normal_map: Handle<N>,
    pub diffuse_map: Handle<D>,
    pub mesh: Handle<M>,
}

impl<H, N, D, M> Terrain<H, N, D, M> {
    /// Calls `f` with the four assets of the terrain if all of them are ready, and
    /// returns its result; returns `None` without calling `f` otherwise.
    pub fn with_if_ready<R, F: FnOnce(&H, &N, &D, &M) -> R>(
        &self,
        heights: &AssetContainer<H>,
        normals: &AssetContainer<N>,
        diffuse: &AssetContainer<D>,
        meshes: &AssetContainer<M>,
        f: F,
    ) -> (r: Option<R>)
        requires
            forall|h: &H, n: &N, d: &D, m: &M| f.requires((h, n, d, m)),
        ensures
            match r {
                Some(out) => {
                    &&& ready_in(heights.view(), self.height_map.code())
                    &&& ready_in(normals.view(), self.normal_map.code())
                    &&& ready_in(diffuse.view(), self.diffuse_map.code())
                    &&& ready_in(meshes.view(), self.mesh.code())
                    &&& f.ensures(
                        (
                            &heights.view()[self.height_map.code()]->Ready_0,
                            &normals.view()[self.normal_map.code()]->Ready_0,
                            &diffuse.view()[self.diffuse_map.code()]->Ready_0,
                            &meshes.view()[self.mesh.code()]->Ready_0,
                        ),
                        out,
                    )
                },
                None => !(ready_in(heights.view(), self.height_map.code()) && ready_in(
                    normals.view(),
                    self.normal_map.code(),
                ) && ready_in(diffuse.view(), self.diffuse_map.code()) && ready_in(
                    meshes.view(),
                    self.mesh.code(),
                )),
            },
    {
        match (
            heights.get(self.height_map),
            normals.get(self.normal_map),
            diffuse.get(self.diffuse_map),
            meshes.get(self.mesh),
        ) {
            (
                Some(AssetRef::Ready(h)),
                Some(AssetRef::Ready(n)),
                Some(AssetRef::Ready(d)),
                Some(AssetRef::Ready(m)),
            ) => Some(f(h, n, d, m)),
            _ => None,
        }
    }
}

/// Every index of the terrain plane refers to one of its `resolution`²
/// vertices.
pub proof fn law_indices_refer_to_vertices(resolution: int, x: int, y: int, corner: int)
    requires
        resolution >= 1,
        0 <= x < resolution - 1,
        0 <= y < resolution - 1,
        0 <= corner < 4,
    ensures
        0 <= quad_corner(resolution, x, y, corner) < resolution * resolution,
{
    lemma_corner_bounds(resolution, x, y);
}

} // verus!
