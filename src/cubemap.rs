use crate::face::CubeMapFace;
use vstd::prelude::*;

verus! {

/// A raster over the six faces of a cube: each face holds `res × res` cells,
/// stored row by row (cell `(x, y)` at index `y * res + x`).
pub struct CubeMapDataLayer<Data> {
    res: u16,
    px: Vec<Data>,
    py: Vec<Data>,
    pz: Vec<Data>,
    nx: Vec<Data>,
    ny: Vec<Data>,
    nz: Vec<Data>,
}

/// Cells in one face of resolution `res`.
pub open spec fn face_len(res: nat) -> nat {
    res * res
}

proof fn lemma_row_past_face(y: int, res: int)
    requires
        0 <= res <= y,
    ensures
        res * res <= y * res,
{
    assert(res * res <= y * res) by (nonlinear_arith)
        requires
            0 <= res <= y,
    ;
}

proof fn lemma_row_fits(y: int, res: int)
    requires
        0 <= y < res,
    ensures
        y * res + res <= res * res,
{
    assert(y * res + res <= res * res) by (nonlinear_arith)
        requires
            0 <= y < res,
    ;
}

proof fn lemma_cell_in_face(x: int, y: int, res: int)
    requires
        0 <= x < res,
        0 <= y < res,
    ensures
        0 <= y * res + x < res * res,
        0 <= y * res,
{
    assert(0 <= y * res) by (nonlinear_arith)
        requires
            0 <= y,
            0 <= res,
    ;
    assert(y * res + x < res * res) by (nonlinear_arith)
        requires
            0 <= x < res,
            0 <= y < res,
    ;
}

impl<Data> CubeMapDataLayer<Data> {
    /// Side length of each face, in cells.
    pub closed spec fn resolution(&self) -> nat {
        self.res as nat
    }

    /// The cells of one face, row by row.
    pub closed spec fn face_view(&self, face: CubeMapFace) -> Seq<Data> {
        match face {
            CubeMapFace::PX => self.px@,
            CubeMapFace::PY => self.py@,
            CubeMapFace::PZ => self.pz@,
            CubeMapFace::NX => self.nx@,
            CubeMapFace::NY => self.ny@,
            CubeMapFace::NZ => self.nz@,
        }
    }

    /// Every face holds exactly `res × res` cells.
    pub open spec fn wf(&self) -> bool {
        forall|face: CubeMapFace| #[trigger] self.face_view(face).len() == face_len(self.resolution())
    }

    /// The value stored at cell `(x, y)` of `face`.
    pub open spec fn cell(&self, face: CubeMapFace, x: int, y: int) -> Data {
        self.face_view(face)[y * self.resolution() + x]
    }

    /// Whether `(x, y)` lies inside a face.
    pub open spec fn in_face(&self, x: int, y: int) -> bool {
        0 <= x < self.resolution() && 0 <= y < self.resolution()
    }

    /// Index read by `get_pixel(face, x, y)`: the row-major index, capped at the
    /// last cell of the face.
    pub open spec fn capped_index(&self, x: int, y: int) -> int {
        let i = y * self.resolution() + x;
        let last = face_len(self.resolution()) - 1;
        if i <= last {
            i
        } else {
            last
        }
    }

    /// `v` clamped into `[0, res - 1]`.
    pub open spec fn clamp_coord(&self, v: int) -> int {
        if v < 0 {
            0
        } else if v >= self.resolution() {
            self.resolution() - 1
        } else {
            v
        }
    }

    /// `other` differs from `self` at most in the cells of `face`.
    pub open spec fn agrees_outside(&self, other: &Self, face: CubeMapFace) -> bool {
        &&& other.resolution() == self.resolution()
        &&& forall|g: CubeMapFace| g != face ==> #[trigger] other.face_view(g) == self.face_view(g)
    }

    /// Side length of each face, in cells.
    pub fn res(&self) -> (r: u16)
        ensures
            r == self.resolution(),
    {
        self.res
    }

    fn face_ref(&self, face: &CubeMapFace) -> (r: &Vec<Data>)
        ensures
            r@ == self.face_view(*face),
    {
        match face {
            CubeMapFace::PX => &self.px,
            CubeMapFace::PY => &self.py,
            CubeMapFace::PZ => &self.pz,
            CubeMapFace::NX => &self.nx,
            CubeMapFace::NY => &self.ny,
            CubeMapFace::NZ => &self.nz,
        }
    }

    fn face_mut(&mut self, face: &CubeMapFace) -> (r: &mut Vec<Data>)
        ensures
            r@ == old(self).face_view(*face),
            final(self).face_view(*face) == final(r)@,
            old(self).agrees_outside(final(self), *face),
    {
        match face {
            CubeMapFace::PX => &mut self.px,
            CubeMapFace::PY => &mut self.py,
            CubeMapFace::PZ => &mut self.pz,
            CubeMapFace::NX => &mut self.nx,
            CubeMapFace::NY => &mut self.ny,
            CubeMapFace::NZ => &mut self.nz,
        }
    }

    /// The cells of `face` as a mutable slice, for filling a face in one pass.
    pub fn get_mutable_face(&mut self, face: &CubeMapFace) -> (r: &mut [Data])
        ensures
            r@ == old(self).face_view(*face),
            final(self).face_view(*face) == final(r)@,
            old(self).agrees_outside(final(self), *face),
    {
        self.face_mut(face).as_mut_slice()
    }

    /// Pixel pair `(lo, hi)` chosen for a bilinear footprint, before clamping:
    /// an out-of-face neighbour collapses onto the other one.
    pub open spec fn bilinear_choice(&self, lo: (int, int), hi: (int, int)) -> ((int, int), (int, int)) {
        if !self.in_face(lo.0, lo.1) {
            (hi, hi)
        } else if !self.in_face(hi.0, hi.1) {
            (lo, lo)
        } else {
            (lo, hi)
        }
    }

    /// `v` as a pixel coordinate: clamped into the face.
    fn clamp_coord_exec(&self, v: i64) -> (r: usize)
        requires
            self.resolution() > 0,
        ensures
            r == self.clamp_coord(v as int),
    {
        if v < 0 {
            0
        } else if v >= self.res as i64 {
            (self.res - 1) as usize
        } else {
            v as usize
        }
    }

    /// Row-major index of `(x, y)` in a face, capped at the face's last cell.
    fn capped_cell_index(&self, face: &CubeMapFace, x: usize, y: usize) -> (r: usize)
        requires
            self.wf(),
            self.resolution() > 0,
        ensures
            r == self.capped_index(x as int, y as int),
            r < self.face_view(*face).len(),
    {
        let res = self.res as usize;
        let len = self.face_ref(face).len();
        assert(len == res * res);
        assert(res * res >= res) by (nonlinear_arith)
            requires
                res >= 1,
        ;
        if y < res {
            proof {
                lemma_row_fits(y as int, res as int);
            }
            let row = y * res;
            if x < len - row {
                row + x
            } else {
                len - 1
            }
        } else {
            proof {
                lemma_row_past_face(y as int, res as int);
            }
            len - 1
        }
    }

    /// Where a scatter write at pixel `(x, y)` lands: the pixel itself, which
    /// must lie inside the face (no clamping); `None` when it does not.
    pub fn scatter_target(&self, x: i64, y: i64) -> (r: Option<(usize, usize)>)
        ensures
            r is Some <==> self.in_face(x as int, y as int),
            r matches Some(p) ==> p.0 == x && p.1 == y,
    {
        if 0 <= x && x < self.res as i64 && 0 <= y && y < self.res as i64 {
            Some((x as usize, y as usize))
        } else {
            None
        }
    }

    /// The two pixels of a bilinear footprint whose corners are `(lo_x, lo_y)`
    /// (the floor of the sampling position) and `(hi_x, hi_y)` (its ceiling).
    /// A corner outside the face collapses onto the other corner (edge
    /// duplication, never a wrap onto another face); the result is clamped into
    /// the face.
    pub fn bilinear_corners(&self, lo_x: i64, lo_y: i64, hi_x: i64, hi_y: i64) -> (r: (
        (usize, usize),
        (usize, usize),
    ))
        requires
            self.resolution() > 0,
        ensures
            ({
                let c = self.bilinear_choice((lo_x as int, lo_y as int), (hi_x as int, hi_y as int));
                &&& r.0.0 == self.clamp_coord(c.0.0)
                &&& r.0.1 == self.clamp_coord(c.0.1)
                &&& r.1.0 == self.clamp_coord(c.1.0)
                &&& r.1.1 == self.clamp_coord(c.1.1)
            }),
    {
        let lo_in = 0 <= lo_x && lo_x < self.res as i64 && 0 <= lo_y && lo_y < self.res as i64;
        let hi_in = 0 <= hi_x && hi_x < self.res as i64 && 0 <= hi_y && hi_y < self.res as i64;
        let (a_x, a_y, b_x, b_y) = if !lo_in {
            (hi_x, hi_y, hi_x, hi_y)
        } else if !hi_in {
            (lo_x, lo_y, lo_x, lo_y)
        } else {
            (lo_x, lo_y, hi_x, hi_y)
        };
        (
            (self.clamp_coord_exec(a_x), self.clamp_coord_exec(a_y)),
            (self.clamp_coord_exec(b_x), self.clamp_coord_exec(b_y)),
        )
    }

    /// Replaces cell `capped_index(x, y)` of `face` (the cell that `get_pixel`
    /// reads) with `f` applied to its current value.
    pub fn update_pixel<F: Fn(&Data) -> Data>(&mut self, face: &CubeMapFace, x: usize, y: usize, f: F)
        requires
            old(self).wf(),
            old(self).resolution() > 0,
            forall|v: &Data| #[trigger] f.requires((v,)),
        ensures
            final(self).wf(),
            old(self).agrees_outside(final(self), *face),
            ({
                let i = old(self).capped_index(x as int, y as int);
                &&& f.ensures((&old(self).face_view(*face)[i],), final(self).face_view(*face)[i])
                &&& final(self).face_view(*face) == old(self).face_view(*face).update(
                    i,
                    final(self).face_view(*face)[i],
                )
            }),
    {
        let index = self.capped_cell_index(face, x, y);
        let value = f(&self.face_ref(face)[index]);
        let cells = self.face_mut(face);
        cells.set(index, value);
        proof {
            assert forall|g: CubeMapFace| #[trigger] self.face_view(g).len() == face_len(
                self.resolution(),
            ) by {
                if g != *face {
                    assert(old(self).face_view(g).len() == face_len(old(self).resolution()));
                }
            }
        }
    }

    /// Whether pixel `(x, y)` lies outside a face.
    pub fn is_out_of_bounds(&self, x: isize, y: isize) -> (r: bool)
        ensures
            r == !self.in_face(x as int, y as int),
    {
        x < 0 || y < 0 || x >= self.res as isize || y >= self.res as isize
    }

    /// Overwrites cell `(x, y)` of `face` with `value`.
    pub fn set_pixel(&mut self, face: &CubeMapFace, x: usize, y: usize, value: Data)
        requires
            old(self).wf(),
            old(self).in_face(x as int, y as int),
        ensures
            final(self).wf(),
            old(self).agrees_outside(final(self), *face),
            final(self).face_view(*face) == old(self).face_view(*face).update(
                y * old(self).resolution() + x,
                value,
            ),
    {
        let res = self.res as usize;
        proof {
            lemma_cell_in_face(x as int, y as int, res as int);
            assert(self.face_view(*face).len() == face_len(self.resolution()));
        }
        let len = self.face_ref(face).len();
        assert(y * res + x < len);
        let index = y * res + x;
        let cells = self.face_mut(face);
        cells.set(index, value);
        proof {
            assert forall|g: CubeMapFace| #[trigger] self.face_view(g).len() == face_len(
                self.resolution(),
            ) by {
                if g != *face {
                    assert(old(self).face_view(g).len() == face_len(old(self).resolution()));
                }
            }
        }
    }
}

impl<Data: Clone> CubeMapDataLayer<Data> {
    /// A layer of `res × res` cells per face, each a clone of `initializer`.
    pub fn new(res: u16, initializer: Data) -> (r: CubeMapDataLayer<Data>)
        ensures
            r.wf(),
            r.resolution() == res,
            forall|face: CubeMapFace, i: int|
                0 <= i < face_len(res as nat) ==> cloned(initializer, #[trigger] r.face_view(face)[i]),
    {
        let res_usize = res as usize;
        assert(res_usize * res_usize <= 65535 * 65535) by (nonlinear_arith)
            requires
                res_usize <= 65535,
        ;
        let n = res_usize * res_usize;
        let layer = CubeMapDataLayer {
            res,
            px: filled(n, &initializer),
            py: filled(n, &initializer),
            pz: filled(n, &initializer),
            nx: filled(n, &initializer),
            ny: filled(n, &initializer),
            nz: filled(n, &initializer),
        };
        assert forall|face: CubeMapFace| #[trigger] layer.face_view(face).len() == face_len(
            layer.resolution(),
        ) by {
            match face {
                CubeMapFace::PX => {},
                CubeMapFace::PY => {},
                CubeMapFace::PZ => {},
                CubeMapFace::NX => {},
                CubeMapFace::NY => {},
                CubeMapFace::NZ => {},
            }
        }
        layer
    }

    /// The value at `(x, y)` of `face`. Coordinates past the face read the cell
    /// at the capped row-major index (`capped_index`).
    pub fn get_pixel(&self, face: &CubeMapFace, x: usize, y: usize) -> (r: Data)
        requires
            self.wf(),
            self.resolution() > 0,
        ensures
            cloned(self.face_view(*face)[self.capped_index(x as int, y as int)], r),
    {
        let index = self.capped_cell_index(face, x, y);
        self.face_ref(face)[index].clone()
    }

    /// Point sample at the pixel `(x, y)` (the floor of a sampling position),
    /// clamped into the face on each axis.
    pub fn get_clamped(&self, face: &CubeMapFace, x: i64, y: i64) -> (r: Data)
        requires
            self.wf(),
            self.resolution() > 0,
        ensures
            cloned(self.cell(*face, self.clamp_coord(x as int), self.clamp_coord(y as int)), r),
    {
        let cx = self.clamp_coord_exec(x);
        let cy = self.clamp_coord_exec(y);
        proof {
            lemma_cell_in_face(cx as int, cy as int, self.resolution() as int);
        }
        self.get_pixel(face, cx, cy)
    }
}

/// A scatter write and a point read at the same pixel inside a face touch the
/// same cell: after a write of `v` at pixel `(x, y)` of `face`, the clamped
/// point read at `(x, y)` sees `v`.
pub proof fn lemma_scatter_then_read<Data>(
    before: CubeMapDataLayer<Data>,
    after: CubeMapDataLayer<Data>,
    face: CubeMapFace,
    x: int,
    y: int,
    v: Data,
)
    requires
        before.wf(),
        before.in_face(x, y),
        before.agrees_outside(&after, face),
        after.face_view(face) == before.face_view(face).update(before.capped_index(x, y), v),
    ensures
        after.clamp_coord(x) == x,
        after.clamp_coord(y) == y,
        before.capped_index(x, y) == y * before.resolution() + x,
        after.cell(face, after.clamp_coord(x), after.clamp_coord(y)) == v,
{
    lemma_cell_in_face(x, y, before.resolution() as int);
}

/// Writes into two different cells of a face commute.
pub proof fn lemma_distinct_writes_commute<Data>(cells: Seq<Data>, i: int, j: int, a: Data, b: Data)
    requires
        0 <= i < cells.len(),
        0 <= j < cells.len(),
        i != j,
    ensures
        cells.update(i, a).update(j, b) == cells.update(j, b).update(i, a),
{
    assert(cells.update(i, a).update(j, b) =~= cells.update(j, b).update(i, a));
}

fn filled<Data: Clone>(n: usize, value: &Data) -> (r: Vec<Data>)
    ensures
        r@.len() == n,
        forall|i: int| 0 <= i < n ==> cloned(*value, #[trigger] r@[i]),
{
    let mut cells: Vec<Data> = Vec::with_capacity(n);
    let mut i: usize = 0;
    while i < n
        invariant
            i <= n,
            cells@.len() == i,
            forall|j: int| 0 <= j < i ==> cloned(*value, #[trigger] cells@[j]),
        decreases n - i,
    {
        cells.push(value.clone());
        i = i + 1;
    }
    cells
}

} // verus!
