use vstd::prelude::*;

verus! {

/// One of the six faces of the cube onto which the sphere is projected.
///
/// The declaration order is the priority order used when a direction lies on
/// the seam of two faces: the earlier face wins.
#[derive(Clone, Copy, Debug, PartialEq, Eq, Structural)]
pub enum CubeMapFace {
    PX,
    PY,
    PZ,
    NX,
    NY,
    NZ,
}

/// Number of cube faces.
pub const FACE_COUNT: usize = 6;

impl CubeMapFace {
    /// Position of the face in the priority order.
    pub open spec fn spec_index(self) -> int {
        match self {
            CubeMapFace::PX => 0,
            CubeMapFace::PY => 1,
            CubeMapFace::PZ => 2,
            CubeMapFace::NX => 3,
            CubeMapFace::NY => 4,
            CubeMapFace::NZ => 5,
        }
    }

    /// The face at position `i` of the priority order.
    pub open spec fn spec_at(i: int) -> CubeMapFace
        recommends
            0 <= i < 6,
    {
        if i == 0 {
            CubeMapFace::PX
        } else if i == 1 {
            CubeMapFace::PY
        } else if i == 2 {
            CubeMapFace::PZ
        } else if i == 3 {
            CubeMapFace::NX
        } else if i == 4 {
            CubeMapFace::NY
        } else {
            CubeMapFace::NZ
        }
    }

    /// The short label of the face.
    pub open spec fn spec_name(self) -> Seq<char> {
        match self {
            CubeMapFace::PX => seq!['P', 'X'],
            CubeMapFace::PY => seq!['P', 'Y'],
            CubeMapFace::PZ => seq!['P', 'Z'],
            CubeMapFace::NX => seq!['N', 'X'],
            CubeMapFace::NY => seq!['N', 'Y'],
            CubeMapFace::NZ => seq!['N', 'Z'],
        }
    }

    pub fn index(&self) -> (r: usize)
        ensures
            r == self.spec_index(),
            r < FACE_COUNT,
    {
        match self {
            CubeMapFace::PX => 0,
            CubeMapFace::PY => 1,
            CubeMapFace::PZ => 2,
            CubeMapFace::NX => 3,
            CubeMapFace::NY => 4,
            CubeMapFace::NZ => 5,
        }
    }

    pub fn from_index(i: usize) -> (r: Option<CubeMapFace>)
        ensures
            r is Some <==> i < FACE_COUNT,
            i < FACE_COUNT ==> r == Some(CubeMapFace::spec_at(i as int)),
            r matches Some(f) ==> f.spec_index() == i,
    {
        if i == 0 {
            Some(CubeMapFace::PX)
        } else if i == 1 {
            Some(CubeMapFace::PY)
        } else if i == 2 {
            Some(CubeMapFace::PZ)
        } else if i == 3 {
            Some(CubeMapFace::NX)
        } else if i == 4 {
            Some(CubeMapFace::NY)
        } else if i == 5 {
            Some(CubeMapFace::NZ)
        } else {
            None
        }
    }

    /// All faces, in priority order.
    pub fn all() -> (r: [CubeMapFace; 6])
        ensures
            forall|i: int| 0 <= i < 6 ==> (#[trigger] r@[i]).spec_index() == i,
            forall|i: int| 0 <= i < 6 ==> #[trigger] r@[i] == CubeMapFace::spec_at(i),
    {
        [
            CubeMapFace::PX,
            CubeMapFace::PY,
            CubeMapFace::PZ,
            CubeMapFace::NX,
            CubeMapFace::NY,
            CubeMapFace::NZ,
        ]
    }

    /// The short label of the face ("PX", "NZ", ...).
    pub fn name(&self) -> (r: &'static str)
        ensures
            r@ == self.spec_name(),
    {
        match self {
            CubeMapFace::PX => {
                proof {
                    reveal_strlit("PX");
                }
                "PX"
            },
            CubeMapFace::PY => {
                proof {
                    reveal_strlit("PY");
                }
                "PY"
            },
            CubeMapFace::PZ => {
                proof {
                    reveal_strlit("PZ");
                }
                "PZ"
            },
            CubeMapFace::NX => {
                proof {
                    reveal_strlit("NX");
                }
                "NX"
            },
            CubeMapFace::NY => {
                proof {
                    reveal_strlit("NY");
                }
                "NY"
            },
            CubeMapFace::NZ => {
                proof {
                    reveal_strlit("NZ");
                }
                "NZ"
            },
        }
    }

    /// Resolves the face of a direction from the per-face acceptance tests:
    /// `accepts[i]` tells whether the direction projects inside the face at
    /// position `i` of the priority order. The first accepting face wins; `None`
    /// means that no face accepts the direction.
    pub fn first_accepting(accepts: [bool; 6]) -> (r: Option<CubeMapFace>)
        ensures
            r is None <==> forall|i: int| 0 <= i < 6 ==> !(#[trigger] accepts@[i]),
            r matches Some(f) ==> {
                &&& accepts@[f.spec_index()]
                &&& forall|j: int| 0 <= j < f.spec_index() ==> !(#[trigger] accepts@[j])
            },
    {
        let faces = CubeMapFace::all();
        let mut i: usize = 0;
        while i < FACE_COUNT
            invariant
                0 <= i <= FACE_COUNT,
                forall|j: int| 0 <= j < i ==> !(#[trigger] accepts@[j]),
                forall|k: int| 0 <= k < 6 ==> (#[trigger] faces@[k]).spec_index() == k,
            decreases FACE_COUNT - i,
        {
            if accepts[i] {
                return Some(faces[i]);
            }
            i = i + 1;
        }
        None
    }
}

} // verus!
