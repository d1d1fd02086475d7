//! Static per-shader layout: where the built-in rectangle fields and the
//! named uniform / per-instance inputs live inside their buffers.

use vstd::prelude::*;

use crate::geom::coord_ok;

verus! {

/// Largest record stride a shader mapping may declare.
pub const STRIDE_LIMIT: usize = 4096;

/// Largest number of slots an instance buffer may hold.
pub const BUF_LIMIT: usize = 0x1000_0000;

/// Declared type of a shader input, which fixes how many buffer slots the
/// input occupies.
#[derive(Clone, Copy, Debug, PartialEq, Eq, Structural)]
pub enum ShaderTy {
    Float,
    Vec2,
    Vec3,
    Vec4,
    Mat4,
}

impl ShaderTy {
    /// Number of buffer slots a value of this type occupies.
    pub open spec fn slot_count(self) -> int {
        match self {
            ShaderTy::Float => 1,
            ShaderTy::Vec2 => 2,
            ShaderTy::Vec3 => 3,
            ShaderTy::Vec4 => 4,
            ShaderTy::Mat4 => 16,
        }
    }

    pub fn slots(&self) -> (n: usize)
        ensures
            n == self.slot_count(),
    {
        match self {
            ShaderTy::Float => 1,
            ShaderTy::Vec2 => 2,
            ShaderTy::Vec3 => 3,
            ShaderTy::Vec4 => 4,
            ShaderTy::Mat4 => 16,
        }
    }
}

/// One named, typed input of a shader, at a fixed slot offset inside its
/// buffer record.
#[derive(Clone, Copy, Debug, PartialEq, Eq, Structural)]
pub struct ShaderInput {
    /// Interned name of the input.
    pub id: u64,
    pub ty: ShaderTy,
    pub offset: usize,
}

/// An ordered list of shader inputs sharing one buffer record of
/// `total_slots` slots.
#[derive(Clone, Debug)]
pub struct ShaderInputs {
    pub inputs: Vec<ShaderInput>,
    pub total_slots: usize,
}

/// Index of the first input in `s` whose id is `id`; `s.len()` if there is
/// none.
pub open spec fn first_input_index(s: Seq<ShaderInput>, id: u64) -> int
    decreases s.len(),
{
    if s.len() == 0 {
        0
    } else if s[0].id == id {
        0
    } else {
        1 + first_input_index(s.skip(1), id)
    }
}

/// Whether some input in `s` has id `id`.
pub open spec fn has_input(s: Seq<ShaderInput>, id: u64) -> bool {
    first_input_index(s, id) < s.len()
}

/// The first input in `s` with id `id` (meaningful only when `has_input`).
pub open spec fn input_at(s: Seq<ShaderInput>, id: u64) -> ShaderInput {
    s[first_input_index(s, id)]
}

pub proof fn lemma_first_input_index(s: Seq<ShaderInput>, id: u64)
    ensures
        0 <= first_input_index(s, id) <= s.len(),
        first_input_index(s, id) < s.len() ==> s[first_input_index(s, id)].id == id,
        forall|j: int| 0 <= j < first_input_index(s, id) ==> s[j].id != id,
    decreases s.len(),
{
    if s.len() != 0 && s[0].id != id {
        lemma_first_input_index(s.skip(1), id);
        assert forall|j: int| 0 <= j < first_input_index(s, id) implies s[j].id != id by {
            if j > 0 {
                assert(s.skip(1)[j - 1] == s[j]);
            }
        }
    }
}

impl ShaderInputs {
    /// Every input fits inside the record, and the record is of bounded
    /// stride.
    pub open spec fn wf(self) -> bool {
        &&& self.total_slots <= STRIDE_LIMIT
        &&& forall|i: int|
            0 <= i < self.inputs@.len() ==> (#[trigger] self.inputs@[i]).offset
                + self.inputs@[i].ty.slot_count() <= self.total_slots
    }

    /// Runtime check of `wf`, for callers outside the verified world.
    pub fn check_wf(&self) -> (r: bool)
        ensures
            r == self.wf(),
    {
        if self.total_slots > STRIDE_LIMIT {
            return false;
        }
        let mut i: usize = 0;
        while i < self.inputs.len()
            invariant
                i <= self.inputs@.len(),
                self.total_slots <= STRIDE_LIMIT,
                forall|j: int|
                    0 <= j < i ==> (#[trigger] self.inputs@[j]).offset
                        + self.inputs@[j].ty.slot_count() <= self.total_slots,
            decreases self.inputs@.len() - i,
        {
            let inp = self.inputs[i];
            let slots = inp.ty.slots();
            if inp.offset > self.total_slots || slots > self.total_slots - inp.offset {
                return false;
            }
            i += 1;
        }
        true
    }

    /// Find the first input named `id`, returning its index.
    pub fn find(&self, id: u64) -> (r: Option<usize>)
        ensures
            match r {
                Some(i) => has_input(self.inputs@, id) && i == first_input_index(self.inputs@, id),
                None => !has_input(self.inputs@, id),
            },
    {
        let mut i: usize = 0;
        while i < self.inputs.len()
            invariant
                i <= self.inputs@.len(),
                forall|j: int| 0 <= j < i ==> (#[trigger] self.inputs@[j]).id != id,
            decreases self.inputs@.len() - i,
        {
            if self.inputs[i].id == id {
                proof {
                    lemma_first_input_index(self.inputs@, id);
                    assert(first_input_index(self.inputs@, id) == i as int);
                }
                return Some(i);
            }
            i += 1;
        }
        proof {
            lemma_first_input_index(self.inputs@, id);
        }
        None
    }
}

/// Static layout of one compiled shader: optional built-in rectangle
/// position/size fields and the user uniform and per-instance inputs.
#[derive(Clone, Debug)]
pub struct ShaderMapping {
    /// Slot offset of the built-in rectangle-position field inside an
    /// instance record, if the shader declares one.
    pub rect_pos: Option<usize>,
    /// Slot offset of the built-in rectangle-size field inside an instance
    /// record, if the shader declares one.
    pub rect_size: Option<usize>,
    /// Inputs applied once per draw call.
    pub user_uniforms: ShaderInputs,
    /// Inputs applied once per instance record.
    pub instances: ShaderInputs,
}

impl ShaderMapping {
    pub open spec fn wf(self) -> bool {
        &&& self.user_uniforms.wf()
        &&& self.instances.wf()
        &&& self.instances.total_slots >= 1
        &&& self.rect_pos matches Some(o) ==> o + 2 <= self.instances.total_slots
        &&& self.rect_size matches Some(o) ==> o + 2 <= self.instances.total_slots
    }

    /// Runtime check of `wf`, for callers outside the verified world.
    pub fn check_wf(&self) -> (r: bool)
        ensures
            r == self.wf(),
    {
        if !self.user_uniforms.check_wf() || !self.instances.check_wf() {
            return false;
        }
        if self.instances.total_slots < 1 {
            return false;
        }
        if let Some(o) = self.rect_pos {
            if o > self.instances.total_slots || 2 > self.instances.total_slots - o {
                return false;
            }
        }
        if let Some(o) = self.rect_size {
            if o > self.instances.total_slots || 2 > self.instances.total_slots - o {
                return false;
            }
        }
        true
    }
}

} // verus!
