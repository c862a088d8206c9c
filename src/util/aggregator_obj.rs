//! Vertex array objects: which attributes are fed from which buffer, and the
//! check that a program finds every attribute it reads.
use vstd::prelude::*;
use crate::binding::{Bindable, ResourceKind, Unbound};
use crate::driver::{AttribPointer, PointerFn};
use crate::glenum::ElemType;
use crate::render::program::Program;
use crate::util::buffer_obj::{VBO, elem_sum, lemma_prefix_sum_bounds, prefix_sum, sum_prefix};

verus! {

/// The attribute-pointer call for elements of type `elem`: floats, and integers
/// that are to be converted, go through the float call; other integers stay
/// integers; doubles go through the long call.
pub open spec fn pointer_fn(elem: ElemType, auto_convert_to_f32: bool) -> PointerFn {
    if elem is Float || (auto_convert_to_f32 && elem.spec_is_integer()) {
        PointerFn::Float
    } else if elem.spec_is_integer() {
        PointerFn::Integer
    } else {
        PointerFn::Long
    }
}

/// The byte distance between two vertices of a buffer laid out by `counts`.
pub open spec fn attrib_stride(counts: Seq<u8>, elem: ElemType) -> int {
    elem_sum(counts) * elem.spec_size()
}

/// The byte offset of attribute `i` within a vertex laid out by `counts`.
pub open spec fn attrib_offset(counts: Seq<u8>, i: int, elem: ElemType) -> int {
    prefix_sum(counts, i) * elem.spec_size()
}

/// The error of a program that reads an attribute location that no buffer was
/// attached to.
#[derive(PartialEq, Eq, Structural, Clone, Copy, Debug)]
pub struct MissingAttributeError {
    pub location: u32,
}

/// A vertex array object: its handle and the attribute indices that buffers
/// were attached to, in order of attachment.
pub struct VAO {
    id: u32,
    available_ind: Vec<u32>,
}

impl Bindable for VAO {
    open spec fn spec_kind() -> ResourceKind {
        ResourceKind::VertexArray
    }

    open spec fn spec_target(&self) -> u32 {
        0
    }

    closed spec fn spec_handle(&self) -> u32 {
        self.id
    }

    fn kind() -> (k: ResourceKind) {
        ResourceKind::VertexArray
    }

    fn target(&self) -> (t: u32) {
        0
    }

    fn handle(&self) -> (h: u32) {
        self.id
    }
}

impl VAO {
    /// The attribute indices attached so far.
    pub closed spec fn spec_attached(&self) -> Seq<u32> {
        self.available_ind@
    }

    /// A vertex array object for the driver handle `id`, with nothing attached.
    pub fn new(id: u32) -> (r: Unbound<VAO>)
        ensures
            r.resource().spec_handle() == id,
            r.resource().spec_attached() == Seq::<u32>::empty(),
    {
        Unbound::from(VAO { id, available_ind: Vec::new() })
    }

    /// The attribute indices attached so far.
    pub fn get_attached(&self) -> (r: &Vec<u32>)
        ensures
            r@ == self.spec_attached(),
    {
        &self.available_ind
    }

    /// Whether a buffer was attached to attribute index `index`.
    pub fn is_attached(&self, index: u32) -> (r: bool)
        ensures
            r == self.spec_attached().contains(index),
    {
        let mut i: usize = 0;
        while i < self.available_ind.len()
            invariant
                i <= self.available_ind@.len(),
                forall|j: int| 0 <= j < i ==> self.available_ind@[j] != index,
            decreases self.available_ind@.len() - i,
        {
            if self.available_ind[i] == index {
                return true;
            }
            i = i + 1;
        }
        false
    }

    /// Checks that every attribute location the bound program `p` has loaded was
    /// attached to this bound array, and gives the locations to enable. Fails with
    /// a location that was not attached, if there is one.
    pub fn adapt_vao_to_program(&mut self, p: &Program) -> (r: Result<Vec<u32>, MissingAttributeError>)
        requires
            p.wf(),
        ensures
            *final(self) == *old(self),
            r is Ok <==> forall|l: u32|
                p.attributes().values().contains(l) ==> old(self).spec_attached().contains(l),
            r matches Ok(enable) ==> forall|l: u32|
                enable@.contains(l) <==> p.attributes().values().contains(l),
            r matches Err(e) ==> p.attributes().values().contains(e.location)
                && !old(self).spec_attached().contains(e.location),
    {
        let locations = p.get_attribute_hashmap().locations();
        let mut i: usize = 0;
        while i < locations.len()
            invariant
                i <= locations@.len(),
                forall|l: u32| locations@.contains(l) <==> p.attributes().values().contains(l),
                forall|j: int| 0 <= j < i ==> self.spec_attached().contains(locations@[j]),
            decreases locations@.len() - i,
        {
            let l = locations[i];
            if !self.is_attached(l) {
                assert(locations@.contains(l));
                assert(p.attributes().values().contains(l));
                return Err(MissingAttributeError { location: l });
            }
            i = i + 1;
        }
        assert forall|l: u32| p.attributes().values().contains(l) implies self.spec_attached().contains(
            l,
        ) by {
            assert(locations@.contains(l));
            let j = choose|j: int| 0 <= j < locations@.len() && locations@[j] == l;
            assert(self.spec_attached().contains(locations@[j]));
        }
        Ok(locations)
    }

    /// Attaches attribute `stride_ind` of the bound vertex buffer `bo` to attribute
    /// index `index` of this bound array, and describes the attribute-pointer
    /// call. The stride is the byte size of a whole vertex, the offset that of the
    /// attributes before `stride_ind`. Fails, changing nothing, when the stride does
    /// not fit the driver's integer type.
    pub fn attach_vbo_to_vao(
        &mut self,
        bo: &VBO,
        index: u32,
        stride_ind: usize,
        auto_convert_to_f32: bool,
    ) -> (r: Result<AttribPointer, String>)
        requires
            stride_ind < bo.spec_elem_per_vertex().len(),
        ensures
            r is Ok <==> attrib_stride(bo.spec_elem_per_vertex(), bo.spec_elem()) <= i32::MAX,
            r matches Ok(call) ==> call == (AttribPointer {
                func: pointer_fn(bo.spec_elem(), auto_convert_to_f32),
                index,
                size: bo.spec_elem_per_vertex()[stride_ind as int],
                gl_type: bo.spec_elem().spec_gl_type(),
                stride: attrib_stride(bo.spec_elem_per_vertex(), bo.spec_elem()) as i32,
                offset: attrib_offset(
                    bo.spec_elem_per_vertex(),
                    stride_ind as int,
                    bo.spec_elem(),
                ) as isize,
            }),
            r is Ok ==> final(self).spec_attached() == old(self).spec_attached().push(index),
            r is Ok ==> final(self).spec_handle() == old(self).spec_handle(),
            r is Err ==> *final(self) == *old(self),
    {
        let counts = bo.get_elem_per_vertex();
        let elem = bo.get_elem_type();
        let elem_size = elem.size_in_bytes() as u128;
        let total = sum_prefix(counts, counts.len());
        let before = sum_prefix(counts, stride_ind);
        proof {
            lemma_prefix_sum_bounds(counts@, stride_ind as int);
            lemma_prefix_sum_bounds(counts@, counts@.len() as int);
            assert(total * elem_size <= 255 * counts@.len() * 8) by (nonlinear_arith)
                requires
                    total <= 255 * counts@.len(),
                    elem_size <= 8,
            ;
            assert(before * elem_size <= total * elem_size) by (nonlinear_arith)
                requires
                    before <= total,
            ;
        }
        let stride = total * elem_size;
        if stride > i32::MAX as u128 {
            return Err(String::from_str("Stride of vertex data too big for opengl!"));
        }
        let offset = before * elem_size;
        let func = if elem == ElemType::Float || (auto_convert_to_f32 && elem.is_integer()) {
            PointerFn::Float
        } else if elem.is_integer() {
            PointerFn::Integer
        } else {
            PointerFn::Long
        };
        let call = AttribPointer {
            func,
            index,
            size: counts[stride_ind],
            gl_type: elem.get_gl_type(),
            stride: stride as i32,
            offset: offset as isize,
        };
        self.available_ind.push(index);
        Ok(call)
    }
}

} // verus!
