//! Vertex and index buffer objects.
use vstd::prelude::*;
use crate::binding::{BindCall, Bindable, Bouncer, LastBound, ResourceKind, Unbound, can_bind};
use crate::driver::{BufferData, GlCall};
use crate::glenum::{ARRAY_BUFFER, ELEMENT_ARRAY_BUFFER, ElemType};

verus! {

/// The sum of the first `n` per-attribute element counts.
pub open spec fn prefix_sum(counts: Seq<u8>, n: int) -> int
    decreases n,
{
    if n <= 0 {
        0
    } else {
        prefix_sum(counts, n - 1) + counts[n - 1]
    }
}

/// The number of elements that one vertex takes.
pub open spec fn elem_sum(counts: Seq<u8>) -> int {
    prefix_sum(counts, counts.len() as int)
}

/// A prefix sum lies between zero and the whole sum, and is at most 255 per count.
pub proof fn lemma_prefix_sum_bounds(counts: Seq<u8>, n: int)
    requires
        0 <= n <= counts.len(),
    ensures
        0 <= prefix_sum(counts, n) <= prefix_sum(counts, counts.len() as int),
        prefix_sum(counts, n) <= 255 * n,
    decreases counts.len() - n,
{
    if n < counts.len() {
        lemma_prefix_sum_bounds(counts, n + 1);
    }
    lemma_prefix_sum_le(counts, n);
}

proof fn lemma_prefix_sum_le(counts: Seq<u8>, n: int)
    requires
        0 <= n <= counts.len(),
    ensures
        0 <= prefix_sum(counts, n) <= 255 * n,
    decreases n,
{
    if n > 0 {
        lemma_prefix_sum_le(counts, n - 1);
    }
}

/// Sums the element counts of the attributes before index `n`.
pub(crate) fn sum_prefix(counts: &Vec<u8>, n: usize) -> (s: u128)
    requires
        n <= counts@.len(),
    ensures
        s == prefix_sum(counts@, n as int),
{
    let mut s: u128 = 0;
    let mut i: usize = 0;
    while i < n
        invariant
            i <= n <= counts@.len(),
            s == prefix_sum(counts@, i as int),
        decreases n - i,
    {
        proof {
            lemma_prefix_sum_le(counts@, i as int + 1);
        }
        s = s + counts[i] as u128;
        i = i + 1;
    }
    s
}

/// The upload call for `len` elements of type `elem` to `target`, if its byte
/// length fits the driver's signed size type.
pub open spec fn upload_fits(len: nat, elem: ElemType) -> bool {
    len * elem.spec_size() <= isize::MAX
}

/// State of a driver buffer object shared by vertex and index buffers: its
/// handle, the type of its elements and how many elements were uploaded.
pub struct BOBase {
    id: u32,
    size: isize,
    elem: ElemType,
}

impl BOBase {
    /// The driver's handle of the buffer.
    pub fn get_id(&self) -> (r: u32)
        ensures
            r == self.spec_id(),
    {
        self.id
    }

    pub closed spec fn spec_id(&self) -> u32 {
        self.id
    }

    pub closed spec fn spec_size(&self) -> int {
        self.size as int
    }

    pub closed spec fn spec_elem(&self) -> ElemType {
        self.elem
    }

    pub closed spec fn wf(&self) -> bool {
        self.size >= 0
    }

    fn new(id: u32, elem: ElemType) -> (r: Self)
        ensures
            r.spec_id() == id,
            r.spec_elem() == elem,
            r.spec_size() == 0,
            r.wf(),
    {
        BOBase { id, size: 0, elem }
    }

    /// Records an upload of `len` elements and describes it.
    fn upload(&mut self, target: u32, len: usize, usage: u32) -> (r: Result<BufferData, String>)
        ensures
            r is Ok <==> upload_fits(len as nat, old(self).spec_elem()),
            r matches Ok(call) ==> call == (BufferData {
                target,
                byte_len: (len * old(self).spec_elem().spec_size()) as isize,
                usage,
            }) && final(self).spec_size() == len && final(self).spec_id() == old(self).spec_id()
                && final(self).spec_elem() == old(self).spec_elem() && final(self).wf(),
            r is Err ==> *final(self) == *old(self),
    {
        let bytes: u128 = len as u128 * self.elem.size_in_bytes() as u128;
        if bytes > isize::MAX as u128 {
            return Err(String::from_str("Too many elements in data slice for opengl!"));
        }
        self.size = len as isize;
        Ok(BufferData { target, byte_len: bytes as isize, usage })
    }
}

/// What vertex and index buffers share: their buffer object state.
pub trait BOFunc {
    spec fn spec_bo_base(&self) -> BOBase;

    /// The buffer object state.
    fn get_bo_base(&self) -> (r: &BOBase)
        ensures
            *r == self.spec_bo_base(),
    ;

    /// The number of elements uploaded.
    fn get_size(&self) -> (r: isize)
        ensures
            r == self.spec_bo_base().spec_size(),
    ;
}

impl BOFunc for VBO {
    open spec fn spec_bo_base(&self) -> BOBase {
        self.spec_base()
    }

    fn get_bo_base(&self) -> (r: &BOBase) {
        &self.base
    }

    fn get_size(&self) -> (r: isize) {
        self.base.size
    }
}

impl BOFunc for IBO {
    open spec fn spec_bo_base(&self) -> BOBase {
        self.spec_base()
    }

    fn get_bo_base(&self) -> (r: &BOBase) {
        &self.base
    }

    fn get_size(&self) -> (r: isize) {
        self.base.size
    }
}

/// A vertex buffer: its elements are laid out per vertex, one run of
/// `elem_per_vert[i]` elements for each attribute `i`.
pub struct VBO {
    base: BOBase,
    elem_per_vert: Vec<u8>,
}

impl Bindable for VBO {
    open spec fn spec_kind() -> ResourceKind {
        ResourceKind::ArrayBuffer
    }

    open spec fn spec_target(&self) -> u32 {
        ARRAY_BUFFER
    }

    closed spec fn spec_handle(&self) -> u32 {
        self.base.id
    }

    fn kind() -> (k: ResourceKind) {
        ResourceKind::ArrayBuffer
    }

    fn target(&self) -> (t: u32) {
        ARRAY_BUFFER
    }

    fn handle(&self) -> (h: u32) {
        self.base.id
    }
}

impl VBO {
    pub closed spec fn spec_base(&self) -> BOBase {
        self.base
    }

    pub closed spec fn spec_elem_per_vertex(&self) -> Seq<u8> {
        self.elem_per_vert@
    }

    pub open spec fn spec_elem(&self) -> ElemType {
        self.spec_base().spec_elem()
    }

    pub open spec fn spec_size(&self) -> int {
        self.spec_base().spec_size()
    }

    pub open spec fn wf(&self) -> bool {
        self.spec_base().wf()
    }

    /// A vertex buffer for the driver buffer `id`, holding no data yet.
    pub fn new(id: u32, elem: ElemType, elem_per_vert: Vec<u8>) -> (r: Unbound<VBO>)
        ensures
            r.resource().spec_handle() == id,
            r.resource().spec_elem() == elem,
            r.resource().spec_elem_per_vertex() == elem_per_vert@,
            r.resource().spec_size() == 0,
            r.resource().wf(),
    {
        Unbound::from(VBO { base: BOBase::new(id, elem), elem_per_vert })
    }

    /// A vertex buffer for the driver buffer `id`, filled with `len` elements: it
    /// is bound through `bn` and the data uploaded. On success the calls to make
    /// are the bind and then the upload.
    pub fn with_data(
        bn: &mut Bouncer,
        last: &mut LastBound,
        id: u32,
        elem: ElemType,
        elem_per_vert: Vec<u8>,
        len: usize,
        usage: u32,
    ) -> (r: Result<(Unbound<VBO>, Vec<GlCall>), String>)
        requires
            can_bind::<VBO>(*old(bn)),
        ensures
            *final(bn) == *old(bn),
            final(last).spec_unit() == old(last).spec_unit(),
            r is Ok <==> upload_fits(len as nat, elem),
            r matches Ok((u, calls)) ==> {
                &&& u.resource().spec_handle() == id
                &&& u.resource().spec_elem() == elem
                &&& u.resource().spec_elem_per_vertex() == elem_per_vert@
                &&& u.resource().spec_size() == len
                &&& u.resource().wf()
                &&& calls@.len() == 2
                &&& calls@[0] == GlCall::Bind(
                    BindCall {
                        kind: ResourceKind::ArrayBuffer,
                        active_unit: None,
                        target: ARRAY_BUFFER,
                        handle: id,
                    },
                )
                &&& calls@[1] == GlCall::BufferData(
                    BufferData {
                        target: ARRAY_BUFFER,
                        byte_len: (len * elem.spec_size()) as isize,
                        usage,
                    },
                )
            },
    {
        let r = Self::new(id, elem, elem_per_vert);
        let (mut b, bind_call) = r.bind(bn, last);
        let upload = b.get_mut().upload_to_bound_bo(len, usage);
        match upload {
            Ok(data_call) => {
                let mut calls: Vec<GlCall> = Vec::new();
                calls.push(GlCall::Bind(bind_call));
                calls.push(GlCall::BufferData(data_call));
                Ok((b.release(), calls))
            },
            Err(e) => Err(e),
        }
    }

    /// The element count of each attribute, per vertex.
    pub fn get_elem_per_vertex(&self) -> (r: &Vec<u8>)
        ensures
            r@ == self.spec_elem_per_vertex(),
    {
        &self.elem_per_vert
    }

    /// The type of the elements.
    pub fn get_elem_type(&self) -> (r: ElemType)
        ensures
            r == self.spec_elem(),
    {
        self.base.elem
    }

    /// How many whole vertices the uploaded elements make.
    pub fn get_num_of_vertices(&self) -> (r: isize)
        requires
            self.wf(),
            elem_sum(self.spec_elem_per_vertex()) > 0,
        ensures
            r == self.spec_size() / elem_sum(self.spec_elem_per_vertex()),
    {
        let per_vertex = sum_prefix(&self.elem_per_vert, self.elem_per_vert.len());
        let n = self.base.size as u128 / per_vertex;
        proof {
            assert(n <= self.base.size) by (nonlinear_arith)
                requires
                    n == self.base.size as u128 / per_vertex,
                    per_vertex > 0,
                    self.base.size >= 0,
            ;
        }
        n as isize
    }

    /// Records an upload of `len` elements to this buffer, which must be bound,
    /// and describes the upload call. Fails, changing nothing, when the data's
    /// byte length does not fit the driver's size type.
    pub fn upload_to_bound_bo(&mut self, len: usize, usage: u32) -> (r: Result<BufferData, String>)
        ensures
            r is Ok <==> upload_fits(len as nat, old(self).spec_elem()),
            r matches Ok(call) ==> call == (BufferData {
                target: ARRAY_BUFFER,
                byte_len: (len * old(self).spec_elem().spec_size()) as isize,
                usage,
            }) && final(self).spec_size() == len && final(self).wf(),
            r is Ok ==> final(self).spec_handle() == old(self).spec_handle()
                && final(self).spec_elem() == old(self).spec_elem()
                && final(self).spec_elem_per_vertex() == old(self).spec_elem_per_vertex(),
            r is Err ==> *final(self) == *old(self),
    {
        self.base.upload(ARRAY_BUFFER, len, usage)
    }
}

/// An index buffer.
pub struct IBO {
    base: BOBase,
}

impl Bindable for IBO {
    open spec fn spec_kind() -> ResourceKind {
        ResourceKind::ElementArrayBuffer
    }

    open spec fn spec_target(&self) -> u32 {
        ELEMENT_ARRAY_BUFFER
    }

    closed spec fn spec_handle(&self) -> u32 {
        self.base.id
    }

    fn kind() -> (k: ResourceKind) {
        ResourceKind::ElementArrayBuffer
    }

    fn target(&self) -> (t: u32) {
        ELEMENT_ARRAY_BUFFER
    }

    fn handle(&self) -> (h: u32) {
        self.base.id
    }
}

impl IBO {
    pub closed spec fn spec_base(&self) -> BOBase {
        self.base
    }

    pub open spec fn spec_elem(&self) -> ElemType {
        self.spec_base().spec_elem()
    }

    pub open spec fn spec_size(&self) -> int {
        self.spec_base().spec_size()
    }

    /// An index buffer for the driver buffer `id`, holding no data yet.
    pub fn new(id: u32, elem: ElemType) -> (r: Unbound<IBO>)
        ensures
            r.resource().spec_handle() == id,
            r.resource().spec_elem() == elem,
            r.resource().spec_size() == 0,
    {
        Unbound::from(IBO { base: BOBase::new(id, elem) })
    }

    /// An index buffer for the driver buffer `id`, filled with `len` elements: it
    /// is bound through `bn` and the data uploaded. On success the calls to make
    /// are the bind and then the upload.
    pub fn with_data(
        bn: &mut Bouncer,
        last: &mut LastBound,
        id: u32,
        elem: ElemType,
        len: usize,
        usage: u32,
    ) -> (r: Result<(Unbound<IBO>, Vec<GlCall>), String>)
        requires
            can_bind::<IBO>(*old(bn)),
        ensures
            *final(bn) == *old(bn),
            final(last).spec_unit() == old(last).spec_unit(),
            r is Ok <==> upload_fits(len as nat, elem),
            r matches Ok((u, calls)) ==> {
                &&& u.resource().spec_handle() == id
                &&& u.resource().spec_elem() == elem
                &&& u.resource().spec_size() == len
                &&& calls@.len() == 2
                &&& calls@[0] == GlCall::Bind(
                    BindCall {
                        kind: ResourceKind::ElementArrayBuffer,
                        active_unit: None,
                        target: ELEMENT_ARRAY_BUFFER,
                        handle: id,
                    },
                )
                &&& calls@[1] == GlCall::BufferData(
                    BufferData {
                        target: ELEMENT_ARRAY_BUFFER,
                        byte_len: (len * elem.spec_size()) as isize,
                        usage,
                    },
                )
            },
    {
        let r = Self::new(id, elem);
        let (mut b, bind_call) = r.bind(bn, last);
        let upload = b.get_mut().upload_to_bo(len, usage);
        match upload {
            Ok(data_call) => {
                let mut calls: Vec<GlCall> = Vec::new();
                calls.push(GlCall::Bind(bind_call));
                calls.push(GlCall::BufferData(data_call));
                Ok((b.release(), calls))
            },
            Err(e) => Err(e),
        }
    }

    /// Records an upload of `len` elements to this buffer, which must be bound,
    /// and describes the upload call. Fails, changing nothing, when the data's
    /// byte length does not fit the driver's size type.
    pub fn upload_to_bo(&mut self, len: usize, usage: u32) -> (r: Result<BufferData, String>)
        ensures
            r is Ok <==> upload_fits(len as nat, old(self).spec_elem()),
            r matches Ok(call) ==> call == (BufferData {
                target: ELEMENT_ARRAY_BUFFER,
                byte_len: (len * old(self).spec_elem().spec_size()) as isize,
                usage,
            }) && final(self).spec_size() == len,
            r is Ok ==> final(self).spec_handle() == old(self).spec_handle()
                && final(self).spec_elem() == old(self).spec_elem(),
            r is Err ==> *final(self) == *old(self),
    {
        self.base.upload(ELEMENT_ARRAY_BUFFER, len, usage)
    }
}

} // verus!
