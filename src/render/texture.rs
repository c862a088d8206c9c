//! Textures of two and three dimensions: parameters, and the checks on pixel
//! data before it is uploaded.
use vstd::prelude::*;
use crate::binding::{
    BindCall, Bindable, Bouncer, LastBound, ResourceKind, Unbound, can_bind, unit_switch,
};
use crate::driver::{GlCall, TexImage, TexParameter};
use crate::glenum::{
    ElemType, LINEAR, TEXTURE_2D, TEXTURE_2D_ARRAY, TEXTURE_3D, TEXTURE_MAG_FILTER,
    TEXTURE_MIN_FILTER, TEXTURE_WRAP_R, TEXTURE_WRAP_S, TEXTURE_WRAP_T,
};
use crate::{format_channels, format_to_gl_internal_format, sized_internal_format};

verus! {

broadcast use vstd::array::group_array_axioms;

/// The number of pixels of a texture with extents `size`.
pub open spec fn pixel_count(size: Seq<usize>) -> int
    decreases size.len(),
{
    if size.len() == 0 {
        1
    } else {
        pixel_count(size.drop_last()) * size.last()
    }
}

/// The number of bits of one value of type `elem`.
pub open spec fn elem_bits(elem: ElemType) -> u8 {
    (elem.spec_size() * 8) as u8
}

/// What uploading `len` values of type `elem` and pixel format `format` to a
/// texture with extents `size` comes to: the format's internal format and
/// channel count, or the error text.
pub open spec fn upload_check(size: Seq<usize>, len: usize, elem: ElemType, format: u32) -> Result<
    (u32, u8),
    Seq<char>,
> {
    if format_channels(format) is None || sized_internal_format(
        elem_bits(elem),
        format_channels(format)->Some_0,
    ) is None {
        Err("Invalid format type!"@)
    } else if pixel_count(size) * format_channels(format)->Some_0 != len {
        Err("Size of data array does not match the size of the texture!"@)
    } else if exists|i: int| 0 <= i < size.len() && size[i] > i32::MAX {
        Err("Size of texture malformed!"@)
    } else {
        Ok(
            (
                sized_internal_format(elem_bits(elem), format_channels(format)->Some_0)->Some_0,
                format_channels(format)->Some_0,
            ),
        )
    }
}

proof fn lemma_pixel_count_zero(size: Seq<usize>, i: int)
    requires
        0 <= i < size.len(),
        size[i] == 0,
    ensures
        pixel_count(size) == 0,
    decreases size.len(),
{
    if i < size.len() - 1 {
        assert(size.drop_last()[i] == 0);
        lemma_pixel_count_zero(size.drop_last(), i);
    } else {
        assert(size.last() == 0);
    }
}

proof fn lemma_pixel_count_positive(size: Seq<usize>)
    requires
        forall|i: int| 0 <= i < size.len() ==> size[i] >= 1,
    ensures
        pixel_count(size) >= 1,
    decreases size.len(),
{
    if size.len() > 0 {
        lemma_pixel_count_positive(size.drop_last());
        let p = pixel_count(size.drop_last());
        let x = size.last() as int;
        assert(p * x >= 1) by (nonlinear_arith)
            requires
                p >= 1,
                x >= 1,
        ;
    }
}

proof fn lemma_take_step(size: Seq<usize>, n: int)
    requires
        0 <= n < size.len(),
    ensures
        pixel_count(size.take(n + 1)) == pixel_count(size.take(n)) * size[n],
{
    assert(size.take(n + 1).drop_last() =~= size.take(n));
}

proof fn lemma_pixel_count_grows(size: Seq<usize>, n: int)
    requires
        0 <= n <= size.len(),
        forall|i: int| 0 <= i < size.len() ==> size[i] >= 1,
    ensures
        1 <= pixel_count(size.take(n)) <= pixel_count(size),
    decreases size.len() - n,
{
    lemma_pixel_count_positive(size.take(n));
    if n < size.len() {
        lemma_pixel_count_grows(size, n + 1);
        lemma_take_step(size, n);
        let p = pixel_count(size.take(n));
        let x = size[n] as int;
        assert(p <= p * x) by (nonlinear_arith)
            requires
                p >= 1,
                x >= 1,
        ;
    } else {
        assert(size.take(n) =~= size);
    }
}

/// Whether `call` is the upload of level zero of a `TYP` texture with extents
/// `size`, internal format `internal`, values of type `elem` and pixel format
/// `format`.
pub open spec fn is_tex_image(
    call: TexImage,
    target: u32,
    size: Seq<usize>,
    internal: u32,
    elem: ElemType,
    format: u32,
) -> bool {
    &&& call.target == target
    &&& call.internal_format == internal as i32
    &&& call.format == format
    &&& call.elem_type == elem.spec_gl_type()
    &&& call.dims@.len() == size.len()
    &&& forall|i: int| 0 <= i < size.len() ==> call.dims@[i] == size[i] as i32
}

/// Whether `pixel_count(size) * channels` equals `len`.
fn data_len_matches(size: &[usize], channels: u8, len: usize) -> (r: bool)
    requires
        channels >= 1,
    ensures
        r == (pixel_count(size@) * channels == len),
{
    let mut i: usize = 0;
    while i < size.len()
        invariant
            i <= size@.len(),
            forall|j: int| 0 <= j < i ==> size@[j] >= 1,
        decreases size@.len() - i,
    {
        if size[i] == 0 {
            proof {
                lemma_pixel_count_zero(size@, i as int);
            }
            return len == 0;
        }
        i = i + 1;
    }
    proof {
        lemma_pixel_count_grows(size@, 0);
        lemma_pixel_count_grows(size@, size@.len() as int);
        assert(size@.take(size@.len() as int) =~= size@);
    }
    if channels as usize > len {
        proof {
            let total = pixel_count(size@);
            assert(total * channels >= channels) by (nonlinear_arith)
                requires
                    total >= 1,
            ;
        }
        return false;
    }
    let mut count: u128 = channels as u128;
    let mut k: usize = 0;
    while k < size.len()
        invariant
            k <= size@.len(),
            forall|j: int| 0 <= j < size@.len() ==> size@[j] >= 1,
            count == pixel_count(size@.take(k as int)) * channels,
            count <= len,
        decreases size@.len() - k,
    {
        proof {
            lemma_take_step(size@, k as int);
            lemma_pixel_count_grows(size@, k + 1);
            lemma_pixel_count_grows(size@, size@.len() as int);
            assert(size@.take(size@.len() as int) =~= size@);
            let p = pixel_count(size@.take(k as int));
            let x = size@[k as int] as int;
            assert(p * x * channels == p * channels * x) by (nonlinear_arith);
            assert(count * x <= 0xffff_ffff_ffff_ffff * 0xffff_ffff_ffff_ffff) by (nonlinear_arith)
                requires
                    0 <= count <= 0xffff_ffff_ffff_ffff,
                    0 <= x <= 0xffff_ffff_ffff_ffff,
            ;
        }
        let next = count * size[k] as u128;
        if next > len as u128 {
            proof {
                let total = pixel_count(size@);
                let part = pixel_count(size@.take(k + 1));
                assert(part * channels <= total * channels) by (nonlinear_arith)
                    requires
                        part <= total,
                        channels >= 1,
                ;
            }
            return false;
        }
        count = next;
        k = k + 1;
    }
    proof {
        assert(size@.take(size@.len() as int) =~= size@);
    }
    count == len as u128
}

/// The extents `size` in the driver's signed size type, if each one fits.
fn extents_to_gl(size: &[usize]) -> (r: Option<Vec<i32>>)
    ensures
        r is Some <==> forall|i: int| 0 <= i < size@.len() ==> size@[i] <= i32::MAX,
        r matches Some(dims) ==> dims@.len() == size@.len() && forall|i: int|
            0 <= i < size@.len() ==> dims@[i] == size@[i] as i32,
{
    let mut dims: Vec<i32> = Vec::new();
    let mut i: usize = 0;
    while i < size.len()
        invariant
            i <= size@.len(),
            dims@.len() == i,
            forall|j: int| 0 <= j < i ==> size@[j] <= i32::MAX,
            forall|j: int| 0 <= j < i ==> dims@[j] == size@[j] as i32,
        decreases size@.len() - i,
    {
        if size[i] > i32::MAX as usize {
            return None;
        }
        dims.push(size[i] as i32);
        i = i + 1;
    }
    Some(dims)
}

/// A texture with `N` dimensions, bound to the driver target `TYP`.
pub struct Texture<const N: usize, const TYP: u32> {
    id: u32,
}

/// A two-dimensional texture.
pub type Texture2D = Texture<2, TEXTURE_2D>;

/// An array of two-dimensional textures.
pub type Texture2DArr = Texture<3, TEXTURE_2D_ARRAY>;

/// A three-dimensional texture.
pub type Texture3D = Texture<3, TEXTURE_3D>;

impl<const N: usize, const TYP: u32> Bindable for Texture<N, TYP> {
    open spec fn spec_kind() -> ResourceKind {
        ResourceKind::Texture
    }

    open spec fn spec_target(&self) -> u32 {
        TYP
    }

    closed spec fn spec_handle(&self) -> u32 {
        self.id
    }

    fn kind() -> (k: ResourceKind) {
        ResourceKind::Texture
    }

    fn target(&self) -> (t: u32) {
        TYP
    }

    fn handle(&self) -> (h: u32) {
        self.id
    }
}

impl<const N: usize, const TYP: u32> Texture<N, TYP> {
    /// A texture for the driver handle `id`, bound through `bn` to set its
    /// minifying and magnifying filters to linear: a texture without filters
    /// shows nothing. The calls are the bind and the two parameter calls.
    pub fn new(bn: &mut Bouncer, last: &mut LastBound, id: u32) -> (r: (
        Unbound<Texture<N, TYP>>,
        Vec<GlCall>,
    ))
        requires
            can_bind::<Texture<N, TYP>>(*old(bn)),
        ensures
            *final(bn) == *old(bn),
            final(last).spec_unit() == old(bn).spec_slot(),
            r.0.resource().spec_handle() == id,
            r.1@.len() == 3,
            r.1@[0] == GlCall::Bind(
                BindCall {
                    kind: ResourceKind::Texture,
                    active_unit: unit_switch(
                        ResourceKind::Texture,
                        old(bn).spec_slot(),
                        old(last).spec_unit(),
                    ),
                    target: TYP,
                    handle: id,
                },
            ),
            r.1@[1] == GlCall::TexParameter(
                TexParameter { target: TYP, pname: TEXTURE_MAG_FILTER, value: LINEAR as i32 },
            ),
            r.1@[2] == GlCall::TexParameter(
                TexParameter { target: TYP, pname: TEXTURE_MIN_FILTER, value: LINEAR as i32 },
            ),
    {
        let r = Unbound::from(Texture { id });
        let (mut b, bind_call) = r.bind(bn, last);
        let mag = b.get_mut().set_mag_filter_of_bound_tex(LINEAR);
        let min = b.get_mut().set_min_filter_of_bound_tex(LINEAR);
        let mut calls: Vec<GlCall> = Vec::new();
        calls.push(GlCall::Bind(bind_call));
        calls.push(GlCall::TexParameter(mag));
        calls.push(GlCall::TexParameter(min));
        (b.release(), calls)
    }

    /// The call that sets the minifying filter of this bound texture.
    pub fn set_min_filter_of_bound_tex(&mut self, min_filter: u32) -> (r: TexParameter)
        requires
            min_filter <= i32::MAX,
        ensures
            *final(self) == *old(self),
            r == (TexParameter {
                target: TYP,
                pname: TEXTURE_MIN_FILTER,
                value: min_filter as i32,
            }),
    {
        TexParameter { target: TYP, pname: TEXTURE_MIN_FILTER, value: min_filter as i32 }
    }

    /// The call that sets the magnifying filter of this bound texture.
    pub fn set_mag_filter_of_bound_tex(&mut self, mag_filter: u32) -> (r: TexParameter)
        requires
            mag_filter <= i32::MAX,
        ensures
            *final(self) == *old(self),
            r == (TexParameter {
                target: TYP,
                pname: TEXTURE_MAG_FILTER,
                value: mag_filter as i32,
            }),
    {
        TexParameter { target: TYP, pname: TEXTURE_MAG_FILTER, value: mag_filter as i32 }
    }

    /// The call that sets the wrapping along the first axis of this bound texture.
    pub fn set_x_wrap_of_bound_tex(&mut self, wrap_x: i32) -> (r: TexParameter)
        ensures
            *final(self) == *old(self),
            r == (TexParameter { target: TYP, pname: TEXTURE_WRAP_S, value: wrap_x }),
    {
        TexParameter { target: TYP, pname: TEXTURE_WRAP_S, value: wrap_x }
    }

    /// The call that sets the wrapping along the second axis of this bound texture.
    pub fn set_y_wrap_of_bound_tex(&mut self, wrap_y: i32) -> (r: TexParameter)
        ensures
            *final(self) == *old(self),
            r == (TexParameter { target: TYP, pname: TEXTURE_WRAP_T, value: wrap_y }),
    {
        TexParameter { target: TYP, pname: TEXTURE_WRAP_T, value: wrap_y }
    }

    /// The call that sets the wrapping along the third axis of this bound texture.
    pub fn set_z_wrap_of_bound_tex(&mut self, wrap_z: i32) -> (r: TexParameter)
        ensures
            *final(self) == *old(self),
            r == (TexParameter { target: TYP, pname: TEXTURE_WRAP_R, value: wrap_z }),
    {
        TexParameter { target: TYP, pname: TEXTURE_WRAP_R, value: wrap_z }
    }

    /// Checks `len` values of type `elem` in pixel format `format` against the
    /// extents `size` of this bound texture, and describes the upload call. The
    /// bit depth comes from `elem`; with the channel count of `format` it must name
    /// an internal format, the data must hold one value per channel of every
    /// pixel, and every extent must fit the driver's signed size type.
    pub fn upload_data_to_texture(&mut self, size: [usize; N], len: usize, elem: ElemType, format: u32) -> (r: Result<
        TexImage,
        String,
    >)
        ensures
            *final(self) == *old(self),
            match upload_check(size@, len, elem, format) {
                Ok((internal, _)) => r matches Ok(call) && is_tex_image(
                    call,
                    TYP,
                    size@,
                    internal,
                    elem,
                    format,
                ),
                Err(msg) => r matches Err(e) && e@ == msg,
            },
    {
        let bits: u8 = (elem.size_in_bytes() * 8) as u8;
        let (internal_fmt, cpp) = match format_to_gl_internal_format(bits, format) {
            Some(v) => v,
            None => return Err(String::from_str("Invalid format type!")),
        };
        let sz: &[usize] = size.as_slice();
        if !data_len_matches(sz, cpp, len) {
            return Err(String::from_str("Size of data array does not match the size of the texture!"));
        }
        let dims = match extents_to_gl(sz) {
            Some(d) => d,
            None => return Err(String::from_str("Size of texture malformed!")),
        };
        Ok(TexImage { target: TYP, internal_format: internal_fmt, dims, format, elem_type: elem.get_gl_type() })
    }

    /// A texture for the driver handle `id`, made as `new` makes one and then
    /// bound again through `bn` to upload `len` values, checked as
    /// `upload_data_to_texture` checks them. The calls are those of `new`, the
    /// second bind and the upload.
    pub fn with_data(
        bn: &mut Bouncer,
        last: &mut LastBound,
        id: u32,
        size: [usize; N],
        len: usize,
        elem: ElemType,
        format: u32,
    ) -> (r: Result<(Unbound<Texture<N, TYP>>, Vec<GlCall>), String>)
        requires
            can_bind::<Texture<N, TYP>>(*old(bn)),
        ensures
            *final(bn) == *old(bn),
            final(last).spec_unit() == old(bn).spec_slot(),
            r is Ok <==> upload_check(size@, len, elem, format) is Ok,
            r matches Err(e) ==> upload_check(size@, len, elem, format) == Err::<(u32, u8), Seq<char>>(
                e@,
            ),
            r matches Ok((u, calls)) ==> {
                &&& u.resource().spec_handle() == id
                &&& calls@.len() == 5
                &&& calls@[0] == GlCall::Bind(
                    BindCall {
                        kind: ResourceKind::Texture,
                        active_unit: unit_switch(
                            ResourceKind::Texture,
                            old(bn).spec_slot(),
                            old(last).spec_unit(),
                        ),
                        target: TYP,
                        handle: id,
                    },
                )
                &&& calls@[1] == GlCall::TexParameter(
                    TexParameter { target: TYP, pname: TEXTURE_MAG_FILTER, value: LINEAR as i32 },
                )
                &&& calls@[2] == GlCall::TexParameter(
                    TexParameter { target: TYP, pname: TEXTURE_MIN_FILTER, value: LINEAR as i32 },
                )
                &&& calls@[3] == GlCall::Bind(
                    BindCall { kind: ResourceKind::Texture, active_unit: None, target: TYP, handle: id },
                )
                &&& calls@[4] matches GlCall::TexImage(t) && is_tex_image(
                    t,
                    TYP,
                    size@,
                    upload_check(size@, len, elem, format)->Ok_0.0,
                    elem,
                    format,
                )
            },
    {
        let (r, mut calls) = Self::new(bn, last, id);
        let (mut b, bind_call) = r.bind(bn, last);
        let upload = b.get_mut().upload_data_to_texture(size, len, elem, format);
        match upload {
            Ok(image) => {
                calls.push(GlCall::Bind(bind_call));
                calls.push(GlCall::TexImage(image));
                Ok((b.release(), calls))
            },
            Err(e) => Err(e),
        }
    }
}

} // verus!
