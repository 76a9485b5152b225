use vstd::prelude::*;

verus! {

/// Side length of the model's square input.
pub const TENSOR_SIDE: usize = 224;

/// Number of values in one channel plane of the model input.
pub const TENSOR_PLANE: usize = 224 * 224;

/// Number of values in the whole `[1, 3, 224, 224]` model input.
pub const TENSOR_LEN: usize = 3 * 224 * 224;

/// The channel-first (`[1, 3, 224, 224]`) layout of a resized frame,
/// holding the raw 8-bit channel values before the fixed per-channel
/// floating-point scaling is applied to each of them: all red values,
/// then all green values, then all blue values, each plane row-major.
pub struct ChwTensor {
    pub data: Vec<u8>,
}

impl ChwTensor {
    pub open spec fn wf(&self) -> bool {
        self.data@.len() == TENSOR_LEN
    }

    /// The value of channel `c` at row `y`, column `x`.
    pub open spec fn at(&self, c: int, y: int, x: int) -> u8 {
        self.data@[c * TENSOR_PLANE + y * TENSOR_SIDE + x]
    }
}

/// The position in a row-major RGBA buffer of a 224x224 image that
/// position `i` of the channel-first layout is drawn from.
pub open spec fn chw_source(i: int) -> int {
    4 * (i % (TENSOR_PLANE as int)) + i / (TENSOR_PLANE as int)
}

/// The channel-first planes of a row-major RGBA buffer of a 224x224 image.
pub open spec fn chw_planes(rgba: Seq<u8>) -> Seq<u8> {
    Seq::new(TENSOR_LEN as nat, |i: int| rgba[chw_source(i)])
}

/// Two RGBA buffers agree on their red, green and blue bytes, differing
/// at most in the alpha plane.
pub open spec fn same_rgb(a: Seq<u8>, b: Seq<u8>) -> bool {
    &&& a.len() == b.len()
    &&& forall|i: int| 0 <= i < a.len() && i % 4 != 3 ==> a[i] == b[i]
}

/// The channel-first planes read only red, green and blue bytes, never
/// alpha, so two buffers that agree on those yield identical planes.
pub proof fn lemma_chw_planes_alpha_independent(a: Seq<u8>, b: Seq<u8>)
    requires
        same_rgb(a, b),
        a.len() == 4 * TENSOR_PLANE,
    ensures
        chw_planes(a) == chw_planes(b),
{
    assert forall|i: int| 0 <= i < TENSOR_LEN implies a[chw_source(i)] == b[chw_source(i)] by {
        let p = TENSOR_PLANE as int;
        let c = i / p;
        let rem = i % p;
        let src = 4 * rem + c;
        assert(chw_source(i) == src);
        assert(0 <= rem < p);
        assert(0 <= c < 3);
        vstd::arithmetic::div_mod::lemma_fundamental_div_mod_converse(src, 4, rem, c);
        assert(src % 4 == c);
        assert(src < 4 * p);
    };
    assert(chw_planes(a) =~= chw_planes(b));
}

/// What the layout means pointwise: channel `c` of the pixel at column `x`
/// of row `y` of the resized image lands at offset
/// `c * 224 * 224 + y * 224 + x` of the channel-first planes.
pub proof fn lemma_chw_layout(rgba: Seq<u8>, c: int, y: int, x: int)
    requires
        0 <= c < 3,
        0 <= y < TENSOR_SIDE,
        0 <= x < TENSOR_SIDE,
    ensures
        chw_planes(rgba)[c * TENSOR_PLANE + y * TENSOR_SIDE + x]
            == rgba[4 * (y * TENSOR_SIDE + x) + c],
{
    let p = TENSOR_PLANE as int;
    let r = y * (TENSOR_SIDE as int) + x;
    let i = c * p + r;
    assert(0 <= r < p);
    vstd::arithmetic::div_mod::lemma_fundamental_div_mod_converse(i, p, c, r);
    assert(chw_source(i) == 4 * r + c);
}

} // verus!
