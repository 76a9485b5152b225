use vstd::prelude::*;
use crate::frame::CapturedFrame;
use crate::tensor::{
    ChwTensor, chw_planes, chw_source, lemma_chw_planes_alpha_independent, same_rgb, TENSOR_LEN,
    TENSOR_PLANE, TENSOR_SIDE,
};

verus! {

/// What image's triangle-filter resize returns for the given RGBA buffer
/// and dimensions: fixed by the inputs alone.
pub uninterp spec fn resize_rgba_spec(pixels: Seq<u8>, width: u32, height: u32, side: u32) -> Seq<u8>;

/// Relies on image::DynamicImage::resize_exact with FilterType::Triangle:
/// resizing stretches the bitmap to exactly `side` x `side` pixels (aspect
/// ratio is not preserved), is a pure function of the input bitmap and the
/// requested dimensions, and yields an RGBA image of 4 bytes per pixel.
/// The filter resamples each channel independently, so an input that
/// agrees on the red, green and blue bytes - differing at most in alpha -
/// resizes to an output that agrees on those bytes too.
#[verifier::external_body]
fn resize_rgba(frame: &CapturedFrame, side: u32) -> (r: Vec<u8>)
    requires
        frame.wf(),
        1 <= side,
    ensures
        r@.len() == 4 * side * side,
        r@ == resize_rgba_spec(frame.pixels@, frame.width, frame.height, side),
        forall|other: Seq<u8>|
            same_rgb(other, frame.pixels@) ==> same_rgb(
                #[trigger] resize_rgba_spec(other, frame.width, frame.height, side),
                r@,
            ),
{
    let img = image::RgbaImage::from_raw(frame.width, frame.height, frame.pixels.clone())
        .unwrap();
    let resized = image::DynamicImage::ImageRgba8(img)
        .resize_exact(side, side, image::imageops::FilterType::Triangle);
    resized.into_rgba8().into_raw()
}

/// Normalizes a raw captured bitmap into the layout the embedding model
/// expects: a triangle-filter resize to 224x224 followed by the
/// channel-first arrangement of the `[1, 3, 224, 224]` input. The fixed
/// per-channel floating-point scaling of each 8-bit value is applied
/// downstream, right before the value enters the inference session.
pub struct FramePreprocessor {}

impl FramePreprocessor {
    /// Resizes the frame to 224x224 (stretch, not crop) and lays the
    /// channels out plane by plane. The contract pins the whole result as
    /// a function of the input frame, so preprocessing is deterministic
    /// and cannot fail on a well-formed frame.
    pub fn preprocess(&self, frame: &CapturedFrame) -> (t: ChwTensor)
        requires
            frame.wf(),
        ensures
            t.wf(),
            t.data@ == chw_planes(
                resize_rgba_spec(frame.pixels@, frame.width, frame.height, TENSOR_SIDE as u32),
            ),
            resize_rgba_spec(frame.pixels@, frame.width, frame.height, TENSOR_SIDE as u32).len()
                == 4 * TENSOR_PLANE,
            forall|other: Seq<u8>|
                same_rgb(other, frame.pixels@) ==> same_rgb(
                    #[trigger] resize_rgba_spec(other, frame.width, frame.height,
                        TENSOR_SIDE as u32),
                    resize_rgba_spec(frame.pixels@, frame.width, frame.height,
                        TENSOR_SIDE as u32),
                ),
    {
        let resized = resize_rgba(frame, TENSOR_SIDE as u32);
        let mut data: Vec<u8> = Vec::new();
        let mut i: usize = 0;
        while i < TENSOR_LEN
            invariant
                i <= TENSOR_LEN,
                resized@.len() == 4 * TENSOR_PLANE,
                resized@ == resize_rgba_spec(
                    frame.pixels@, frame.width, frame.height, TENSOR_SIDE as u32,
                ),
                data@.len() == i,
                forall|j: int| 0 <= j < i ==> data@[j] == resized@[chw_source(j)],
            decreases TENSOR_LEN - i,
        {
            let c: usize = i / TENSOR_PLANE;
            let rem: usize = i % TENSOR_PLANE;
            let src: usize = 4 * rem + c;
            assert(src == chw_source(i as int));
            assert(src < 4 * TENSOR_PLANE);
            data.push(resized[src]);
            i = i + 1;
        }
        proof {
            assert(data@ =~= chw_planes(
                resize_rgba_spec(frame.pixels@, frame.width, frame.height, TENSOR_SIDE as u32),
            ));
        }
        ChwTensor { data }
    }
}

/// What each tensor value is: position `c * 224 * 224 + y * 224 + x` of a
/// preprocessed tensor holds channel `c` of the resized frame's pixel at
/// column `x` of row `y`, so every value is the corresponding 8-bit
/// channel of the triangle-resized bitmap, arranged channel-first.
pub proof fn lemma_preprocess_values(frame: CapturedFrame, t: ChwTensor, c: int, y: int, x: int)
    requires
        t.data@ == chw_planes(
            resize_rgba_spec(frame.pixels@, frame.width, frame.height, TENSOR_SIDE as u32),
        ),
        0 <= c < 3,
        0 <= y < TENSOR_SIDE,
        0 <= x < TENSOR_SIDE,
    ensures
        t.at(c, y, x) == resize_rgba_spec(
            frame.pixels@, frame.width, frame.height, TENSOR_SIDE as u32,
        )[4 * (y * TENSOR_SIDE + x) + c],
{
    crate::tensor::lemma_chw_layout(
        resize_rgba_spec(frame.pixels@, frame.width, frame.height, TENSOR_SIDE as u32),
        c, y, x,
    );
}

/// Preprocessing ignores the alpha plane: two frames of the same
/// dimensions whose red, green and blue bytes agree - differing at most
/// in alpha - preprocess to bit-identical tensors. The premises are
/// exactly what two calls of `preprocess` establish.
pub proof fn lemma_preprocess_alpha_independent(
    f1: CapturedFrame,
    f2: CapturedFrame,
    t1: ChwTensor,
    t2: ChwTensor,
)
    requires
        f1.width == f2.width,
        f1.height == f2.height,
        same_rgb(f2.pixels@, f1.pixels@),
        t1.data@ == chw_planes(
            resize_rgba_spec(f1.pixels@, f1.width, f1.height, TENSOR_SIDE as u32),
        ),
        t2.data@ == chw_planes(
            resize_rgba_spec(f2.pixels@, f2.width, f2.height, TENSOR_SIDE as u32),
        ),
        resize_rgba_spec(f1.pixels@, f1.width, f1.height, TENSOR_SIDE as u32).len()
            == 4 * TENSOR_PLANE,
        same_rgb(
            resize_rgba_spec(f2.pixels@, f2.width, f2.height, TENSOR_SIDE as u32),
            resize_rgba_spec(f1.pixels@, f1.width, f1.height, TENSOR_SIDE as u32),
        ),
    ensures
        t1.data@ == t2.data@,
{
    let r1 = resize_rgba_spec(f1.pixels@, f1.width, f1.height, TENSOR_SIDE as u32);
    let r2 = resize_rgba_spec(f2.pixels@, f2.width, f2.height, TENSOR_SIDE as u32);
    assert(same_rgb(r1, r2));
    lemma_chw_planes_alpha_independent(r1, r2);
}

/// Preprocessing is deterministic: two tensors obtained from the same frame
/// are bit-identical.
pub proof fn lemma_preprocess_deterministic(frame: CapturedFrame, t1: ChwTensor, t2: ChwTensor)
    requires
        t1.data@ == chw_planes(
            resize_rgba_spec(frame.pixels@, frame.width, frame.height, TENSOR_SIDE as u32),
        ),
        t2.data@ == chw_planes(
            resize_rgba_spec(frame.pixels@, frame.width, frame.height, TENSOR_SIDE as u32),
        ),
    ensures
        t1.data@ == t2.data@,
{
}

} // verus!
