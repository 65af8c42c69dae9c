//! Lays frames out as the row-major pixel sequences that an image upload takes.
use crate::frame::{Frame, SliceFrame};
use crate::shape::{index_of, lemma_position_to_pixel};
use vstd::prelude::*;

verus! {

/// The pixels of `f` in row-major order: position `i` holds pixel
/// `(i % width, i / width)`.
pub open spec fn row_major<F: Frame>(f: F) -> Seq<F::Pixel> {
    Seq::new(
        f.frame_width() * f.frame_height(),
        |i: int| f.pixel_at(i % (f.frame_width() as int), i / (f.frame_width() as int)),
    )
}

/// The pixels of the frames in `fs`, frame after frame, each in row-major order.
pub open spec fn layered<F: Frame>(fs: Seq<F>) -> Seq<F::Pixel>
    decreases fs.len(),
{
    if fs.len() == 0 {
        Seq::empty()
    } else {
        layered(fs.drop_last()) + row_major(fs.last())
    }
}

/// Whether every frame of `fs` is `width` by `height`.
pub open spec fn all_sized<F: Frame>(fs: Seq<F>, width: nat, height: nat) -> bool {
    forall|k: int| 0 <= k < fs.len() ==> #[trigger] fs[k].frame_width() == width
        && fs[k].frame_height() == height
}

/// Whether `out` is `src` with each pixel converted by `From`.
pub open spec fn converted<P, W: From<P>>(src: Seq<P>, out: Seq<W>) -> bool {
    &&& out.len() == src.len()
    &&& forall|i: int| 0 <= i < src.len() ==> call_ensures(W::from, (src[i],), #[trigger] out[i])
}

/// Appends the pixels of `f`, converted, in row-major order.
fn push_pixels<W: From<T::Pixel>, T: Frame>(f: &T, out: &mut Vec<W>)
    requires
        f.frame_inv(),
        f.frame_width() * f.frame_height() <= usize::MAX,
    ensures
        final(out)@.len() == old(out)@.len() + row_major(*f).len(),
        forall|i: int| 0 <= i < old(out)@.len() ==> final(out)@[i] == old(out)@[i],
        forall|j: int|
            0 <= j < row_major(*f).len() ==> call_ensures(
                W::from,
                (#[trigger] row_major(*f)[j],),
                final(out)@[old(out)@.len() + j],
            ),
{
    let w = f.width();
    let h = f.height();
    let n = w * h;
    let ghost start = out@.len();
    let mut i: usize = 0;
    while i < n
        invariant
            n == w * h,
            w == f.frame_width(),
            h == f.frame_height(),
            f.frame_inv(),
            i <= n,
            start == old(out)@.len(),
            out@.len() == start + i,
            forall|k: int| 0 <= k < start ==> out@[k] == old(out)@[k],
            forall|j: int|
                0 <= j < i ==> call_ensures(
                    W::from,
                    (#[trigger] row_major(*f)[j],),
                    out@[start + j],
                ),
        decreases n - i,
    {
        proof {
            lemma_position_to_pixel(w as int, h as int, i as int);
        }
        let x = i % w;
        let y = i / w;
        let p = f.pixel(x, y);
        let v = W::from(p);
        out.push(v);
        i = i + 1;
    }
}

/// The pixels of `image`, converted, in row-major order: what a texture upload of it
/// hands to the device.
pub fn pixels<W: From<T::Pixel>, T: Frame>(image: &T) -> (r: Vec<W>)
    requires
        image.frame_inv(),
        image.frame_width() * image.frame_height() <= usize::MAX,
    ensures
        r@.len() == image.frame_width() * image.frame_height(),
        converted(row_major(*image), r@),
{
    let mut out: Vec<W> = Vec::new();
    push_pixels(image, &mut out);
    out
}

/// Whether every frame of `images` is `width` by `height`.
pub fn all_sized_as<T: Frame>(images: &[T], width: usize, height: usize) -> (r: bool)
    ensures
        r == all_sized(images@, width as nat, height as nat),
{
    let mut k: usize = 0;
    while k < images.len()
        invariant
            k <= images@.len(),
            all_sized(images@.take(k as int), width as nat, height as nat),
        decreases images@.len() - k,
    {
        if images[k].width() != width || images[k].height() != height {
            assert(!all_sized(images@, width as nat, height as nat)) by {
                assert(images@[k as int] == images@[k as int]);
            }
            return false;
        }
        assert(images@.take(k as int + 1) =~= images@.take(k as int).push(images@[k as int]));
        k = k + 1;
    }
    assert(images@.take(k as int) =~= images@);
    true
}

/// The pixels of `images`, converted, frame after frame and each in row-major order:
/// what a texture-array upload of them hands to the device. `None` where a frame's size
/// differs from the first frame's, in which case no pixel is read.
pub fn array_pixels<W: From<T::Pixel>, T: Frame>(images: &[T]) -> (r: Option<Vec<W>>)
    requires
        images@.len() > 0,
        forall|k: int| 0 <= k < images@.len() ==> #[trigger] images@[k].frame_inv(),
        all_sized(images@, images@[0].frame_width(), images@[0].frame_height())
            ==> images@[0].frame_width() * images@[0].frame_height() * images@.len()
            <= usize::MAX,
    ensures
        r is None <==> !all_sized(
            images@,
            images@[0].frame_width(),
            images@[0].frame_height(),
        ),
        r matches Some(v) ==> converted(layered(images@), v@) && v@.len()
            == images@[0].frame_width() * images@[0].frame_height() * images@.len(),
{
    let w = images[0].width();
    let h = images[0].height();
    if !all_sized_as(images, w, h) {
        return None;
    }
    assert(w * h <= w * h * images@.len()) by (nonlinear_arith)
        requires
            images@.len() > 0,
    ;
    let mut out: Vec<W> = Vec::new();
    let mut k: usize = 0;
    assert(images@.take(0) =~= Seq::<T>::empty());
    while k < images.len()
        invariant
            k <= images@.len(),
            w * h <= usize::MAX,
            all_sized(images@, w as nat, h as nat),
            forall|j: int| 0 <= j < images@.len() ==> #[trigger] images@[j].frame_inv(),
            converted(layered(images@.take(k as int)), out@),
        decreases images@.len() - k,
    {
        let ghost before = out@;
        let ghost done = layered(images@.take(k as int));
        let f = &images[k];
        assert(images@[k as int].frame_width() == w as nat && images@[k as int].frame_height()
            == h as nat);
        assert(*f == images@[k as int]);
        push_pixels(f, &mut out);
        proof {
            let next = images@.take(k as int + 1);
            assert(next.drop_last() =~= images@.take(k as int));
            assert(next.last() == images@[k as int]);
            let all = layered(next);
            assert(all == done + row_major(*f));
            assert forall|i: int| 0 <= i < all.len() implies call_ensures(
                W::from,
                (all[i],),
                #[trigger] out@[i],
            ) by {
                if i < done.len() {
                    assert(all[i] == done[i]);
                    assert(out@[i] == before[i]);
                } else {
                    let j = i - done.len();
                    assert(all[i] == row_major(*f)[j]);
                }
            }
        }
        k = k + 1;
    }
    assert(images@.take(k as int) =~= images@);
    proof {
        lemma_layered_len(images@, w as nat, h as nat);
    }
    Some(out)
}

/// Frames of one size lay out frame-major then row-major: `k` frames of `width` by
/// `height` give `width * height * k` pixels.
pub proof fn lemma_layered_len<F: Frame>(fs: Seq<F>, width: nat, height: nat)
    requires
        all_sized(fs, width, height),
    ensures
        layered(fs).len() == width * height * fs.len(),
    decreases fs.len(),
{
    if fs.len() == 0 {
        assert(width * height * 0 == 0) by (nonlinear_arith);
    } else {
        let n = (fs.len() - 1) as nat;
        let init = fs.drop_last();
        assert(all_sized(init, width, height)) by {
            assert forall|k: int| 0 <= k < init.len() implies #[trigger] init[k].frame_width()
                == width && init[k].frame_height() == height by {
                assert(init[k] == fs[k]);
            }
        }
        lemma_layered_len(init, width, height);
        assert(fs[fs.len() - 1] == fs.last());
        let size = width * height;
        assert(size * n + size == size * fs.len()) by (nonlinear_arith)
            requires
                n + 1 == fs.len(),
        ;
    }
}

/// In frames of one size, pixel `(x, y)` of frame `f` stands at
/// `f * width * height + y * width + x` of the layered sequence.
pub proof fn lemma_layered_at<F: Frame>(
    fs: Seq<F>,
    width: nat,
    height: nat,
    f: int,
    x: int,
    y: int,
)
    requires
        all_sized(fs, width, height),
        0 <= f < fs.len(),
        0 <= x < width,
        0 <= y < height,
    ensures
        0 <= f * (width * height) + index_of(width as int, x, y) < layered(fs).len(),
        layered(fs)[f * (width * height) + index_of(width as int, x, y)] == fs[f].pixel_at(x, y),
    decreases fs.len(),
{
    let size = width * height;
    let n = (fs.len() - 1) as nat;
    let init = fs.drop_last();
    let last = fs.last();
    let p = index_of(width as int, x, y);
    let i = f * size + p;
    assert(all_sized(init, width, height)) by {
        assert forall|k: int| 0 <= k < init.len() implies #[trigger] init[k].frame_width()
            == width && init[k].frame_height() == height by {
            assert(init[k] == fs[k]);
        }
    }
    lemma_layered_len(init, width, height);
    lemma_layered_len(fs, width, height);
    crate::shape::lemma_index_in_frame(width as int, height as int, x, y);
    assert(fs[fs.len() - 1] == last);
    assert(n * size == size * n && 0 <= f * size) by (nonlinear_arith)
        requires
            0 <= f,
    ;
    if f < n {
        lemma_layered_at(init, width, height, f, x, y);
        assert(init[f] == fs[f]);
        assert(f * size + size <= n * size) by (nonlinear_arith)
            requires
                f < n,
                0 <= f,
        ;
        assert(layered(fs)[i] == layered(init)[i]);
    } else {
        vstd::arithmetic::div_mod::lemma_fundamental_div_mod_converse(p, width as int, y, x);
        assert(layered(fs)[i] == row_major(last)[p]);
    }
}

/// Laying a frame out in row-major order and reading that sequence back as a frame of the
/// same dimensions gives the same row-major sequence: what a lossless encode and decode
/// hand to an upload is what the first frame hands to it.
pub proof fn lemma_reframe_round_trip<T: Copy, F: Frame<Pixel = T>>(f: F, g: SliceFrame<'_, T>)
    requires
        g.data@ == row_major(f),
        g.width == f.frame_width(),
        g.height == f.frame_height(),
    ensures
        g.frame_inv(),
        row_major(g) == row_major(f),
{
    let w = f.frame_width() as int;
    let h = f.frame_height() as int;
    assert forall|i: int| 0 <= i < row_major(f).len() implies #[trigger] row_major(g)[i]
        == row_major(f)[i] by {
        lemma_position_to_pixel(w, h, i);
    }
    assert(row_major(g) =~= row_major(f));
}

} // verus!
