//! The `images` query: map the engine's image list to records and keep those
//! that pass the two optional filters.

use crate::record::{image_mapped, ImgSummary};
use bollard::models::ImageSummary;
use vstd::prelude::*;

verus! {

/// Whether an image of the given size and container count passes the
/// filters. A size bound keeps images strictly larger than it; a container
/// filter of `true` keeps images with at least one container, while `false`
/// or no value sets no constraint.
pub open spec fn admits(size: i64, containers: i64, size_gt: Option<i64>, containers_gt_zero: Option<bool>) -> bool {
    &&& match size_gt {
        Some(min) => size > min,
        None => true,
    }
    &&& match containers_gt_zero {
        Some(true) => containers > 0,
        _ => true,
    }
}

/// Whether the record passes the filters.
pub open spec fn keeps(img: ImgSummary, size_gt: Option<i64>, containers_gt_zero: Option<bool>) -> bool {
    admits(img.size, img.containers, size_gt, containers_gt_zero)
}

/// The records of `imgs` that pass the filters, in their order.
pub open spec fn kept(imgs: Seq<ImgSummary>, size_gt: Option<i64>, containers_gt_zero: Option<bool>) -> Seq<ImgSummary> {
    imgs.filter(|i: ImgSummary| keeps(i, size_gt, containers_gt_zero))
}

/// The engine images of `imgs` that pass the filters, in their order.
pub open spec fn kept_sources(imgs: Seq<ImageSummary>, size_gt: Option<i64>, containers_gt_zero: Option<bool>) -> Seq<ImageSummary> {
    imgs.filter(|s: ImageSummary| admits(s.size, s.containers, size_gt, containers_gt_zero))
}

/// `r` holds, position by position, the records of the engine images `s`.
pub open spec fn images_mapped(s: Seq<ImageSummary>, r: Seq<ImgSummary>) -> bool {
    &&& r.len() == s.len()
    &&& forall|i: int| 0 <= i < s.len() ==> #[trigger] image_mapped(s[i], r[i])
}

/// Whether an image of the given size and container count passes the filters.
pub fn passes(size: i64, containers: i64, size_gt: Option<i64>, containers_gt_zero: Option<bool>) -> (r: bool)
    ensures
        r == admits(size, containers, size_gt, containers_gt_zero),
{
    let size_ok = match size_gt {
        Some(min) => size > min,
        None => true,
    };
    let containers_ok = match containers_gt_zero {
        Some(true) => containers > 0,
        _ => true,
    };
    size_ok && containers_ok
}

/// The records of `imgs` that pass the filters, in the order given.
pub fn filter_images(imgs: Vec<ImgSummary>, size_gt: Option<i64>, containers_gt_zero: Option<bool>) -> (r: Vec<ImgSummary>)
    ensures
        r@ == kept(imgs@, size_gt, containers_gt_zero),
{
    let ghost src = imgs@;
    let mut out: Vec<ImgSummary> = Vec::new();
    for img in it: imgs.into_iter()
        invariant
            it.seq() == src,
            out@ == kept(src.take(it.index() as int), size_gt, containers_gt_zero),
    {
        proof {
            let pre = src.take(it.index() as int);
            assert(src.take(it.index() + 1).drop_last() == pre);
            reveal(Seq::filter);
        }
        if passes(img.size, img.containers, size_gt, containers_gt_zero) {
            out.push(img);
        }
    }
    assert(src.take(src.len() as int) == src);
    out
}

/// The records of the engine images `imgs`, in their order.
pub fn image_records(imgs: Vec<ImageSummary>) -> (r: Vec<ImgSummary>)
    ensures
        images_mapped(imgs@, r@),
{
    let ghost src = imgs@;
    let mut out: Vec<ImgSummary> = Vec::new();
    for img in it: imgs.into_iter()
        invariant
            it.seq() == src,
            images_mapped(src.take(it.index() as int), out@),
    {
        out.push(ImgSummary::from(img));
        proof {
            let pre = src.take(it.index() + 1);
            assert forall|i: int| 0 <= i < pre.len() implies #[trigger] image_mapped(pre[i], out@[i]) by {
                if i < it.index() {
                    assert(pre[i] == src.take(it.index() as int)[i]);
                }
            }
        }
    }
    assert(src.take(src.len() as int) == src);
    out
}

/// Filtering mapped records keeps exactly the records of the engine images
/// that pass the same filters, in the same order.
pub proof fn lemma_kept_of_mapped(s: Seq<ImageSummary>, r: Seq<ImgSummary>, size_gt: Option<i64>, containers_gt_zero: Option<bool>)
    requires
        images_mapped(s, r),
    ensures
        images_mapped(kept_sources(s, size_gt, containers_gt_zero), kept(r, size_gt, containers_gt_zero)),
    decreases s.len(),
{
    reveal(Seq::filter);
    if s.len() > 0 {
        let sl = s.drop_last();
        let rl = r.drop_last();
        assert(images_mapped(sl, rl)) by {
            assert forall|i: int| 0 <= i < sl.len() implies #[trigger] image_mapped(sl[i], rl[i]) by {
                assert(image_mapped(s[i], r[i]));
            }
        }
        lemma_kept_of_mapped(sl, rl, size_gt, containers_gt_zero);
        assert(image_mapped(s.last(), r.last()));
        let ks = kept_sources(sl, size_gt, containers_gt_zero);
        let kr = kept(rl, size_gt, containers_gt_zero);
        if admits(s.last().size, s.last().containers, size_gt, containers_gt_zero) {
            assert forall|i: int| 0 <= i < ks.len() + 1 implies #[trigger] image_mapped(ks.push(s.last())[i], kr.push(r.last())[i]) by {
                if i < ks.len() {
                    assert(image_mapped(ks[i], kr[i]));
                }
            }
        }
    }
}

/// The answer to the `images` query over the engine's image list `imgs`: the
/// records of the images larger than `size_gt`, if given, and, where
/// `containers_gt_zero` is `Some(true)`, used by at least one container, in
/// the order the engine listed them.
pub fn select_images(imgs: Vec<ImageSummary>, size_gt: Option<i64>, containers_gt_zero: Option<bool>) -> (r: Vec<ImgSummary>)
    ensures
        images_mapped(kept_sources(imgs@, size_gt, containers_gt_zero), r@),
{
    let ghost src = imgs@;
    let records = image_records(imgs);
    proof {
        lemma_kept_of_mapped(src, records@, size_gt, containers_gt_zero);
    }
    filter_images(records, size_gt, containers_gt_zero)
}

/// Filtering by `p` and then by `q` is filtering by both at once.
proof fn lemma_filter_twice<A>(s: Seq<A>, p: spec_fn(A) -> bool, q: spec_fn(A) -> bool)
    ensures
        s.filter(p).filter(q) == s.filter(|x: A| p(x) && q(x)),
    decreases s.len(),
{
    reveal(Seq::filter);
    if s.len() > 0 {
        lemma_filter_twice(s.drop_last(), p, q);
        if p(s.last()) {
            assert(s.filter(p).drop_last() == s.drop_last().filter(p));
        }
    }
}

/// A size bound drops every record whose size does not exceed it, whatever
/// the container filter.
pub proof fn lemma_size_bound_excludes(imgs: Seq<ImgSummary>, min: i64, containers_gt_zero: Option<bool>)
    ensures
        forall|i: int| 0 <= i < imgs.len() && imgs[i].size <= min
            ==> !#[trigger] kept(imgs, Some(min), containers_gt_zero).contains(imgs[i]),
{
    let pred = |i: ImgSummary| keeps(i, Some(min), containers_gt_zero);
    imgs.filter_lemma(pred);
}

/// A size bound keeps every record larger than it that the container filter
/// keeps.
pub proof fn lemma_size_bound_includes(imgs: Seq<ImgSummary>, min: i64, containers_gt_zero: Option<bool>)
    ensures
        forall|i: int| 0 <= i < imgs.len() && imgs[i].size > min
            && keeps(imgs[i], None, containers_gt_zero)
            ==> #[trigger] kept(imgs, Some(min), containers_gt_zero).contains(imgs[i]),
{
    let pred = |i: ImgSummary| keeps(i, Some(min), containers_gt_zero);
    imgs.filter_lemma(pred);
}

/// A container filter of `false` selects exactly what no container filter
/// selects.
pub proof fn lemma_containers_false_is_unset(imgs: Seq<ImgSummary>, size_gt: Option<i64>)
    ensures
        kept(imgs, size_gt, Some(false)) == kept(imgs, size_gt, None),
{
    let p = |i: ImgSummary| keeps(i, size_gt, Some(false));
    let q = |i: ImgSummary| keeps(i, size_gt, None);
    assert(p =~= q);
}

/// A container filter of `true` drops every record used by no container, and
/// keeps every record used by some container that the size filter keeps.
pub proof fn lemma_containers_true_filter(imgs: Seq<ImgSummary>, size_gt: Option<i64>)
    ensures
        forall|i: int| 0 <= i < imgs.len() && imgs[i].containers == 0
            ==> !#[trigger] kept(imgs, size_gt, Some(true)).contains(imgs[i]),
        forall|i: int| 0 <= i < imgs.len() && imgs[i].containers > 0
            && keeps(imgs[i], size_gt, None)
            ==> #[trigger] kept(imgs, size_gt, Some(true)).contains(imgs[i]),
{
    let pred = |i: ImgSummary| keeps(i, size_gt, Some(true));
    imgs.filter_lemma(pred);
}

/// Both filters together select what the one selects from what the other
/// selected, in either order.
pub proof fn lemma_filters_compose(imgs: Seq<ImgSummary>, min: i64, containers_gt_zero: bool)
    ensures
        kept(imgs, Some(min), Some(containers_gt_zero))
            == kept(kept(imgs, Some(min), None), None, Some(containers_gt_zero)),
        kept(imgs, Some(min), Some(containers_gt_zero))
            == kept(kept(imgs, None, Some(containers_gt_zero)), Some(min), None),
{
    let both = |i: ImgSummary| keeps(i, Some(min), Some(containers_gt_zero));
    let size = |i: ImgSummary| keeps(i, Some(min), None);
    let count = |i: ImgSummary| keeps(i, None, Some(containers_gt_zero));
    lemma_filter_twice(imgs, size, count);
    lemma_filter_twice(imgs, count, size);
    assert(both =~= (|x: ImgSummary| size(x) && count(x)));
    assert(both =~= (|x: ImgSummary| count(x) && size(x)));
}

} // verus!
