//! Avatar image-load logic.
//!
//! An avatar shows its image once that image has loaded, and fallback
//! content otherwise. The image element reports its native load and error
//! signals; the machine folds them into a loading status that decides
//! which of the two is visible. A failed load is final: there is no
//! retry.

use vstd::prelude::*;

use crate::text::cn_spec;
use crate::text::compose2;
use crate::text::opt_view;

verus! {

#[derive(Clone, Copy, Debug, PartialEq, Eq, Structural)]
pub enum ImageLoadingStatus {
    Idle,
    Loading,
    Loaded,
    Error,
}

/// What the host reports about the image element.
#[derive(Clone, Copy, Debug, PartialEq, Eq, Structural)]
pub enum ImageSignal {
    /// The image element was mounted and started loading.
    Mounted,
    /// The element's native load signal: the source resolved.
    LoadSucceeded,
    /// The element's native error signal: the source failed.
    LoadFailed,
}

/// The status transition: mounting starts the load, the load signals
/// settle it. Anything else - in particular any signal after an error -
/// changes nothing.
pub open spec fn spec_image_step(status: ImageLoadingStatus, signal: ImageSignal) -> ImageLoadingStatus {
    match (status, signal) {
        (ImageLoadingStatus::Idle, ImageSignal::Mounted) => ImageLoadingStatus::Loading,
        (ImageLoadingStatus::Loading, ImageSignal::LoadSucceeded) => ImageLoadingStatus::Loaded,
        (ImageLoadingStatus::Loading, ImageSignal::LoadFailed) => ImageLoadingStatus::Error,
        _ => status,
    }
}

pub fn image_step(status: ImageLoadingStatus, signal: ImageSignal) -> (r: ImageLoadingStatus)
    ensures
        r == spec_image_step(status, signal),
{
    match (status, signal) {
        (ImageLoadingStatus::Idle, ImageSignal::Mounted) => ImageLoadingStatus::Loading,
        (ImageLoadingStatus::Loading, ImageSignal::LoadSucceeded) => ImageLoadingStatus::Loaded,
        (ImageLoadingStatus::Loading, ImageSignal::LoadFailed) => ImageLoadingStatus::Error,
        (s, _) => s,
    }
}

/// Whether the image element is rendered: while loading (so the load can
/// progress) and once loaded.
pub fn image_visible(status: ImageLoadingStatus) -> (r: bool)
    ensures
        r == (status == ImageLoadingStatus::Loading || status == ImageLoadingStatus::Loaded),
{
    matches!(status, ImageLoadingStatus::Loading | ImageLoadingStatus::Loaded)
}

/// Whether the fallback content is rendered: whenever the image has not
/// loaded.
pub fn fallback_visible(status: ImageLoadingStatus) -> (r: bool)
    ensures
        r == (status != ImageLoadingStatus::Loaded),
{
    !matches!(status, ImageLoadingStatus::Loaded)
}

/// Folds a sequence of image signals from the idle state.
pub open spec fn spec_image_fold(signals: Seq<ImageSignal>) -> ImageLoadingStatus
    decreases signals.len(),
{
    if signals.len() == 0 {
        ImageLoadingStatus::Idle
    } else {
        spec_image_step(spec_image_fold(signals.drop_last()), signals.last())
    }
}

/// Law: an image whose source resolves ends in the loaded state, showing
/// the image and not the fallback; one whose source fails ends in the
/// error state, showing the fallback and not the image, with no further
/// transition out of the error state.
pub proof fn lemma_avatar_settles(signals: Seq<ImageSignal>)
    ensures
        spec_image_fold(seq![ImageSignal::Mounted, ImageSignal::LoadSucceeded])
            == ImageLoadingStatus::Loaded,
        spec_image_fold(seq![ImageSignal::Mounted, ImageSignal::LoadFailed])
            == ImageLoadingStatus::Error,
        spec_image_fold(signals) == ImageLoadingStatus::Error ==> forall|more: Seq<ImageSignal>|
            spec_image_fold(signals + more) == ImageLoadingStatus::Error,
{
    let ok = seq![ImageSignal::Mounted, ImageSignal::LoadSucceeded];
    assert(ok.drop_last() =~= seq![ImageSignal::Mounted]);
    assert(ok.drop_last().drop_last() =~= Seq::<ImageSignal>::empty());
    assert(spec_image_fold(ok.drop_last().drop_last()) == ImageLoadingStatus::Idle);
    assert(spec_image_fold(ok.drop_last()) == ImageLoadingStatus::Loading);
    let bad = seq![ImageSignal::Mounted, ImageSignal::LoadFailed];
    assert(bad.drop_last() =~= seq![ImageSignal::Mounted]);
    assert(bad.drop_last().drop_last() =~= Seq::<ImageSignal>::empty());
    assert(spec_image_fold(bad.drop_last().drop_last()) == ImageLoadingStatus::Idle);
    assert(spec_image_fold(bad.drop_last()) == ImageLoadingStatus::Loading);
    if spec_image_fold(signals) == ImageLoadingStatus::Error {
        assert forall|more: Seq<ImageSignal>|
            spec_image_fold(signals + more) == ImageLoadingStatus::Error by {
            lemma_error_absorbs(signals, more);
        }
    }
}

proof fn lemma_error_absorbs(signals: Seq<ImageSignal>, more: Seq<ImageSignal>)
    requires
        spec_image_fold(signals) == ImageLoadingStatus::Error,
    ensures
        spec_image_fold(signals + more) == ImageLoadingStatus::Error,
    decreases more.len(),
{
    if more.len() == 0 {
        assert(signals + more =~= signals);
    } else {
        lemma_error_absorbs(signals, more.drop_last());
        assert((signals + more).drop_last() =~= signals + more.drop_last());
        assert((signals + more).last() == more.last());
    }
}

pub const AVATAR_CLASS: &'static str = "relative flex h-10 w-10 shrink-0 overflow-hidden rounded-full";

pub const AVATAR_IMAGE_CLASS: &'static str = "aspect-square h-full w-full object-cover";

pub const AVATAR_FALLBACK_CLASS: &'static str =
    "flex h-full w-full items-center justify-center rounded-full bg-muted";

/// The class attribute of the avatar container.
pub fn avatar_class(class_name: Option<&str>) -> (r: String)
    ensures
        r@ == cn_spec(seq![Some(AVATAR_CLASS@), opt_view(class_name)]),
{
    compose2(AVATAR_CLASS, class_name)
}

/// The class attribute of the avatar image.
pub fn avatar_image_class(class_name: Option<&str>) -> (r: String)
    ensures
        r@ == cn_spec(seq![Some(AVATAR_IMAGE_CLASS@), opt_view(class_name)]),
{
    compose2(AVATAR_IMAGE_CLASS, class_name)
}

/// The class attribute of the avatar fallback.
pub fn avatar_fallback_class(class_name: Option<&str>) -> (r: String)
    ensures
        r@ == cn_spec(seq![Some(AVATAR_FALLBACK_CLASS@), opt_view(class_name)]),
{
    compose2(AVATAR_FALLBACK_CLASS, class_name)
}

} // verus!
