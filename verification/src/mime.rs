//! Media classification from file content.
//!
//! A file's kind is decided by its content signature, never by its file name:
//! PNG and WEBP files count as animated exactly when they carry the relevant
//! animation chunk, GIF is always animated, any other image signature is a
//! static image, video signatures are video, and everything else is
//! unsupported.

use vstd::prelude::*;

verus! {

/// The kind of media a file holds, derived from its content alone.
#[derive(Debug, Clone, Copy, PartialEq, Eq, Structural)]
pub enum MediaKind {
    StaticImage,
    AnimatedImage,
    Video,
    Unsupported,
    Any,
}

/// The four-byte PNG signature, as the `infer` crate checks it.
pub open spec fn png_signature(b: Seq<u8>) -> bool {
    b.len() > 3 && b[0] == 0x89 && b[1] == 0x50 && b[2] == 0x4e && b[3] == 0x47
}

/// The three-byte GIF signature, as the `infer` crate checks it.
pub open spec fn gif_signature(b: Seq<u8>) -> bool {
    b.len() > 2 && b[0] == 0x47 && b[1] == 0x49 && b[2] == 0x46
}

/// The WEBP signature: the letters "WEBP" at offset 8, as the `infer` crate
/// checks it.
pub open spec fn webp_signature(b: Seq<u8>) -> bool {
    b.len() > 11 && b[8] == 0x57 && b[9] == 0x45 && b[10] == 0x42 && b[11] == 0x50
}

/// Whether the bytes carry any image signature known to the `infer` crate
/// (JPEG, PNG, GIF, WEBP, TIFF, BMP, ICO, AVIF, and the rarer ones).
pub uninterp spec fn image_signature(b: Seq<u8>) -> bool;

/// Whether the bytes carry any video signature known to the `infer` crate
/// (MP4, M4V, MKV, WEBM, MOV, AVI, and the rarer ones).
pub uninterp spec fn video_signature(b: Seq<u8>) -> bool;

/// The tag `tag` occurs in `b` starting at position `i`.
pub open spec fn tag_at(b: Seq<u8>, i: int, tag: Seq<u8>) -> bool {
    forall|k: int| 0 <= k < tag.len() ==> b[i + k] == tag[k]
}

/// The tag `tag` occurs somewhere in `b`.
pub open spec fn contains_tag(b: Seq<u8>, tag: Seq<u8>) -> bool {
    exists|i: int| 0 <= i && i + tag.len() <= b.len() && tag_at(b, i, tag)
}

/// The PNG animation control chunk marker, `acTL`.
pub open spec fn actl_tag() -> Seq<u8> {
    seq![0x61u8, 0x63u8, 0x54u8, 0x4cu8]
}

/// The WEBP animation chunk marker, `ANIM`.
pub open spec fn anim_tag() -> Seq<u8> {
    seq![0x41u8, 0x4eu8, 0x49u8, 0x4du8]
}

/// What kind the bytes of a file classify as.
pub open spec fn spec_classify(b: Seq<u8>) -> MediaKind {
    if png_signature(b) {
        if contains_tag(b, actl_tag()) {
            MediaKind::AnimatedImage
        } else {
            MediaKind::StaticImage
        }
    } else if gif_signature(b) {
        MediaKind::AnimatedImage
    } else if webp_signature(b) {
        if contains_tag(b, anim_tag()) {
            MediaKind::AnimatedImage
        } else {
            MediaKind::StaticImage
        }
    } else if image_signature(b) {
        MediaKind::StaticImage
    } else if video_signature(b) {
        MediaKind::Video
    } else {
        MediaKind::Unsupported
    }
}

/// Relies on infer::image::is_png: true exactly when the buffer starts with
/// the four PNG signature bytes.
#[verifier::external_body]
fn ext_is_png(b: &Vec<u8>) -> (r: bool)
    ensures
        r == png_signature(b@),
{
    infer::image::is_png(b.as_slice())
}

/// Relies on infer::image::is_gif: true exactly when the buffer starts with
/// the three GIF signature bytes.
#[verifier::external_body]
fn ext_is_gif(b: &Vec<u8>) -> (r: bool)
    ensures
        r == gif_signature(b@),
{
    infer::image::is_gif(b.as_slice())
}

/// Relies on infer::image::is_webp: true exactly when the buffer holds the
/// letters "WEBP" at offset 8.
#[verifier::external_body]
fn ext_is_webp(b: &Vec<u8>) -> (r: bool)
    ensures
        r == webp_signature(b@),
{
    infer::image::is_webp(b.as_slice())
}

/// Relies on infer::is_image: whether any of its image matchers accepts the
/// buffer. The result depends on the bytes alone.
#[verifier::external_body]
fn ext_is_image(b: &Vec<u8>) -> (r: bool)
    ensures
        r == image_signature(b@),
{
    infer::is_image(b.as_slice())
}

/// Relies on infer::is_video: whether any of its video matchers accepts the
/// buffer. The result depends on the bytes alone.
#[verifier::external_body]
fn ext_is_video(b: &Vec<u8>) -> (r: bool)
    ensures
        r == video_signature(b@),
{
    infer::is_video(b.as_slice())
}

/// Whether the four bytes `t0 t1 t2 t3` occur contiguously anywhere in `b`.
fn contains_tag4(b: &Vec<u8>, t0: u8, t1: u8, t2: u8, t3: u8) -> (r: bool)
    ensures
        r == contains_tag(b@, seq![t0, t1, t2, t3]),
{
    let ghost tag: Seq<u8> = seq![t0, t1, t2, t3];
    let n = b.len();
    if n < 4 {
        assert(!contains_tag(b@, tag));
        return false;
    }
    let mut i: usize = 0;
    while i <= n - 4
        invariant
            4 <= n,
            n == b@.len(),
            i <= n - 3,
            tag =~= seq![t0, t1, t2, t3],
            forall|j: int| 0 <= j < i ==> !tag_at(b@, j, tag),
        decreases n - i,
    {
        if b[i] == t0 && b[i + 1] == t1 && b[i + 2] == t2 && b[i + 3] == t3 {
            assert(tag_at(b@, i as int, tag)) by {
                assert(tag[0] == t0 && tag[1] == t1 && tag[2] == t2 && tag[3] == t3);
            }
            return true;
        }
        proof {
            assert(!tag_at(b@, i as int, tag)) by {
                if tag_at(b@, i as int, tag) {
                    assert(b@[i as int] == tag[0]);
                    assert(b@[i + 1] == tag[1]);
                    assert(b@[i + 2] == tag[2]);
                    assert(b@[i + 3] == tag[3]);
                }
            }
        }
        i += 1;
    }
    assert(forall|j: int| 0 <= j && j + 4 <= n ==> !tag_at(b@, j, tag));
    false
}

/// Whether PNG bytes carry the `acTL` animation control chunk marker.
pub fn is_apng(b: &Vec<u8>) -> (r: bool)
    ensures
        r == contains_tag(b@, actl_tag()),
{
    contains_tag4(b, 0x61, 0x63, 0x54, 0x4c)
}

/// Whether WEBP bytes carry the `ANIM` animation chunk marker.
pub fn is_animated_webp(b: &Vec<u8>) -> (r: bool)
    ensures
        r == contains_tag(b@, anim_tag()),
{
    contains_tag4(b, 0x41, 0x4e, 0x49, 0x4d)
}

/// Classify the content of a file. Never panics: bytes matching no known
/// signature are `Unsupported`.
pub fn detect_media_kind(bytes: &Vec<u8>) -> (r: MediaKind)
    ensures
        r == spec_classify(bytes@),
{
    if ext_is_png(bytes) {
        if is_apng(bytes) {
            MediaKind::AnimatedImage
        } else {
            MediaKind::StaticImage
        }
    } else if ext_is_gif(bytes) {
        MediaKind::AnimatedImage
    } else if ext_is_webp(bytes) {
        if is_animated_webp(bytes) {
            MediaKind::AnimatedImage
        } else {
            MediaKind::StaticImage
        }
    } else if ext_is_image(bytes) {
        MediaKind::StaticImage
    } else if ext_is_video(bytes) {
        MediaKind::Video
    } else {
        MediaKind::Unsupported
    }
}

/// Classification is a function of file content alone: two files with equal
/// bytes get the same kind, whatever their names or extensions.
pub proof fn lemma_classify_content_based(b1: Seq<u8>, b2: Seq<u8>)
    requires
        b1 == b2,
    ensures
        spec_classify(b1) == spec_classify(b2),
{
}

} // verus!
