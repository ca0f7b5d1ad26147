//! The two QR decode backends and the orchestrator that composes them with
//! the pixel transforms: strategy selection by pixel count, with escalating
//! preprocessing ladders, short-circuiting on the first valid payload.

use vstd::prelude::*;

use crate::image_ops::GrayImg;
use crate::image_ops::bin_seq;
use crate::image_ops::resize_luma_to_max_dimension;
use crate::image_ops::resize_max_spec;
use crate::image_ops::scale_luma_image;
use crate::image_ops::scale_spec;
use crate::image_ops::threshold_luma_image;
use crate::strutil::ascii_trimmed;
use crate::strutil::is_prefix_of;
use crate::strutil::str_has_prefix;
use crate::strutil::trim_ascii_string;

verus! {

/// Every payload this subsystem surfaces begins with this prefix; decoded
/// text without it is noise, not an error.
pub open spec fn payload_prefix() -> Seq<char> {
    "sgnl://linkdevice"@
}

/// The decoded text is a linking payload: it starts with the payload prefix.
pub open spec fn is_payload(s: Seq<char>) -> bool {
    is_prefix_of(payload_prefix(), s)
}

/// Whether `s` is a linking payload.
pub fn is_payload_text(s: &str) -> (r: bool)
    ensures
        r == is_payload(s@),
{
    str_has_prefix(s, "sgnl://linkdevice")
}

/// What the grid-less backend's detector returns on a raw luma buffer: a
/// function of the samples and dimensions alone; `None` when no QR code is
/// recognized.
pub uninterp spec fn rxing_qr_text(data: Seq<u8>, w: int, h: int) -> Option<Seq<char>>;

/// Relies on `rxing::helpers::detect_in_luma_with_hints` (with the QR format
/// hint) and `RXingResult::getText`: detection over a raw luma buffer is pure
/// computation, a function of the samples and the dimensions alone; an `Err`
/// result means no code was found.
#[verifier::external_body]
fn rxing_detect(img: &GrayImg) -> (r: Option<String>)
    requires
        img.wf(),
        img.width >= 1,
        img.height >= 1,
    ensures
        match r {
            Some(s) => rxing_qr_text(img.data@, img.width as int, img.height as int) == Some(s@),
            None => rxing_qr_text(img.data@, img.width as int, img.height as int) == None::<
                Seq<char>,
            >,
        },
{
    let res = rxing::helpers::detect_in_luma_with_hints(
        img.data.clone(),
        img.width,
        img.height,
        Some(rxing::BarcodeFormat::QR_CODE),
        &mut rxing::DecodeHints::default(),
    );
    match res {
        Ok(found) => Some(found.getText().to_owned()),
        Err(_) => None,
    }
}

/// What the grid-based backend extracts from a luma buffer: the decoded
/// content of every detected grid, in detection order, a function of the
/// samples and dimensions alone.
pub uninterp spec fn rqrr_grid_texts(data: Seq<u8>, w: int, h: int) -> Seq<Seq<char>>;

/// Relies on `rqrr::PreparedImage::prepare`, `detect_grids` and
/// `Grid::decode`: grid detection and decoding are pure computation over the
/// samples and dimensions; grids whose decoding fails are skipped.
#[verifier::external_body]
fn rqrr_detect(img: &GrayImg) -> (r: Vec<String>)
    requires
        img.wf(),
    ensures
        r.deep_view() == rqrr_grid_texts(img.data@, img.width as int, img.height as int),
{
    let src = image::GrayImage::from_raw(img.width, img.height, img.data.clone())
        .expect("well-formed image buffer");
    let mut prepared = rqrr::PreparedImage::prepare(src);
    let mut out = Vec::new();
    for grid in prepared.detect_grids() {
        if let Ok((_meta, content)) = grid.decode() {
            out.push(content);
        }
    }
    out
}

/// The first text in the list that is a linking payload.
pub open spec fn first_payload_text(texts: Seq<Seq<char>>) -> Option<Seq<char>>
    decreases texts.len(),
{
    if texts.len() == 0 {
        None
    } else if is_payload(texts[0]) {
        Some(texts[0])
    } else {
        first_payload_text(texts.skip(1))
    }
}

/// The grid-based backend's verdict on an image: the first detected grid
/// whose content is a linking payload.
pub open spec fn rqrr_match(data: Seq<u8>, w: int, h: int) -> Option<Seq<char>> {
    first_payload_text(rqrr_grid_texts(data, w, h))
}

/// The grid-less backend's verdict on an image: the detected text, trimmed,
/// if it is a linking payload. Empty images hold no code.
pub open spec fn rxing_match(data: Seq<u8>, w: int, h: int) -> Option<Seq<char>> {
    if w >= 1 && h >= 1 {
        match rxing_qr_text(data, w, h) {
            Some(raw) => if is_payload(ascii_trimmed(raw)) {
                Some(ascii_trimmed(raw))
            } else {
                None
            },
            None => None,
        }
    } else {
        None
    }
}

/// Backend A: detect a QR code anywhere in the image, trim its text, and
/// yield it only when it is a linking payload.
pub fn decode_signal_qr_with_rxing_luma(img: &GrayImg) -> (r: Option<String>)
    requires
        img.wf(),
    ensures
        match r {
            Some(s) => rxing_match(img.data@, img.width as int, img.height as int) == Some(s@),
            None => rxing_match(img.data@, img.width as int, img.height as int) == None::<
                Seq<char>,
            >,
        },
{
    if img.width == 0 || img.height == 0 {
        return None;
    }
    match rxing_detect(img) {
        Some(raw) => {
            let text = trim_ascii_string(raw.as_str());
            if is_payload_text(text.as_str()) {
                Some(text)
            } else {
                None
            }
        },
        None => None,
    }
}

/// Backend B: detect candidate grids and return the first whose decoded
/// content is a linking payload.
pub fn decode_signal_qr_with_rqrr(img: &GrayImg) -> (r: Option<String>)
    requires
        img.wf(),
    ensures
        match r {
            Some(s) => rqrr_match(img.data@, img.width as int, img.height as int) == Some(s@),
            None => rqrr_match(img.data@, img.width as int, img.height as int) == None::<
                Seq<char>,
            >,
        },
{
    let texts = rqrr_detect(img);
    let ghost all = rqrr_grid_texts(img.data@, img.width as int, img.height as int);
    let mut i: usize = 0;
    proof {
        assert(all.skip(0) =~= all);
    }
    while i < texts.len()
        invariant
            0 <= i <= texts@.len(),
            all == rqrr_grid_texts(img.data@, img.width as int, img.height as int),
            texts.deep_view() == all,
            texts.deep_view().len() == texts@.len(),
            forall|k: int| 0 <= k < texts@.len() ==> texts.deep_view()[k] == #[trigger] texts@[k]@,
            first_payload_text(all) == first_payload_text(all.skip(i as int)),
        decreases texts@.len() - i,
    {
        if is_payload_text(texts[i].as_str()) {
            let found = texts[i].clone();
            proof {
                assert(found@ == texts@[i as int]@);
                assert(all.skip(i as int)[0] == all[i as int]);
                assert(first_payload_text(all.skip(i as int)) == Some(all[i as int]));
            }
            return Some(found);
        }
        proof {
            assert(all.skip(i as int)[0] == all[i as int]);
            assert(all.skip(i as int).skip(1) =~= all.skip(i + 1));
        }
        i += 1;
    }
    proof {
        assert(all.skip(texts@.len() as int) =~= Seq::<Seq<char>>::empty());
    }
    None
}

/// The short binarization ladder: the image as is, then two non-inverted
/// threshold passes, first match wins.
pub open spec fn fastpass_spec(data: Seq<u8>, w: int, h: int) -> Option<Seq<char>> {
    match rqrr_match(data, w, h) {
        Some(t) => Some(t),
        None => match rqrr_match(bin_seq(data, 128, false), w, h) {
            Some(t) => Some(t),
            None => rqrr_match(bin_seq(data, 160, false), w, h),
        },
    }
}

/// Backend B with the short binarization ladder: cheap passes for a
/// downscaled capture.
pub fn decode_signal_qr_with_rqrr_fastpass(img: &GrayImg) -> (r: Option<String>)
    requires
        img.wf(),
    ensures
        match r {
            Some(s) => fastpass_spec(img.data@, img.width as int, img.height as int) == Some(s@),
            None => fastpass_spec(img.data@, img.width as int, img.height as int) == None::<
                Seq<char>,
            >,
        },
{
    if let Some(uri) = decode_signal_qr_with_rqrr(img) {
        return Some(uri);
    }
    let b128 = threshold_luma_image(img, 128, false);
    if let Some(uri) = decode_signal_qr_with_rqrr(&b128) {
        return Some(uri);
    }
    let b160 = threshold_luma_image(img, 160, false);
    decode_signal_qr_with_rqrr(&b160)
}

/// One threshold step of the long ladder: the non-inverted pass, then the
/// inverted one.
pub open spec fn ladder_pass_spec(data: Seq<u8>, w: int, h: int, t: u8) -> Option<Seq<char>> {
    match rqrr_match(bin_seq(data, t, false), w, h) {
        Some(x) => Some(x),
        None => rqrr_match(bin_seq(data, t, true), w, h),
    }
}

/// The long ladder's threshold walk over one scaled candidate.
pub open spec fn threshold_ladder_spec(data: Seq<u8>, w: int, h: int, ts: Seq<u8>) -> Option<
    Seq<char>,
>
    decreases ts.len(),
{
    if ts.len() == 0 {
        None
    } else {
        match ladder_pass_spec(data, w, h, ts[0]) {
            Some(x) => Some(x),
            None => threshold_ladder_spec(data, w, h, ts.skip(1)),
        }
    }
}

/// One scale step of the long ladder: rescale, try the plain image, then walk
/// the thresholds.
pub open spec fn scale_pass_spec(data: Seq<u8>, w: int, h: int, pct: u32, ts: Seq<u8>) -> Option<
    Seq<char>,
> {
    let scaled = scale_spec(data, w, h, pct as int);
    match rqrr_match(scaled.0, scaled.1, scaled.2) {
        Some(x) => Some(x),
        None => threshold_ladder_spec(scaled.0, scaled.1, scaled.2, ts),
    }
}

/// The long ladder: every scale factor in order, first match wins.
pub open spec fn multipass_ladder_spec(
    data: Seq<u8>,
    w: int,
    h: int,
    scales: Seq<u32>,
    ts: Seq<u8>,
) -> Option<Seq<char>>
    decreases scales.len(),
{
    if scales.len() == 0 {
        None
    } else {
        match scale_pass_spec(data, w, h, scales[0], ts) {
            Some(x) => Some(x),
            None => multipass_ladder_spec(data, w, h, scales.skip(1), ts),
        }
    }
}

/// The scale factors of the long ladder, in hundredths.
pub open spec fn multipass_scales() -> Seq<u32> {
    seq![100u32, 85u32, 120u32]
}

/// The thresholds of the long ladder.
pub open spec fn multipass_thresholds() -> Seq<u8> {
    seq![110u8, 140u8, 170u8]
}

/// Backend B's verdict after the whole long ladder on a full-resolution
/// image.
pub open spec fn multipass_spec(data: Seq<u8>, w: int, h: int) -> Option<Seq<char>> {
    multipass_ladder_spec(data, w, h, multipass_scales(), multipass_thresholds())
}

fn multipass_scale_table() -> (r: Vec<u32>)
    ensures
        r@ == multipass_scales(),
{
    let mut r: Vec<u32> = Vec::new();
    r.push(100);
    r.push(85);
    r.push(120);
    proof {
        assert(r@ =~= multipass_scales());
    }
    r
}

fn multipass_threshold_table() -> (r: Vec<u8>)
    ensures
        r@ == multipass_thresholds(),
{
    let mut r: Vec<u8> = Vec::new();
    r.push(110);
    r.push(140);
    r.push(170);
    proof {
        assert(r@ =~= multipass_thresholds());
    }
    r
}

fn threshold_ladder(candidate: &GrayImg, thresholds: &Vec<u8>) -> (r: Option<String>)
    requires
        candidate.wf(),
    ensures
        match r {
            Some(s) => threshold_ladder_spec(
                candidate.data@,
                candidate.width as int,
                candidate.height as int,
                thresholds@,
            ) == Some(s@),
            None => threshold_ladder_spec(
                candidate.data@,
                candidate.width as int,
                candidate.height as int,
                thresholds@,
            ) == None::<Seq<char>>,
        },
{
    let ghost d = candidate.data@;
    let ghost w = candidate.width as int;
    let ghost h = candidate.height as int;
    let ghost ts = thresholds@;
    let mut j: usize = 0;
    proof {
        assert(ts.skip(0) =~= ts);
    }
    while j < thresholds.len()
        invariant
            0 <= j <= ts.len(),
            ts == thresholds@,
            candidate.wf(),
            d == candidate.data@,
            w == candidate.width as int,
            h == candidate.height as int,
            threshold_ladder_spec(d, w, h, ts) == threshold_ladder_spec(d, w, h, ts.skip(j as int)),
        decreases ts.len() - j,
    {
        let t = thresholds[j];
        proof {
            assert(ts.skip(j as int)[0] == ts[j as int]);
        }
        let binary = threshold_luma_image(candidate, t, false);
        if let Some(uri) = decode_signal_qr_with_rqrr(&binary) {
            return Some(uri);
        }
        let inverted = threshold_luma_image(candidate, t, true);
        if let Some(uri) = decode_signal_qr_with_rqrr(&inverted) {
            return Some(uri);
        }
        proof {
            assert(ladder_pass_spec(d, w, h, ts[j as int]) == None::<Seq<char>>);
            assert(ts.skip(j as int).skip(1) =~= ts.skip(j + 1));
        }
        j += 1;
    }
    None
}

/// Backend B with the long ladder: several scale factors, several thresholds,
/// both polarities, first match wins. The most robust and most expensive
/// path, used only on affordable full-resolution captures.
pub fn decode_signal_qr_with_rqrr_multipass(img: &GrayImg) -> (r: Option<String>)
    requires
        img.wf(),
    ensures
        match r {
            Some(s) => multipass_spec(img.data@, img.width as int, img.height as int) == Some(s@),
            None => multipass_spec(img.data@, img.width as int, img.height as int) == None::<
                Seq<char>,
            >,
        },
{
    let ghost d = img.data@;
    let ghost w = img.width as int;
    let ghost h = img.height as int;
    let scales = multipass_scale_table();
    let thresholds = multipass_threshold_table();
    let ghost sc = scales@;
    let ghost ts = thresholds@;
    let mut i: usize = 0;
    proof {
        assert(sc.skip(0) =~= sc);
    }
    while i < scales.len()
        invariant
            0 <= i <= sc.len(),
            sc == scales@,
            ts == thresholds@,
            sc == multipass_scales(),
            ts == multipass_thresholds(),
            img.wf(),
            d == img.data@,
            w == img.width as int,
            h == img.height as int,
            multipass_ladder_spec(d, w, h, sc, ts) == multipass_ladder_spec(
                d,
                w,
                h,
                sc.skip(i as int),
                ts,
            ),
        decreases sc.len() - i,
    {
        proof {
            assert(sc.skip(i as int)[0] == sc[i as int]);
        }
        let candidate = scale_luma_image(img, scales[i]);
        if let Some(uri) = decode_signal_qr_with_rqrr(&candidate) {
            return Some(uri);
        }
        let laddered = threshold_ladder(&candidate, &thresholds);
        if let Some(uri) = laddered {
            return Some(uri);
        }
        proof {
            assert(scale_pass_spec(d, w, h, sc[i as int], ts) == None::<Seq<char>>);
            assert(sc.skip(i as int).skip(1) =~= sc.skip(i + 1));
        }
        i += 1;
    }
    None
}

/// The tunable limits the orchestrator works under: the bound for the cheap
/// "fast variant", the pixel ceiling under which full-resolution multi-pass
/// decoding is affordable, and the upscale factor (in hundredths) used
/// instead when it is not.
pub struct DecodeBudget {
    pub fast_max_dimension: u32,
    pub full_decode_max_pixels: u64,
    pub upscale_pct: u32,
}

/// The fast variant is bounded to this many pixels on its longer side.
pub const QR_FAST_MAX_DIMENSION: u32 = 1600;

/// Full-resolution multi-pass decoding is attempted only up to this many
/// pixels.
pub const QR_FULL_DECODE_MAX_PIXELS: u64 = 3_000_000;

/// The upscale factor, in hundredths, applied to the fast variant of a
/// capture too large for full-resolution decoding.
pub const QR_UPSCALE_PCT: u32 = 115;

impl DecodeBudget {
    /// The production limits.
    pub fn standard() -> (r: DecodeBudget)
        ensures
            r.fast_max_dimension == QR_FAST_MAX_DIMENSION,
            r.full_decode_max_pixels == QR_FULL_DECODE_MAX_PIXELS,
            r.upscale_pct == QR_UPSCALE_PCT,
    {
        DecodeBudget {
            fast_max_dimension: QR_FAST_MAX_DIMENSION,
            full_decode_max_pixels: QR_FULL_DECODE_MAX_PIXELS,
            upscale_pct: QR_UPSCALE_PCT,
        }
    }
}

/// What the orchestrator yields: the grid-less backend and the short ladder
/// on the fast variant first; for an affordable capture, the grid-less
/// backend and the long ladder at full resolution next; for a capture over
/// the pixel ceiling, both cheap passes again on an upscaled fast variant.
pub open spec fn orchestrate_spec(
    data: Seq<u8>,
    w: int,
    h: int,
    fast_max: u32,
    max_pixels: u64,
    up_pct: u32,
) -> Option<Seq<char>> {
    let fast = resize_max_spec(data, w, h, fast_max as int);
    match rxing_match(fast.0, fast.1, fast.2) {
        Some(t) => Some(t),
        None => match fastpass_spec(fast.0, fast.1, fast.2) {
            Some(t) => Some(t),
            None => if w * h <= max_pixels {
                match rxing_match(data, w, h) {
                    Some(t) => Some(t),
                    None => multipass_spec(data, w, h),
                }
            } else {
                let up = scale_spec(fast.0, fast.1, fast.2, up_pct as int);
                match rxing_match(up.0, up.1, up.2) {
                    Some(t) => Some(t),
                    None => fastpass_spec(up.0, up.1, up.2),
                }
            },
        },
    }
}

/// Whatever the orchestrator yields is a linking payload: no other string is
/// ever surfaced.
pub proof fn lemma_first_payload_is_payload(texts: Seq<Seq<char>>)
    ensures
        match first_payload_text(texts) {
            Some(t) => is_payload(t),
            None => true,
        },
    decreases texts.len(),
{
    if texts.len() == 0 {
    } else if is_payload(texts[0]) {
    } else {
        lemma_first_payload_is_payload(texts.skip(1));
    }
}

proof fn lemma_threshold_ladder_payload(data: Seq<u8>, w: int, h: int, ts: Seq<u8>)
    ensures
        match threshold_ladder_spec(data, w, h, ts) {
            Some(t) => is_payload(t),
            None => true,
        },
    decreases ts.len(),
{
    if ts.len() == 0 {
    } else {
        lemma_first_payload_is_payload(rqrr_grid_texts(bin_seq(data, ts[0], false), w, h));
        lemma_first_payload_is_payload(rqrr_grid_texts(bin_seq(data, ts[0], true), w, h));
        lemma_threshold_ladder_payload(data, w, h, ts.skip(1));
    }
}

proof fn lemma_multipass_ladder_payload(data: Seq<u8>, w: int, h: int, scales: Seq<u32>, ts: Seq<u8>)
    ensures
        match multipass_ladder_spec(data, w, h, scales, ts) {
            Some(t) => is_payload(t),
            None => true,
        },
    decreases scales.len(),
{
    if scales.len() == 0 {
    } else {
        let scaled = scale_spec(data, w, h, scales[0] as int);
        lemma_first_payload_is_payload(rqrr_grid_texts(scaled.0, scaled.1, scaled.2));
        lemma_threshold_ladder_payload(scaled.0, scaled.1, scaled.2, ts);
        lemma_multipass_ladder_payload(data, w, h, scales.skip(1), ts);
    }
}

proof fn lemma_fastpass_payload(data: Seq<u8>, w: int, h: int)
    ensures
        match fastpass_spec(data, w, h) {
            Some(t) => is_payload(t),
            None => true,
        },
{
    lemma_first_payload_is_payload(rqrr_grid_texts(data, w, h));
    lemma_first_payload_is_payload(rqrr_grid_texts(bin_seq(data, 128, false), w, h));
    lemma_first_payload_is_payload(rqrr_grid_texts(bin_seq(data, 160, false), w, h));
}

/// The output contract of the whole subsystem: whatever the orchestrator
/// yields begins with the payload prefix, for every image and every budget.
pub proof fn lemma_orchestrator_yields_payload_only(
    data: Seq<u8>,
    w: int,
    h: int,
    fast_max: u32,
    max_pixels: u64,
    up_pct: u32,
)
    ensures
        match orchestrate_spec(data, w, h, fast_max, max_pixels, up_pct) {
            Some(t) => is_payload(t),
            None => true,
        },
{
    let fast = resize_max_spec(data, w, h, fast_max as int);
    lemma_fastpass_payload(fast.0, fast.1, fast.2);
    lemma_first_payload_is_payload(rqrr_grid_texts(data, w, h));
    lemma_multipass_ladder_payload(data, w, h, multipass_scales(), multipass_thresholds());
    let up = scale_spec(fast.0, fast.1, fast.2, up_pct as int);
    lemma_fastpass_payload(up.0, up.1, up.2);
}

/// The Decode Orchestrator: one image in, at most one authenticated payload
/// out. Absence of a payload is a normal outcome, never an error.
pub fn decode_signal_qr_from_image(img: &GrayImg, budget: &DecodeBudget) -> (r: Option<String>)
    requires
        img.wf(),
    ensures
        match r {
            Some(s) => orchestrate_spec(
                img.data@,
                img.width as int,
                img.height as int,
                budget.fast_max_dimension,
                budget.full_decode_max_pixels,
                budget.upscale_pct,
            ) == Some(s@) && is_payload(s@),
            None => orchestrate_spec(
                img.data@,
                img.width as int,
                img.height as int,
                budget.fast_max_dimension,
                budget.full_decode_max_pixels,
                budget.upscale_pct,
            ) == None::<Seq<char>>,
        },
{
    proof {
        lemma_orchestrator_yields_payload_only(
            img.data@,
            img.width as int,
            img.height as int,
            budget.fast_max_dimension,
            budget.full_decode_max_pixels,
            budget.upscale_pct,
        );
    }
    let fast = resize_luma_to_max_dimension(img, budget.fast_max_dimension);
    if let Some(uri) = decode_signal_qr_with_rxing_luma(&fast) {
        return Some(uri);
    }
    if let Some(uri) = decode_signal_qr_with_rqrr_fastpass(&fast) {
        return Some(uri);
    }
    let pixel_count = img.pixel_count();
    if pixel_count <= budget.full_decode_max_pixels {
        if let Some(uri) = decode_signal_qr_with_rxing_luma(img) {
            return Some(uri);
        }
        decode_signal_qr_with_rqrr_multipass(img)
    } else {
        let upscaled = scale_luma_image(&fast, budget.upscale_pct);
        if let Some(uri) = decode_signal_qr_with_rxing_luma(&upscaled) {
            return Some(uri);
        }
        decode_signal_qr_with_rqrr_fastpass(&upscaled)
    }
}

} // verus!
