//! The size-constrained encoding search: encode, measure, and tighten the
//! knobs until the output fits the budget or the knob space is exhausted.
use crate::encoders::{
    default_stream, encode_default, encode_jpeg, jpeg_stream, optimize_png_stream, optimized_png,
    resize_within, resized_rgba,
};
use crate::error::CompressError;
use crate::knobs::{
    knobs_at, lemma_knobs_at_wf, lemma_knobs_never_loosen, lemma_schedule_bound, max_attempts,
    Codec, Knobs,
};
use crate::raster::Raster;
use vstd::prelude::*;

verus! {

/// oxipng preset used on every PNG attempt: a balance of time and size.
pub const PNG_OPTIMIZE_PRESET: u8 = 2;

/// The terminal result of a search: the artifact of the last attempt, whether
/// it fits the budget, the knobs it was made with, and the measured length of
/// every attempt in order.
pub struct SearchOutcome {
    pub bytes: Vec<u8>,
    pub met_budget: bool,
    pub knobs: Knobs,
    pub attempt_sizes: Vec<usize>,
}

impl SearchOutcome {
    /// Number of encoder invocations the search made.
    pub fn attempts(&self) -> (r: usize)
        ensures
            r == self.attempt_sizes@.len(),
    {
        self.attempt_sizes.len()
    }
}

/// An attempt that must scale an empty raster down, which no resize can do.
pub open spec fn blocked(w: u32, h: u32, k: Knobs) -> bool {
    k.scale() < 10 && (w == 0 || h == 0)
}

/// The raster an attempt encodes: the caller's own at full scale, else the
/// caller's raster resized to fit `floor(side * scale)` each way.
pub open spec fn working_raster(w: u32, h: u32, px: Seq<u8>, scale: u8) -> (u32, u32, Seq<u8>) {
    if scale >= 10 {
        (w, h, px)
    } else {
        resized_rgba(w, h, px, (w * scale / 10) as u32, (h * scale / 10) as u32)
    }
}

/// The encoder's stream for a working raster at the knobs: JPEG at the
/// knobs' quality, PNG and WebP at their defaults, with no quality setting.
pub open spec fn codec_stream(w: u32, h: u32, px: Seq<u8>, k: Knobs) -> Option<Seq<u8>> {
    match k {
        Knobs::Jpeg { quality, .. } => jpeg_stream(w, h, px, quality),
        Knobs::Png { .. } => default_stream(w, h, px, Codec::Png),
        Knobs::Webp { .. } => default_stream(w, h, px, Codec::Webp),
    }
}

/// The encoder's stream for attempt knobs `k` on the caller's raster, before
/// any optimization.
pub open spec fn raw_attempt(w: u32, h: u32, px: Seq<u8>, k: Knobs) -> Option<Seq<u8>> {
    let wr = working_raster(w, h, px, k.scale());
    codec_stream(wr.0, wr.1, wr.2, k)
}

/// What an attempt measures: the encoder's stream, passed once through the
/// PNG optimizer for PNG; `None` where a step fails.
pub open spec fn attempt_bytes(w: u32, h: u32, px: Seq<u8>, k: Knobs) -> Option<Seq<u8>> {
    if blocked(w, h, k) {
        None
    } else {
        match raw_attempt(w, h, px, k) {
            Some(raw) => if k is Png {
                optimized_png(raw, 2)
            } else {
                Some(raw)
            },
            None => None,
        }
    }
}

/// The error that a failed attempt hands back names the step that failed.
pub open spec fn attempt_error(w: u32, h: u32, px: Seq<u8>, k: Knobs, e: CompressError) -> bool {
    match e {
        CompressError::EmptyRaster => blocked(w, h, k),
        CompressError::Image(_) => !blocked(w, h, k) && raw_attempt(w, h, px, k) is None,
        CompressError::Optimize(_) => !blocked(w, h, k) && k is Png && raw_attempt(w, h, px, k) is Some
            && optimized_png(raw_attempt(w, h, px, k)->Some_0, 2) is None,
        CompressError::InvalidSize => false,
    }
}

/// Index of the attempt at which a search from attempt `i` stops: the first
/// that fails, fits the budget, or is the codec's last.
pub open spec fn stop_index(w: u32, h: u32, px: Seq<u8>, budget: u64, codec: Codec, i: nat) -> nat
    decreases max_attempts(codec) - i,
{
    if i + 1 >= max_attempts(codec) {
        i
    } else {
        match attempt_bytes(w, h, px, knobs_at(codec, i)) {
            Some(b) => if b.len() <= budget {
                i
            } else {
                stop_index(w, h, px, budget, codec, i + 1)
            },
            None => i,
        }
    }
}

/// The shape of a finished search record: between one attempt and the
/// codec's bound, final knobs those of the schedule at the last attempt, last
/// measured size the artifact's length, every earlier size over budget, the
/// flag true exactly when the artifact fits, and a miss only once exhausted.
pub open spec fn outcome_valid(o: SearchOutcome, codec: Codec, budget: u64) -> bool {
    let n = o.attempt_sizes@.len();
    &&& 1 <= n <= max_attempts(codec)
    &&& o.knobs == knobs_at(codec, (n - 1) as nat)
    &&& o.attempt_sizes@[n - 1] == o.bytes@.len()
    &&& forall|i: int| 0 <= i < n - 1 ==> o.attempt_sizes@[i] > budget
    &&& o.met_budget == (o.bytes@.len() <= budget)
    &&& (o.met_budget || o.knobs.exhausted())
}

/// The search's result on a raster: it stops at `k = stop_index(.., 0)`; it
/// succeeds exactly when attempt `k` does, with that attempt's bytes, knobs
/// and the measured size of every attempt `0..=k`; on failure it hands back
/// the error of attempt `k`.
pub open spec fn search_spec(
    raster: Raster,
    budget: u64,
    codec: Codec,
    r: Result<SearchOutcome, CompressError>,
) -> bool {
    let (w, h, px) = (raster.width, raster.height, raster.rgba@);
    let k = stop_index(w, h, px, budget, codec, 0);
    &&& (r is Ok <==> attempt_bytes(w, h, px, knobs_at(codec, k)) is Some)
    &&& r matches Ok(o) ==> {
        &&& outcome_valid(o, codec, budget)
        &&& o.attempt_sizes@.len() == k + 1
        &&& o.knobs == knobs_at(codec, k)
        &&& attempt_bytes(w, h, px, o.knobs) == Some(o.bytes@)
        &&& forall|i: int|
            0 <= i <= k ==> #[trigger] o.attempt_sizes@[i] == attempt_bytes(
                w,
                h,
                px,
                knobs_at(codec, i as nat),
            )->Some_0.len()
        &&& codec == Codec::Png ==> o.bytes@.len() <= raw_attempt(w, h, px, o.knobs)->Some_0.len()
    }
    &&& r matches Err(e) ==> attempt_error(w, h, px, knobs_at(codec, k), e)
}

/// One side of a raster scaled by `scale_tenths` tenths, rounded down.
pub fn scaled_dimension(side: u32, scale_tenths: u8) -> (r: u32)
    requires
        scale_tenths <= 10,
    ensures
        r as int == side as int * scale_tenths as int / 10,
{
    proof {
        assert(side as int * scale_tenths as int <= side as int * 10) by (nonlinear_arith)
            requires
                scale_tenths <= 10,
                side >= 0,
        ;
    }
    let wide: u64 = side as u64 * scale_tenths as u64;
    (wide / 10) as u32
}

/// The search stops at the first attempt, from `i` on, that fails or fits
/// the budget, and at the codec's last attempt at the latest: every attempt
/// before it succeeded and missed the budget.
pub proof fn lemma_stop_is_first_fit(
    w: u32,
    h: u32,
    px: Seq<u8>,
    budget: u64,
    codec: Codec,
    i: nat,
    j: nat,
)
    requires
        i < max_attempts(codec),
        i <= j < stop_index(w, h, px, budget, codec, i),
    ensures
        stop_index(w, h, px, budget, codec, i) < max_attempts(codec),
        attempt_bytes(w, h, px, knobs_at(codec, j)) is Some,
        attempt_bytes(w, h, px, knobs_at(codec, j))->Some_0.len() > budget,
    decreases max_attempts(codec) - i,
{
    if i < j {
        lemma_stop_is_first_fit(w, h, px, budget, codec, i + 1, j);
    } else if i + 1 < max_attempts(codec) && stop_index(w, h, px, budget, codec, i + 1) > i + 1 {
        lemma_stop_is_first_fit(w, h, px, budget, codec, i + 1, i + 1);
    }
}

/// Stop index bound: a search from attempt `i` stops no earlier than `i` and
/// before the codec's attempt bound.
pub proof fn lemma_stop_in_bound(w: u32, h: u32, px: Seq<u8>, budget: u64, codec: Codec, i: nat)
    requires
        i < max_attempts(codec),
    ensures
        i <= stop_index(w, h, px, budget, codec, i) < max_attempts(codec),
    decreases max_attempts(codec) - i,
{
    if i + 1 < max_attempts(codec) {
        lemma_stop_in_bound(w, h, px, budget, codec, i + 1);
    }
}

/// A looser budget never makes the search from attempt `i` stop later.
pub proof fn lemma_looser_budget_stops_no_later(
    w: u32,
    h: u32,
    px: Seq<u8>,
    tight: u64,
    loose: u64,
    codec: Codec,
    i: nat,
)
    requires
        tight <= loose,
        i < max_attempts(codec),
    ensures
        stop_index(w, h, px, loose, codec, i) <= stop_index(w, h, px, tight, codec, i),
    decreases max_attempts(codec) - i,
{
    if i + 1 < max_attempts(codec) {
        lemma_looser_budget_stops_no_later(w, h, px, tight, loose, codec, i + 1);
        lemma_stop_in_bound(w, h, px, loose, codec, i + 1);
    }
}

/// A search under a looser budget on the same raster makes no more attempts
/// and ends at knobs no more aggressive.
pub proof fn lemma_looser_budget_gentler_result(
    raster: Raster,
    tight: u64,
    loose: u64,
    codec: Codec,
    r_tight: Result<SearchOutcome, CompressError>,
    r_loose: Result<SearchOutcome, CompressError>,
)
    requires
        tight <= loose,
        search_spec(raster, tight, codec, r_tight),
        search_spec(raster, loose, codec, r_loose),
        r_tight is Ok,
        r_loose is Ok,
    ensures
        r_loose->Ok_0.attempt_sizes@.len() <= r_tight->Ok_0.attempt_sizes@.len(),
        r_loose->Ok_0.knobs.quality() >= r_tight->Ok_0.knobs.quality(),
        r_loose->Ok_0.knobs.scale() >= r_tight->Ok_0.knobs.scale(),
{
    let (w, h, px) = (raster.width, raster.height, raster.rgba@);
    lemma_looser_budget_stops_no_later(w, h, px, tight, loose, codec, 0);
    lemma_knobs_never_loosen(
        codec,
        stop_index(w, h, px, loose, codec, 0),
        stop_index(w, h, px, tight, codec, 0),
    );
}

/// Two searches with the same raster, budget and codec give the same result.
pub proof fn lemma_search_deterministic(
    raster: Raster,
    budget: u64,
    codec: Codec,
    r1: Result<SearchOutcome, CompressError>,
    r2: Result<SearchOutcome, CompressError>,
)
    requires
        search_spec(raster, budget, codec, r1),
        search_spec(raster, budget, codec, r2),
    ensures
        r1 is Ok <==> r2 is Ok,
        r1 is Ok ==> {
            &&& r1->Ok_0.bytes@ == r2->Ok_0.bytes@
            &&& r1->Ok_0.met_budget == r2->Ok_0.met_budget
            &&& r1->Ok_0.knobs == r2->Ok_0.knobs
            &&& r1->Ok_0.attempt_sizes@ == r2->Ok_0.attempt_sizes@
        },
{
    if r1 is Ok {
        let (o1, o2) = (r1->Ok_0, r2->Ok_0);
        assert forall|i: int| 0 <= i < o1.attempt_sizes@.len() implies o1.attempt_sizes@[i]
            == o2.attempt_sizes@[i] by {
            assert(o1.attempt_sizes@[i] == o2.attempt_sizes@[i]);
        }
        assert(o1.attempt_sizes@ =~= o2.attempt_sizes@);
    }
}

/// Runs the PNG optimizer on an encoded stream; the result is oxipng's
/// output at the search's preset, never longer than its input.
pub fn optimize_png_bytes(png: &Vec<u8>) -> (r: Result<Vec<u8>, CompressError>)
    ensures
        match r {
            Ok(out) => optimized_png(png@, 2) == Some(out@) && out@.len() <= png@.len(),
            Err(e) => optimized_png(png@, 2) is None && e is Optimize,
        },
{
    match optimize_png_stream(png, PNG_OPTIMIZE_PRESET) {
        Ok(out) => Ok(out),
        Err(e) => Err(CompressError::Optimize(e)),
    }
}

/// Encodes a working raster with the knobs' codec; PNG goes through the
/// optimizer once.
fn encode_working(work: &Raster, knobs: Knobs) -> (r: Result<Vec<u8>, CompressError>)
    requires
        work.wf(),
    ensures
        match r {
            Ok(b) => {
                &&& codec_stream(work.width, work.height, work.rgba@, knobs) is Some
                &&& knobs is Png ==> optimized_png(
                    codec_stream(work.width, work.height, work.rgba@, knobs)->Some_0,
                    2,
                ) == Some(b@) && b@.len() <= codec_stream(
                    work.width,
                    work.height,
                    work.rgba@,
                    knobs,
                )->Some_0.len()
                &&& !(knobs is Png) ==> codec_stream(work.width, work.height, work.rgba@, knobs)
                    == Some(b@)
            },
            Err(e) => match e {
                CompressError::Image(_) => codec_stream(
                    work.width,
                    work.height,
                    work.rgba@,
                    knobs,
                ) is None,
                CompressError::Optimize(_) => knobs is Png && codec_stream(
                    work.width,
                    work.height,
                    work.rgba@,
                    knobs,
                ) is Some && optimized_png(
                    codec_stream(work.width, work.height, work.rgba@, knobs)->Some_0,
                    2,
                ) is None,
                _ => false,
            },
        },
{
    match knobs {
        Knobs::Jpeg { quality, .. } => match encode_jpeg(work, quality) {
            Ok(b) => Ok(b),
            Err(e) => Err(CompressError::Image(e)),
        },
        Knobs::Png { .. } => match encode_default(work, Codec::Png) {
            Ok(b) => optimize_png_bytes(&b),
            Err(e) => Err(CompressError::Image(e)),
        },
        Knobs::Webp { .. } => match encode_default(work, Codec::Webp) {
            Ok(b) => Ok(b),
            Err(e) => Err(CompressError::Image(e)),
        },
    }
}

/// One attempt: the caller's raster, resized when the knobs ask for a
/// smaller scale, then encoded.
fn encode_attempt(raster: &Raster, knobs: Knobs) -> (r: Result<Vec<u8>, CompressError>)
    requires
        raster.wf(),
        knobs.wf(),
    ensures
        match r {
            Ok(b) => attempt_bytes(raster.width, raster.height, raster.rgba@, knobs) == Some(b@)
                && (knobs is Png ==> b@.len() <= raw_attempt(
                raster.width,
                raster.height,
                raster.rgba@,
                knobs,
            )->Some_0.len()),
            Err(e) => attempt_bytes(raster.width, raster.height, raster.rgba@, knobs) is None
                && attempt_error(raster.width, raster.height, raster.rgba@, knobs, e),
        },
{
    let scale = knobs.scale_tenths();
    if scale < 10 {
        if raster.width == 0 || raster.height == 0 {
            return Err(CompressError::EmptyRaster);
        }
        let small = resize_within(
            raster,
            scaled_dimension(raster.width, scale),
            scaled_dimension(raster.height, scale),
        );
        encode_working(&small, knobs)
    } else {
        encode_working(raster, knobs)
    }
}

/// The search for one codec, from the highest-quality knobs down.
pub fn compress_with(raster: &Raster, budget: u64, codec: Codec) -> (r: Result<
    SearchOutcome,
    CompressError,
>)
    requires
        raster.wf(),
    ensures
        search_spec(*raster, budget, codec, r),
{
    let ghost (w, h, px) = (raster.width, raster.height, raster.rgba@);
    let mut knobs = Knobs::initial(codec);
    let mut attempt_sizes: Vec<usize> = Vec::new();
    loop
        invariant
            raster.wf(),
            (w, h, px) == (raster.width, raster.height, raster.rgba@),
            knobs == knobs_at(codec, attempt_sizes@.len() as nat),
            attempt_sizes@.len() < max_attempts(codec),
            stop_index(w, h, px, budget, codec, 0) == stop_index(
                w,
                h,
                px,
                budget,
                codec,
                attempt_sizes@.len() as nat,
            ),
            forall|i: int|
                #![trigger attempt_sizes@[i]]
                0 <= i < attempt_sizes@.len() ==> attempt_bytes(
                    w,
                    h,
                    px,
                    knobs_at(codec, i as nat),
                ) is Some && attempt_sizes@[i] == attempt_bytes(
                    w,
                    h,
                    px,
                    knobs_at(codec, i as nat),
                )->Some_0.len() && attempt_sizes@[i] > budget,
        decreases max_attempts(codec) - attempt_sizes@.len(),
    {
        let ghost n = attempt_sizes@.len() as nat;
        proof {
            lemma_knobs_at_wf(codec, n);
            lemma_schedule_bound(codec, n);
        }
        let bytes = match encode_attempt(raster, knobs) {
            Ok(b) => b,
            Err(e) => return Err(e),
        };
        let len = bytes.len();
        let ghost prev = attempt_sizes@;
        attempt_sizes.push(len);
        assert(attempt_sizes@ =~= prev.push(len));
        let met = (len as u128) <= (budget as u128);
        let tightened = if met {
            None
        } else {
            knobs.tighten()
        };
        match tightened {
            None => {
                let o = SearchOutcome { bytes, met_budget: met, knobs, attempt_sizes };
                assert(o.attempt_sizes@[n as int] == len);
                return Ok(o);
            },
            Some(next) => {
                knobs = next;
                assert forall|i: int| 0 <= i < attempt_sizes@.len() implies #[trigger] attempt_bytes(
                    w,
                    h,
                    px,
                    knobs_at(codec, i as nat),
                ) is Some && attempt_sizes@[i] == attempt_bytes(
                    w,
                    h,
                    px,
                    knobs_at(codec, i as nat),
                )->Some_0.len() && attempt_sizes@[i] > budget by {
                    if i < n {
                        assert(attempt_sizes@[i] == prev[i]);
                    } else {
                        assert(i == n);
                        assert(attempt_sizes@[i] == len);
                        assert(knobs_at(codec, i as nat) == knobs_at(codec, n));
                        assert(attempt_bytes(w, h, px, knobs_at(codec, n)) == Some(bytes@));
                        assert(len > budget);
                    }
                }
            },
        }
    }
}

/// Compresses to JPEG, lowering quality from 90 to 10, then scale.
pub fn compress_jpeg(raster: &Raster, target_size: u64) -> (r: Result<
    SearchOutcome,
    CompressError,
>)
    requires
        raster.wf(),
    ensures
        search_spec(*raster, target_size, Codec::Jpeg, r),
{
    compress_with(raster, target_size, Codec::Jpeg)
}

/// Compresses to optimized PNG, lowering scale alone.
pub fn compress_png(raster: &Raster, target_size: u64) -> (r: Result<
    SearchOutcome,
    CompressError,
>)
    requires
        raster.wf(),
    ensures
        search_spec(*raster, target_size, Codec::Png, r),
{
    compress_with(raster, target_size, Codec::Png)
}

/// Compresses to WebP, lowering scale alone.
pub fn compress_webp(raster: &Raster, target_size: u64) -> (r: Result<
    SearchOutcome,
    CompressError,
>)
    requires
        raster.wf(),
    ensures
        search_spec(*raster, target_size, Codec::Webp, r),
{
    compress_with(raster, target_size, Codec::Webp)
}

} // verus!
