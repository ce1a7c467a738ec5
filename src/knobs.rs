//! The knob space of each codec and the policy that tightens it.
//!
//! Scale is held in tenths (10 is full size, 1 is a tenth), so the walk moves
//! in exact decimal steps.
use vstd::prelude::*;

verus! {

/// The output codecs that the search can drive.
#[derive(Clone, Copy, Debug, PartialEq, Eq, Structural)]
pub enum Codec {
    Jpeg,
    Png,
    Webp,
}

/// The adjustable encoding parameters of one attempt, tagged by codec.
///
/// JPEG walks quality and scale; PNG is lossless and WebP exposes no quality
/// control here, so they walk scale alone.
#[derive(Clone, Copy, Debug, PartialEq, Eq, Structural)]
pub enum Knobs {
    Jpeg { quality: u8, scale_tenths: u8 },
    Png { scale_tenths: u8 },
    Webp { scale_tenths: u8 },
}

/// JPEG quality of the first attempt.
pub const START_QUALITY: u8 = 90;

/// Lowest JPEG quality that the walk reaches, and the step towards it.
pub const QUALITY_FLOOR: u8 = 10;

/// Scale of the first attempt, in tenths.
pub const FULL_SCALE: u8 = 10;

/// Smallest scale that the walk reaches, in tenths.
pub const SCALE_FLOOR: u8 = 1;

impl Knobs {
    pub open spec fn codec(self) -> Codec {
        match self {
            Knobs::Jpeg { .. } => Codec::Jpeg,
            Knobs::Png { .. } => Codec::Png,
            Knobs::Webp { .. } => Codec::Webp,
        }
    }

    /// Scale in tenths, whatever the codec.
    pub open spec fn scale(self) -> u8 {
        match self {
            Knobs::Jpeg { scale_tenths, .. } => scale_tenths,
            Knobs::Png { scale_tenths } => scale_tenths,
            Knobs::Webp { scale_tenths } => scale_tenths,
        }
    }

    /// Quality; a lossless or quality-less codec is always at full quality.
    pub open spec fn quality(self) -> u8 {
        match self {
            Knobs::Jpeg { quality, .. } => quality,
            _ => 100,
        }
    }

    /// Scale within (0, 1] in tenths, quality within 1..=100.
    pub open spec fn wf(self) -> bool {
        &&& 1 <= self.scale() <= 10
        &&& 1 <= self.quality() <= 100
    }

    /// No further tightening is available.
    pub open spec fn exhausted(self) -> bool {
        match self {
            Knobs::Jpeg { quality, scale_tenths } => quality <= 10 && scale_tenths <= 1,
            Knobs::Png { scale_tenths } => scale_tenths <= 1,
            Knobs::Webp { scale_tenths } => scale_tenths <= 1,
        }
    }

    /// One tightening step: JPEG lowers quality by 10 down to 10, then scale
    /// by a tenth; PNG and WebP lower scale by a tenth.
    pub open spec fn tightened(self) -> Knobs
        recommends
            self.wf(),
            !self.exhausted(),
    {
        match self {
            Knobs::Jpeg { quality, scale_tenths } => if quality > 10 {
                Knobs::Jpeg { quality: (quality - 10) as u8, scale_tenths }
            } else {
                Knobs::Jpeg { quality, scale_tenths: (scale_tenths - 1) as u8 }
            },
            Knobs::Png { scale_tenths } => Knobs::Png { scale_tenths: (scale_tenths - 1) as u8 },
            Knobs::Webp { scale_tenths } => Knobs::Webp { scale_tenths: (scale_tenths - 1) as u8 },
        }
    }

    /// The knobs of the first attempt for a codec.
    pub fn initial(codec: Codec) -> (r: Knobs)
        ensures
            r == initial_knobs(codec),
    {
        match codec {
            Codec::Jpeg => Knobs::Jpeg { quality: START_QUALITY, scale_tenths: FULL_SCALE },
            Codec::Png => Knobs::Png { scale_tenths: FULL_SCALE },
            Codec::Webp => Knobs::Webp { scale_tenths: FULL_SCALE },
        }
    }

    /// Whether the knob space is exhausted.
    pub fn is_exhausted(&self) -> (r: bool)
        ensures
            r == self.exhausted(),
    {
        match *self {
            Knobs::Jpeg { quality, scale_tenths } => quality <= QUALITY_FLOOR && scale_tenths
                <= SCALE_FLOOR,
            Knobs::Png { scale_tenths } => scale_tenths <= SCALE_FLOOR,
            Knobs::Webp { scale_tenths } => scale_tenths <= SCALE_FLOOR,
        }
    }

    /// The knobs of the next attempt, or `None` once the space is exhausted.
    pub fn tighten(&self) -> (r: Option<Knobs>)
        requires
            self.wf(),
        ensures
            self.exhausted() ==> r is None,
            !self.exhausted() ==> r == Some(self.tightened()),
            r matches Some(k) ==> k.wf() && k.codec() == self.codec(),
    {
        if self.is_exhausted() {
            return None;
        }
        match *self {
            Knobs::Jpeg { quality, scale_tenths } => if quality > QUALITY_FLOOR {
                Some(Knobs::Jpeg { quality: quality - QUALITY_FLOOR, scale_tenths })
            } else {
                Some(Knobs::Jpeg { quality, scale_tenths: scale_tenths - 1 })
            },
            Knobs::Png { scale_tenths } => Some(Knobs::Png { scale_tenths: scale_tenths - 1 }),
            Knobs::Webp { scale_tenths } => Some(Knobs::Webp { scale_tenths: scale_tenths - 1 }),
        }
    }

    /// Scale in tenths.
    pub fn scale_tenths(&self) -> (r: u8)
        ensures
            r == self.scale(),
    {
        match *self {
            Knobs::Jpeg { scale_tenths, .. } => scale_tenths,
            Knobs::Png { scale_tenths } => scale_tenths,
            Knobs::Webp { scale_tenths } => scale_tenths,
        }
    }
}

pub open spec fn initial_knobs(codec: Codec) -> Knobs {
    match codec {
        Codec::Jpeg => Knobs::Jpeg { quality: 90, scale_tenths: 10 },
        Codec::Png => Knobs::Png { scale_tenths: 10 },
        Codec::Webp => Knobs::Webp { scale_tenths: 10 },
    }
}

/// The knobs of attempt `i` (counting from 0): the policy applied `i` times
/// to the initial knobs, standing still once exhausted.
pub open spec fn knobs_at(codec: Codec, i: nat) -> Knobs
    decreases i,
{
    if i == 0 {
        initial_knobs(codec)
    } else {
        let prev = knobs_at(codec, (i - 1) as nat);
        if prev.exhausted() {
            prev
        } else {
            prev.tightened()
        }
    }
}

/// Most encoder invocations of one search: JPEG takes 8 quality steps and
/// 9 scale steps after its first attempt, PNG and WebP 9 scale steps.
pub open spec fn max_attempts(codec: Codec) -> nat {
    match codec {
        Codec::Jpeg => 18,
        _ => 10,
    }
}

/// The schedule in closed form.
pub proof fn lemma_knobs_at_closed_form(codec: Codec, i: nat)
    ensures
        knobs_at(codec, i) == (match codec {
            Codec::Jpeg => if i <= 8 {
                Knobs::Jpeg { quality: (90 - 10 * i) as u8, scale_tenths: 10 }
            } else if i <= 17 {
                Knobs::Jpeg { quality: 10, scale_tenths: (18 - i) as u8 }
            } else {
                Knobs::Jpeg { quality: 10, scale_tenths: 1 }
            },
            Codec::Png => Knobs::Png { scale_tenths: if i <= 9 { (10 - i) as u8 } else { 1 } },
            Codec::Webp => Knobs::Webp { scale_tenths: if i <= 9 { (10 - i) as u8 } else { 1 } },
        }),
    decreases i,
{
    if i > 0 {
        lemma_knobs_at_closed_form(codec, (i - 1) as nat);
    }
}

/// Every scheduled attempt has well-formed knobs of its codec.
pub proof fn lemma_knobs_at_wf(codec: Codec, i: nat)
    ensures
        knobs_at(codec, i).wf(),
        knobs_at(codec, i).codec() == codec,
{
    lemma_knobs_at_closed_form(codec, i);
}

/// Knobs never loosen: along the schedule, quality and scale never increase.
pub proof fn lemma_knobs_never_loosen(codec: Codec, i: nat, j: nat)
    requires
        i <= j,
    ensures
        knobs_at(codec, j).quality() <= knobs_at(codec, i).quality(),
        knobs_at(codec, j).scale() <= knobs_at(codec, i).scale(),
{
    lemma_knobs_at_closed_form(codec, i);
    lemma_knobs_at_closed_form(codec, j);
}

/// One tightening step lowers quality or scale and raises neither.
pub proof fn lemma_tighten_step_descends(k: Knobs)
    requires
        k.wf(),
        !k.exhausted(),
    ensures
        k.tightened().quality() <= k.quality(),
        k.tightened().scale() <= k.scale(),
        k.tightened().quality() < k.quality() || k.tightened().scale() < k.scale(),
{
}

/// The search ends within its bound: every attempt before the last allowed
/// one leaves room to tighten, and the last allowed one is exhausted.
pub proof fn lemma_schedule_bound(codec: Codec, i: nat)
    ensures
        i + 1 < max_attempts(codec) ==> !knobs_at(codec, i).exhausted(),
        i + 1 >= max_attempts(codec) ==> knobs_at(codec, i).exhausted(),
{
    lemma_knobs_at_closed_form(codec, i);
}

} // verus!
