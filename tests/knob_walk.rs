use size_squeeze::{Codec, Knobs};

fn walk(codec: Codec) -> Vec<Knobs> {
    let mut out = vec![Knobs::initial(codec)];
    while let Some(next) = out[out.len() - 1].tighten() {
        out.push(next);
    }
    out
}

fn quality(k: &Knobs) -> u8 {
    match *k {
        Knobs::Jpeg { quality, .. } => quality,
        _ => 100,
    }
}

#[test]
fn initial_knobs_are_highest_quality() {
    assert_eq!(Knobs::initial(Codec::Jpeg), Knobs::Jpeg { quality: 90, scale_tenths: 10 });
    assert_eq!(Knobs::initial(Codec::Png), Knobs::Png { scale_tenths: 10 });
    assert_eq!(Knobs::initial(Codec::Webp), Knobs::Webp { scale_tenths: 10 });
}

#[test]
fn jpeg_walks_quality_then_scale() {
    let steps = walk(Codec::Jpeg);
    assert_eq!(steps.len(), 18);
    assert_eq!(steps[1], Knobs::Jpeg { quality: 80, scale_tenths: 10 });
    assert_eq!(steps[8], Knobs::Jpeg { quality: 10, scale_tenths: 10 });
    assert_eq!(steps[9], Knobs::Jpeg { quality: 10, scale_tenths: 9 });
    assert_eq!(steps[17], Knobs::Jpeg { quality: 10, scale_tenths: 1 });
    assert!(steps[17].is_exhausted());
}

#[test]
fn png_and_webp_walk_scale_alone() {
    let png = walk(Codec::Png);
    assert_eq!(png.len(), 10);
    assert_eq!(png[9], Knobs::Png { scale_tenths: 1 });
    let webp = walk(Codec::Webp);
    assert_eq!(webp.len(), 10);
    assert_eq!(webp[3], Knobs::Webp { scale_tenths: 7 });
}

#[test]
fn knobs_never_loosen_along_the_walk() {
    for codec in [Codec::Jpeg, Codec::Png, Codec::Webp] {
        let steps = walk(codec);
        for pair in steps.windows(2) {
            assert!(quality(&pair[1]) <= quality(&pair[0]));
            assert!(pair[1].scale_tenths() <= pair[0].scale_tenths());
            assert_ne!(pair[1], pair[0]);
        }
    }
}

#[test]
fn exhausted_knobs_do_not_tighten() {
    assert_eq!(Knobs::Jpeg { quality: 10, scale_tenths: 1 }.tighten(), None);
    assert_eq!(Knobs::Png { scale_tenths: 1 }.tighten(), None);
    assert!(!Knobs::Jpeg { quality: 20, scale_tenths: 1 }.is_exhausted());
}
