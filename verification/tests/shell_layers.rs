use shell_fur::noise::{hash, Noise, NOISE_DENOMINATOR};
use shell_fur::ratio::Ratio;
use shell_fur::shell::{tile, Layer, AMBIENT_DEN, AMBIENT_NUM, DENSITY, GAP_DIVISOR, SHELLS, THICKNESS};

fn ratio(num: i64, den: u32) -> Ratio {
    Ratio::new(num, den).unwrap()
}

/// The noise value `num / den`, for a `den` that divides the denominator of
/// noise values.
fn noise(num: u64, den: u64) -> Noise {
    assert_eq!(NOISE_DENOMINATOR % den, 0);
    Noise::new(NOISE_DENOMINATOR / den * num).unwrap()
}

fn noise_value(n: &Noise) -> f64 {
    n.numerator() as f64 / NOISE_DENOMINATOR as f64
}

fn layer(index: u32) -> Layer {
    Layer::new(index).unwrap()
}

fn value(r: &Ratio) -> f64 {
    r.numerator() as f64 / r.denominator() as f64
}

#[test]
fn constants_of_the_shells() {
    assert_eq!(SHELLS, 32);
    assert_eq!(DENSITY, 1000);
    assert_eq!(THICKNESS, 5);
    assert_eq!(GAP_DIVISOR, 100);
    assert_eq!((AMBIENT_NUM, AMBIENT_DEN), (3, 10));
}

#[test]
fn there_are_exactly_shells_layers() {
    for index in 0..SHELLS {
        assert_eq!(layer(index).index(), index);
    }
    assert!(Layer::new(SHELLS).is_none());
    assert!(Layer::new(SHELLS + 1).is_none());
    assert!(Layer::new(u32::MAX).is_none());
}

#[test]
fn base_layer_is_layer_zero() {
    assert_eq!(Layer::base().index(), 0);
    assert!(Layer::base().is_base());
    assert!(layer(0).is_base());
    assert!(!layer(1).is_base());
    assert!(!layer(31).is_base());
}

#[test]
fn depth_is_index_over_shells() {
    let d = layer(8).depth();
    assert_eq!((d.numerator(), d.denominator()), (8, 32));
    assert!(d.same(&ratio(1, 4)));
    assert!(layer(0).depth().same(&Ratio::whole(0)));
    let outer = layer(31).depth();
    assert_eq!((outer.numerator(), outer.denominator()), (31, 32));
    assert!(outer.lt(&Ratio::whole(1)));
}

#[test]
fn extrusion_is_index_times_gap() {
    let e = layer(7).extrusion();
    assert_eq!((e.numerator(), e.denominator()), (7, 100));
    assert!((value(&e) - 7.0 * 0.01).abs() < 1e-12);
    assert!(layer(0).extrusion().same(&Ratio::whole(0)));
    assert!(layer(31).extrusion().same(&ratio(31, 100)));
}

#[test]
fn ambient_occlusion_values() {
    let base = layer(0).ambient_occlusion();
    assert_eq!((base.numerator(), base.denominator()), (96, 320));
    assert!(base.same(&ratio(3, 10)));
    let eighth = layer(8).ambient_occlusion();
    assert_eq!((eighth.numerator(), eighth.denominator()), (176, 320));
    assert!(eighth.same(&ratio(11, 20)));
    let last_below_one = layer(22).ambient_occlusion();
    assert_eq!((last_below_one.numerator(), last_below_one.denominator()), (316, 320));
    let first_capped = layer(23).ambient_occlusion();
    assert_eq!((first_capped.numerator(), first_capped.denominator()), (1, 1));
    let outer = layer(31).ambient_occlusion();
    assert_eq!((outer.numerator(), outer.denominator()), (1, 1));
}

#[test]
fn ambient_occlusion_stays_between_three_tenths_and_one() {
    let low = ratio(3, 10);
    let high = Ratio::whole(1);
    for index in 0..SHELLS {
        let ao = layer(index).ambient_occlusion();
        assert!(low.le(&ao), "layer {}", index);
        assert!(ao.le(&high), "layer {}", index);
        let single = (index as f32 / 32.0 + 0.3).min(1.0);
        assert!((value(&ao) - single as f64).abs() < 1e-6, "layer {}", index);
    }
}

#[test]
fn ambient_occlusion_grows_outwards() {
    for index in 0..SHELLS - 1 {
        assert!(layer(index).ambient_occlusion().le(&layer(index + 1).ambient_occlusion()));
    }
}

#[test]
fn base_layer_drops_nothing() {
    let base = Layer::base();
    for (noise, dist) in [
        (noise(0, 1), ratio(0, 1)),
        (noise(0, 1), ratio(141, 100)),
        (noise(999, 1000), ratio(1, 1000)),
        (noise(1, 2), ratio(7, 1)),
        (noise(0, 1), ratio(i64::MAX, 1)),
        (Noise::new(NOISE_DENOMINATOR - 1).unwrap(), ratio(i64::MIN, 1)),
    ] {
        assert!(!base.discards(&noise, &dist));
        assert!(base.shade(&noise, &dist).is_some());
    }
}

#[test]
fn fragment_is_dropped_beyond_the_threshold() {
    // layer 8 of a cell with noise 1/2: 5 * (1/2 - 1/4) = 5/4
    let l = layer(8);
    let noise = noise(1, 2);
    assert!(!l.discards(&noise, &ratio(0, 1)));
    assert!(!l.discards(&noise, &ratio(1, 1)));
    assert!(!l.discards(&noise, &ratio(5, 4)));
    assert!(!l.discards(&noise, &ratio(1_249_999, 1_000_000)));
    assert!(l.discards(&noise, &ratio(1_250_001, 1_000_000)));
    assert!(l.discards(&noise, &ratio(3, 2)));
}

#[test]
fn threshold_falls_by_five_thirty_seconds_per_layer() {
    // noise 3/4: layer i keeps up to 5 * (3/4 - i/32) = (120 - 5 i) / 32
    let noise = noise(3, 4);
    for index in 1..SHELLS {
        let l = layer(index);
        let threshold = 120 - 5 * index as i64;
        assert!(!l.discards(&noise, &ratio(threshold - 1, 32)), "layer {}", index);
        assert!(!l.discards(&noise, &ratio(threshold, 32)), "layer {}", index);
        assert!(l.discards(&noise, &ratio(threshold + 1, 32)), "layer {}", index);
    }
}

#[test]
fn outer_layers_drop_what_inner_layers_drop() {
    let noises = [
        noise(0, 1),
        noise(1, 10),
        noise(1, 2),
        noise(31, 32),
        noise(999, 1000),
        hash(250, 333),
        Noise::new(NOISE_DENOMINATOR - 1).unwrap(),
    ];
    let dists = [ratio(0, 1), ratio(1, 100), ratio(1, 2), ratio(1, 1), ratio(1414, 1000), ratio(5, 1)];
    for noise in &noises {
        for dist in &dists {
            let mut dropped = false;
            for index in 0..SHELLS {
                let now = layer(index).discards(noise, dist);
                assert!(!dropped || now, "layer {}", index);
                dropped = now;
            }
        }
    }
}

#[test]
fn layer_above_the_strand_drops_even_the_centre() {
    // noise 1/4, layer 16: threshold 5 * (1/4 - 1/2) = -5/4
    let l = layer(16);
    let noise = noise(1, 4);
    assert!(l.discards(&noise, &ratio(0, 1)));
    assert!(l.discards(&noise, &ratio(1, 1_000_000)));
    assert!(l.discards(&noise, &ratio(1, 1)));
    assert!(l.shade(&noise, &ratio(0, 1)).is_none());
}

#[test]
fn layer_at_the_top_of_the_strand_keeps_the_centre_alone() {
    // noise 1/2, layer 16: threshold 0
    let l = layer(16);
    let noise = noise(1, 2);
    assert!(!l.discards(&noise, &ratio(0, 1)));
    assert!(!l.discards(&noise, &ratio(0, 77)));
    assert!(l.discards(&noise, &ratio(1, u32::MAX)));
}

#[test]
fn discard_agrees_with_single_precision_away_from_the_edge() {
    for index in 1..SHELLS {
        for noise_step in 0..10u64 {
            for dist_step in 0..15i64 {
                let noise = noise(2 * noise_step + 1, 20);
                let dist = ratio(2 * dist_step + 1, 23);
                let h = index as f32 / 32.0;
                let threshold = 5.0 * (noise_value(&noise) as f32 - h);
                let single = value(&dist) as f32 > threshold;
                if (value(&dist) as f32 - threshold).abs() > 1e-4 {
                    assert_eq!(layer(index).discards(&noise, &dist), single);
                }
            }
        }
    }
}

#[test]
fn extreme_fractions_do_not_overflow() {
    let l = layer(31);
    let most = Noise::new(NOISE_DENOMINATOR - 1).unwrap();
    let least = noise(0, 1);
    let far = ratio(i64::MAX, 1);
    let behind = ratio(i64::MIN, 1);
    let fine = ratio(i64::MAX, u32::MAX);
    assert!(l.discards(&most, &far));
    assert!(l.discards(&least, &far));
    assert!(!l.discards(&most, &behind));
    assert!(!l.discards(&least, &behind));
    assert!(l.discards(&most, &fine));
    assert!(!l.discards(&least, &ratio(i64::MIN, u32::MAX)));
    // layer 31 of the tallest strand keeps up to 5 * (1 - 1/D - 31/32)
    assert!(!l.discards(&most, &ratio(15, 100)));
    assert!(l.discards(&most, &ratio(16, 100)));
}

#[test]
fn shade_gives_the_ambient_occlusion_of_what_is_kept() {
    let noise = noise(1, 2);
    let kept = layer(8).shade(&noise, &ratio(1, 1)).unwrap();
    assert_eq!((kept.numerator(), kept.denominator()), (176, 320));
    assert!(layer(8).shade(&noise, &ratio(2, 1)).is_none());
    let base = Layer::base().shade(&noise, &ratio(2, 1)).unwrap();
    assert!(base.same(&ratio(3, 10)));
}

#[test]
fn tile_splits_a_coordinate() {
    // 1000 * 0.2505 = 250.5
    let t = tile(&ratio(2505, 10_000));
    assert_eq!(t.cell, 250);
    assert!(t.local.same(&Ratio::whole(0)));
    // 1000 / 3 = 333 1/3
    let third = tile(&ratio(1, 3));
    assert_eq!(third.cell, 333);
    assert_eq!((third.local.numerator(), third.local.denominator()), (-1, 3));
    let single = (1.0f32 / 3.0 * 1000.0).fract() * 2.0 - 1.0;
    assert!((value(&third.local) as f32 - single).abs() < 1e-3);
}

#[test]
fn tile_at_cell_edges() {
    let origin = tile(&ratio(0, 1));
    assert_eq!(origin.cell, 0);
    assert!(origin.local.same(&Ratio::whole(-1)));
    let edge = tile(&ratio(1, 1000));
    assert_eq!(edge.cell, 1);
    assert!(edge.local.same(&Ratio::whole(-1)));
    let one = tile(&Ratio::whole(1));
    assert_eq!(one.cell, 1000);
    assert!(one.local.same(&Ratio::whole(-1)));
    let just_below = tile(&ratio(1999, 2_000_000));
    assert_eq!(just_below.cell, 0);
    assert_eq!((just_below.local.numerator(), just_below.local.denominator()), (1_998_000, 2_000_000));
}

#[test]
fn tile_of_a_negative_coordinate() {
    // 1000 * -1/3 = -333 1/3: the cell is rounded towards zero, the fractional
    // part taken downwards from -334
    let t = tile(&ratio(-1, 3));
    assert_eq!(t.cell, -333);
    assert_eq!((t.local.numerator(), t.local.denominator()), (1, 3));
    let whole = tile(&ratio(-2, 1000));
    assert_eq!(whole.cell, -2);
    assert!(whole.local.same(&Ratio::whole(-1)));
}

#[test]
fn tile_stays_within_the_cell() {
    let low = Ratio::whole(-1);
    let high = Ratio::whole(1);
    for num in [i64::MIN, -1_000_003, -7, -1, 0, 1, 7, 999_983, i64::MAX] {
        for den in [1u32, 2, 3, 999, 1000, 1001, 65_537, u32::MAX] {
            let t = tile(&ratio(num, den));
            assert!(low.le(&t.local), "{} / {}", num, den);
            assert!(t.local.lt(&high), "{} / {}", num, den);
            assert_eq!(t.cell, 1000 * num as i128 / den as i128, "{} / {}", num, den);
        }
    }
}

#[test]
fn fragment_takes_its_noise_from_the_cell() {
    // (0.2505, 0.3335) is the centre of cell (250, 333), whose noise is a
    // little over 0.63
    let u = ratio(2505, 10_000);
    let v = ratio(3335, 10_000);
    assert_eq!((tile(&u).cell, tile(&v).cell), (250, 333));
    assert!(tile(&u).local.same(&Ratio::whole(0)));
    // the centre is kept as long as the threshold is not negative
    for index in 0..SHELLS {
        let kept = layer(index).fragment(&u, &v);
        assert_eq!(kept.is_some(), index <= 20, "layer {}", index);
        assert_eq!(kept.is_none(), layer(index).discards(&hash(250, 333), &ratio(0, 1)));
    }
    let factor = layer(4).fragment(&u, &v).unwrap();
    assert!(factor.same(&ratio(17, 40)));
}

#[test]
fn fragment_measures_the_distance_from_the_centre() {
    // cell (250, 333) again; layer 18 keeps up to 5 * (0.6305 - 0.5625) = 0.34
    let l = layer(18);
    let noise = hash(250, 333);
    assert!(!l.discards(&noise, &ratio(34, 100)));
    assert!(l.discards(&noise, &ratio(35, 100)));
    // local (0.3, 0): u = 250.65 / 1000
    assert!(l.fragment(&ratio(25_065, 100_000), &ratio(3335, 10_000)).is_some());
    // local (0.4, 0)
    assert!(l.fragment(&ratio(2507, 10_000), &ratio(3335, 10_000)).is_none());
    // local (0.24, 0.24) is 0.339 away, local (0.25, 0.25) is 0.354 away
    assert!(l.fragment(&ratio(25_062, 100_000), &ratio(33_362, 100_000)).is_some());
    assert!(l.fragment(&ratio(250_625, 1_000_000), &ratio(333_625, 1_000_000)).is_none());
    // local (-0.24, 0.24) and (0.24, -0.24) likewise
    assert!(l.fragment(&ratio(25_038, 100_000), &ratio(33_362, 100_000)).is_some());
    assert!(l.fragment(&ratio(25_062, 100_000), &ratio(33_338, 100_000)).is_some());
    assert!(l.fragment(&ratio(250_375, 1_000_000), &ratio(333_625, 1_000_000)).is_none());
}

#[test]
fn fragment_on_the_base_layer_is_always_kept() {
    for (u, v) in [(0, 0), (1, 999), (500, 500), (-250, 1250), (123_456, -654_321)] {
        let factor = Layer::base().fragment(&ratio(u, 1000), &ratio(v, 997)).unwrap();
        assert!(factor.same(&ratio(3, 10)));
    }
}

#[test]
fn fragment_agrees_with_the_distance_rule() {
    // corners of cells lie at distance sqrt(2), which the rule by distance
    // sees between 1.41 and 1.42
    for cell in 0..200i64 {
        let u = ratio(cell, 1000);
        let v = ratio(3 * cell + 1, 1000);
        let noise = hash(cell as i128, 3 * cell as i128 + 1);
        for index in 0..SHELLS {
            let l = layer(index);
            let by_square = l.fragment(&u, &v).is_none();
            if l.discards(&noise, &ratio(141, 100)) {
                assert!(by_square);
            }
            if !l.discards(&noise, &ratio(142, 100)) {
                assert!(!by_square);
            }
        }
    }
}

#[test]
fn fragment_of_extreme_coordinates() {
    let l = layer(31);
    for u in [ratio(i64::MAX, 1), ratio(i64::MIN, 1), ratio(i64::MAX, u32::MAX), ratio(i64::MIN, u32::MAX)] {
        for v in [ratio(i64::MIN, u32::MAX - 1), ratio(1, u32::MAX), ratio(-1, u32::MAX)] {
            let ut = tile(&u);
            let vt = tile(&v);
            let noise = hash(ut.cell, vt.cell);
            let outcome = l.fragment(&u, &v);
            // the distance lies between the larger coordinate and their sum
            let far = |r: &Ratio| ratio(r.numerator().abs(), r.denominator());
            let (a, b) = (far(&ut.local), far(&vt.local));
            let larger = if a.le(&b) { b } else { a };
            if l.discards(&noise, &larger) {
                assert!(outcome.is_none());
            }
            assert_eq!(Layer::base().fragment(&u, &v).is_some(), true);
        }
    }
}
