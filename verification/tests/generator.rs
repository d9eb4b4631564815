use squiggle::generator::SquiggleParameters;
use squiggle::generator::MARGIN;
use squiggle::generator::MAX_AMPLITUDE;
use squiggle::generator::MAX_OSCILLATIONS;
use squiggle::generator::MAX_PERIOD;
use squiggle::generator::MAX_STROKE_WIDTH;
use squiggle::generator::MIN_AMPLITUDE;
use squiggle::generator::MIN_OSCILLATIONS;
use squiggle::generator::MIN_PERIOD;
use squiggle::generator::MIN_STROKE_WIDTH;
use squiggle::generator::SVG_HEIGHT;
use squiggle::generator::SVG_WIDTH;
use squiggle::seed::generate_seed;
use squiggle::primitives::Address;
use squiggle::SquiggleGenerator;

fn seeds() -> Vec<[u8; 32]> {
    let mut seeds = vec![[0u8; 32], [0xff; 32], [0x80; 32], [0x0f; 32], [0xf0; 32]];
    let mut state: u64 = 0x9e37_79b9_7f4a_7c15;
    for _ in 0..2000 {
        let mut seed = [0u8; 32];
        for byte in seed.iter_mut() {
            state = state.wrapping_mul(6_364_136_223_846_793_005).wrapping_add(1_442_695_040_888_963_407);
            *byte = (state >> 56) as u8;
        }
        seeds.push(seed);
    }
    seeds
}

#[test]
fn constants_are_the_documented_ranges() {
    assert_eq!((SVG_WIDTH, SVG_HEIGHT, MARGIN), (1000, 1000, 50));
    assert_eq!((MIN_OSCILLATIONS, MAX_OSCILLATIONS), (4, 15));
    assert_eq!((MIN_STROKE_WIDTH, MAX_STROKE_WIDTH), (10, 80));
    assert_eq!((MIN_PERIOD, MAX_PERIOD), (20, 100));
    assert_eq!((MIN_AMPLITUDE, MAX_AMPLITUDE), (100, 600));
}

#[test]
fn parameters_of_the_zero_seed() {
    let params = SquiggleGenerator::new([0; 32]).parameters();
    assert_eq!(
        params,
        SquiggleParameters {
            x_offsets: vec![215, 430, 645, 860],
            y_coordinates: vec![500, 500, 500, 500, 500],
            stroke_width: 10,
            period: 20,
            amplitude: 100,
            gradient_type: 0,
        }
    );
}

#[test]
fn parameters_of_the_all_ones_seed() {
    let params = SquiggleGenerator::new([0xff; 32]).parameters();
    assert_eq!(
        params,
        SquiggleParameters {
            x_offsets: vec![144, 288, 432, 576, 720, 864, 900],
            y_coordinates: vec![0, 1000, 0, 1000, 0, 1000, 0, 1000],
            stroke_width: 52,
            period: 32,
            amplitude: 505,
            gradient_type: 3,
        }
    );
}

#[test]
fn parameters_of_a_counting_seed() {
    let mut seed = [0u8; 32];
    for (i, byte) in seed.iter_mut().enumerate() {
        *byte = i as u8;
    }
    let params = SquiggleGenerator::new(seed).parameters();
    assert_eq!(
        params,
        SquiggleParameters {
            x_offsets: vec![214, 436, 650, 874],
            y_coordinates: vec![476, 526, 473, 528, 470],
            stroke_width: 11,
            period: 22,
            amplitude: 371,
            gradient_type: 1,
        }
    );
}

#[test]
fn parameters_of_a_seed_with_fifteen_oscillations() {
    let mut seed = [0u8; 32];
    for (i, byte) in seed.iter_mut().enumerate() {
        *byte = ((i * 37 + 11) % 256) as u8;
    }
    let params = SquiggleGenerator::new(seed).parameters();
    assert_eq!(
        params,
        SquiggleParameters {
            x_offsets: vec![70, 132, 180, 250, 302, 354, 410, 470, 529, 597, 661, 712, 779, 838, 900],
            y_coordinates: vec![
                346, 716, 222, 840, 98, 535, 403, 659, 279, 783, 155, 907, 460, 602, 336, 726,
            ],
            stroke_width: 58,
            period: 24,
            amplitude: 429,
            gradient_type: 0,
        }
    );
}

#[test]
fn parameters_of_a_derived_seed() {
    let seed = generate_seed(7, &Address::new([0x11; 20]), 42161);
    let params = SquiggleGenerator::new(seed).parameters();
    assert_eq!(
        params,
        SquiggleParameters {
            x_offsets: vec![37, 94, 141, 203, 270, 361, 462, 519, 576, 623, 670, 707, 808],
            y_coordinates: vec![308, 837, 255, 626, 127, 775, 170, 752, 210, 695, 232, 780, 366, 872],
            stroke_width: 42,
            period: 73,
            amplitude: 443,
            gradient_type: 1,
        }
    );
}

#[test]
fn each_header_byte_sets_one_value() {
    let base = SquiggleGenerator::new([0; 32]).parameters();
    let mut seed = [0u8; 32];
    seed[0] = 11;
    assert_eq!(SquiggleGenerator::new(seed).parameters().x_offsets.len(), 15);
    seed[0] = 12;
    assert_eq!(SquiggleGenerator::new(seed).parameters().x_offsets.len(), 4);
    let mut seed = [0u8; 32];
    seed[1] = 70;
    assert_eq!(SquiggleGenerator::new(seed).parameters().stroke_width, 80);
    seed[1] = 71;
    assert_eq!(SquiggleGenerator::new(seed).parameters().stroke_width, 10);
    let mut seed = [0u8; 32];
    seed[5] = 6;
    assert_eq!(SquiggleGenerator::new(seed).parameters().gradient_type, 2);
    let mut seed = [0u8; 32];
    seed[2] = 80;
    seed[6] = 0xf0;
    // period 100: the first segment advances by 225 - 50 + 100, the second by 225 - 50
    assert_eq!(SquiggleGenerator::new(seed).parameters().period, 100);
    assert_eq!(SquiggleGenerator::new(seed).parameters().x_offsets, vec![275, 450, 625, 800]);
    let mut seed = [0u8; 32];
    seed[3] = 1;
    seed[4] = 244;
    seed[16] = 255;
    seed[17] = 127;
    // amplitude 100 + 500: the first vertex swings by 600, the second by 300
    assert_eq!(SquiggleGenerator::new(seed).parameters().amplitude, 600);
    assert_eq!(
        SquiggleGenerator::new(seed).parameters().y_coordinates,
        vec![0, 800, 498, 502, 498]
    );
    assert_eq!(base.gradient_type, 0);
}

#[test]
fn parameters_are_within_bounds_for_many_seeds() {
    for seed in seeds() {
        let params = SquiggleGenerator::new(seed).parameters();
        assert!(params.is_well_formed());
        let count = params.x_offsets.len();
        assert!((MIN_OSCILLATIONS..=MAX_OSCILLATIONS).contains(&count));
        assert_eq!(params.y_coordinates.len(), count + 1);
        assert!((MIN_STROKE_WIDTH as i32..=MAX_STROKE_WIDTH as i32).contains(&params.stroke_width));
        assert!((MIN_PERIOD as i32..=MAX_PERIOD as i32).contains(&params.period));
        assert!((MIN_AMPLITUDE as i32..=MAX_AMPLITUDE as i32).contains(&params.amplitude));
        assert!(params.gradient_type < 4);
        let mut previous = 0;
        for &x in &params.x_offsets {
            assert!(previous <= x && x <= SVG_WIDTH - 2 * MARGIN);
            assert!(MARGIN + x <= SVG_WIDTH - MARGIN);
            previous = x;
        }
        for &y in &params.y_coordinates {
            assert!(0 <= y && y <= SVG_HEIGHT);
            assert!((y - SVG_HEIGHT / 2).abs() <= params.amplitude);
        }
    }
}

#[test]
fn parameters_are_the_same_on_every_call() {
    for seed in seeds().into_iter().take(200) {
        let generator = SquiggleGenerator::new(seed);
        assert_eq!(generator.seed(), seed);
        assert_eq!(generator.parameters(), generator.parameters());
        assert_eq!(generator.parameters(), SquiggleGenerator::new(seed).parameters());
        assert_eq!(generator.generate_svg(), generator.generate_svg());
        assert_eq!(generator.generate_svg(), SquiggleGenerator::render(&generator.parameters()));
    }
}

#[test]
fn well_formedness_is_checked_field_by_field() {
    let good = SquiggleGenerator::new([0; 32]).parameters();
    assert!(good.is_well_formed());
    let mut bad = good.clone();
    bad.stroke_width = 9;
    assert!(!bad.is_well_formed());
    bad.stroke_width = 81;
    assert!(!bad.is_well_formed());
    let mut bad = good.clone();
    bad.gradient_type = 4;
    assert!(!bad.is_well_formed());
    let mut bad = good.clone();
    bad.period = 19;
    assert!(!bad.is_well_formed());
    bad.period = 101;
    assert!(!bad.is_well_formed());
    let mut bad = good.clone();
    bad.amplitude = 99;
    assert!(!bad.is_well_formed());
    bad.amplitude = 601;
    assert!(!bad.is_well_formed());
    let mut bad = good.clone();
    bad.x_offsets[2] = 901;
    assert!(!bad.is_well_formed());
    bad.x_offsets[2] = -1;
    assert!(!bad.is_well_formed());
    let mut bad = good.clone();
    bad.y_coordinates[4] = 1001;
    assert!(!bad.is_well_formed());
    bad.y_coordinates[4] = -1;
    assert!(!bad.is_well_formed());
    let mut bad = good.clone();
    bad.y_coordinates.push(500);
    assert!(!bad.is_well_formed());
    let mut bad = good.clone();
    bad.x_offsets.truncate(3);
    bad.y_coordinates.truncate(4);
    assert!(!bad.is_well_formed());
    let mut bad = good.clone();
    bad.x_offsets = vec![10; 16];
    bad.y_coordinates = vec![10; 17];
    assert!(!bad.is_well_formed());
    bad.x_offsets = vec![10; 15];
    bad.y_coordinates = vec![10; 16];
    assert!(bad.is_well_formed());
}
