use squiggle::generator::SquiggleParameters;
use squiggle::svg::BACKGROUND_COLOR;
use squiggle::text::push_decimal;
use squiggle::SquiggleGenerator;

#[test]
fn decimal_numbers() {
    for (n, text) in [
        (0u32, "0"),
        (7, "7"),
        (9, "9"),
        (10, "10"),
        (99, "99"),
        (100, "100"),
        (950, "950"),
        (1000, "1000"),
        (4_294_967_295, "4294967295"),
    ] {
        let mut out = String::from("x=");
        push_decimal(&mut out, n);
        assert_eq!(out, format!("x={}", text));
    }
}

#[test]
fn background_is_dark_grey() {
    assert_eq!(BACKGROUND_COLOR, "#1a1a1a");
}

#[test]
fn picture_of_the_zero_seed() {
    assert_eq!(
        SquiggleGenerator::new([0; 32]).generate_svg(),
        "<svg xmlns=\"http://www.w3.org/2000/svg\" width=\"1000\" height=\"1000\" viewBox=\"0 0 1000 1000\">\
         <defs><linearGradient id=\"stroke\" x1=\"0\" y1=\"0\" x2=\"1\" y2=\"0\">\
         <stop offset=\"0\" stop-color=\"#ff0080\"/><stop offset=\"1\" stop-color=\"#7928ca\"/>\
         </linearGradient></defs>\
         <rect width=\"1000\" height=\"1000\" fill=\"#1a1a1a\"/>\
         <polyline fill=\"none\" stroke=\"url(#stroke)\" stroke-linecap=\"round\" stroke-linejoin=\"round\" \
         stroke-width=\"10\" points=\"50,500 265,500 480,500 695,500 910,500\"/></svg>"
    );
}

#[test]
fn picture_of_the_all_ones_seed() {
    assert_eq!(
        SquiggleGenerator::new([0xff; 32]).generate_svg(),
        "<svg xmlns=\"http://www.w3.org/2000/svg\" width=\"1000\" height=\"1000\" viewBox=\"0 0 1000 1000\">\
         <defs><linearGradient id=\"stroke\" x1=\"0\" y1=\"0\" x2=\"1\" y2=\"0\">\
         <stop offset=\"0\" stop-color=\"#38ef7d\"/><stop offset=\"1\" stop-color=\"#11998e\"/>\
         </linearGradient></defs>\
         <rect width=\"1000\" height=\"1000\" fill=\"#1a1a1a\"/>\
         <polyline fill=\"none\" stroke=\"url(#stroke)\" stroke-linecap=\"round\" stroke-linejoin=\"round\" \
         stroke-width=\"52\" points=\"50,0 194,1000 338,0 482,1000 626,0 770,1000 914,0 950,1000\"/></svg>"
    );
}

#[test]
fn picture_of_given_parameters() {
    let params = SquiggleParameters {
        x_offsets: vec![0, 1, 450, 900],
        y_coordinates: vec![0, 1000, 9, 10, 500],
        stroke_width: 80,
        period: 20,
        amplitude: 600,
        gradient_type: 2,
    };
    assert!(params.is_well_formed());
    let svg = SquiggleGenerator::render(&params);
    assert!(svg.contains("points=\"50,0 50,1000 51,9 500,10 950,500\""));
    assert!(svg.contains("stroke-width=\"80\""));
    assert!(svg.contains("<stop offset=\"0\" stop-color=\"#ff4d4d\"/><stop offset=\"1\" stop-color=\"#f9cb28\"/>"));
    assert!(svg.contains("stroke-linecap=\"round\""));
    assert!(svg.contains("stroke-linejoin=\"round\""));
    assert!(svg.starts_with("<svg xmlns=\"http://www.w3.org/2000/svg\" width=\"1000\" height=\"1000\""));
    assert!(svg.ends_with("</svg>"));
    assert_eq!(svg.matches("<polyline").count(), 1);
    assert_eq!(svg.matches("<linearGradient").count(), 1);
}

#[test]
fn each_gradient_has_its_own_colours() {
    let mut params = SquiggleGenerator::new([0; 32]).parameters();
    let mut pictures = Vec::new();
    for (gradient, colour) in [(0u8, "#ff0080"), (1, "#00dfd8"), (2, "#ff4d4d"), (3, "#38ef7d")] {
        params.gradient_type = gradient;
        let svg = SquiggleGenerator::render(&params);
        assert!(svg.contains(colour));
        pictures.push(svg);
    }
    for i in 0..4 {
        for j in 0..i {
            assert_ne!(pictures[i], pictures[j]);
        }
    }
}
