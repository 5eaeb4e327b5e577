use media_monitor::color::average_color;
use media_monitor::color::classify_color;
use media_monitor::color::filter_allowed_pixels;
use media_monitor::color::is_allowed;
use media_monitor::color::is_black;
use media_monitor::color::is_white;
use media_monitor::color::reference_color;
use media_monitor::events::NamedSwatch;
use media_monitor::events::Rgb;

#[test]
fn near_black_boundary_is_exact() {
    // Lightness is (max + min) / 510; the near-black cutoff is 2/100.
    // max + min == 10 gives 10/510 < 0.02 -- wait, 10/510 = 0.0196 <= 0.02: excluded.
    assert!(is_black(&Rgb { r: 10, g: 0, b: 0 }));
    assert!(is_black(&Rgb { r: 5, g: 5, b: 5 }));
    // max + min == 11 gives 11/510 > 2/100: kept.
    assert!(!is_black(&Rgb { r: 11, g: 0, b: 0 }));
    assert!(!is_black(&Rgb { r: 6, g: 5, b: 5 }));
}

#[test]
fn near_white_boundary_is_exact() {
    // The near-white cutoff is 90/100: max + min >= 459.
    assert!(is_white(&Rgb { r: 255, g: 204, b: 220 }));
    assert!(is_white(&Rgb { r: 230, g: 229, b: 230 }));
    assert!(!is_white(&Rgb { r: 255, g: 203, b: 220 }));
    assert!(!is_white(&Rgb { r: 229, g: 229, b: 229 }));
}

#[test]
fn filter_excludes_extreme_lightness_and_keeps_order() {
    let near_black = Rgb { r: 5, g: 5, b: 5 };
    let near_white = Rgb { r: 250, g: 250, b: 250 };
    let mid_a = Rgb { r: 100, g: 50, b: 50 };
    let mid_b = Rgb { r: 10, g: 200, b: 30 };
    assert!(!is_allowed(&near_black));
    assert!(!is_allowed(&near_white));
    assert!(is_allowed(&mid_a));
    assert!(is_allowed(&mid_b));
    let pixels = vec![near_black, mid_a, near_white, mid_b, near_black];
    let kept = filter_allowed_pixels(&pixels);
    assert_eq!(kept, vec![mid_a, mid_b]);
}

#[test]
fn average_is_the_channelwise_mean() {
    let pixels = vec![Rgb { r: 10, g: 20, b: 30 }, Rgb { r: 20, g: 40, b: 60 }];
    assert_eq!(average_color(&pixels), Some(Rgb { r: 15, g: 30, b: 45 }));
    let empty: Vec<Rgb> = Vec::new();
    assert_eq!(average_color(&empty), None);
    // Integer division truncates: (10 + 11) / 2 == 10.
    let odd = vec![Rgb { r: 10, g: 0, b: 255 }, Rgb { r: 11, g: 1, b: 254 }];
    assert_eq!(average_color(&odd), Some(Rgb { r: 10, g: 0, b: 254 }));
}

#[test]
fn classification_is_exact_on_reference_colors() {
    for swatch in [
        NamedSwatch::Slate,
        NamedSwatch::Red,
        NamedSwatch::Orange,
        NamedSwatch::Green,
        NamedSwatch::Blue,
        NamedSwatch::Rose,
    ] {
        let c = reference_color(swatch);
        assert_eq!(classify_color(&c), swatch);
    }
}

#[test]
fn classification_picks_the_nearest_swatch() {
    // A slightly perturbed red still classifies as red.
    assert_eq!(classify_color(&Rgb { r: 230, g: 80, b: 60 }), NamedSwatch::Red);
    // A strong pure blue lands on the blue swatch.
    assert_eq!(classify_color(&Rgb { r: 40, g: 120, b: 255 }), NamedSwatch::Blue);
}
