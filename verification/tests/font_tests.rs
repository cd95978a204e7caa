use iced_button::font::{Family, FamilyNames, Font, Stretch, Style, Tracking, Weight};
use std::collections::hash_map::DefaultHasher;
use std::hash::{Hash, Hasher};

fn hash(font: Font) -> u64 {
    let mut hasher = DefaultHasher::new();
    font.hash(&mut hasher);
    hasher.finish()
}

fn tracking(amount: f32) -> Tracking {
    Tracking(amount.to_bits())
}

#[test]
fn a_font_defaults_to_the_face_s_own_tracking() {
    assert!(Font::default().tracking.is_none());
    assert!(Font::monospace().tracking.is_none());
    assert!(Font::new("Archivo").tracking.is_none());
}

#[test]
fn tracking_takes_part_in_equality_and_hashing() {
    let plain = Font::new("JetBrains Mono");
    let with_tracking = plain.tracking(tracking(0.06));

    assert_ne!(plain, with_tracking);
    assert_ne!(hash(plain), hash(with_tracking));
    assert_eq!(with_tracking, Font::new("JetBrains Mono").tracking(tracking(0.06)));
    assert_eq!(
        hash(with_tracking),
        hash(Font::new("JetBrains Mono").tracking(tracking(0.06)))
    );
}

#[test]
fn equality_and_hashing_agree_on_the_awkward_values() {
    let zero = Font::default().tracking(tracking(0.0));
    let negative_zero = Font::default().tracking(tracking(-0.0));
    assert_eq!(zero, negative_zero);
    assert_eq!(hash(zero), hash(negative_zero));

    let nan = Font::default().tracking(tracking(f32::NAN));
    let other_nan = Font::default().tracking(tracking(-f32::NAN));
    assert_eq!(nan, other_nan);
    assert_eq!(hash(nan), hash(other_nan));
}

#[test]
fn only_a_real_tracking_counts_as_set() {
    assert!(Tracking::none().is_none());
    assert!(tracking(0.0).is_none());
    assert!(tracking(-0.0).is_none());
    assert!(!tracking(0.06).is_none());
}

#[test]
fn nan_tracking_is_not_none_and_hashes_canonically() {
    let nan = tracking(f32::NAN);
    assert!(!nan.is_none());
    assert!(nan.is_nan());
    assert_eq!(nan.canonical(), 0x7fc0_0000);
    assert_eq!(tracking(-f32::NAN).canonical(), 0x7fc0_0000);
    assert_eq!(tracking(-0.0).canonical(), 0);
    assert_eq!(tracking(0.06).canonical(), 0.06f32.to_bits());
}

#[test]
fn tracking_equality_follows_floats_except_for_nan() {
    assert_eq!(tracking(1.5), tracking(1.5));
    assert_ne!(tracking(1.5), tracking(-1.5));
    assert_ne!(tracking(f32::NAN), tracking(0.0));
    assert_ne!(tracking(0.0), tracking(f32::NAN));
    assert_eq!(tracking(f32::INFINITY), tracking(f32::INFINITY));
    assert_ne!(tracking(f32::INFINITY), tracking(f32::NEG_INFINITY));
}

#[test]
fn font_setters_change_one_attribute_each() {
    let font = Font::new("Inter")
        .weight(Weight::Bold)
        .stretch(Stretch::Condensed)
        .style(Style::Italic)
        .tracking(tracking(0.1));
    assert_eq!(font.family, Family::Name("Inter"));
    assert_eq!(font.weight, Weight::Bold);
    assert_eq!(font.stretch, Stretch::Condensed);
    assert_eq!(font.style, Style::Italic);
    assert_eq!(font.tracking.0, 0.1f32.to_bits());

    let reweighted = font.weight(Weight::Light);
    assert_eq!(reweighted.weight, Weight::Light);
    assert_eq!(reweighted.stretch, Stretch::Condensed);
    assert_eq!(reweighted.style, Style::Italic);
}

#[test]
fn fonts_come_from_names_and_families() {
    assert_eq!(Font::from("Fira Sans"), Font::new("Fira Sans"));
    assert_eq!(Font::from(Family::Serif), Font::with_family(Family::Serif));
    assert_eq!(Font::with_family(Family::Monospace), Font::monospace());
    assert_eq!(Font::default().family, Family::SansSerif);
    assert_eq!(Font::default().weight, Weight::Normal);
    assert_eq!(Font::default().stretch, Stretch::Normal);
    assert_eq!(Font::default().style, Style::Normal);
    assert_eq!(Family::default(), Family::SansSerif);
    assert_eq!(Weight::default(), Weight::Normal);
    assert_eq!(Stretch::default(), Stretch::Normal);
    assert_eq!(Style::default(), Style::Normal);
}

#[test]
fn families_display_their_names() {
    assert_eq!(Family::Name("Comic Neue").to_string(), "Comic Neue");
    assert_eq!(Family::Serif.to_string(), "Serif");
    assert_eq!(Family::SansSerif.to_string(), "Sans-serif");
    assert_eq!(Family::Cursive.to_string(), "Cursive");
    assert_eq!(Family::Fantasy.to_string(), "Fantasy");
    assert_eq!(Family::Monospace.to_string(), "Monospace");
}

#[test]
fn family_names_are_interned_once() {
    let mut names = FamilyNames::new();
    assert!(!names.contains("Noto Serif"));

    let owned = String::from("Noto Serif");
    let first = Family::name(&mut names, &owned);
    let second = Family::name(&mut names, "Noto Serif");
    assert!(names.contains("Noto Serif"));

    match (first, second) {
        (Family::Name(a), Family::Name(b)) => {
            assert_eq!(a, "Noto Serif");
            assert!(std::ptr::eq(a, b));
        }
        _ => panic!("a named family is expected"),
    }
    assert!(!names.contains("Noto Sans"));
}

#[test]
fn the_standalone_families_are_listed() {
    assert_eq!(
        Family::variants(),
        [Family::Serif, Family::SansSerif, Family::Cursive, Family::Fantasy, Family::Monospace]
    );
}

#[test]
fn the_default_tracking_is_none() {
    assert!(Tracking::default().is_none());
    assert_eq!(Tracking::default(), Tracking::none());
}

#[test]
fn families_compare_by_text() {
    let leaked: &'static str = String::from("Inter").leak();
    assert_eq!(Family::Name(leaked), Family::Name("Inter"));
    assert_eq!(Font::new(leaked), Font::new("Inter"));
    assert_ne!(Family::Name("Inter"), Family::Name("Inter Display"));
    assert_ne!(Family::Name("Serif"), Family::Serif);
    assert_ne!(Font::new("Inter"), Font::new("Inter").weight(Weight::Bold));
}
