use iced_button::animation::{PROGRESS_ONE, PRESS_TRANSLATE};
use iced_button::button::{
    background_look, styled, subtle_look, swatch_look, text_look, Backdrop, Look, Pair, Swatch,
    blend_backgrounds, default_padding, fills_quad, Appearance, Background, BackgroundBlend,
    Border, Button, Catalog, Color, ColorStop, Gradient, Input, Interaction, Length, Linear,
    OnPress, Padding, Radius, Shadow, State, Status, Style, Vector,
};

const MILLIS: u64 = 1_000_000;

fn bits(value: f32) -> u32 {
    value.to_bits()
}

fn color(r: f32, g: f32, b: f32, a: f32) -> Color {
    Color { r: bits(r), g: bits(g), b: bits(b), a: bits(a) }
}

fn plain_style() -> Style {
    Style {
        background: None,
        text_color: color(0.0, 0.0, 0.0, 1.0),
        border: Border {
            color: color(0.0, 0.0, 0.0, 0.0),
            width: bits(0.0),
            radius: Radius {
                top_left: bits(0.0),
                top_right: bits(0.0),
                bottom_right: bits(0.0),
                bottom_left: bits(0.0),
            },
        },
        shadow: Shadow {
            color: color(0.0, 0.0, 0.0, 0.0),
            offset: Vector { x: bits(0.0), y: bits(0.0) },
            blur_radius: bits(0.0),
        },
        snap: true,
    }
}

struct Plain;

struct StyleClass(Box<dyn Fn(&Plain, Status) -> Style>);

impl<S: Fn(&Plain, Status) -> Style + 'static> From<S> for StyleClass {
    fn from(style: S) -> Self {
        StyleClass(Box::new(style))
    }
}

impl Catalog for Plain {
    type Class = StyleClass;

    fn default() -> StyleClass {
        StyleClass(Box::new(|_, _| plain_style()))
    }

    fn style(&self, class: &StyleClass, status: Status) -> Style {
        (class.0)(self, status)
    }
}

type Plainly = Button<&'static str, u32, Plain, fn() -> u32>;

fn enabled() -> Plainly {
    Plainly::new("Press me!").on_press(7)
}

#[test]
fn a_new_button_fits_its_content_and_is_disabled() {
    let button = Plainly::new("Press me!");
    assert!(!button.is_enabled());
    assert_eq!(button.size(), (Length::Fit, Length::Fit));
    assert_eq!(button.padding_of(), default_padding());
    assert_eq!(
        default_padding(),
        Padding { top: bits(5.0), right: bits(10.0), bottom: bits(5.0), left: bits(10.0) }
    );
    assert!(!button.clips());
    assert_eq!(*button.content(), "Press me!");
    assert_eq!(button.message(), None);
    assert_eq!(Plain.style(button.class_of(), Status::Active), plain_style());
}

#[test]
fn builders_set_one_property_each() {
    let button = Plainly::new("x")
        .width(Length::Fill)
        .height(Length::Fixed(bits(40.0)))
        .padding(Padding { top: 1, right: 2, bottom: 3, left: 4 })
        .clip(true)
        .on_press(3);
    assert_eq!(button.size(), (Length::Fill, Length::Fixed(bits(40.0))));
    assert_eq!(button.padding_of(), Padding { top: 1, right: 2, bottom: 3, left: 4 });
    assert!(button.clips());
    assert!(button.is_enabled());
    assert_eq!(button.message(), Some(3));

    let wider = button.width(Length::FillPortion(2));
    assert_eq!(wider.size(), (Length::FillPortion(2), Length::Fixed(bits(40.0))));
    assert!(wider.clips());
}

#[test]
fn on_press_maybe_enables_or_disables() {
    assert_eq!(enabled().on_press_maybe(Some(9)).message(), Some(9));
    assert!(!enabled().on_press_maybe(None).is_enabled());
    assert_eq!(enabled().on_press_maybe(None).message(), None);
}

#[test]
fn on_press_with_calls_the_closure_each_time() {
    let count = std::cell::Cell::new(0u32);
    let button = Plainly::new("x").on_press_with(|| {
        count.set(count.get() + 1);
        count.get() * 10
    });
    assert_eq!(count.get(), 0);
    assert_eq!(button.message(), Some(10));
    assert_eq!(button.message(), Some(20));
}

#[test]
fn on_press_produces_clones_or_calls() {
    let direct: OnPress<String, fn() -> String> = OnPress::Direct(String::from("go"));
    assert_eq!(direct.get(), "go");
    let closure: OnPress<String, _> = OnPress::Closure(|| String::from("made"));
    assert_eq!(closure.get(), "made");
}

#[test]
fn style_and_class_replace_the_class() {
    let green = color(0.0, 1.0, 0.0, 1.0);
    let styled = enabled().style(move |_: &Plain, _: Status| Style {
        text_color: green,
        ..plain_style()
    });
    assert_eq!(Plain.style(styled.class_of(), Status::Hovered).text_color, green);

    let classed = enabled().class(StyleClass(Box::new(|_, status| Style {
        snap: status == Status::Pressed,
        ..plain_style()
    })));
    assert!(Plain.style(classed.class_of(), Status::Pressed).snap);
    assert!(!Plain.style(classed.class_of(), Status::Active).snap);
}

#[test]
fn a_click_publishes_once() {
    let button = enabled();
    let mut state = State::new(0);

    let pressed = button.update(&mut state, Input::LeftPressed, false, true, MILLIS).unwrap();
    assert!(pressed.capture);
    assert!(!pressed.publish);
    assert_eq!(pressed.status, Status::Pressed);
    assert!(state.is_pressed);

    let released = button.update(&mut state, Input::LeftReleased, false, true, 2 * MILLIS).unwrap();
    assert!(released.capture);
    assert!(released.publish);
    assert_eq!(released.status, Status::Hovered);
    assert!(!state.is_pressed);

    let again = button.update(&mut state, Input::LeftReleased, false, true, 3 * MILLIS).unwrap();
    assert!(!again.capture);
    assert!(!again.publish);
}

#[test]
fn touches_work_like_clicks() {
    let button = enabled();
    let mut state = State::new(0);
    assert!(button.update(&mut state, Input::FingerPressed, false, true, 1).unwrap().capture);
    let lifted = button.update(&mut state, Input::FingerLifted, false, true, 2).unwrap();
    assert!(lifted.publish);

    assert!(button.update(&mut state, Input::FingerPressed, false, true, 3).unwrap().capture);
    let lost = button.update(&mut state, Input::FingerLost, false, true, 4).unwrap();
    assert!(!lost.capture && !lost.publish);
    assert!(!state.is_pressed);
    let lifted = button.update(&mut state, Input::FingerLifted, false, true, 5).unwrap();
    assert!(!lifted.publish);
}

#[test]
fn releasing_elsewhere_cancels_the_click() {
    let button = enabled();
    let mut state = State::new(0);
    button.update(&mut state, Input::LeftPressed, false, true, 1);
    let released = button.update(&mut state, Input::LeftReleased, false, false, 2).unwrap();
    assert!(released.capture);
    assert!(!released.publish);
    assert_eq!(released.status, Status::Active);
    assert!(!state.is_pressed);
}

#[test]
fn pressing_elsewhere_does_nothing() {
    let button = enabled();
    let mut state = State::new(0);
    let reaction = button.update(&mut state, Input::LeftPressed, false, false, 1).unwrap();
    assert!(!reaction.capture);
    assert!(!state.is_pressed);
    assert_eq!(reaction.status, Status::Active);
}

#[test]
fn a_disabled_button_ignores_input() {
    let button = Plainly::new("off");
    let mut state = State::new(0);
    for input in [Input::LeftPressed, Input::LeftReleased, Input::FingerPressed, Input::FingerLifted] {
        let reaction = button.update(&mut state, input, false, true, 1).unwrap();
        assert!(!reaction.capture && !reaction.publish);
        assert_eq!(reaction.status, Status::Disabled);
    }
    assert!(!state.is_pressed);
    assert_eq!(button.mouse_interaction(true), Interaction::Unset);
    assert_eq!(button.appearance(&state), Appearance::Disabled);
}

#[test]
fn an_event_captured_by_the_content_is_left_alone() {
    let button = enabled();
    let mut state = State::new(0);
    assert_eq!(button.update(&mut state, Input::LeftPressed, true, true, 1), None);
    assert!(!state.is_pressed);
    assert!(!state.initialized);
    assert_eq!(state.now, 0);
}

#[test]
fn hovering_animates_and_asks_for_redraws() {
    let button = enabled();
    let mut state = State::new(0);

    let first = button.update(&mut state, Input::Other, false, true, 0).unwrap();
    assert_eq!(first.status, Status::Hovered);
    assert!(state.initialized);
    assert!(state.hovered.value());
    assert!(!first.redraw);

    let away = button.update(&mut state, Input::Other, false, false, 10 * MILLIS).unwrap();
    assert_eq!(away.status, Status::Active);
    assert!(!state.hovered.value());
    assert!(away.redraw);
    assert_eq!(state.now, 10 * MILLIS);

    let later = button.update(&mut state, Input::Other, false, false, 200 * MILLIS).unwrap();
    assert!(!later.redraw);
    assert_eq!(button.appearance(&state), Appearance::Blended {
        hover: state.hovered.progress(200 * MILLIS),
        press: 0,
    });
}

#[test]
fn a_press_moves_the_content() {
    let button = enabled();
    let mut state = State::new(0);
    button.update(&mut state, Input::Other, false, true, 0);
    button.update(&mut state, Input::LeftPressed, false, true, MILLIS);
    button.update(&mut state, Input::Other, false, true, 500 * MILLIS);
    match button.appearance(&state) {
        Appearance::Blended { press, hover } => {
            assert!(press > PROGRESS_ONE / 2);
            assert_eq!(hover, PROGRESS_ONE);
        }
        Appearance::Disabled => panic!("an enabled button blends its styles"),
    }
    assert_eq!(f32::from_bits(PRESS_TRANSLATE), 1.0);
}

#[test]
fn the_pointer_shows_over_an_enabled_button() {
    assert_eq!(enabled().mouse_interaction(true), Interaction::Pointer);
    assert_eq!(enabled().mouse_interaction(false), Interaction::Unset);
}

#[test]
fn with_background_sets_only_the_background() {
    let red = Background::Color(color(1.0, 0.0, 0.0, 1.0));
    let style = plain_style().with_background(red);
    assert_eq!(style.background, Some(red));
    assert_eq!(style.text_color, plain_style().text_color);
    assert_eq!(style.border, plain_style().border);
}

#[test]
fn quads_are_filled_only_when_something_shows() {
    assert!(!fills_quad(&plain_style()));
    let mut bordered = plain_style();
    bordered.border.width = bits(1.0);
    assert!(fills_quad(&bordered));
    bordered.border.width = bits(-1.0);
    assert!(!fills_quad(&bordered));
    bordered.border.width = bits(f32::NAN);
    assert!(!fills_quad(&bordered));
    let mut shadowed = plain_style();
    shadowed.shadow.color = color(0.0, 0.0, 0.0, 0.2);
    assert!(fills_quad(&shadowed));
    assert!(fills_quad(&plain_style().with_background(Background::Color(color(0.0, 0.0, 0.0, 0.0)))));
}

#[test]
fn backgrounds_blend_as_colors_when_they_can() {
    let black = color(0.0, 0.0, 0.0, 1.0);
    let white = color(1.0, 1.0, 1.0, 1.0);
    assert_eq!(
        blend_backgrounds(Some(Background::Color(black)), Some(Background::Color(white))),
        BackgroundBlend::Mix(black, white)
    );
    assert_eq!(
        blend_backgrounds(None, Some(Background::Color(white))),
        BackgroundBlend::Mix(color(1.0, 1.0, 1.0, 0.0), white)
    );
    assert_eq!(
        blend_backgrounds(Some(Background::Color(black)), None),
        BackgroundBlend::Mix(black, color(0.0, 0.0, 0.0, 0.0))
    );
    assert_eq!(blend_backgrounds(None, None), BackgroundBlend::Switch(None, None));
    let gradient = Background::Gradient(Gradient::Linear(Linear {
        angle: bits(0.5),
        stops: [Some(ColorStop { offset: bits(0.0), color: black }), None, None, None, None, None, None, None],
    }));
    assert_eq!(
        blend_backgrounds(Some(gradient), Some(Background::Color(white))),
        BackgroundBlend::Switch(Some(gradient), Some(Background::Color(white)))
    );
}

fn pair(shade: f32) -> Pair {
    Pair { color: color(shade, shade, shade, 1.0), text: color(1.0 - shade, 0.0, 0.0, 1.0) }
}

fn rounded_by_two() -> Radius {
    Radius { top_left: bits(2.0), top_right: bits(2.0), bottom_right: bits(2.0), bottom_left: bits(2.0) }
}

#[test]
fn the_default_style_is_plain_black_text() {
    let style = Style::default();
    assert_eq!(style.background, None);
    assert_eq!(style.text_color, color(0.0, 0.0, 0.0, 1.0));
    assert_eq!(style.border.width, bits(0.0));
    assert!(style.snap);
}

#[test]
fn styled_paints_with_the_pair() {
    let style = styled(pair(0.3));
    assert_eq!(style.background, Some(Background::Color(pair(0.3).color)));
    assert_eq!(style.text_color, pair(0.3).text);
    assert_eq!(style.border.radius, rounded_by_two());
}

#[test]
fn swatch_looks_follow_the_status() {
    let swatch = Swatch { base: pair(0.2), strong: pair(0.6) };
    assert_eq!(swatch_look(swatch, Status::Active), Look::Plain(styled(pair(0.2))));
    assert_eq!(swatch_look(swatch, Status::Pressed), Look::Plain(styled(pair(0.2))));
    assert_eq!(
        swatch_look(swatch, Status::Hovered),
        Look::Plain(styled(pair(0.2)).with_background(Background::Color(pair(0.6).color)))
    );
    assert_eq!(swatch_look(swatch, Status::Disabled), Look::Faded(styled(pair(0.2)), bits(0.5)));
}

#[test]
fn backdrop_looks_follow_the_status() {
    let backdrop = Backdrop {
        base: pair(0.1),
        weakest: pair(0.2),
        weaker: pair(0.3),
        weak: pair(0.4),
        strong: pair(0.5),
    };
    let shade = |p: Pair| Background::Color(p.color);
    assert_eq!(background_look(backdrop, Status::Active), Look::Plain(styled(pair(0.1))));
    assert_eq!(
        background_look(backdrop, Status::Pressed),
        Look::Plain(styled(pair(0.1)).with_background(shade(pair(0.5))))
    );
    assert_eq!(
        background_look(backdrop, Status::Hovered),
        Look::Plain(styled(pair(0.1)).with_background(shade(pair(0.4))))
    );
    assert_eq!(background_look(backdrop, Status::Disabled), Look::Faded(styled(pair(0.1)), bits(0.5)));
    assert_eq!(subtle_look(backdrop, Status::Active), Look::Plain(styled(pair(0.2))));
    assert_eq!(
        subtle_look(backdrop, Status::Hovered),
        Look::Plain(styled(pair(0.2)).with_background(shade(pair(0.3))))
    );
    assert_eq!(
        subtle_look(backdrop, Status::Pressed),
        Look::Plain(styled(pair(0.2)).with_background(shade(pair(0.5))))
    );

    let text_base = Style { text_color: pair(0.1).text, ..Style::default() };
    assert_eq!(text_look(backdrop, Status::Active), Look::Plain(text_base));
    assert_eq!(text_look(backdrop, Status::Hovered), Look::Faded(text_base, bits(0.8)));
    assert_eq!(text_look(backdrop, Status::Disabled), Look::Faded(text_base, bits(0.5)));
}

#[test]
fn float_fields_compare_as_floats() {
    assert_eq!(color(0.0, 0.0, 0.0, 1.0), color(-0.0, 0.0, -0.0, 1.0));
    assert_ne!(color(f32::NAN, 0.0, 0.0, 1.0), color(f32::NAN, 0.0, 0.0, 1.0));
    assert_eq!(Length::Fixed(bits(0.0)), Length::Fixed(bits(-0.0)));
    assert_ne!(Length::Fixed(bits(f32::NAN)), Length::Fixed(bits(f32::NAN)));
    assert_ne!(Length::Fill, Length::Shrink);
    assert_eq!(Length::FillPortion(3), Length::FillPortion(3));
    let mut negative = plain_style();
    negative.border.width = bits(-0.0);
    assert_eq!(negative, plain_style());
    negative.shadow.blur_radius = bits(f32::NAN);
    assert_ne!(negative, negative);
}
