//! Buttons allow your users to perform actions by pressing them.
//!
//! This module holds what a button decides: the builder that configures it,
//! how it reacts to pointer and touch input (when it is pressed, when it
//! publishes its message, which events it captures), the status it shows,
//! the pointer it asks for, and how its background changes between two
//! styles. Every `f32` of a style or a size is carried as its IEEE-754 bit
//! pattern, the value that `f32::to_bits` returns.
use vstd::prelude::*;
use vstd::std_specs::cmp::PartialEqSpecImpl;
use vstd::std_specs::convert::FromSpec;

use crate::font::{float_bits_eq, float_eq_bits};

use crate::animation::{control_animation, ControlAnimation};

verus! {

/// The possible status of a [`Button`].
#[derive(Debug, Clone, Copy, PartialEq, Eq, Structural)]
pub enum Status {
    /// The [`Button`] can be pressed.
    Active,
    /// The [`Button`] can be pressed and it is being hovered.
    Hovered,
    /// The [`Button`] is being pressed.
    Pressed,
    /// The [`Button`] cannot be pressed.
    Disabled,
}

/// The strategy used to fill space in a specific dimension.
#[derive(Debug, Clone, Copy)]
pub enum Length {
    /// Fill all the remaining space.
    Fill,
    /// Fill a portion of the remaining space relative to other elements.
    FillPortion(u16),
    /// Fill the least amount of space.
    Shrink,
    /// Fit the contents.
    Fit,
    /// Fill a fixed amount of space (bits of an `f32` number of pixels).
    Fixed(u32),
}

/// An amount of space to pad for each side of a box (bits of `f32` pixels).
#[derive(Debug, Clone, Copy)]
pub struct Padding {
    /// Top padding.
    pub top: u32,
    /// Right padding.
    pub right: u32,
    /// Bottom padding.
    pub bottom: u32,
    /// Left padding.
    pub left: u32,
}

/// Bit pattern of `5.0f32`.
pub const FIVE_BITS: u32 = 0x40a0_0000u32;

/// Bit pattern of `10.0f32`.
pub const TEN_BITS: u32 = 0x4120_0000u32;

/// The default [`Padding`] of a [`Button`]: 5 pixels above and below, 10 on each side.
pub fn default_padding() -> (padding: Padding)
    ensures
        padding == (Padding { top: FIVE_BITS, right: TEN_BITS, bottom: FIVE_BITS, left: TEN_BITS }),
{
    Padding { top: FIVE_BITS, right: TEN_BITS, bottom: FIVE_BITS, left: TEN_BITS }
}

/// A color in the sRGB color space (bits of `f32` channels in `0.0..=1.0`).
#[derive(Debug, Clone, Copy)]
pub struct Color {
    /// Red component.
    pub r: u32,
    /// Green component.
    pub g: u32,
    /// Blue component.
    pub b: u32,
    /// Transparency.
    pub a: u32,
}

impl Color {
    /// The same color, fully transparent (alpha `0.0`).
    pub fn transparent(self) -> (c: Color)
        ensures
            c == (Color { a: 0, ..self }),
    {
        Color { a: 0, ..self }
    }
}

/// A point where a gradient has a given color (offset: bits of an `f32` in `0.0..=1.0`).
#[derive(Debug, Clone, Copy)]
pub struct ColorStop {
    /// Offset along the gradient vector.
    pub offset: u32,
    /// The color of the gradient at the specified offset.
    pub color: Color,
}

/// A linear gradient (angle: bits of an `f32` number of radians).
#[derive(Debug, Clone, Copy)]
pub struct Linear {
    /// How the gradient is oriented.
    pub angle: u32,
    /// Its color stops, at most eight.
    pub stops: [Option<ColorStop>; 8],
}

/// A fill which transitions colors progressively.
#[derive(Debug, Clone, Copy)]
pub enum Gradient {
    /// A linear gradient.
    Linear(Linear),
}

/// The background of some element.
#[derive(Debug, Clone, Copy)]
pub enum Background {
    /// A solid color.
    Color(Color),
    /// Linearly interpolate between several colors.
    Gradient(Gradient),
}

/// The radius of each corner of a rectangle (bits of `f32` pixels).
#[derive(Debug, Clone, Copy)]
pub struct Radius {
    /// Top left radius.
    pub top_left: u32,
    /// Top right radius.
    pub top_right: u32,
    /// Bottom right radius.
    pub bottom_right: u32,
    /// Bottom left radius.
    pub bottom_left: u32,
}

/// A border (width: bits of `f32` pixels).
#[derive(Debug, Clone, Copy)]
pub struct Border {
    /// The color of the border.
    pub color: Color,
    /// The width of the border.
    pub width: u32,
    /// The radius of the border.
    pub radius: Radius,
}

/// A two-dimensional vector (bits of `f32` pixels).
#[derive(Debug, Clone, Copy)]
pub struct Vector {
    /// The X component.
    pub x: u32,
    /// The Y component.
    pub y: u32,
}

/// A shadow (blur radius: bits of `f32` pixels).
#[derive(Debug, Clone, Copy)]
pub struct Shadow {
    /// The color of the shadow.
    pub color: Color,
    /// The offset of the shadow.
    pub offset: Vector,
    /// The blur radius of the shadow.
    pub blur_radius: u32,
}

/// The style of a button.
///
/// If not specified with [`Button::style`] the theme will provide the style.
#[derive(Debug, Clone, Copy)]
pub struct Style {
    /// The [`Background`] of the button.
    pub background: Option<Background>,
    /// The text [`Color`] of the button.
    pub text_color: Color,
    /// The [`Border`] of the button.
    pub border: Border,
    /// The [`Shadow`] of the button.
    pub shadow: Shadow,
    /// Whether the button should be snapped to the pixel grid.
    pub snap: bool,
}

impl Style {
    /// Updates the [`Style`] with the given [`Background`].
    pub fn with_background(self, background: Background) -> (style: Style)
        ensures
            style == (Style { background: Some(background), ..self }),
    {
        Style { background: Some(background), ..self }
    }
}

// Equality of the types that carry `f32` values compares those values as
// floats do: `-0.0` equals `0.0`, and NaN equals nothing, itself included.

/// Equality of lengths: same strategy, and equal amounts.
pub open spec fn length_eq(a: Length, b: Length) -> bool {
    match (a, b) {
        (Length::Fill, Length::Fill) => true,
        (Length::FillPortion(x), Length::FillPortion(y)) => x == y,
        (Length::Shrink, Length::Shrink) => true,
        (Length::Fit, Length::Fit) => true,
        (Length::Fixed(x), Length::Fixed(y)) => float_eq_bits(x, y),
        _ => false,
    }
}

impl PartialEq for Length {
    fn eq(&self, other: &Self) -> (r: bool) {
        match (self, other) {
            (Length::Fill, Length::Fill) => true,
            (Length::FillPortion(x), Length::FillPortion(y)) => *x == *y,
            (Length::Shrink, Length::Shrink) => true,
            (Length::Fit, Length::Fit) => true,
            (Length::Fixed(x), Length::Fixed(y)) => float_bits_eq(*x, *y),
            _ => false,
        }
    }
}

impl PartialEqSpecImpl for Length {
    open spec fn obeys_eq_spec() -> bool {
        true
    }

    open spec fn eq_spec(&self, other: &Self) -> bool {
        length_eq(*self, *other)
    }
}

/// Equality of paddings: side by side.
pub open spec fn padding_eq(a: Padding, b: Padding) -> bool {
    float_eq_bits(a.top, b.top) && float_eq_bits(a.right, b.right) && float_eq_bits(a.bottom, b.bottom)
        && float_eq_bits(a.left, b.left)
}

impl PartialEq for Padding {
    fn eq(&self, other: &Self) -> (r: bool) {
        float_bits_eq(self.top, other.top) && float_bits_eq(self.right, other.right)
            && float_bits_eq(self.bottom, other.bottom) && float_bits_eq(self.left, other.left)
    }
}

impl PartialEqSpecImpl for Padding {
    open spec fn obeys_eq_spec() -> bool {
        true
    }

    open spec fn eq_spec(&self, other: &Self) -> bool {
        padding_eq(*self, *other)
    }
}

/// Equality of colors: channel by channel.
pub open spec fn color_eq(a: Color, b: Color) -> bool {
    float_eq_bits(a.r, b.r) && float_eq_bits(a.g, b.g) && float_eq_bits(a.b, b.b) && float_eq_bits(
        a.a,
        b.a,
    )
}

fn colors_equal(a: &Color, b: &Color) -> (r: bool)
    ensures
        r == color_eq(*a, *b),
{
    float_bits_eq(a.r, b.r) && float_bits_eq(a.g, b.g) && float_bits_eq(a.b, b.b) && float_bits_eq(
        a.a,
        b.a,
    )
}

impl PartialEq for Color {
    fn eq(&self, other: &Self) -> (r: bool) {
        colors_equal(self, other)
    }
}

impl PartialEqSpecImpl for Color {
    open spec fn obeys_eq_spec() -> bool {
        true
    }

    open spec fn eq_spec(&self, other: &Self) -> bool {
        color_eq(*self, *other)
    }
}

/// Equality of color stops: offset and color.
pub open spec fn color_stop_eq(a: ColorStop, b: ColorStop) -> bool {
    float_eq_bits(a.offset, b.offset) && color_eq(a.color, b.color)
}

fn color_stops_equal(a: &ColorStop, b: &ColorStop) -> (r: bool)
    ensures
        r == color_stop_eq(*a, *b),
{
    float_bits_eq(a.offset, b.offset) && colors_equal(&a.color, &b.color)
}

impl PartialEq for ColorStop {
    fn eq(&self, other: &Self) -> (r: bool) {
        color_stops_equal(self, other)
    }
}

impl PartialEqSpecImpl for ColorStop {
    open spec fn obeys_eq_spec() -> bool {
        true
    }

    open spec fn eq_spec(&self, other: &Self) -> bool {
        color_stop_eq(*self, *other)
    }
}

/// Equality of optional color stops: both absent, or both present and equal.
pub open spec fn stop_slot_eq(a: Option<ColorStop>, b: Option<ColorStop>) -> bool {
    match (a, b) {
        (None, None) => true,
        (Some(x), Some(y)) => color_stop_eq(x, y),
        _ => false,
    }
}

fn stop_slots_equal(a: &Option<ColorStop>, b: &Option<ColorStop>) -> (r: bool)
    ensures
        r == stop_slot_eq(*a, *b),
{
    match (a, b) {
        (None, None) => true,
        (Some(x), Some(y)) => color_stops_equal(x, y),
        _ => false,
    }
}

/// Equality of linear gradients: angle, and stop by stop.
pub open spec fn linear_eq(a: Linear, b: Linear) -> bool {
    float_eq_bits(a.angle, b.angle) && forall|i: int|
        0 <= i < 8 ==> #[trigger] stop_slot_eq(a.stops[i], b.stops[i])
}

fn linears_equal(a: &Linear, b: &Linear) -> (r: bool)
    ensures
        r == linear_eq(*a, *b),
{
    if !float_bits_eq(a.angle, b.angle) {
        return false;
    }
    let mut i: usize = 0;
    while i < 8
        invariant
            i <= 8,
            forall|j: int| 0 <= j < i ==> #[trigger] stop_slot_eq(a.stops[j], b.stops[j]),
        decreases 8 - i,
    {
        if !stop_slots_equal(&a.stops[i], &b.stops[i]) {
            return false;
        }
        i = i + 1;
    }
    true
}

impl PartialEq for Linear {
    fn eq(&self, other: &Self) -> (r: bool) {
        linears_equal(self, other)
    }
}

impl PartialEqSpecImpl for Linear {
    open spec fn obeys_eq_spec() -> bool {
        true
    }

    open spec fn eq_spec(&self, other: &Self) -> bool {
        linear_eq(*self, *other)
    }
}

/// Equality of gradients.
pub open spec fn gradient_eq(a: Gradient, b: Gradient) -> bool {
    match (a, b) {
        (Gradient::Linear(x), Gradient::Linear(y)) => linear_eq(x, y),
    }
}

fn gradients_equal(a: &Gradient, b: &Gradient) -> (r: bool)
    ensures
        r == gradient_eq(*a, *b),
{
    match (a, b) {
        (Gradient::Linear(x), Gradient::Linear(y)) => linears_equal(x, y),
    }
}

impl PartialEq for Gradient {
    fn eq(&self, other: &Self) -> (r: bool) {
        gradients_equal(self, other)
    }
}

impl PartialEqSpecImpl for Gradient {
    open spec fn obeys_eq_spec() -> bool {
        true
    }

    open spec fn eq_spec(&self, other: &Self) -> bool {
        gradient_eq(*self, *other)
    }
}

/// Equality of backgrounds: same kind, equal contents.
pub open spec fn background_eq(a: Background, b: Background) -> bool {
    match (a, b) {
        (Background::Color(x), Background::Color(y)) => color_eq(x, y),
        (Background::Gradient(x), Background::Gradient(y)) => gradient_eq(x, y),
        _ => false,
    }
}

fn backgrounds_equal(a: &Background, b: &Background) -> (r: bool)
    ensures
        r == background_eq(*a, *b),
{
    match (a, b) {
        (Background::Color(x), Background::Color(y)) => colors_equal(x, y),
        (Background::Gradient(x), Background::Gradient(y)) => gradients_equal(x, y),
        _ => false,
    }
}

impl PartialEq for Background {
    fn eq(&self, other: &Self) -> (r: bool) {
        backgrounds_equal(self, other)
    }
}

impl PartialEqSpecImpl for Background {
    open spec fn obeys_eq_spec() -> bool {
        true
    }

    open spec fn eq_spec(&self, other: &Self) -> bool {
        background_eq(*self, *other)
    }
}

/// Equality of radii: corner by corner.
pub open spec fn radius_eq(a: Radius, b: Radius) -> bool {
    float_eq_bits(a.top_left, b.top_left) && float_eq_bits(a.top_right, b.top_right)
        && float_eq_bits(a.bottom_right, b.bottom_right) && float_eq_bits(
        a.bottom_left,
        b.bottom_left,
    )
}

fn radii_equal(a: &Radius, b: &Radius) -> (r: bool)
    ensures
        r == radius_eq(*a, *b),
{
    float_bits_eq(a.top_left, b.top_left) && float_bits_eq(a.top_right, b.top_right)
        && float_bits_eq(a.bottom_right, b.bottom_right) && float_bits_eq(
        a.bottom_left,
        b.bottom_left,
    )
}

impl PartialEq for Radius {
    fn eq(&self, other: &Self) -> (r: bool) {
        radii_equal(self, other)
    }
}

impl PartialEqSpecImpl for Radius {
    open spec fn obeys_eq_spec() -> bool {
        true
    }

    open spec fn eq_spec(&self, other: &Self) -> bool {
        radius_eq(*self, *other)
    }
}

/// Equality of borders: color, width and radius.
pub open spec fn border_eq(a: Border, b: Border) -> bool {
    color_eq(a.color, b.color) && float_eq_bits(a.width, b.width) && radius_eq(a.radius, b.radius)
}

fn borders_equal(a: &Border, b: &Border) -> (r: bool)
    ensures
        r == border_eq(*a, *b),
{
    colors_equal(&a.color, &b.color) && float_bits_eq(a.width, b.width) && radii_equal(
        &a.radius,
        &b.radius,
    )
}

impl PartialEq for Border {
    fn eq(&self, other: &Self) -> (r: bool) {
        borders_equal(self, other)
    }
}

impl PartialEqSpecImpl for Border {
    open spec fn obeys_eq_spec() -> bool {
        true
    }

    open spec fn eq_spec(&self, other: &Self) -> bool {
        border_eq(*self, *other)
    }
}

/// Equality of vectors: component by component.
pub open spec fn vector_eq(a: Vector, b: Vector) -> bool {
    float_eq_bits(a.x, b.x) && float_eq_bits(a.y, b.y)
}

impl PartialEq for Vector {
    fn eq(&self, other: &Self) -> (r: bool) {
        float_bits_eq(self.x, other.x) && float_bits_eq(self.y, other.y)
    }
}

impl PartialEqSpecImpl for Vector {
    open spec fn obeys_eq_spec() -> bool {
        true
    }

    open spec fn eq_spec(&self, other: &Self) -> bool {
        vector_eq(*self, *other)
    }
}

/// Equality of shadows: color, offset and blur radius.
pub open spec fn shadow_eq(a: Shadow, b: Shadow) -> bool {
    color_eq(a.color, b.color) && vector_eq(a.offset, b.offset) && float_eq_bits(
        a.blur_radius,
        b.blur_radius,
    )
}

fn shadows_equal(a: &Shadow, b: &Shadow) -> (r: bool)
    ensures
        r == shadow_eq(*a, *b),
{
    colors_equal(&a.color, &b.color) && float_bits_eq(a.offset.x, b.offset.x) && float_bits_eq(
        a.offset.y,
        b.offset.y,
    ) && float_bits_eq(a.blur_radius, b.blur_radius)
}

impl PartialEq for Shadow {
    fn eq(&self, other: &Self) -> (r: bool) {
        shadows_equal(self, other)
    }
}

impl PartialEqSpecImpl for Shadow {
    open spec fn obeys_eq_spec() -> bool {
        true
    }

    open spec fn eq_spec(&self, other: &Self) -> bool {
        shadow_eq(*self, *other)
    }
}

/// Equality of styles: field by field.
pub open spec fn style_eq(a: Style, b: Style) -> bool {
    &&& match (a.background, b.background) {
        (None, None) => true,
        (Some(x), Some(y)) => background_eq(x, y),
        _ => false,
    }
    &&& color_eq(a.text_color, b.text_color)
    &&& border_eq(a.border, b.border)
    &&& shadow_eq(a.shadow, b.shadow)
    &&& a.snap == b.snap
}

impl PartialEq for Style {
    fn eq(&self, other: &Self) -> (r: bool) {
        let backgrounds = match (&self.background, &other.background) {
            (None, None) => true,
            (Some(x), Some(y)) => backgrounds_equal(x, y),
            _ => false,
        };
        backgrounds && colors_equal(&self.text_color, &other.text_color) && borders_equal(
            &self.border,
            &other.border,
        ) && shadows_equal(&self.shadow, &other.shadow) && self.snap == other.snap
    }
}

impl PartialEqSpecImpl for Style {
    open spec fn obeys_eq_spec() -> bool {
        true
    }

    open spec fn eq_spec(&self, other: &Self) -> bool {
        style_eq(*self, *other)
    }
}

/// Bit pattern of `1.0f32`.
pub const ONE_BITS: u32 = 0x3f80_0000u32;

/// Bit pattern of `2.0f32`.
pub const TWO_BITS: u32 = 0x4000_0000u32;

/// Bit pattern of `0.5f32`: how much a disabled button fades.
pub const HALF_BITS: u32 = 0x3f00_0000u32;

/// Bit pattern of `0.8f32`: how much the text of a hovered text button fades.
pub const FOUR_FIFTHS_BITS: u32 = 0x3f4c_cccdu32;

/// A color with all channels and alpha zero.
pub open spec fn spec_transparent() -> Color {
    Color { r: 0, g: 0, b: 0, a: 0 }
}

/// Opaque black.
pub open spec fn spec_black() -> Color {
    Color { r: 0, g: 0, b: 0, a: ONE_BITS }
}

/// The same radius on every corner.
pub open spec fn uniform_radius(bits: u32) -> Radius {
    Radius { top_left: bits, top_right: bits, bottom_right: bits, bottom_left: bits }
}

/// The default border: transparent, no width, square corners.
pub open spec fn spec_default_border() -> Border {
    Border { color: spec_transparent(), width: 0, radius: uniform_radius(0) }
}

/// The default style: black text, no background, the default border, a
/// transparent shadow without offset or blur, snapped to the pixel grid.
pub open spec fn spec_default_style() -> Style {
    Style {
        background: None,
        text_color: spec_black(),
        border: spec_default_border(),
        shadow: Shadow {
            color: spec_transparent(),
            offset: Vector { x: 0, y: 0 },
            blur_radius: 0,
        },
        snap: true,
    }
}

impl Default for Style {
    fn default() -> (style: Style)
        ensures
            style == spec_default_style(),
    {
        Style {
            background: None,
            text_color: Color { r: 0, g: 0, b: 0, a: ONE_BITS },
            border: Border {
                color: Color { r: 0, g: 0, b: 0, a: 0 },
                width: 0,
                radius: Radius { top_left: 0, top_right: 0, bottom_right: 0, bottom_left: 0 },
            },
            shadow: Shadow {
                color: Color { r: 0, g: 0, b: 0, a: 0 },
                offset: Vector { x: 0, y: 0 },
                blur_radius: 0,
            },
            snap: true,
        }
    }
}

/// A color of a palette and the text color that reads on it.
#[derive(Debug, Clone, Copy)]
pub struct Pair {
    /// The color.
    pub color: Color,
    /// The text color on it.
    pub text: Color,
}

/// The shades of one color of a palette.
#[derive(Debug, Clone, Copy)]
pub struct Swatch {
    /// The base shade.
    pub base: Pair,
    /// A stronger shade.
    pub strong: Pair,
}

/// The background shades of a palette.
#[derive(Debug, Clone, Copy)]
pub struct Backdrop {
    /// The base shade.
    pub base: Pair,
    /// The weakest shade.
    pub weakest: Pair,
    /// A weaker shade.
    pub weaker: Pair,
    /// A weak shade.
    pub weak: Pair,
    /// A strong shade.
    pub strong: Pair,
}

/// A style as a theme gives it, before the alpha of faded colors is scaled.
#[derive(Debug, Clone, Copy)]
pub enum Look {
    /// The style as it is.
    Plain(Style),
    /// The style with the alpha of its background and of its text color
    /// multiplied by the factor (bits of an `f32`).
    Faded(Style, u32),
}

/// The style of a button painted with a palette pair: the pair's color as
/// background, its text color, corners rounded by 2 pixels, otherwise the
/// default style.
pub open spec fn spec_styled(pair: Pair) -> Style {
    Style {
        background: Some(Background::Color(pair.color)),
        text_color: pair.text,
        border: Border { radius: uniform_radius(TWO_BITS), ..spec_default_border() },
        ..spec_default_style()
    }
}

/// The style of a button painted with a palette pair.
pub fn styled(pair: Pair) -> (style: Style)
    ensures
        style == spec_styled(pair),
{
    let base = Style::default();
    Style {
        background: Some(Background::Color(pair.color)),
        text_color: pair.text,
        border: Border {
            radius: Radius {
                top_left: TWO_BITS,
                top_right: TWO_BITS,
                bottom_right: TWO_BITS,
                bottom_left: TWO_BITS,
            },
            ..base.border
        },
        ..base
    }
}

/// The look of a button painted with a swatch: the base shade, the strong
/// shade as background while hovered, faded to half when disabled.
pub open spec fn spec_swatch_look(swatch: Swatch, status: Status) -> Look {
    let base = spec_styled(swatch.base);
    match status {
        Status::Active | Status::Pressed => Look::Plain(base),
        Status::Hovered => Look::Plain(Style { background: Some(Background::Color(swatch.strong.color)), ..base }),
        Status::Disabled => Look::Faded(base, HALF_BITS),
    }
}

/// The look of a primary, secondary, success, warning or danger button,
/// painted with the palette's swatch of that name.
pub fn swatch_look(swatch: Swatch, status: Status) -> (look: Look)
    ensures
        look == spec_swatch_look(swatch, status),
{
    let base = styled(swatch.base);
    match status {
        Status::Active | Status::Pressed => Look::Plain(base),
        Status::Hovered => Look::Plain(base.with_background(Background::Color(swatch.strong.color))),
        Status::Disabled => Look::Faded(base, HALF_BITS),
    }
}

/// The look of a button painted with background shades: `resting` as base,
/// the `pressed` and `hovered` shades as background in those states, faded
/// to half when disabled.
pub open spec fn spec_shaded_look(resting: Pair, pressed: Pair, hovered: Pair, status: Status) -> Look {
    let base = spec_styled(resting);
    match status {
        Status::Active => Look::Plain(base),
        Status::Pressed => Look::Plain(Style { background: Some(Background::Color(pressed.color)), ..base }),
        Status::Hovered => Look::Plain(Style { background: Some(Background::Color(hovered.color)), ..base }),
        Status::Disabled => Look::Faded(base, HALF_BITS),
    }
}

fn shaded_look(resting: Pair, pressed: Pair, hovered: Pair, status: Status) -> (look: Look)
    ensures
        look == spec_shaded_look(resting, pressed, hovered, status),
{
    let base = styled(resting);
    match status {
        Status::Active => Look::Plain(base),
        Status::Pressed => Look::Plain(base.with_background(Background::Color(pressed.color))),
        Status::Hovered => Look::Plain(base.with_background(Background::Color(hovered.color))),
        Status::Disabled => Look::Faded(base, HALF_BITS),
    }
}

/// The look of a button using background shades: the base shade, strong
/// while pressed, weak while hovered.
pub fn background_look(backdrop: Backdrop, status: Status) -> (look: Look)
    ensures
        look == spec_shaded_look(backdrop.base, backdrop.strong, backdrop.weak, status),
{
    shaded_look(backdrop.base, backdrop.strong, backdrop.weak, status)
}

/// The look of a subtle button using weak background shades: the weakest
/// shade, strong while pressed, weaker while hovered.
pub fn subtle_look(backdrop: Backdrop, status: Status) -> (look: Look)
    ensures
        look == spec_shaded_look(backdrop.weakest, backdrop.strong, backdrop.weaker, status),
{
    shaded_look(backdrop.weakest, backdrop.strong, backdrop.weaker, status)
}

/// The look of a text button: the default style with the background's base
/// text color, its text faded to four fifths while hovered, everything
/// faded to half when disabled.
pub open spec fn spec_text_look(backdrop: Backdrop, status: Status) -> Look {
    let base = Style { text_color: backdrop.base.text, ..spec_default_style() };
    match status {
        Status::Active | Status::Pressed => Look::Plain(base),
        Status::Hovered => Look::Faded(base, FOUR_FIFTHS_BITS),
        Status::Disabled => Look::Faded(base, HALF_BITS),
    }
}

/// The look of a text button; useful for links.
pub fn text_look(backdrop: Backdrop, status: Status) -> (look: Look)
    ensures
        look == spec_text_look(backdrop, status),
{
    let base = Style { text_color: backdrop.base.text, ..Style::default() };
    match status {
        Status::Active | Status::Pressed => Look::Plain(base),
        Status::Hovered => Look::Faded(base, FOUR_FIFTHS_BITS),
        Status::Disabled => Look::Faded(base, HALF_BITS),
    }
}

/// Every theme look of a disabled button fades to half, and only a
/// disabled button or a hovered text button fades at all.
pub proof fn lemma_only_disabled_or_hovered_text_fades(swatch: Swatch, backdrop: Backdrop, status: Status)
    ensures
        status == Status::Disabled ==> (spec_swatch_look(swatch, status) matches Look::Faded(_, f) && f == HALF_BITS),
        status == Status::Disabled ==> (spec_text_look(backdrop, status) matches Look::Faded(_, f) && f == HALF_BITS),
        status == Status::Disabled ==> (spec_shaded_look(backdrop.base, backdrop.strong, backdrop.weak, status) matches Look::Faded(_, f) && f == HALF_BITS),
        status != Status::Disabled ==> spec_swatch_look(swatch, status) is Plain,
        status != Status::Disabled ==> spec_shaded_look(backdrop.base, backdrop.strong, backdrop.weak, status) is Plain,
        status != Status::Disabled && status != Status::Hovered ==> spec_text_look(backdrop, status) is Plain,
{
}

/// Equality of pairs: both colors equal.
pub open spec fn pair_eq(a: Pair, b: Pair) -> bool {
    color_eq(a.color, b.color) && color_eq(a.text, b.text)
}

fn pairs_equal(a: &Pair, b: &Pair) -> (r: bool)
    ensures
        r == pair_eq(*a, *b),
{
    colors_equal(&a.color, &b.color) && colors_equal(&a.text, &b.text)
}

impl PartialEq for Pair {
    fn eq(&self, other: &Self) -> (r: bool) {
        pairs_equal(self, other)
    }
}

impl PartialEqSpecImpl for Pair {
    open spec fn obeys_eq_spec() -> bool {
        true
    }

    open spec fn eq_spec(&self, other: &Self) -> bool {
        pair_eq(*self, *other)
    }
}

impl PartialEq for Swatch {
    fn eq(&self, other: &Self) -> (r: bool) {
        pairs_equal(&self.base, &other.base) && pairs_equal(&self.strong, &other.strong)
    }
}

impl PartialEqSpecImpl for Swatch {
    open spec fn obeys_eq_spec() -> bool {
        true
    }

    open spec fn eq_spec(&self, other: &Self) -> bool {
        pair_eq(self.base, other.base) && pair_eq(self.strong, other.strong)
    }
}

impl PartialEq for Backdrop {
    fn eq(&self, other: &Self) -> (r: bool) {
        pairs_equal(&self.base, &other.base) && pairs_equal(&self.weakest, &other.weakest)
            && pairs_equal(&self.weaker, &other.weaker) && pairs_equal(&self.weak, &other.weak)
            && pairs_equal(&self.strong, &other.strong)
    }
}

impl PartialEqSpecImpl for Backdrop {
    open spec fn obeys_eq_spec() -> bool {
        true
    }

    open spec fn eq_spec(&self, other: &Self) -> bool {
        pair_eq(self.base, other.base) && pair_eq(self.weakest, other.weakest) && pair_eq(
            self.weaker,
            other.weaker,
        ) && pair_eq(self.weak, other.weak) && pair_eq(self.strong, other.strong)
    }
}

impl PartialEq for Look {
    fn eq(&self, other: &Self) -> (r: bool) {
        match (self, other) {
            (Look::Plain(a), Look::Plain(b)) => a.eq(b),
            (Look::Faded(a, x), Look::Faded(b, y)) => a.eq(b) && float_bits_eq(*x, *y),
            _ => false,
        }
    }
}

impl PartialEqSpecImpl for Look {
    open spec fn obeys_eq_spec() -> bool {
        true
    }

    open spec fn eq_spec(&self, other: &Self) -> bool {
        match (*self, *other) {
            (Look::Plain(a), Look::Plain(b)) => style_eq(a, b),
            (Look::Faded(a, x), Look::Faded(b, y)) => style_eq(a, b) && float_eq_bits(x, y),
            _ => false,
        }
    }
}

/// Whether the bits are those of an `f32` greater than zero: positive sign,
/// not zero, not NaN (positive infinity included).
pub open spec fn is_positive_bits(bits: u32) -> bool {
    0 < bits <= 0x7f80_0000u32
}

/// Whether a style paints anything behind the content: a background, a
/// border wider than zero, or a shadow whose color is not fully transparent.
pub open spec fn paints_quad(style: Style) -> bool {
    style.background.is_some() || is_positive_bits(style.border.width) || is_positive_bits(
        style.shadow.color.a,
    )
}

/// Whether drawing a button with this style fills a quad behind its content.
pub fn fills_quad(style: &Style) -> (r: bool)
    ensures
        r == paints_quad(*style),
{
    style.background.is_some() || (0 < style.border.width && style.border.width <= 0x7f80_0000u32)
        || (0 < style.shadow.color.a && style.shadow.color.a <= 0x7f80_0000u32)
}

/// How a background goes from one style to another.
#[derive(Debug, Clone, Copy, PartialEq)]
pub enum BackgroundBlend {
    /// Mix the first color into the second by the transition's amount.
    Mix(Color, Color),
    /// Keep the first background for the first half of the transition, then
    /// show the second.
    Switch(Option<Background>, Option<Background>),
}

/// The blend between two backgrounds: solid colors mix; a missing background
/// stands for the other color made transparent, so a solid background fades
/// in or out; anything else switches halfway.
pub open spec fn background_blend(from: Option<Background>, to: Option<Background>) -> BackgroundBlend {
    match (from, to) {
        (Some(Background::Color(f)), Some(Background::Color(t))) => BackgroundBlend::Mix(f, t),
        (None, Some(Background::Color(t))) => BackgroundBlend::Mix(Color { a: 0, ..t }, t),
        (Some(Background::Color(f)), None) => BackgroundBlend::Mix(f, Color { a: 0, ..f }),
        _ => BackgroundBlend::Switch(from, to),
    }
}

/// Chooses how the background of one style turns into that of another.
pub fn blend_backgrounds(from: Option<Background>, to: Option<Background>) -> (blend:
    BackgroundBlend)
    ensures
        blend == background_blend(from, to),
{
    match (from, to) {
        (Some(Background::Color(f)), Some(Background::Color(t))) => BackgroundBlend::Mix(f, t),
        (None, Some(Background::Color(t))) => BackgroundBlend::Mix(t.transparent(), t),
        (Some(Background::Color(f)), None) => BackgroundBlend::Mix(f, f.transparent()),
        _ => BackgroundBlend::Switch(from, to),
    }
}

/// A solid background keeps a solid color all along a transition: whenever
/// either side is a solid color and the other is solid or absent, the
/// backgrounds are mixed as colors, never switched.
pub proof fn lemma_solid_backgrounds_stay_solid(from: Option<Background>, to: Option<Background>)
    requires
        from matches Some(Background::Color(_)) || to matches Some(Background::Color(_)),
        !(from matches Some(Background::Gradient(_))),
        !(to matches Some(Background::Gradient(_))),
    ensures
        background_blend(from, to) matches BackgroundBlend::Mix(_, _),
{
}

/// The theme catalog of a [`Button`].
///
/// All themes that can be used with [`Button`] must implement this trait.
pub trait Catalog {
    /// The item class of the [`Catalog`].
    type Class;

    /// The default class produced by the [`Catalog`].
    fn default() -> Self::Class;

    /// The [`Style`] of a class with the given status.
    fn style(&self, class: &Self::Class, status: Status) -> Style;
}

/// What produces the message of a pressed button: a message that is cloned,
/// or a closure that is called.
pub enum OnPress<Message, F> {
    /// A message, cloned each time the button is pressed.
    Direct(Message),
    /// A closure, called each time the button is pressed.
    Closure(F),
}

/// Whether producing the message can be done: a closure must accept the call.
pub open spec fn can_produce<Message, F: Fn() -> Message>(on_press: OnPress<Message, F>) -> bool {
    match on_press {
        OnPress::Direct(_) => true,
        OnPress::Closure(f) => call_requires(f, ()),
    }
}

/// Whether `message` is what producing the message of `on_press` can give.
pub open spec fn produced<Message: Clone, F: Fn() -> Message>(
    on_press: OnPress<Message, F>,
    message: Message,
) -> bool {
    match on_press {
        OnPress::Direct(direct) => cloned(direct, message),
        OnPress::Closure(f) => call_ensures(f, (), message),
    }
}

impl<Message: Clone, F: Fn() -> Message> OnPress<Message, F> {
    /// Produces the message: a clone of the message, or the closure's result.
    pub fn get(&self) -> (message: Message)
        requires
            can_produce(*self),
        ensures
            produced(*self, message),
    {
        match self {
            OnPress::Direct(message) => message.clone(),
            OnPress::Closure(f) => f(),
        }
    }
}

/// A generic widget that produces a message when pressed.
///
/// If a [`Button::on_press`] handler is not set, the resulting [`Button`]
/// will be disabled.
pub struct Button<Content, Message, Theme: Catalog, F> {
    content: Content,
    on_press: Option<OnPress<Message, F>>,
    width: Length,
    height: Length,
    padding: Padding,
    clip: bool,
    class: Theme::Class,
}

impl<Content, Message, Theme: Catalog, F> Button<Content, Message, Theme, F> {
    /// The content of the button.
    pub closed spec fn spec_content(&self) -> Content {
        self.content
    }

    /// What the button produces its message with, if it can be pressed.
    pub closed spec fn spec_on_press(&self) -> Option<OnPress<Message, F>> {
        self.on_press
    }

    /// The width of the button.
    pub closed spec fn spec_width(&self) -> Length {
        self.width
    }

    /// The height of the button.
    pub closed spec fn spec_height(&self) -> Length {
        self.height
    }

    /// The padding of the button.
    pub closed spec fn spec_padding(&self) -> Padding {
        self.padding
    }

    /// Whether the contents are clipped on overflow.
    pub closed spec fn spec_clip(&self) -> bool {
        self.clip
    }

    /// The style class of the button.
    pub closed spec fn spec_class(&self) -> Theme::Class {
        self.class
    }

    /// Whether the button can be pressed: it has a message to produce.
    pub open spec fn spec_enabled(&self) -> bool {
        self.spec_on_press().is_some()
    }

    /// Creates a new [`Button`] with the given content.
    ///
    /// It fits its content, has the default padding, does not clip, takes the
    /// theme's default class, and is disabled until it gets a message.
    pub fn new(content: Content) -> (button: Self)
        ensures
            button.spec_content() == content,
            button.spec_on_press() is None,
            button.spec_width() == Length::Fit,
            button.spec_height() == Length::Fit,
            button.spec_padding() == (Padding {
                top: FIVE_BITS,
                right: TEN_BITS,
                bottom: FIVE_BITS,
                left: TEN_BITS,
            }),
            !button.spec_clip(),
            call_ensures(Theme::default, (), button.spec_class()),
    {
        let class = Theme::default();
        Button {
            content,
            on_press: None,
            width: Length::Fit,
            height: Length::Fit,
            padding: default_padding(),
            clip: false,
            class,
        }
    }

    /// Sets the width of the [`Button`].
    pub fn width(self, width: Length) -> (button: Self)
        ensures
            button.spec_width() == width,
            button.spec_content() == self.spec_content(),
            button.spec_on_press() == self.spec_on_press(),
            button.spec_height() == self.spec_height(),
            button.spec_padding() == self.spec_padding(),
            button.spec_clip() == self.spec_clip(),
            button.spec_class() == self.spec_class(),
    {
        Button { width, ..self }
    }

    /// Sets the height of the [`Button`].
    pub fn height(self, height: Length) -> (button: Self)
        ensures
            button.spec_height() == height,
            button.spec_content() == self.spec_content(),
            button.spec_on_press() == self.spec_on_press(),
            button.spec_width() == self.spec_width(),
            button.spec_padding() == self.spec_padding(),
            button.spec_clip() == self.spec_clip(),
            button.spec_class() == self.spec_class(),
    {
        Button { height, ..self }
    }

    /// Sets the [`Padding`] of the [`Button`].
    pub fn padding(self, padding: Padding) -> (button: Self)
        ensures
            button.spec_padding() == padding,
            button.spec_content() == self.spec_content(),
            button.spec_on_press() == self.spec_on_press(),
            button.spec_width() == self.spec_width(),
            button.spec_height() == self.spec_height(),
            button.spec_clip() == self.spec_clip(),
            button.spec_class() == self.spec_class(),
    {
        Button { padding, ..self }
    }

    /// Sets the message that will be produced when the [`Button`] is pressed.
    ///
    /// Unless `on_press` is called, the [`Button`] will be disabled.
    pub fn on_press(self, on_press: Message) -> (button: Self)
        ensures
            button.spec_on_press() == Some(OnPress::<Message, F>::Direct(on_press)),
            button.spec_content() == self.spec_content(),
            button.spec_width() == self.spec_width(),
            button.spec_height() == self.spec_height(),
            button.spec_padding() == self.spec_padding(),
            button.spec_clip() == self.spec_clip(),
            button.spec_class() == self.spec_class(),
    {
        Button { on_press: Some(OnPress::Direct(on_press)), ..self }
    }

    /// Sets the message that will be produced when the [`Button`] is pressed.
    ///
    /// This is analogous to [`Button::on_press`], but using a closure to
    /// produce the message. The closure will only be called when the
    /// [`Button`] is actually pressed.
    pub fn on_press_with<G>(self, on_press: G) -> (button: Button<Content, Message, Theme, G>)
        ensures
            button.spec_on_press() == Some(OnPress::<Message, G>::Closure(on_press)),
            button.spec_content() == self.spec_content(),
            button.spec_width() == self.spec_width(),
            button.spec_height() == self.spec_height(),
            button.spec_padding() == self.spec_padding(),
            button.spec_clip() == self.spec_clip(),
            button.spec_class() == self.spec_class(),
    {
        Button {
            content: self.content,
            on_press: Some(OnPress::Closure(on_press)),
            width: self.width,
            height: self.height,
            padding: self.padding,
            clip: self.clip,
            class: self.class,
        }
    }

    /// Sets the message that will be produced when the [`Button`] is pressed,
    /// if `Some`.
    ///
    /// If `None`, the [`Button`] will be disabled.
    pub fn on_press_maybe(self, on_press: Option<Message>) -> (button: Self)
        ensures
            button.spec_on_press() == (match on_press {
                Some(message) => Some(OnPress::<Message, F>::Direct(message)),
                None => None,
            }),
            button.spec_content() == self.spec_content(),
            button.spec_width() == self.spec_width(),
            button.spec_height() == self.spec_height(),
            button.spec_padding() == self.spec_padding(),
            button.spec_clip() == self.spec_clip(),
            button.spec_class() == self.spec_class(),
    {
        let on_press = match on_press {
            Some(message) => Some(OnPress::Direct(message)),
            None => None,
        };
        Button { on_press, ..self }
    }

    /// Sets whether the contents of the [`Button`] should be clipped on
    /// overflow.
    pub fn clip(self, clip: bool) -> (button: Self)
        ensures
            button.spec_clip() == clip,
            button.spec_content() == self.spec_content(),
            button.spec_on_press() == self.spec_on_press(),
            button.spec_width() == self.spec_width(),
            button.spec_height() == self.spec_height(),
            button.spec_padding() == self.spec_padding(),
            button.spec_class() == self.spec_class(),
    {
        Button { clip, ..self }
    }

    /// Sets the style of the [`Button`]: the class becomes the one the theme
    /// makes of the styling function.
    pub fn style<S>(self, style: S) -> (button: Self) where
        S: Fn(&Theme, Status) -> Style,
        Theme::Class: From<S>,

        ensures
            <Theme::Class as FromSpec<S>>::obeys_from_spec() ==> button.spec_class() == <Theme::Class as FromSpec<S>>::from_spec(style),
            button.spec_content() == self.spec_content(),
            button.spec_on_press() == self.spec_on_press(),
            button.spec_width() == self.spec_width(),
            button.spec_height() == self.spec_height(),
            button.spec_padding() == self.spec_padding(),
            button.spec_clip() == self.spec_clip(),
    {
        let class = Theme::Class::from(style);
        Button { class, ..self }
    }

    /// Sets the style class of the [`Button`].
    pub fn class(self, class: Theme::Class) -> (button: Self)
        ensures
            button.spec_class() == class,
            button.spec_content() == self.spec_content(),
            button.spec_on_press() == self.spec_on_press(),
            button.spec_width() == self.spec_width(),
            button.spec_height() == self.spec_height(),
            button.spec_padding() == self.spec_padding(),
            button.spec_clip() == self.spec_clip(),
    {
        Button { class, ..self }
    }
}

/// The pointer and touch input a button reacts to; any other event is `Other`.
#[derive(Debug, Clone, Copy, PartialEq, Eq, Structural)]
pub enum Input {
    /// The left mouse button went down.
    LeftPressed,
    /// The left mouse button went up.
    LeftReleased,
    /// A finger touched the screen.
    FingerPressed,
    /// A finger left the screen.
    FingerLifted,
    /// A touch was cancelled.
    FingerLost,
    /// Any other event.
    Other,
}

/// Whether the input starts a press: the left mouse button or a finger going down.
pub open spec fn is_press(input: Input) -> bool {
    input == Input::LeftPressed || input == Input::FingerPressed
}

/// Whether the input ends a press: the left mouse button or a finger going up.
pub open spec fn is_release(input: Input) -> bool {
    input == Input::LeftReleased || input == Input::FingerLifted
}

/// What a button remembers between events.
pub struct State {
    /// Whether a press began over the button and has not ended yet.
    pub is_pressed: bool,
    /// The animation of being hovered.
    pub hovered: ControlAnimation,
    /// The animation of being pressed.
    pub pressed: ControlAnimation,
    /// When the button last handled an event.
    pub now: u64,
    /// Whether the animations were set from an actual status yet.
    pub initialized: bool,
}

impl State {
    /// The state of a button that has not handled any event yet, created at `now`.
    pub fn new(now: u64) -> (state: State)
        ensures
            !state.is_pressed,
            state.hovered == ControlAnimation::at_rest(false),
            state.pressed == ControlAnimation::at_rest(false),
            state.now == now,
            !state.initialized,
    {
        State {
            is_pressed: false,
            hovered: control_animation(false),
            pressed: control_animation(false),
            now,
            initialized: false,
        }
    }
}

/// What a button does in answer to an event that its content did not capture.
#[derive(Debug, Clone, Copy, PartialEq, Eq, Structural)]
pub struct Reaction {
    /// Whether the button captures the event.
    pub capture: bool,
    /// Whether the button publishes its message.
    pub publish: bool,
    /// The status the button shows afterwards.
    pub status: Status,
    /// Whether the button asks to be drawn again: one of its animations runs.
    pub redraw: bool,
}

/// Whether the button is being pressed after the input.
///
/// A press over an enabled button starts pressing it; a release over an
/// enabled, pressed button ends the press; a lost touch ends it whatever the
/// button; anything else leaves it as it was.
pub open spec fn pressed_after(enabled: bool, was_pressed: bool, input: Input, over: bool) -> bool {
    if is_press(input) && enabled {
        was_pressed || over
    } else if is_release(input) {
        if enabled { false } else { was_pressed }
    } else if input == Input::FingerLost {
        false
    } else {
        was_pressed
    }
}

/// Whether the button captures the input: a press over an enabled button, or
/// the release that ends the press of an enabled button.
pub open spec fn captures(enabled: bool, was_pressed: bool, input: Input, over: bool) -> bool {
    (is_press(input) && enabled && over) || (is_release(input) && enabled && was_pressed)
}

/// Whether the button publishes its message: a press of an enabled button
/// ends over it.
pub open spec fn publishes(enabled: bool, was_pressed: bool, input: Input, over: bool) -> bool {
    is_release(input) && enabled && was_pressed && over
}

/// The status a button shows.
pub open spec fn status_of(enabled: bool, over: bool, is_pressed: bool) -> Status {
    if !enabled {
        Status::Disabled
    } else if over {
        if is_pressed {
            Status::Pressed
        } else {
            Status::Hovered
        }
    } else {
        Status::Active
    }
}

/// Where the hover animation heads for a status.
pub open spec fn hover_target(status: Status) -> bool {
    status == Status::Hovered || status == Status::Pressed
}

/// Where the press animation heads for a status.
pub open spec fn press_target(status: Status) -> bool {
    status == Status::Pressed
}

/// The animation heading to `target` from `now` on: started afresh at rest
/// on it the first time, moved towards it afterwards.
pub open spec fn animation_towards(
    animation: ControlAnimation,
    initialized: bool,
    target: bool,
    now: u64,
) -> ControlAnimation {
    if initialized {
        animation.after_go(target, now)
    } else {
        ControlAnimation::at_rest(target)
    }
}

/// The state after an event at `now` that the content did not capture.
pub open spec fn next_state(enabled: bool, state: State, input: Input, over: bool, now: u64) -> State {
    let is_pressed = pressed_after(enabled, state.is_pressed, input, over);
    let status = status_of(enabled, over, is_pressed);
    State {
        is_pressed,
        hovered: animation_towards(state.hovered, state.initialized, hover_target(status), now),
        pressed: animation_towards(state.pressed, state.initialized, press_target(status), now),
        now,
        initialized: true,
    }
}

/// The reaction to an event at `now` that the content did not capture.
pub open spec fn reaction(enabled: bool, state: State, input: Input, over: bool, now: u64) -> Reaction {
    let next = next_state(enabled, state, input, over, now);
    Reaction {
        capture: captures(enabled, state.is_pressed, input, over),
        publish: publishes(enabled, state.is_pressed, input, over),
        status: status_of(enabled, over, next.is_pressed),
        redraw: next.hovered.animating_at(now) || next.pressed.animating_at(now),
    }
}

/// How a button is drawn.
#[derive(Debug, Clone, Copy, PartialEq, Eq, Structural)]
pub enum Appearance {
    /// With the style of [`Status::Disabled`], not moved.
    Disabled,
    /// With the styles of [`Status::Active`], [`Status::Hovered`] and
    /// [`Status::Pressed`] blended by the two progresses (in units of
    /// `2^-39`), moved by the press progress of [`PRESS_TRANSLATE`](crate::animation::PRESS_TRANSLATE).
    Blended {
        /// Progress of the hover animation.
        hover: u64,
        /// Progress of the press animation.
        press: u64,
    },
}

/// The pointer a button asks for: a pointing hand over a button that can be
/// pressed, no particular pointer otherwise.
pub open spec fn pointer_for(enabled: bool, over: bool) -> Interaction {
    if over && enabled {
        Interaction::Pointer
    } else {
        Interaction::Unset
    }
}

/// What the pointer looks like over some widget.
#[derive(Debug, Clone, Copy, PartialEq, Eq, Structural)]
pub enum Interaction {
    /// The widget does not ask for a particular pointer: the default
    /// interaction.
    Unset,
    /// A pointing hand: the widget can be clicked.
    Pointer,
}

impl<Content, Message, Theme: Catalog, F> Button<Content, Message, Theme, F> {
    /// Whether the button can be pressed: it has a message to produce.
    pub fn is_enabled(&self) -> (enabled: bool)
        ensures
            enabled == self.spec_enabled(),
    {
        self.on_press.is_some()
    }

    /// The width and height of the button.
    pub fn size(&self) -> (size: (Length, Length))
        ensures
            size == (self.spec_width(), self.spec_height()),
    {
        (self.width, self.height)
    }

    /// The content of the button.
    pub fn content(&self) -> (content: &Content)
        ensures
            *content == self.spec_content(),
    {
        &self.content
    }

    /// The padding of the button.
    pub fn padding_of(&self) -> (padding: Padding)
        ensures
            padding == self.spec_padding(),
    {
        self.padding
    }

    /// Whether the contents are clipped on overflow.
    pub fn clips(&self) -> (clip: bool)
        ensures
            clip == self.spec_clip(),
    {
        self.clip
    }

    /// The style class of the button.
    pub fn class_of(&self) -> (class: &Theme::Class)
        ensures
            *class == self.spec_class(),
    {
        &self.class
    }

    /// Reacts to an event that happens at `now`.
    ///
    /// `captured` tells whether the content already captured the event; the
    /// button then does nothing at all. `over` tells whether the cursor is
    /// over the button's bounds.
    pub fn update(&self, state: &mut State, input: Input, captured: bool, over: bool, now: u64) -> (r:
        Option<Reaction>)
        ensures
            captured ==> r is None && *final(state) == *old(state),
            !captured ==> r == Some(reaction(self.spec_enabled(), *old(state), input, over, now))
                && *final(state) == next_state(self.spec_enabled(), *old(state), input, over, now),
    {
        if captured {
            return None;
        }
        let enabled = self.on_press.is_some();
        let mut capture = false;
        let mut publish = false;
        match input {
            Input::LeftPressed | Input::FingerPressed => {
                if enabled && over {
                    state.is_pressed = true;
                    capture = true;
                }
            },
            Input::LeftReleased | Input::FingerLifted => {
                if enabled {
                    if state.is_pressed {
                        state.is_pressed = false;
                        if over {
                            publish = true;
                        }
                        capture = true;
                    }
                }
            },
            Input::FingerLost => {
                state.is_pressed = false;
            },
            _ => {},
        }
        let status = if !enabled {
            Status::Disabled
        } else if over {
            if state.is_pressed {
                Status::Pressed
            } else {
                Status::Hovered
            }
        } else {
            Status::Active
        };
        let hovered = match status {
            Status::Hovered | Status::Pressed => true,
            _ => false,
        };
        let pressed = match status {
            Status::Pressed => true,
            _ => false,
        };
        proof {
            ControlAnimation::lemma_after_go_heads_there(state.hovered, hovered, now);
            ControlAnimation::lemma_after_go_heads_there(state.pressed, pressed, now);
        }
        if state.initialized {
            if state.hovered.value() != hovered {
                state.hovered.go_mut(hovered, now);
            }
            if state.pressed.value() != pressed {
                state.pressed.go_mut(pressed, now);
            }
        } else {
            state.hovered = control_animation(hovered);
            state.pressed = control_animation(pressed);
            state.initialized = true;
        }
        state.now = now;
        let redraw = state.hovered.is_animating(now) || state.pressed.is_animating(now);
        Some(Reaction { capture, publish, status, redraw })
    }

    /// How the button is drawn from its state: with the disabled style, or
    /// with the active style blended towards the hovered one by the hover
    /// progress and then towards the pressed one by the press progress, its
    /// content moved by the press progress of [`PRESS_TRANSLATE`](crate::animation::PRESS_TRANSLATE).
    pub fn appearance(&self, state: &State) -> (appearance: Appearance)
        ensures
            appearance == (if self.spec_enabled() {
                Appearance::Blended {
                    hover: state.hovered.progress_at(state.now) as u64,
                    press: state.pressed.progress_at(state.now) as u64,
                }
            } else {
                Appearance::Disabled
            }),
    {
        if self.on_press.is_none() {
            Appearance::Disabled
        } else {
            let hover = state.hovered.progress(state.now);
            let press = state.pressed.progress(state.now);
            Appearance::Blended { hover, press }
        }
    }

    /// The pointer the button asks for: a pointing hand when the cursor is
    /// over a button that can be pressed.
    pub fn mouse_interaction(&self, over: bool) -> (interaction: Interaction)
        ensures
            interaction == pointer_for(self.spec_enabled(), over),
    {
        if over && self.on_press.is_some() {
            Interaction::Pointer
        } else {
            Interaction::Unset
        }
    }
}

impl<Content, Message: Clone, Theme: Catalog, F: Fn() -> Message> Button<Content, Message, Theme, F> {
    /// The message of the button, produced afresh; `None` when it is disabled.
    pub fn message(&self) -> (message: Option<Message>)
        requires
            self.spec_on_press() matches Some(on_press) ==> can_produce(on_press),
        ensures
            match self.spec_on_press() {
                Some(on_press) => message matches Some(m) && produced(on_press, m),
                None => message is None,
            },
    {
        match &self.on_press {
            Some(on_press) => Some(on_press.get()),
            None => None,
        }
    }
}


/// A button that cannot be pressed ignores input: it never captures an
/// event, never publishes, always shows [`Status::Disabled`] and its
/// animations head to rest.
pub proof fn lemma_disabled_button_is_inert(state: State, input: Input, over: bool, now: u64)
    ensures
        !reaction(false, state, input, over, now).capture,
        !reaction(false, state, input, over, now).publish,
        reaction(false, state, input, over, now).status == Status::Disabled,
        !next_state(false, state, input, over, now).hovered.spec_value(),
        !next_state(false, state, input, over, now).pressed.spec_value(),
{
    ControlAnimation::lemma_after_go_heads_there(state.hovered, false, now);
    ControlAnimation::lemma_after_go_heads_there(state.pressed, false, now);
    ControlAnimation::lemma_at_rest(false);
}

/// A message is published only when a press of an enabled button ends over
/// it: the button was pressed, and the event releases it over its bounds.
pub proof fn lemma_publish_needs_press(enabled: bool, state: State, input: Input, over: bool, now: u64)
    ensures
        reaction(enabled, state, input, over, now).publish ==> enabled && state.is_pressed && over
            && is_release(input) && !next_state(enabled, state, input, over, now).is_pressed,
{
}

/// A click publishes exactly once: pressing an enabled button over it and
/// releasing it over it publishes the message and captures both events;
/// a second release publishes nothing.
pub proof fn lemma_click_publishes_once(
    state: State,
    press: Input,
    release: Input,
    again: Input,
    t0: u64,
    t1: u64,
    t2: u64,
)
    requires
        is_press(press),
        is_release(release),
        is_release(again),
    ensures
        ({
            let s1 = next_state(true, state, press, true, t0);
            let s2 = next_state(true, s1, release, true, t1);
            &&& reaction(true, state, press, true, t0).capture
            &&& !reaction(true, state, press, true, t0).publish
            &&& s1.is_pressed
            &&& reaction(true, s1, release, true, t1).publish
            &&& reaction(true, s1, release, true, t1).capture
            &&& !s2.is_pressed
            &&& !reaction(true, s2, again, true, t2).publish
            &&& !reaction(true, s2, again, true, t2).capture
        }),
{
}

/// Moving away before releasing cancels a click: the release still ends the
/// press and is captured, but publishes nothing.
pub proof fn lemma_release_elsewhere_cancels(state: State, press: Input, release: Input, t0: u64, t1: u64)
    requires
        is_press(press),
        is_release(release),
    ensures
        ({
            let s1 = next_state(true, state, press, true, t0);
            &&& !reaction(true, s1, release, false, t1).publish
            &&& reaction(true, s1, release, false, t1).capture
            &&& !next_state(true, s1, release, false, t1).is_pressed
        }),
{
}

/// A press that starts outside the button does not press it.
pub proof fn lemma_press_elsewhere_is_ignored(state: State, press: Input, now: u64)
    requires
        is_press(press),
        !state.is_pressed,
    ensures
        !reaction(true, state, press, false, now).capture,
        !next_state(true, state, press, false, now).is_pressed,
{
}

/// A lost touch always ends a press and is never captured.
pub proof fn lemma_lost_touch_ends_press(enabled: bool, state: State, over: bool, now: u64)
    ensures
        !next_state(enabled, state, Input::FingerLost, over, now).is_pressed,
        !reaction(enabled, state, Input::FingerLost, over, now).capture,
        !reaction(enabled, state, Input::FingerLost, over, now).publish,
{
}

/// After every event the button handles, its animations head to what its
/// status shows: the hover animation to "hovered" when hovered or pressed,
/// the press animation to "pressed" when pressed; so the press animation
/// never heads to "pressed" while the hover one heads away from "hovered".
/// The event's time is recorded.
pub proof fn lemma_animations_follow_status(enabled: bool, state: State, input: Input, over: bool, now: u64)
    ensures
        ({
            let next = next_state(enabled, state, input, over, now);
            let r = reaction(enabled, state, input, over, now);
            &&& next.initialized
            &&& next.now == now
            &&& next.hovered.spec_value() == hover_target(r.status)
            &&& next.pressed.spec_value() == press_target(r.status)
            &&& next.pressed.spec_value() ==> next.hovered.spec_value()
        }),
{
    let next = next_state(enabled, state, input, over, now);
    let status = status_of(enabled, over, next.is_pressed);
    ControlAnimation::lemma_after_go_heads_there(state.hovered, hover_target(status), now);
    ControlAnimation::lemma_after_go_heads_there(state.pressed, press_target(status), now);
    ControlAnimation::lemma_at_rest(hover_target(status));
    ControlAnimation::lemma_at_rest(press_target(status));
}

/// An animation only restarts its clock when its target changes: when the
/// status of an initialized button keeps the hover (or press) target, that
/// animation is left exactly as it was.
pub proof fn lemma_unchanged_target_keeps_animation(enabled: bool, state: State, input: Input, over: bool, now: u64)
    requires
        state.initialized,
    ensures
        ({
            let next = next_state(enabled, state, input, over, now);
            &&& next.hovered.spec_value() == state.hovered.spec_value() ==> next.hovered == state.hovered
            &&& next.pressed.spec_value() == state.pressed.spec_value() ==> next.pressed == state.pressed
        }),
{
    let next = next_state(enabled, state, input, over, now);
    let status = status_of(enabled, over, next.is_pressed);
    ControlAnimation::lemma_after_go_heads_there(state.hovered, hover_target(status), now);
    ControlAnimation::lemma_after_go_heads_there(state.pressed, press_target(status), now);
}

/// The status is [`Status::Pressed`] only while a press of an enabled button
/// is held over it, and [`Status::Hovered`] only over an enabled button that
/// is not pressed.
pub proof fn lemma_status_cases(enabled: bool, over: bool, is_pressed: bool)
    ensures
        status_of(enabled, over, is_pressed) == Status::Pressed <==> enabled && over && is_pressed,
        status_of(enabled, over, is_pressed) == Status::Hovered <==> enabled && over && !is_pressed,
        status_of(enabled, over, is_pressed) == Status::Active <==> enabled && !over,
        status_of(enabled, over, is_pressed) == Status::Disabled <==> !enabled,
{
}

/// The pointing hand shows exactly when the button shows itself hovered or
/// pressed.
pub proof fn lemma_pointer_iff_hovered_status(enabled: bool, over: bool, is_pressed: bool)
    ensures
        (pointer_for(enabled, over) == Interaction::Pointer) <==> hover_target(
            status_of(enabled, over, is_pressed),
        ),
{
}


/// The state after a run of events that are neither presses, releases nor
/// lost touches (cursor moves, redraws, keys, ...), each given by whether
/// the cursor is over the button and when it happens.
pub open spec fn after_other_events(enabled: bool, state: State, events: Seq<(bool, u64)>) -> State
    decreases events.len(),
{
    if events.len() == 0 {
        state
    } else {
        after_other_events(
            enabled,
            next_state(enabled, state, Input::Other, events[0].0, events[0].1),
            events.drop_first(),
        )
    }
}

/// An event that is neither a press, a release nor a lost touch never
/// changes whether the button is pressed, and is never captured or
/// published on, wherever the cursor is.
pub proof fn lemma_other_events_keep_the_press(enabled: bool, state: State, over: bool, now: u64)
    ensures
        next_state(enabled, state, Input::Other, over, now).is_pressed == state.is_pressed,
        !reaction(enabled, state, Input::Other, over, now).capture,
        !reaction(enabled, state, Input::Other, over, now).publish,
{
}

/// Any run of other events leaves the press as it was.
pub proof fn lemma_other_event_runs_keep_the_press(enabled: bool, state: State, events: Seq<(bool, u64)>)
    ensures
        after_other_events(enabled, state, events).is_pressed == state.is_pressed,
    decreases events.len(),
{
    if events.len() > 0 {
        lemma_other_events_keep_the_press(enabled, state, events[0].0, events[0].1);
        lemma_other_event_runs_keep_the_press(
            enabled,
            next_state(enabled, state, Input::Other, events[0].0, events[0].1),
            events.drop_first(),
        );
    }
}

/// A press over an enabled button, then any events that are neither
/// presses, releases nor lost touches (wherever the cursor goes meanwhile),
/// then a release over it: the release is captured and publishes the
/// message, and the button shows itself hovered.
pub proof fn lemma_click_survives_other_events(
    state: State,
    press: Input,
    t0: u64,
    events: Seq<(bool, u64)>,
    release: Input,
    t1: u64,
)
    requires
        is_press(press),
        is_release(release),
    ensures
        ({
            let pressed = next_state(true, state, press, true, t0);
            let waited = after_other_events(true, pressed, events);
            let r = reaction(true, waited, release, true, t1);
            &&& waited.is_pressed
            &&& r.capture
            &&& r.publish
            &&& r.status == Status::Hovered
            &&& !next_state(true, waited, release, true, t1).is_pressed
        }),
{
    let pressed = next_state(true, state, press, true, t0);
    lemma_other_event_runs_keep_the_press(true, pressed, events);
}

/// The style a look starts from, before any fading.
pub open spec fn look_style(look: Look) -> Style {
    match look {
        Look::Plain(style) => style,
        Look::Faded(style, _) => style,
    }
}

/// A text button has no background and always writes in the background's
/// base text color; pressing it looks as resting on it does, hovering it
/// fades its text to four fifths, and disabling it fades it to half.
pub proof fn lemma_text_look_keeps_text_color(backdrop: Backdrop, status: Status)
    ensures
        look_style(spec_text_look(backdrop, status)).text_color == backdrop.base.text,
        look_style(spec_text_look(backdrop, status)).background is None,
        look_style(spec_text_look(backdrop, status)).border == spec_default_border(),
        spec_text_look(backdrop, Status::Pressed) == spec_text_look(backdrop, Status::Active),
        spec_text_look(backdrop, Status::Active) is Plain,
        spec_text_look(backdrop, Status::Hovered) == Look::Faded(
            look_style(spec_text_look(backdrop, Status::Active)),
            FOUR_FIFTHS_BITS,
        ),
        spec_text_look(backdrop, Status::Disabled) == Look::Faded(
            look_style(spec_text_look(backdrop, Status::Active)),
            HALF_BITS,
        ),
{
}

/// A swatch button writes in its base text color with corners rounded by
/// two pixels; its background is the strong shade while hovered and the
/// base shade otherwise; pressing it looks as resting on it does.
pub proof fn lemma_swatch_look_shades(swatch: Swatch, status: Status)
    ensures
        look_style(spec_swatch_look(swatch, status)).text_color == swatch.base.text,
        look_style(spec_swatch_look(swatch, status)).border.radius == uniform_radius(TWO_BITS),
        look_style(spec_swatch_look(swatch, status)).background == Some(Background::Color(
            if status == Status::Hovered { swatch.strong.color } else { swatch.base.color },
        )),
        spec_swatch_look(swatch, Status::Pressed) == spec_swatch_look(swatch, Status::Active),
        spec_swatch_look(swatch, Status::Disabled) == Look::Faded(
            look_style(spec_swatch_look(swatch, Status::Active)),
            HALF_BITS,
        ),
{
}

/// A shaded button writes in the resting shade's text color with corners
/// rounded by two pixels; its background is the pressed shade while
/// pressed, the hovered shade while hovered, the resting shade otherwise.
pub proof fn lemma_shaded_look_shades(resting: Pair, pressed: Pair, hovered: Pair, status: Status)
    ensures
        look_style(spec_shaded_look(resting, pressed, hovered, status)).text_color == resting.text,
        look_style(spec_shaded_look(resting, pressed, hovered, status)).border.radius == uniform_radius(TWO_BITS),
        look_style(spec_shaded_look(resting, pressed, hovered, status)).background == Some(Background::Color(
            if status == Status::Pressed {
                pressed.color
            } else if status == Status::Hovered {
                hovered.color
            } else {
                resting.color
            },
        )),
        spec_shaded_look(resting, pressed, hovered, Status::Disabled) == Look::Faded(
            look_style(spec_shaded_look(resting, pressed, hovered, Status::Active)),
            HALF_BITS,
        ),
{
}

/// Whether the bits are those of an `f32` above zero, read field by field:
/// sign bit clear, not a NaN, not zero.
pub open spec fn above_zero(bits: u32) -> bool {
    (bits & 0x8000_0000u32) == 0 && !float_is_nan(bits) && bits != 0
}

/// Whether the bits are those of a NaN.
pub open spec fn float_is_nan(bits: u32) -> bool {
    (bits & 0x7f80_0000u32) == 0x7f80_0000u32 && (bits & 0x007f_ffffu32) != 0
}

/// A quad is painted behind the content exactly when the style has a
/// background (a solid color or a gradient alike), a border wider than
/// zero, or a shadow whose alpha is above zero.
pub proof fn lemma_quad_painted_iff_visible(style: Style)
    ensures
        style.background.is_some() ==> paints_quad(style),
        paints_quad(style) <==> (style.background.is_some() || above_zero(style.border.width)
            || above_zero(style.shadow.color.a)),
{
    let w = style.border.width;
    let a = style.shadow.color.a;
    assert(is_positive_bits(w) <==> ((w & 0x8000_0000u32) == 0 && !((w & 0x7f80_0000u32)
        == 0x7f80_0000u32 && (w & 0x007f_ffffu32) != 0) && w != 0)) by (bit_vector);
    assert(is_positive_bits(a) <==> ((a & 0x8000_0000u32) == 0 && !((a & 0x7f80_0000u32)
        == 0x7f80_0000u32 && (a & 0x007f_ffffu32) != 0) && a != 0)) by (bit_vector);
}

} // verus!
