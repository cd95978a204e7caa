//! Load and use fonts.
//!
//! Every `f32` of a font (its tracking) is carried here as its IEEE-754 bit
//! pattern, the value that `f32::to_bits` returns: the logic of this module
//! only ever compares and canonicalizes those bits.
use rustc_hash::FxHashSet;
use vstd::prelude::*;
use vstd::std_specs::cmp::PartialEqSpecImpl;
use vstd::std_specs::convert::FromSpecImpl;
use vstd::string::StringSliceAdditionalSpecFns;

verus! {

/// Bit pattern of `+0.0`.
pub const POSITIVE_ZERO_BITS: u32 = 0x0000_0000u32;

/// Bit pattern of `-0.0`.
pub const NEGATIVE_ZERO_BITS: u32 = 0x8000_0000u32;

/// Bit pattern of the quiet NaN that stands for every NaN when hashing.
pub const CANONICAL_NAN_BITS: u32 = 0x7fc0_0000u32;

/// Whether the bit pattern is a NaN: all exponent bits set, some mantissa bit set.
pub open spec fn is_nan_bits(bits: u32) -> bool {
    (bits & 0x7f80_0000u32) == 0x7f80_0000u32 && (bits & 0x007f_ffffu32) != 0
}

/// Whether the bit pattern is a zero of either sign.
pub open spec fn is_zero_bits(bits: u32) -> bool {
    bits == POSITIVE_ZERO_BITS || bits == NEGATIVE_ZERO_BITS
}

/// IEEE-754 equality of two `f32` values given by their bits: NaN equals
/// nothing, the two zeros are equal, and otherwise the bits decide.
pub open spec fn float_eq_bits(a: u32, b: u32) -> bool {
    !is_nan_bits(a) && !is_nan_bits(b) && (a == b || (is_zero_bits(a) && is_zero_bits(b)))
}

/// IEEE-754 equality of two `f32` values given by their bits, as `==` on
/// `f32` computes it.
pub fn float_bits_eq(a: u32, b: u32) -> (r: bool)
    ensures
        r == float_eq_bits(a, b),
{
    let a_nan = (a & 0x7f80_0000u32) == 0x7f80_0000u32 && (a & 0x007f_ffffu32) != 0;
    let b_nan = (b & 0x7f80_0000u32) == 0x7f80_0000u32 && (b & 0x007f_ffffu32) != 0;
    !a_nan && !b_nan && (a == b || ((a == POSITIVE_ZERO_BITS || a == NEGATIVE_ZERO_BITS) && (b
        == POSITIVE_ZERO_BITS || b == NEGATIVE_ZERO_BITS)))
}

/// The equality of [`Tracking`]: NaN is equal to any NaN, other values compare as floats.
pub open spec fn tracking_eq(a: u32, b: u32) -> bool {
    if is_nan_bits(a) {
        is_nan_bits(b)
    } else {
        float_eq_bits(a, b)
    }
}

/// The bits a [`Tracking`] is hashed by: every NaN becomes [`CANONICAL_NAN_BITS`],
/// `-0.0` becomes `+0.0` (what `x + 0.0` gives), and any other value keeps its bits.
pub open spec fn canonical_bits(bits: u32) -> u32 {
    if is_nan_bits(bits) {
        CANONICAL_NAN_BITS
    } else if bits == NEGATIVE_ZERO_BITS {
        POSITIVE_ZERO_BITS
    } else {
        bits
    }
}

/// Extra space between glyphs, as a fraction of the type size.
///
/// Tracking is expressed relative to the size rather than in pixels, so a
/// heading and a caption asking for the same tracking stay proportionate to
/// one another. A design that says `0.06em` means `Tracking(0.06f32.to_bits())`.
#[derive(Debug, Clone, Copy)]
pub struct Tracking(pub u32);

/// No extra space: the default tracking.
impl Default for Tracking {
    fn default() -> (t: Tracking)
        ensures
            t == Tracking(POSITIVE_ZERO_BITS),
    {
        Tracking(POSITIVE_ZERO_BITS)
    }
}

impl Tracking {
    /// No extra space. Glyphs sit at their natural advance.
    pub fn none() -> (t: Tracking)
        ensures
            t == Tracking(POSITIVE_ZERO_BITS),
    {
        Tracking(POSITIVE_ZERO_BITS)
    }

    /// Whether this tracking would change anything: it does not when it is a zero of either sign.
    pub fn is_none(self) -> (r: bool)
        ensures
            r == is_zero_bits(self.0),
    {
        self.0 == POSITIVE_ZERO_BITS || self.0 == NEGATIVE_ZERO_BITS
    }

    /// Whether the amount is a NaN.
    pub fn is_nan(&self) -> (r: bool)
        ensures
            r == is_nan_bits(self.0),
    {
        (self.0 & 0x7f80_0000u32) == 0x7f80_0000u32 && (self.0 & 0x007f_ffffu32) != 0
    }

    /// The bits this tracking is hashed by.
    pub fn canonical(&self) -> (r: u32)
        ensures
            r == canonical_bits(self.0),
    {
        if self.is_nan() {
            CANONICAL_NAN_BITS
        } else if self.0 == NEGATIVE_ZERO_BITS {
            POSITIVE_ZERO_BITS
        } else {
            self.0
        }
    }
}

// `Font` is a hash key throughout the text pipeline, so tracking has to be
// comparable and hashable by value. Compare and hash canonical bits: NaN is
// never equal to itself as a float, and `-0.0 == 0.0` while their bits differ.
impl PartialEq for Tracking {
    fn eq(&self, other: &Self) -> (r: bool) {
        if self.is_nan() {
            other.is_nan()
        } else {
            !other.is_nan() && (self.0 == other.0 || ((self.0 == POSITIVE_ZERO_BITS || self.0
                == NEGATIVE_ZERO_BITS) && (other.0 == POSITIVE_ZERO_BITS || other.0
                == NEGATIVE_ZERO_BITS)))
        }
    }
}

impl PartialEqSpecImpl for Tracking {
    open spec fn obeys_eq_spec() -> bool {
        true
    }

    open spec fn eq_spec(&self, other: &Self) -> bool {
        tracking_eq(self.0, other.0)
    }
}

impl Eq for Tracking {}

/// `u32`'s `Hash::hash` feeds the integer to the hasher; nothing is claimed of the
/// hasher's state afterwards.
pub assume_specification<H: core::hash::Hasher>[ <u32 as core::hash::Hash>::hash::<H> ](
    value: &u32,
    state: &mut H,
);

impl core::hash::Hash for Tracking {
    fn hash<H: core::hash::Hasher>(&self, state: &mut H) {
        self.canonical().hash(state)
    }
}

/// Equality and hashing agree: two trackings are equal exactly when they are
/// hashed by the same bits, so a hash key never claims two values are equal
/// while hashing them differently.
pub proof fn lemma_tracking_eq_iff_same_hash_bits(a: Tracking, b: Tracking)
    ensures
        tracking_eq(a.0, b.0) <==> canonical_bits(a.0) == canonical_bits(b.0),
{
    let x = a.0;
    let y = b.0;
    assert(tracking_eq(x, y) <==> canonical_bits(x) == canonical_bits(y)) by (bit_vector);
}

/// Tracking equality is an equivalence relation, NaN included.
pub proof fn lemma_tracking_eq_is_equivalence(a: Tracking, b: Tracking, c: Tracking)
    ensures
        tracking_eq(a.0, a.0),
        tracking_eq(a.0, b.0) ==> tracking_eq(b.0, a.0),
        tracking_eq(a.0, b.0) && tracking_eq(b.0, c.0) ==> tracking_eq(a.0, c.0),
{
    lemma_tracking_eq_iff_same_hash_bits(a, a);
    lemma_tracking_eq_iff_same_hash_bits(a, b);
    lemma_tracking_eq_iff_same_hash_bits(b, a);
    lemma_tracking_eq_iff_same_hash_bits(b, c);
    lemma_tracking_eq_iff_same_hash_bits(a, c);
}

/// A tracking is "none" exactly when it equals [`Tracking::none`].
pub proof fn lemma_is_none_iff_eq_none(t: Tracking)
    ensures
        is_zero_bits(t.0) <==> tracking_eq(t.0, POSITIVE_ZERO_BITS),
{
    let x = t.0;
    assert(is_zero_bits(x) <==> tracking_eq(x, 0u32)) by (bit_vector);
}

/// A font family.
#[derive(Debug, Clone, Copy, Hash)]
pub enum Family {
    /// The name of a font family of choice.
    Name(&'static str),
    /// Serif fonts represent the formal text style for a script.
    Serif,
    /// Glyphs in sans-serif fonts, as the term is used in CSS, are generally low
    /// contrast and have stroke endings that are plain — without any flaring,
    /// cross stroke, or other ornamentation.
    SansSerif,
    /// Glyphs in cursive fonts generally use a more informal script style, and
    /// the result looks more like handwritten pen or brush writing than printed
    /// letterwork.
    Cursive,
    /// Fantasy fonts are primarily decorative or expressive fonts that contain
    /// decorative or expressive representations of characters.
    Fantasy,
    /// The sole criterion of a monospace font is that all glyphs have the same
    /// fixed width.
    Monospace,
}

/// Equality of families: the same generic family, or names with the same text.
pub open spec fn family_eq(a: Family, b: Family) -> bool {
    match (a, b) {
        (Family::Name(x), Family::Name(y)) => x@ == y@,
        (Family::Serif, Family::Serif) => true,
        (Family::SansSerif, Family::SansSerif) => true,
        (Family::Cursive, Family::Cursive) => true,
        (Family::Fantasy, Family::Fantasy) => true,
        (Family::Monospace, Family::Monospace) => true,
        _ => false,
    }
}

/// Whether two strings hold the same text, compared byte by byte.
fn same_text(a: &str, b: &str) -> (r: bool)
    ensures
        r == (a@ == b@),
{
    let x = a.as_bytes();
    let y = b.as_bytes();
    proof {
        vstd::utf8::encode_utf8_decode_utf8(a@);
        vstd::utf8::encode_utf8_decode_utf8(b@);
    }
    if x.len() != y.len() {
        return false;
    }
    let mut i: usize = 0;
    while i < x.len()
        invariant
            x@ == a.spec_bytes(),
            y@ == b.spec_bytes(),
            x@.len() == y@.len(),
            i <= x@.len(),
            forall|j: int| 0 <= j < i ==> x@[j] == y@[j],
        decreases x@.len() - i,
    {
        if x[i] != y[i] {
            return false;
        }
        i = i + 1;
    }
    assert(x@ =~= y@);
    true
}

impl PartialEq for Family {
    fn eq(&self, other: &Self) -> (r: bool) {
        match (self, other) {
            (Family::Name(x), Family::Name(y)) => same_text(x, y),
            (Family::Serif, Family::Serif) => true,
            (Family::SansSerif, Family::SansSerif) => true,
            (Family::Cursive, Family::Cursive) => true,
            (Family::Fantasy, Family::Fantasy) => true,
            (Family::Monospace, Family::Monospace) => true,
            _ => false,
        }
    }
}

impl PartialEqSpecImpl for Family {
    open spec fn obeys_eq_spec() -> bool {
        true
    }

    open spec fn eq_spec(&self, other: &Self) -> bool {
        family_eq(*self, *other)
    }
}

impl Eq for Family {}

/// The text a family is displayed as.
pub open spec fn family_display(family: Family) -> Seq<char> {
    match family {
        Family::Name(name) => name@,
        Family::Serif => "Serif"@,
        Family::SansSerif => "Sans-serif"@,
        Family::Cursive => "Cursive"@,
        Family::Fantasy => "Fantasy"@,
        Family::Monospace => "Monospace"@,
    }
}

impl Default for Family {
    fn default() -> (r: Family)
        ensures
            r == Family::SansSerif,
    {
        Family::SansSerif
    }
}

/// Names of font families that were handed out with a `'static` lifetime.
///
/// A name is allocated once and handed out again for every later request of
/// the same text.
pub struct FamilyNames {
    names: FxHashSet<&'static str>,
}

/// Declares `rustc_hash`'s hasher builder, the hasher of the set of names.
#[verifier::external_type_specification]
#[verifier::external_body]
pub struct ExFxBuildHasher(rustc_hash::FxBuildHasher);

/// The texts that a set of names holds.
pub uninterp spec fn held_names(set: FxHashSet<&'static str>) -> Set<Seq<char>>;

/// `FxHashSet::default` (std's `HashSet::default` with `rustc_hash`'s hasher builder):
/// the new set holds no name.
#[verifier::external_body]
fn empty_name_set() -> (set: FxHashSet<&'static str>)
    ensures
        held_names(set) == Set::<Seq<char>>::empty(),
{
    FxHashSet::default()
}

/// `HashSet::get` on the set of names: returns the held name with the same text,
/// if there is one. `&str` keys are hashed and compared by their text.
#[verifier::external_body]
fn find_name(set: &FxHashSet<&'static str>, name: &str) -> (found: Option<&'static str>)
    ensures
        match found {
            Some(held) => held@ == name@ && held_names(*set).contains(name@),
            None => !held_names(*set).contains(name@),
        },
{
    set.get(name).copied()
}

/// `HashSet::insert` on the set of names: afterwards the set holds the text too.
#[verifier::external_body]
fn add_name(set: &mut FxHashSet<&'static str>, name: &'static str)
    ensures
        held_names(*final(set)) == held_names(*old(set)).insert(name@),
{
    set.insert(name);
}

/// `String::leak`: the string's text, with a `'static` lifetime, never freed.
#[verifier::external_body]
fn leak_string(owned: String) -> (leaked: &'static str)
    ensures
        leaked@ == owned@,
{
    owned.leak()
}

impl View for FamilyNames {
    type V = Set<Seq<char>>;

    closed spec fn view(&self) -> Set<Seq<char>> {
        held_names(self.names)
    }
}

impl FamilyNames {
    /// A cache that holds no name yet.
    pub fn new() -> (names: FamilyNames)
        ensures
            names@ == Set::<Seq<char>>::empty(),
    {
        FamilyNames { names: empty_name_set() }
    }

    /// Whether the text is held.
    pub fn contains(&self, name: &str) -> (r: bool)
        ensures
            r == self@.contains(name@),
    {
        find_name(&self.names, name).is_some()
    }

    /// Returns a `'static` string with the text of `name`, allocating it only
    /// the first time that text is asked for.
    pub fn intern(&mut self, name: &str) -> (interned: &'static str)
        ensures
            interned@ == name@,
            final(self)@ == old(self)@.insert(name@),
    {
        match find_name(&self.names, name) {
            Some(held) => {
                proof {
                    assert(old(self)@.insert(name@) =~= old(self)@);
                }
                held
            },
            None => {
                let leaked = leak_string(name.to_owned());
                add_name(&mut self.names, leaked);
                leaked
            },
        }
    }
}

/// Interning a name twice leaves the cache as interning it once does (the
/// cache after [`FamilyNames::intern`] is the one before with the name
/// added), and the name is then held.
pub proof fn lemma_intern_is_idempotent(held: Set<Seq<char>>, name: Seq<char>)
    ensures
        held.insert(name).insert(name) == held.insert(name),
        held.insert(name).contains(name),
{
    assert(held.insert(name).insert(name) =~= held.insert(name));
}

impl Family {
    /// Creates a [`Family::Name`] from the given string.
    ///
    /// The name is interned in `names` and never freed.
    pub fn name(names: &mut FamilyNames, name: &str) -> (family: Family)
        ensures
            family matches Family::Name(interned) && interned@ == name@,
            final(names)@ == old(names)@.insert(name@),
    {
        Family::Name(names.intern(name))
    }

    /// A list of all the different standalone family variants.
    pub fn variants() -> (variants: [Family; 5])
        ensures
            variants@ == seq![
                Family::Serif,
                Family::SansSerif,
                Family::Cursive,
                Family::Fantasy,
                Family::Monospace,
            ],
    {
        [Family::Serif, Family::SansSerif, Family::Cursive, Family::Fantasy, Family::Monospace]
    }

    /// The text this family is displayed as: its name, or the generic family's name.
    pub fn to_string(&self) -> (text: String)
        ensures
            text@ == family_display(*self),
    {
        proof {
            reveal_strlit("Serif");
            reveal_strlit("Sans-serif");
            reveal_strlit("Cursive");
            reveal_strlit("Fantasy");
            reveal_strlit("Monospace");
        }
        match self {
            Family::Name(name) => (*name).to_owned(),
            Family::Serif => "Serif".to_owned(),
            Family::SansSerif => "Sans-serif".to_owned(),
            Family::Cursive => "Cursive".to_owned(),
            Family::Fantasy => "Fantasy".to_owned(),
            Family::Monospace => "Monospace".to_owned(),
        }
    }
}

/// The weight of some text.
#[derive(Debug, Clone, Copy, PartialEq, Eq, Structural, Hash)]
pub enum Weight {
    Thin,
    ExtraLight,
    Light,
    Normal,
    Medium,
    Semibold,
    Bold,
    ExtraBold,
    Black,
}

impl Default for Weight {
    fn default() -> (r: Weight)
        ensures
            r == Weight::Normal,
    {
        Weight::Normal
    }
}

/// The width of some text.
#[derive(Debug, Clone, Copy, PartialEq, Eq, Structural, Hash)]
pub enum Stretch {
    UltraCondensed,
    ExtraCondensed,
    Condensed,
    SemiCondensed,
    Normal,
    SemiExpanded,
    Expanded,
    ExtraExpanded,
    UltraExpanded,
}

impl Default for Stretch {
    fn default() -> (r: Stretch)
        ensures
            r == Stretch::Normal,
    {
        Stretch::Normal
    }
}

/// The style of some text.
#[derive(Debug, Clone, Copy, PartialEq, Eq, Structural, Hash)]
pub enum Style {
    Normal,
    Italic,
    Oblique,
}

impl Default for Style {
    fn default() -> (r: Style)
        ensures
            r == Style::Normal,
    {
        Style::Normal
    }
}


/// A font.
#[derive(Debug, Clone, Copy, Hash)]
pub struct Font {
    /// The [`Family`] of the [`Font`].
    pub family: Family,
    /// The [`Weight`] of the [`Font`].
    pub weight: Weight,
    /// The [`Stretch`] of the [`Font`].
    pub stretch: Stretch,
    /// The [`Style`] of the [`Font`].
    pub style: Style,
    /// The [`Tracking`] of the [`Font`].
    pub tracking: Tracking,
}

/// Equality of fonts: equal families, weights, stretches and styles, and
/// trackings equal as [`Tracking`] compares them (zeros of either sign are
/// equal, and so are any two NaNs).
pub open spec fn font_eq(a: Font, b: Font) -> bool {
    &&& family_eq(a.family, b.family)
    &&& a.weight == b.weight
    &&& a.stretch == b.stretch
    &&& a.style == b.style
    &&& tracking_eq(a.tracking.0, b.tracking.0)
}

impl PartialEq for Font {
    fn eq(&self, other: &Self) -> (r: bool) {
        self.family.eq(&other.family) && self.weight == other.weight && self.stretch == other.stretch
            && self.style == other.style && self.tracking.eq(&other.tracking)
    }
}

impl PartialEqSpecImpl for Font {
    open spec fn obeys_eq_spec() -> bool {
        true
    }

    open spec fn eq_spec(&self, other: &Self) -> bool {
        font_eq(*self, *other)
    }
}

impl Eq for Font {}

/// Fonts that differ only in the sign of a zero tracking, or only in which
/// NaN their tracking is, are equal, and they hash alike; a font with a
/// tracking of a different value is not equal to it.
pub proof fn lemma_font_eq_by_tracking(font: Font, a: Tracking, b: Tracking)
    ensures
        font_eq(Font { tracking: a, ..font }, Font { tracking: b, ..font }) <==> tracking_eq(a.0, b.0),
        font_eq(Font { tracking: a, ..font }, Font { tracking: b, ..font }) <==> canonical_bits(a.0)
            == canonical_bits(b.0),
{
    lemma_tracking_eq_iff_same_hash_bits(a, b);
}

/// A font of the given family with normal weight, stretch and style and no tracking.
pub open spec fn font_of(family: Family) -> Font {
    Font {
        family,
        weight: Weight::Normal,
        stretch: Stretch::Normal,
        style: Style::Normal,
        tracking: Tracking(POSITIVE_ZERO_BITS),
    }
}

impl Font {
    /// A monospaced font with normal [`Weight`].
    pub fn monospace() -> (font: Font)
        ensures
            font == font_of(Family::Monospace),
    {
        Font::with_family(Family::Monospace)
    }

    /// Creates a [`Font`] with the given [`Family::Name`] and default attributes.
    pub fn new(name: &'static str) -> (font: Font)
        ensures
            font == font_of(Family::Name(name)),
    {
        Font {
            family: Family::Name(name),
            weight: Weight::Normal,
            stretch: Stretch::Normal,
            style: Style::Normal,
            tracking: Tracking::none(),
        }
    }

    /// Creates a [`Font`] with the given [`Family`] and default attributes.
    pub fn with_family(family: Family) -> (font: Font)
        ensures
            font == font_of(family),
    {
        Font {
            family,
            weight: Weight::Normal,
            stretch: Stretch::Normal,
            style: Style::Normal,
            tracking: Tracking::none(),
        }
    }

    /// Sets the [`Weight`] of the [`Font`].
    pub fn weight(self, weight: Weight) -> (font: Font)
        ensures
            font == (Font { weight, ..self }),
    {
        Font { weight, ..self }
    }

    /// Sets the [`Stretch`] of the [`Font`].
    pub fn stretch(self, stretch: Stretch) -> (font: Font)
        ensures
            font == (Font { stretch, ..self }),
    {
        Font { stretch, ..self }
    }

    /// Sets the [`Tracking`] of the [`Font`].
    pub fn tracking(self, tracking: Tracking) -> (font: Font)
        ensures
            font == (Font { tracking, ..self }),
    {
        Font { tracking, ..self }
    }

    /// Sets the [`Style`] of the [`Font`].
    pub fn style(self, style: Style) -> (font: Font)
        ensures
            font == (Font { style, ..self }),
    {
        Font { style, ..self }
    }
}

/// A non-monospaced sans-serif font with normal [`Weight`].
impl Default for Font {
    fn default() -> (font: Font)
        ensures
            font == font_of(Family::SansSerif),
    {
        Font::with_family(Family::SansSerif)
    }
}

impl From<&'static str> for Font {
    fn from(name: &'static str) -> (font: Font) {
        Font::new(name)
    }
}

impl FromSpecImpl<&'static str> for Font {
    open spec fn obeys_from_spec() -> bool {
        true
    }

    open spec fn from_spec(name: &'static str) -> Font {
        font_of(Family::Name(name))
    }
}

impl From<Family> for Font {
    fn from(family: Family) -> (font: Font) {
        Font::with_family(family)
    }
}

impl FromSpecImpl<Family> for Font {
    open spec fn obeys_from_spec() -> bool {
        true
    }

    open spec fn from_spec(family: Family) -> Font {
        font_of(family)
    }
}

/// Setting one attribute of a font leaves the others as they were, and the
/// last setting of an attribute wins.
pub proof fn lemma_font_setters_are_independent(font: Font, weight: Weight, other: Weight, stretch: Stretch, style: Style, tracking: Tracking)
    ensures
        (Font { weight, ..font }).family == font.family,
        (Font { weight, ..font }).tracking == font.tracking,
        (Font { stretch, ..(Font { weight, ..font }) }) == (Font { weight, ..(Font { stretch, ..font }) }),
        (Font { weight: other, ..(Font { weight, ..font }) }) == (Font { weight: other, ..font }),
        (Font { tracking, ..(Font { style, ..font }) }) == (Font { style, ..(Font { tracking, ..font }) }),
{
}


/// Named families are equal exactly when their names hold the same text, a
/// named family never equals a generic one, and family equality is an
/// equivalence relation; so fonts with different names are different hash
/// keys, and fonts with the same name the same key.
pub proof fn lemma_family_eq_is_by_text(x: &'static str, y: &'static str, a: Family, b: Family, c: Family)
    ensures
        family_eq(Family::Name(x), Family::Name(y)) <==> x@ == y@,
        !family_eq(Family::Name(x), Family::Serif),
        !family_eq(Family::Name(x), Family::SansSerif),
        !family_eq(Family::Name(x), Family::Cursive),
        !family_eq(Family::Name(x), Family::Fantasy),
        !family_eq(Family::Name(x), Family::Monospace),
        family_eq(a, a),
        family_eq(a, b) ==> family_eq(b, a),
        family_eq(a, b) && family_eq(b, c) ==> family_eq(a, c),
        font_eq(font_of(Family::Name(x)), font_of(Family::Name(y))) <==> x@ == y@,
{
}

} // verus!
