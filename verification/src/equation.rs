//! The grammar of the equation editor: which texts name a fractal family, and
//! which parts of a text hold its parameters.
//!
//! A text is trimmed and lowercased first. Numbers are not read here: a form
//! hands the text of each parameter on, and takes the number back to decide
//! whether it is admissible.

use vstd::prelude::*;
use crate::fractal::FractalType;
use crate::scalar::{Complex, Scalar};

verus! {

broadcast use vstd::string::group_string_axioms;

/// The bit pattern of 2.0, the smallest admissible exponent.
pub const MIN_POWER_BITS: u64 = 0x4000_0000_0000_0000;

/// The bit pattern of 10.0, the largest admissible exponent.
pub const MAX_POWER_BITS: u64 = 0x4024_0000_0000_0000;

/// The character has the Unicode property White_Space: the controls from tab
/// to carriage return, the space, the next-line control, the no-break space,
/// the Ogham space mark, the spaces from en quad to hair space, the line and
/// paragraph separators, the narrow no-break space, the medium mathematical
/// space and the ideographic space.
pub open spec fn white_space(c: char) -> bool {
    let code = c as u32;
    ||| 0x0009 <= code <= 0x000D
    ||| code == 0x0020
    ||| code == 0x0085
    ||| code == 0x00A0
    ||| code == 0x1680
    ||| 0x2000 <= code <= 0x200A
    ||| code == 0x2028
    ||| code == 0x2029
    ||| code == 0x202F
    ||| code == 0x205F
    ||| code == 0x3000
}

/// The text without its leading white space.
pub open spec fn trimmed_start(text: Seq<char>) -> Seq<char>
    decreases text.len(),
{
    if text.len() > 0 && white_space(text[0]) {
        trimmed_start(text.drop_first())
    } else {
        text
    }
}

/// The text without its trailing white space.
pub open spec fn trimmed_end(text: Seq<char>) -> Seq<char>
    decreases text.len(),
{
    if text.len() > 0 && white_space(text.last()) {
        trimmed_end(text.drop_last())
    } else {
        text
    }
}

/// The text without its leading and trailing white space.
pub open spec fn trimmed(text: Seq<char>) -> Seq<char> {
    trimmed_end(trimmed_start(text))
}

/// What `str::to_lowercase` makes of a text: its lowercase equivalent.
pub uninterp spec fn lowercased(text: Seq<char>) -> Seq<char>;

/// Calls `str::to_lowercase`, which returns the lowercase equivalent of the
/// text as a new string.
#[verifier::external_body]
fn lowercase_text(text: &str) -> (lower: String)
    ensures
        lower@ == lowercased(text@),
{
    text.to_lowercase()
}

/// What a text of the equation editor asks for.
#[derive(Debug, Clone, PartialEq, Eq)]
pub enum EquationForm {
    Mandelbrot,
    BurningShip,
    Tricorn,
    /// `z^` exponent `+c`: the text of the exponent.
    Power { exponent: String },
    /// `julia(` real part `,` imaginary part `)`: the texts of the two parts.
    Julia { re: String, im: String },
    /// None of the forms.
    Unknown,
}

/// The mathematical model of an [`EquationForm`].
pub enum FormView {
    Mandelbrot,
    BurningShip,
    Tricorn,
    Power { exponent: Seq<char> },
    Julia { re: Seq<char>, im: Seq<char> },
    Unknown,
}

impl View for EquationForm {
    type V = FormView;

    open spec fn view(&self) -> FormView {
        match *self {
            EquationForm::Mandelbrot => FormView::Mandelbrot,
            EquationForm::BurningShip => FormView::BurningShip,
            EquationForm::Tricorn => FormView::Tricorn,
            EquationForm::Power { exponent } => FormView::Power { exponent: exponent@ },
            EquationForm::Julia { re, im } => FormView::Julia { re: re@, im: im@ },
            EquationForm::Unknown => FormView::Unknown,
        }
    }
}

/// The text is `prefix`, then anything, then `suffix`.
pub open spec fn framed(text: Seq<char>, prefix: Seq<char>, suffix: Seq<char>) -> bool {
    &&& text.len() >= prefix.len() + suffix.len()
    &&& text.subrange(0, prefix.len() as int) == prefix
    &&& text.subrange(text.len() - suffix.len(), text.len() as int) == suffix
}

/// What stands between `prefix` and `suffix` in a text that they frame.
pub open spec fn framed_part(text: Seq<char>, prefix: Seq<char>, suffix: Seq<char>) -> Seq<char> {
    text.subrange(prefix.len() as int, text.len() - suffix.len())
}

/// The text holds a comma at `i` and nowhere else.
pub open spec fn sole_comma(text: Seq<char>, i: int) -> bool {
    &&& 0 <= i < text.len()
    &&& text[i] == ','
    &&& forall|j: int| 0 <= j < text.len() && j != i ==> text[j] != ','
}

/// The text holds exactly one comma.
pub open spec fn has_sole_comma(text: Seq<char>) -> bool {
    exists|i: int| sole_comma(text, i)
}

/// The place of the comma in a text that holds exactly one.
pub open spec fn comma_index(text: Seq<char>) -> int {
    choose|i: int| sole_comma(text, i)
}

/// The form of a trimmed, lowercase text.
///
/// `z^2+c`, `z^2 + c` and `mandelbrot` name the Mandelbrot set, `burning ship`
/// and `burningship` the Burning Ship, `tricorn` the Tricorn. Any other text
/// of the shape `z^...+c` or `z^...+ c` asks for a power, and `julia(...)`
/// with exactly one comma inside for a Julia set. Everything else, the empty
/// text included, is unknown.
pub open spec fn form_of(text: Seq<char>) -> FormView {
    if text == "z^2+c"@ || text == "z^2 + c"@ || text == "mandelbrot"@ {
        FormView::Mandelbrot
    } else if text == "burning ship"@ || text == "burningship"@ {
        FormView::BurningShip
    } else if text == "tricorn"@ {
        FormView::Tricorn
    } else if framed(text, "z^"@, "+c"@) {
        FormView::Power { exponent: framed_part(text, "z^"@, "+c"@) }
    } else if framed(text, "z^"@, "+ c"@) {
        FormView::Power { exponent: framed_part(text, "z^"@, "+ c"@) }
    } else if framed(text, "julia("@, ")"@) && has_sole_comma(
        framed_part(text, "julia("@, ")"@),
    ) {
        let inner = framed_part(text, "julia("@, ")"@);
        FormView::Julia {
            re: inner.subrange(0, comma_index(inner)),
            im: inner.subrange(comma_index(inner) + 1, inner.len() as int),
        }
    } else {
        FormView::Unknown
    }
}

/// An exponent is admissible from 2 to 10.
pub open spec fn admissible_power(power: Scalar) -> bool {
    power.at_least(Scalar { bits: MIN_POWER_BITS }) && (Scalar { bits: MAX_POWER_BITS }).at_least(
        power,
    )
}

/// Tells whether a character is white space.
pub fn is_white_space(c: char) -> (r: bool)
    ensures
        r == white_space(c),
{
    let code: u32 = c as u32;
    (0x0009 <= code && code <= 0x000D) || code == 0x0020 || code == 0x0085 || code == 0x00A0
        || code == 0x1680 || (0x2000 <= code && code <= 0x200A) || code == 0x2028 || code
        == 0x2029 || code == 0x202F || code == 0x205F || code == 0x3000
}

/// The characters of a text.
fn characters(text: &str) -> (chars: Vec<char>)
    ensures
        chars@ == text@,
{
    let length = text.unicode_len();
    let mut chars: Vec<char> = Vec::new();
    let mut i: usize = 0;
    while i < length
        invariant
            i <= length,
            length == text@.len(),
            chars.len() == i,
            forall|j: int| 0 <= j < i ==> chars[j] == text@[j],
        decreases length - i,
    {
        chars.push(text.get_char(i));
        i += 1;
    }
    assert(chars@ =~= text@);
    chars
}

/// Where the first `k` characters of a text are white space and the next one
/// is not, the text without its leading white space is the text from `k` on.
proof fn lemma_trimmed_start(text: Seq<char>, k: int)
    requires
        0 <= k <= text.len(),
        forall|i: int| 0 <= i < k ==> white_space(text[i]),
        k < text.len() ==> !white_space(text[k]),
    ensures
        trimmed_start(text) == text.subrange(k, text.len() as int),
    decreases k,
{
    if k == 0 {
        assert(text.subrange(0, text.len() as int) =~= text);
    } else {
        let rest = text.drop_first();
        assert(white_space(text[0]));
        assert forall|i: int| 0 <= i < k - 1 implies white_space(rest[i]) by {
            assert(rest[i] == text[i + 1]);
        }
        lemma_trimmed_start(rest, k - 1);
        assert(rest.subrange(k - 1, rest.len() as int) =~= text.subrange(k, text.len() as int));
    }
}

/// Where the characters of a text from `m` on are white space and the one
/// before is not, the text without its trailing white space is the text up
/// to `m`.
proof fn lemma_trimmed_end(text: Seq<char>, m: int)
    requires
        0 <= m <= text.len(),
        forall|i: int| m <= i < text.len() ==> white_space(text[i]),
        m > 0 ==> !white_space(text[m - 1]),
    ensures
        trimmed_end(text) == text.subrange(0, m),
    decreases text.len() - m,
{
    if m == text.len() {
        assert(text.subrange(0, m) =~= text);
    } else {
        let rest = text.drop_last();
        assert(white_space(text.last()));
        lemma_trimmed_end(rest, m);
        assert(rest.subrange(0, m) =~= text.subrange(0, m));
    }
}

/// The text without its leading and trailing white space, as a slice of it.
fn trim_text<'a>(text: &'a str) -> (inner: &'a str)
    ensures
        inner@ == trimmed(text@),
{
    let chars = characters(text);
    let mut from: usize = 0;
    while from < chars.len() && is_white_space(chars[from])
        invariant
            from <= chars.len(),
            forall|i: int| 0 <= i < from ==> white_space(chars[i]),
        decreases chars.len() - from,
    {
        from += 1;
    }
    let mut to: usize = chars.len();
    while to > from && is_white_space(chars[to - 1])
        invariant
            from <= to <= chars.len(),
            forall|i: int| to <= i < chars.len() ==> white_space(chars[i]),
        decreases to,
    {
        to -= 1;
    }
    proof {
        let rest = text@.subrange(from as int, text@.len() as int);
        lemma_trimmed_start(text@, from as int);
        lemma_trimmed_end(rest, to - from);
        assert(rest.subrange(0, to - from) =~= text@.subrange(from as int, to as int));
    }
    text.substring_char(from, to)
}

/// Tells whether `pattern` stands in `chars` from `at` on.
fn stands_at(chars: &Vec<char>, at: usize, pattern: &Vec<char>) -> (r: bool)
    requires
        at + pattern.len() <= chars.len(),
    ensures
        r == (chars@.subrange(at as int, at + pattern.len()) == pattern@),
{
    let mut i: usize = 0;
    while i < pattern.len()
        invariant
            i <= pattern.len(),
            at + pattern.len() <= chars.len(),
            forall|j: int| 0 <= j < i ==> chars[at + j] == pattern[j],
        decreases pattern.len() - i,
    {
        if chars[at + i] != pattern[i] {
            assert(chars@.subrange(at as int, at + pattern.len())[i as int] != pattern@[i as int]);
            return false;
        }
        i += 1;
    }
    assert(chars@.subrange(at as int, at + pattern.len()) =~= pattern@);
    true
}

/// Tells whether the characters are those of `literal`.
fn reads(chars: &Vec<char>, literal: &str) -> (r: bool)
    ensures
        r == (chars@ == literal@),
{
    let pattern = characters(literal);
    if pattern.len() != chars.len() {
        return false;
    }
    let same = stands_at(chars, 0, &pattern);
    assert(chars@.subrange(0, chars.len() as int) =~= chars@);
    same
}

/// Finds what `prefix` and `suffix` frame: the bounds of the part between
/// them, where they frame the characters.
fn frame(chars: &Vec<char>, prefix: &str, suffix: &str) -> (part: Option<(usize, usize)>)
    ensures
        part.is_some() == framed(chars@, prefix@, suffix@),
        part matches Some(bounds) ==> bounds.0 == prefix@.len() && bounds.1 == chars.len()
            - suffix@.len() && bounds.0 <= bounds.1 <= chars.len(),
{
    let head = characters(prefix);
    let tail = characters(suffix);
    if head.len() > chars.len() || tail.len() > chars.len() - head.len() {
        return None;
    }
    let end: usize = chars.len() - tail.len();
    if stands_at(chars, 0, &head) && stands_at(chars, end, &tail) {
        Some((head.len(), end))
    } else {
        None
    }
}

/// The text of the characters from `from` up to `to`.
fn text_between(chars: &Vec<char>, from: usize, to: usize) -> (text: String)
    requires
        from <= to <= chars.len(),
    ensures
        text@ == chars@.subrange(from as int, to as int),
{
    let mut text = String::new();
    let mut i: usize = from;
    while i < to
        invariant
            from <= i <= to <= chars.len(),
            text@ == chars@.subrange(from as int, i as int),
        decreases to - i,
    {
        text.push(chars[i]);
        i += 1;
        assert(text@ =~= chars@.subrange(from as int, i as int));
    }
    text
}

/// Finds the comma between `from` and `to`, where there is exactly one.
fn find_sole_comma(chars: &Vec<char>, from: usize, to: usize) -> (place: Option<usize>)
    requires
        from <= to <= chars.len(),
    ensures
        place.is_some() == has_sole_comma(chars@.subrange(from as int, to as int)),
        place matches Some(at) ==> from <= at < to && at - from == comma_index(
            chars@.subrange(from as int, to as int),
        ),
{
    let ghost inner = chars@.subrange(from as int, to as int);
    let mut found: Option<usize> = None;
    let mut i: usize = from;
    while i < to
        invariant
            from <= i <= to <= chars.len(),
            inner == chars@.subrange(from as int, to as int),
            found matches Some(at) ==> from <= at < i && inner[at - from] == ',',
            forall|j: int|
                0 <= j < i - from && (found matches Some(at) ==> j != at - from) ==> inner[j]
                    != ',',
        decreases to - i,
    {
        if chars[i] == ',' {
            match found {
                Some(at) => {
                    proof {
                        assert(inner[at - from] == ',' && inner[i - from] == ',');
                        assert forall|k: int| !sole_comma(inner, k) by {
                            if sole_comma(inner, k) {
                                if k == at - from {
                                    assert(inner[i - from] != ',');
                                } else {
                                    assert(inner[at - from] != ',');
                                }
                            }
                        }
                    }
                    return None;
                },
                None => {
                    found = Some(i);
                },
            }
        }
        i += 1;
    }
    proof {
        match found {
            Some(at) => {
                assert(sole_comma(inner, at - from));
                let chosen = comma_index(inner);
                assert(sole_comma(inner, chosen));
                if chosen != at - from {
                    assert(inner[at - from] != ',');
                }
            },
            None => {
                assert forall|k: int| !sole_comma(inner, k) by {
                    if sole_comma(inner, k) {
                        assert(inner[k] != ',');
                    }
                }
            },
        }
    }
    found
}

/// Tells the form of a trimmed, lowercase text.
pub fn classify(normalized: &str) -> (form: EquationForm)
    ensures
        form@ == form_of(normalized@),
{
    let chars = characters(normalized);
    if reads(&chars, "z^2+c") || reads(&chars, "z^2 + c") || reads(&chars, "mandelbrot") {
        return EquationForm::Mandelbrot;
    }
    if reads(&chars, "burning ship") || reads(&chars, "burningship") {
        return EquationForm::BurningShip;
    }
    if reads(&chars, "tricorn") {
        return EquationForm::Tricorn;
    }
    match frame(&chars, "z^", "+c") {
        Some(bounds) => {
            return EquationForm::Power { exponent: text_between(&chars, bounds.0, bounds.1) };
        },
        None => {},
    }
    match frame(&chars, "z^", "+ c") {
        Some(bounds) => {
            return EquationForm::Power { exponent: text_between(&chars, bounds.0, bounds.1) };
        },
        None => {},
    }
    match frame(&chars, "julia(", ")") {
        Some(bounds) => {
            let ghost inner = chars@.subrange(bounds.0 as int, bounds.1 as int);
            match find_sole_comma(&chars, bounds.0, bounds.1) {
                Some(at) => {
                    let re = text_between(&chars, bounds.0, at);
                    let im = text_between(&chars, at + 1, bounds.1);
                    assert(re@ =~= inner.subrange(0, at - bounds.0));
                    assert(im@ =~= inner.subrange(at - bounds.0 + 1, inner.len() as int));
                    return EquationForm::Julia { re, im };
                },
                None => {},
            }
        },
        None => {},
    }
    EquationForm::Unknown
}

/// Tells the form of a text as it was typed: the text is trimmed and
/// lowercased, and the result classified.
pub fn recognize(text: &str) -> (form: EquationForm)
    ensures
        form@ == form_of(lowercased(trimmed(text@))),
{
    let lower = lowercase_text(trim_text(text));
    classify(lower.as_str())
}

/// Tells whether an exponent is admissible.
pub fn accepts_power(power: Scalar) -> (r: bool)
    ensures
        r == admissible_power(power),
{
    power.ge(Scalar::from_bits(MIN_POWER_BITS)) && power.le(Scalar::from_bits(MAX_POWER_BITS))
}

/// The family of an exponent: the Multibrot set of an admissible exponent,
/// nothing for any other.
pub fn multibrot_for(power: Scalar) -> (family: Option<FractalType>)
    ensures
        family.is_some() == admissible_power(power),
        family matches Some(choice) ==> choice == (FractalType::Multibrot { power }),
{
    if accepts_power(power) {
        Some(FractalType::Multibrot { power })
    } else {
        None
    }
}

/// The Julia set of a parameter.
pub fn julia_for(re: Scalar, im: Scalar) -> (family: FractalType)
    ensures
        family == (FractalType::Julia { c: Complex { re, im } }),
{
    FractalType::Julia { c: Complex { re, im } }
}

/// The family and the label of a form that names a family outright.
pub open spec fn named_choice(form: FormView) -> Option<(FractalType, Seq<char>)> {
    match form {
        FormView::Mandelbrot => Some((FractalType::Mandelbrot, "z^2 + c"@)),
        FormView::BurningShip => Some((FractalType::BurningShip, "Burning Ship"@)),
        FormView::Tricorn => Some((FractalType::Tricorn, "Tricorn"@)),
        _ => None,
    }
}

/// The family and the label of a form that names a family outright; nothing
/// for a form whose parameters have yet to be read, and for an unknown one.
pub fn named_family(form: &EquationForm) -> (choice: Option<(FractalType, String)>)
    ensures
        match choice {
            Some(pair) => named_choice(form@) == Some((pair.0, pair.1@)),
            None => named_choice(form@).is_none(),
        },
{
    match form {
        EquationForm::Mandelbrot => Some((FractalType::Mandelbrot, "z^2 + c".to_string())),
        EquationForm::BurningShip => Some((FractalType::BurningShip, "Burning Ship".to_string())),
        EquationForm::Tricorn => Some((FractalType::Tricorn, "Tricorn".to_string())),
        _ => None,
    }
}

} // verus!
