use fractal_generator::equation::{
    accepts_power, classify, is_white_space, julia_for, multibrot_for, named_family, recognize,
    EquationForm,
};
use fractal_generator::{Complex, FractalType, Scalar};

fn scalar(x: f64) -> Scalar {
    Scalar::from_bits(x.to_bits())
}

fn power(exponent: &str) -> EquationForm {
    EquationForm::Power { exponent: exponent.to_string() }
}

fn julia(re: &str, im: &str) -> EquationForm {
    EquationForm::Julia { re: re.to_string(), im: im.to_string() }
}

#[test]
fn names_are_recognized() {
    for text in ["z^2+c", "z^2 + c", "mandelbrot"] {
        assert_eq!(classify(text), EquationForm::Mandelbrot);
    }
    for text in ["burning ship", "burningship"] {
        assert_eq!(classify(text), EquationForm::BurningShip);
    }
    assert_eq!(classify("tricorn"), EquationForm::Tricorn);
}

#[test]
fn powers_hand_on_the_text_of_the_exponent() {
    assert_eq!(classify("z^3+c"), power("3"));
    assert_eq!(classify("z^4 + c"), power("4 "));
    assert_eq!(classify("z^ 2.5 +c"), power(" 2.5 "));
    assert_eq!(classify("z^+c"), power(""));
    assert_eq!(classify("z^+ c"), power(""));
    assert_eq!(classify("z^2 +c"), power("2 "));
    assert_eq!(classify("z^2+ c"), power("2"));
    assert_eq!(classify("z^abc+c"), power("abc"));
    assert_eq!(classify("z^é+c"), power("é"));
    assert_eq!(classify("z^1+c+c"), power("1+c"));
    assert_eq!(classify("z^z^+c"), power("z^"));
}

#[test]
fn julia_sets_hand_on_the_texts_of_both_parts() {
    assert_eq!(classify("julia(-0.7, 0.27)"), julia("-0.7", " 0.27"));
    assert_eq!(classify("julia(,)"), julia("", ""));
    assert_eq!(classify("julia(1,)"), julia("1", ""));
    assert_eq!(classify("julia(,2)"), julia("", "2"));
    assert_eq!(classify("julia( a , b )"), julia(" a ", " b "));
    assert_eq!(classify("julia(()1,2)"), julia("()1", "2"));
}

#[test]
fn everything_else_is_unknown() {
    for text in [
        "",
        " ",
        "z",
        "z^",
        "z^c",
        "z^2",
        "+c",
        "z^2+d",
        "z^2 +  c ",
        " z^2+c",
        "Tricorn",
        "tricorn ",
        "julia",
        "julia(",
        "julia()",
        "julia(1)",
        "julia(1,2,3)",
        "julia(1,2",
        "julia 1,2)",
        "julia(1,2) ",
        "sin(z) + c",
        "mandelbrot set",
        "burning  ship",
    ] {
        assert_eq!(classify(text), EquationForm::Unknown, "{text:?}");
    }
}

/// The grammar written with the prefix and suffix tests of the standard library.
fn reference(equation: &str) -> EquationForm {
    if equation == "z^2+c" || equation == "z^2 + c" || equation == "mandelbrot" {
        return EquationForm::Mandelbrot;
    }
    if equation == "burning ship" || equation == "burningship" {
        return EquationForm::BurningShip;
    }
    if equation == "tricorn" {
        return EquationForm::Tricorn;
    }
    if equation.starts_with("z^") && equation.ends_with("+c") {
        return power(&equation[2..equation.len() - 2]);
    }
    if equation.starts_with("z^") && equation.ends_with("+ c") {
        return power(&equation[2..equation.len() - 3]);
    }
    if equation.starts_with("julia(") && equation.ends_with(")") {
        let inner = &equation[6..equation.len() - 1];
        let parts: Vec<&str> = inner.split(',').collect();
        if parts.len() == 2 {
            return julia(parts[0], parts[1]);
        }
    }
    EquationForm::Unknown
}

#[test]
fn the_grammar_agrees_with_prefix_and_suffix_tests() {
    let pieces = ["z", "^", "+", "c", " ", "2", "julia", "(", ")", ",", "é", "-0.7"];
    let mut texts: Vec<String> = vec![String::new()];
    for _ in 0..4 {
        let mut longer = Vec::new();
        for text in &texts {
            for piece in pieces {
                longer.push(format!("{text}{piece}"));
            }
        }
        texts.extend(longer);
        texts.sort();
        texts.dedup();
    }
    for head in ["z^", "julia(", "julia(1,"] {
        for tail in ["+c", "+ c", ")", ",2)"] {
            texts.push(format!("{head}{tail}"));
            texts.push(format!("{head}3.5{tail}"));
        }
    }
    assert!(texts.len() > 10_000);
    for text in &texts {
        assert_eq!(classify(text), reference(text), "{text:?}");
    }
}

#[test]
fn typed_text_is_trimmed_and_lowercased_first() {
    assert_eq!(recognize("  Mandelbrot \n"), EquationForm::Mandelbrot);
    assert_eq!(recognize("Burning Ship"), EquationForm::BurningShip);
    assert_eq!(recognize("\tTRICORN"), EquationForm::Tricorn);
    assert_eq!(recognize(" Z^3+C "), power("3"));
    assert_eq!(recognize("JULIA(-0.7, 0.27)  "), julia("-0.7", " 0.27"));
    assert_eq!(recognize("Z^2 + C"), EquationForm::Mandelbrot);
    assert_eq!(recognize("   "), EquationForm::Unknown);
    assert_eq!(recognize(""), EquationForm::Unknown);
    assert_eq!(recognize("z^1E1+c"), power("1e1"));
    for text in ["  Mixed Case z^4 + C", "JuLiA(1,2)", " \u{a0}tricorn\u{2003}", "İz^2+c"] {
        assert_eq!(recognize(text), reference(&text.trim().to_lowercase()), "{text:?}");
    }
}

#[test]
fn exponents_from_two_to_ten_are_admissible() {
    for admissible in [2.0, 2.0000000000000004, 3.0, 9.5, 10.0] {
        assert!(accepts_power(scalar(admissible)), "{admissible}");
        assert_eq!(
            multibrot_for(scalar(admissible)),
            Some(FractalType::Multibrot { power: scalar(admissible) })
        );
    }
    for other in [
        1.9999999999999998,
        10.000000000000002,
        0.0,
        -0.0,
        -3.0,
        1.0,
        11.0,
        f64::INFINITY,
        f64::NEG_INFINITY,
        f64::NAN,
    ] {
        assert!(!accepts_power(scalar(other)), "{other}");
        assert_eq!(multibrot_for(scalar(other)), None);
    }
}

#[test]
fn any_parameter_gives_a_julia_set() {
    assert_eq!(
        julia_for(scalar(-0.7), scalar(0.27)),
        FractalType::Julia { c: Complex { re: scalar(-0.7), im: scalar(0.27) } }
    );
    assert_eq!(
        julia_for(scalar(f64::NAN), scalar(f64::INFINITY)),
        FractalType::Julia { c: Complex { re: scalar(f64::NAN), im: scalar(f64::INFINITY) } }
    );
}

#[test]
fn named_forms_carry_their_label() {
    assert_eq!(
        named_family(&EquationForm::Mandelbrot),
        Some((FractalType::Mandelbrot, "z^2 + c".to_string()))
    );
    assert_eq!(
        named_family(&EquationForm::BurningShip),
        Some((FractalType::BurningShip, "Burning Ship".to_string()))
    );
    assert_eq!(
        named_family(&EquationForm::Tricorn),
        Some((FractalType::Tricorn, "Tricorn".to_string()))
    );
    assert_eq!(named_family(&power("3")), None);
    assert_eq!(named_family(&julia("1", "2")), None);
    assert_eq!(named_family(&EquationForm::Unknown), None);
}

#[test]
fn white_space_is_what_the_standard_library_trims() {
    let mut count = 0;
    for code in 0..=0x10FFFFu32 {
        if let Some(c) = char::from_u32(code) {
            assert_eq!(is_white_space(c), c.is_whitespace(), "U+{code:04X}");
            if is_white_space(c) {
                count += 1;
                // trimming takes the character off either end, and leaves it inside
                assert_eq!(format!("{c}a{c}b{c}{c}").trim(), format!("a{c}b"));
                assert_eq!(recognize(&format!("{c}{c}tricorn{c}")), EquationForm::Tricorn);
                assert_eq!(recognize(&format!("burning{c}ship")) == EquationForm::BurningShip, c == ' ');
            }
        }
    }
    assert_eq!(count, 25);
}

#[test]
fn other_characters_are_not_trimmed() {
    for c in ['\u{0}', '\u{8}', '\u{e}', '\u{1f}', '\u{180e}', '\u{200b}', '\u{200c}', '\u{2060}', '\u{feff}', '_', '.'] {
        assert!(!is_white_space(c));
        assert_eq!(recognize(&format!("{c}tricorn")), EquationForm::Unknown);
        assert_eq!(recognize(&format!("tricorn{c}")), EquationForm::Unknown);
    }
}
