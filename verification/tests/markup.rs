use nano::math_markup::preferred_markup::{
    get_preferred_markup, set_default_math_markup, MathMarkup, INVALID_MARKUP, MATH_MARKUP,
};
use nano::math_markup::typst_main::{
    catch_typst_message, equation, latex2typst, latex_or_typst, markup_from, render, render_math,
    source_for, typst_message_from, RenderMode, RENDERED_FILE,
};

#[test]
fn markup_defaults_to_latex() {
    assert_eq!(MathMarkup::default(), MathMarkup::Latex);
    assert_eq!(get_preferred_markup(None), MathMarkup::Latex);
    assert_eq!(get_preferred_markup(Some(MathMarkup::Typst)), MathMarkup::Typst);
    assert_eq!(get_preferred_markup(Some(MathMarkup::Latex)), MathMarkup::Latex);
}

#[test]
fn markup_is_stored_as_a_lower_case_word() {
    assert_eq!(MathMarkup::Latex.write_redis_args(), "latex");
    assert_eq!(MathMarkup::Typst.write_redis_args(), "typst");
    assert_eq!(MATH_MARKUP, "math_markup");
}

#[test]
fn stored_words_read_back() {
    for markup in [MathMarkup::Latex, MathMarkup::Typst] {
        assert_eq!(MathMarkup::from_redis_value(markup.write_redis_args()), Ok(markup));
    }
}

#[test]
fn other_words_are_handed_back_as_the_error() {
    assert_eq!(MathMarkup::from_redis_value("Latex"), Err("Latex".to_string()));
    assert_eq!(MathMarkup::from_redis_value(""), Err(String::new()));
    assert_eq!(MathMarkup::from_redis_value("typst "), Err("typst ".to_string()));
    assert_eq!(INVALID_MARKUP, "Not valid math markup lang");
}

#[test]
fn markup_is_shown_capitalised() {
    assert_eq!(MathMarkup::Latex.display_name(), "Latex");
    assert_eq!(MathMarkup::Typst.display_name(), "Typst");
}

#[test]
fn preference_reply_confirms_or_reports() {
    assert_eq!(
        set_default_math_markup(Ok(()), MathMarkup::Typst),
        "Success! Your preferred math markup is now Typst.\nIf you want to disable TeXit's LaTeX rendering, do\nso with `,config latex_level CODEBLOCK.`"
    );
    assert_eq!(
        set_default_math_markup(Err("connection refused"), MathMarkup::Typst),
        "An error occurred! <-<\nError: connection refused"
    );
}

#[test]
fn math_is_caught_between_two_dollar_signs() {
    assert_eq!(catch_typst_message("$x$"), Some("$x$".to_string()));
    assert_eq!(
        catch_typst_message("so $a + b$ it is"),
        Some("so $a + b$ it is".to_string())
    );
    assert_eq!(catch_typst_message("$\n$"), Some("$\n$".to_string()));
    assert_eq!(catch_typst_message("line\n$x$\nline"), Some("line\n$x$\nline".to_string()));
}

#[test]
fn text_without_enclosed_math_is_not_caught() {
    assert_eq!(catch_typst_message("$$"), None);
    assert_eq!(catch_typst_message("it costs $5"), None);
    assert_eq!(catch_typst_message("plain"), None);
    assert_eq!(catch_typst_message(""), None);
}

#[test]
fn the_chemistry_command_is_always_caught() {
    assert_eq!(catch_typst_message("#ce(H2O)"), Some("#ce(H2O)".to_string()));
    assert_eq!(catch_typst_message("water is #ce"), Some("water is #ce".to_string()));
    assert_eq!(catch_typst_message("# ce"), None);
}

#[test]
fn typst_message_from_goes_by_what_was_found() {
    assert_eq!(typst_message_from("abc", Some(true)), Some("abc".to_string()));
    assert_eq!(typst_message_from("abc", Some(false)), None);
    assert_eq!(typst_message_from("abc", None), None);
    assert_eq!(typst_message_from("a #ce b", None), Some("a #ce b".to_string()));
    assert_eq!(typst_message_from("a #ce b", Some(false)), Some("a #ce b".to_string()));
}

#[test]
fn latex_is_wrapped_for_the_typesetter() {
    assert_eq!(latex2typst("$x^2$"), "#mitext(`\n$x^2$\n`)");
    assert_eq!(latex2typst(""), "#mitext(`\n\n`)");
}

#[test]
fn latex_is_guessed_from_backslash_capital_s() {
    assert_eq!(latex_or_typst("$\\S$"), MathMarkup::Latex);
    assert_eq!(latex_or_typst("see $a \\Sigma b$ there"), MathMarkup::Latex);
    assert_eq!(latex_or_typst("$\\alpha$"), MathMarkup::Typst);
    assert_eq!(latex_or_typst("\\S $x$"), MathMarkup::Typst);
    assert_eq!(latex_or_typst("$x$"), MathMarkup::Typst);
    assert_eq!(markup_from(Some(true)), MathMarkup::Latex);
    assert_eq!(markup_from(Some(false)), MathMarkup::Typst);
    assert_eq!(markup_from(None), MathMarkup::Typst);
}

#[test]
fn render_math_follows_the_preference_or_guesses() {
    assert_eq!(render_math("$x$", Some(MathMarkup::Typst)), "$x$");
    assert_eq!(render_math("$x$", Some(MathMarkup::Latex)), "#mitext(`\n$x$\n`)");
    assert_eq!(render_math("$x$", None), "$x$");
    assert_eq!(render_math("$\\Sa$", None), "#mitext(`\n$\\Sa$\n`)");
    assert_eq!(render_math("$\\Sa$", Some(MathMarkup::Typst)), "$\\Sa$");
    assert_eq!(source_for("a", MathMarkup::Typst), "a");
    assert_eq!(source_for("a", MathMarkup::Latex), "#mitext(`\na\n`)");
}

#[test]
fn rendered_code_is_shown_between_backticks() {
    assert_eq!(render("x + y"), "`x + y`");
    assert_eq!(RENDERED_FILE, "Rendered.png");
}

#[test]
fn equations_are_set_between_dollar_signs() {
    assert_eq!(RenderMode::default(), RenderMode::Display);
    assert_eq!(equation(None, "x^2"), "$ x^2 $");
    assert_eq!(equation(Some(RenderMode::Display), "x^2"), "$ x^2 $");
    assert_eq!(equation(Some(RenderMode::Inline), "x^2"), "$x^2$");
}
