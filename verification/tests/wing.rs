//! Typing on the command wing.

use demex_core::command::{F32Bits, Token};
use demex_core::wing::{CommandWing, CommandWingButton, WingStep};

fn press(wing: &mut CommandWing, button: CommandWingButton) -> WingStep {
    wing.handle_button_press(button)
}

#[test]
fn digits_then_attribute_submit_themselves() {
    let mut wing = CommandWing::new();
    assert!(!wing.is_active());
    assert_eq!(press(&mut wing, CommandWingButton::Digit(1)), WingStep::Done);
    assert_eq!(press(&mut wing, CommandWingButton::Digit(2)), WingStep::Done);
    assert!(wing.is_active());
    press(&mut wing, CommandWingButton::Token(Token::KeywordIntens));
    assert!(wing.is_active());
    // the parser looks at the token after a value, so `12 intens full`
    // parses only once another token follows
    press(&mut wing, CommandWingButton::Token(Token::KeywordFull));
    assert!(wing.is_active());
    // then it sets an attribute, which is submitted at once
    press(&mut wing, CommandWingButton::Token(Token::Eof));
    assert!(!wing.is_active());
}

#[test]
fn clear_submits_itself() {
    let mut wing = CommandWing::default();
    press(&mut wing, CommandWingButton::Token(Token::KeywordClear));
    assert!(!wing.is_active());
}

#[test]
fn characters_build_a_string() {
    let mut wing = CommandWing::new();
    press(&mut wing, CommandWingButton::Char('P'));
    press(&mut wing, CommandWingButton::Char('a'));
    press(&mut wing, CommandWingButton::Char('n'));
    assert!(wing.is_active());
    press(&mut wing, CommandWingButton::Token(Token::KeywordOut));
    assert!(wing.is_active());
    // `"Pan" out` and an end token set the pan of the selected fixtures
    press(&mut wing, CommandWingButton::Token(Token::Eof));
    assert!(!wing.is_active());
}

#[test]
fn enter_submits_a_command_that_parses() {
    let mut wing = CommandWing::new();
    press(&mut wing, CommandWingButton::Token(Token::KeywordSequence));
    press(&mut wing, CommandWingButton::Enter);
    // `sequence` alone does not parse, so nothing is submitted
    assert!(wing.is_active());
    press(&mut wing, CommandWingButton::Digit(3));
    assert!(wing.is_active());
    // `sequence 3` needs a token after the number to parse
    press(&mut wing, CommandWingButton::Enter);
    assert!(wing.is_active());
    press(&mut wing, CommandWingButton::Token(Token::Eof));
    assert!(wing.is_active());
    press(&mut wing, CommandWingButton::Enter);
    assert!(!wing.is_active());
}

#[test]
fn digit_into_decimal_is_handed_out() {
    let mut wing = CommandWing::new();
    let bits = F32Bits(0x3fc0_0000);
    press(&mut wing, CommandWingButton::Token(Token::FloatingPoint(bits, 1, 5)));
    let step = press(&mut wing, CommandWingButton::Digit(2));
    assert_eq!(step, WingStep::EditDecimal { bits, n: 1, frac: 5, digit: 2 });
    wing.finish_decimal_digit(F32Bits(0x3fc2_8f5c), 1, 52);
    assert!(wing.is_active());
}

#[test]
fn digit_that_overflows_does_not_fit() {
    let mut wing = CommandWing::new();
    assert!(wing.digit_fits(9));
    press(&mut wing, CommandWingButton::Token(Token::Integer(429_496_729)));
    assert!(wing.digit_fits(5));
    assert!(!wing.digit_fits(6));
    press(&mut wing, CommandWingButton::Digit(5));
    assert!(!wing.digit_fits(0));
}
