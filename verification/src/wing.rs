//! The command wing, the hardware keyboard of the console: buttons enter
//! tokens, digits and characters, and commands are parsed from the tokens
//! entered so far.
//!
//! Digits typed into a decimal number change its floating-point value,
//! which the library does not compute: for such a digit the wing reports
//! [`WingStep::EditDecimal`], and the caller hands the new decimal back
//! through [`CommandWing::finish_decimal_digit`].

use vstd::prelude::*;
use crate::command::{Action, F32Bits, Token};
use crate::parser::{Parser2, sp_parse};

verus! {

/// A button of a command wing: one that enters a token, a digit or a
/// character, or the enter key.
#[derive(Debug, Clone)]
pub enum CommandWingButton {
    Token(Token),
    Digit(u8),
    Char(char),
    Enter,
}

/// What is left to do after a button press.
#[derive(Debug, Clone, Copy, PartialEq, Eq, Structural)]
pub enum WingStep {
    /// The press has been handled.
    Done,
    /// The digit `digit` was typed into the decimal that ends the tokens
    /// (value bits `bits`, integer part `n`, fraction digits `frac`); the
    /// new decimal is to be handed back.
    EditDecimal { bits: F32Bits, n: u32, frac: u32, digit: u8 },
}

/// The tokens entered on a wing and the actions submitted from it.
#[derive(Debug)]
pub struct CommandWing {
    tokens: Vec<Token>,
    pending_action_results: Vec<Action>,
}

/// The command the tokens `ts` form, if they form one.
pub open spec fn wing_parse(ts: Seq<Token>) -> Option<Action> {
    match sp_parse(ts, 0) {
        Ok(a) => Some(a),
        Err(_) => None,
    }
}

/// Actions that are submitted as soon as they can be parsed.
pub open spec fn auto_submits(a: Action) -> bool {
    a is ClearAll || a is SetAttributeValue
}

/// After the tokens became `ts` (with `pending` submitted before), the
/// wing holds `ts2` and `pending2`: a command that submits itself is
/// submitted and the tokens are cleared; otherwise nothing changes.
pub open spec fn auto_submit_step(
    ts: Seq<Token>,
    pending: Seq<Action>,
    ts2: Seq<Token>,
    pending2: Seq<Action>,
) -> bool {
    match wing_parse(ts) {
        Some(a) => if auto_submits(a) {
            ts2 == Seq::<Token>::empty() && pending2 == pending.push(a)
        } else {
            ts2 == ts && pending2 == pending
        },
        None => ts2 == ts && pending2 == pending,
    }
}

/// The tokens after typing the digit `d`: it extends an integer that ends
/// the tokens, or starts a new integer.
pub open spec fn digit_tokens(ts: Seq<Token>, d: u8) -> Seq<Token> {
    if ts.len() > 0 && ts.last() is Integer {
        ts.update(ts.len() - 1, Token::Integer((ts.last()->Integer_0 * 10 + d) as u32))
    } else {
        ts.push(Token::Integer(d as u32))
    }
}

/// The last token is a decimal.
pub open spec fn ends_with_decimal(ts: Seq<Token>) -> bool {
    ts.len() > 0 && ts.last() is FloatingPoint
}

/// `ts2` is `ts` after typing the character `c`: it extends a string that
/// ends the tokens, or starts a new string.
pub open spec fn char_tokens(ts: Seq<Token>, c: char, ts2: Seq<Token>) -> bool {
    if ts.len() > 0 && ts.last() is String {
        &&& ts2.len() == ts.len()
        &&& ts2.drop_last() == ts.drop_last()
        &&& ts2.last() matches Token::String(s) && s@ == ts.last()->String_0@.push(c)
    } else {
        &&& ts2.len() == ts.len() + 1
        &&& ts2.drop_last() == ts
        &&& ts2.last() matches Token::String(s) && s@ == seq![c]
    }
}

/// A digit typed into an integer that ends the tokens keeps it within 32
/// bits.
pub open spec fn digit_fits(ts: Seq<Token>, d: u8) -> bool {
    ts.len() > 0 && ts.last() is Integer ==> ts.last()->Integer_0 * 10 + d <= u32::MAX
}

impl CommandWing {
    /// The tokens entered so far.
    pub closed spec fn spec_tokens(&self) -> Seq<Token> {
        self.tokens@
    }

    /// The actions submitted so far, oldest first.
    pub closed spec fn spec_pending(&self) -> Seq<Action> {
        self.pending_action_results@
    }

    /// A wing with no tokens and nothing submitted.
    pub fn new() -> (res: CommandWing)
        ensures
            res.spec_tokens() == Seq::<Token>::empty(),
            res.spec_pending() == Seq::<Action>::empty(),
    {
        CommandWing { tokens: Vec::new(), pending_action_results: Vec::new() }
    }

    /// Some tokens have been entered.
    pub fn is_active(&self) -> (res: bool)
        ensures
            res == (self.spec_tokens().len() > 0),
    {
        self.tokens.len() != 0
    }

    /// Typing the digit `digit` keeps an integer that ends the tokens
    /// within 32 bits.
    pub fn digit_fits(&self, digit: u8) -> (res: bool)
        ensures
            res == digit_fits(self.spec_tokens(), digit),
    {
        let len = self.tokens.len();
        if len > 0 {
            if let Token::Integer(v) = &self.tokens[len - 1] {
                return *v <= (u32::MAX - digit as u32) / 10;
            }
        }
        true
    }

    fn push_token(&mut self, token: Token)
        ensures
            final(self).spec_tokens() == old(self).spec_tokens().push(token),
            final(self).spec_pending() == old(self).spec_pending(),
    {
        self.tokens.push(token);
    }

    fn submit(&mut self, action: Action)
        ensures
            final(self).spec_tokens() == Seq::<Token>::empty(),
            final(self).spec_pending() == old(self).spec_pending().push(action),
    {
        self.pending_action_results.push(action);
        self.tokens.clear();
    }

    fn should_auto_submit(action: &Action) -> (res: bool)
        ensures
            res == auto_submits(*action),
    {
        match action {
            Action::ClearAll => true,
            Action::SetAttributeValue(_) => true,
            _ => false,
        }
    }

    fn parse(&self) -> (res: Option<Action>)
        ensures
            res == wing_parse(self.spec_tokens()),
    {
        let mut p = Parser2::new(self.tokens.as_slice());
        match p.parse() {
            Ok(a) => Some(a),
            Err(_) => None,
        }
    }

    /// Submits the command the tokens form when it is one that submits
    /// itself.
    fn auto_submit(&mut self)
        ensures
            auto_submit_step(
                old(self).spec_tokens(),
                old(self).spec_pending(),
                final(self).spec_tokens(),
                final(self).spec_pending(),
            ),
    {
        if let Some(action) = self.parse() {
            if Self::should_auto_submit(&action) {
                self.submit(action);
            }
        }
    }

    fn handle_digit(&mut self, digit: u8) -> (res: WingStep)
        requires
            digit_fits(old(self).spec_tokens(), digit),
        ensures
            ends_with_decimal(old(self).spec_tokens()) ==> {
                &&& res == (WingStep::EditDecimal {
                    bits: old(self).spec_tokens().last()->FloatingPoint_0,
                    n: old(self).spec_tokens().last()->FloatingPoint_1,
                    frac: old(self).spec_tokens().last()->FloatingPoint_2,
                    digit,
                })
                &&& final(self).spec_tokens() == old(self).spec_tokens()
            },
            !ends_with_decimal(old(self).spec_tokens()) ==> {
                &&& res == WingStep::Done
                &&& final(self).spec_tokens() == digit_tokens(old(self).spec_tokens(), digit)
            },
            final(self).spec_pending() == old(self).spec_pending(),
    {
        let len = self.tokens.len();
        if len > 0 {
            match &self.tokens[len - 1] {
                Token::Integer(current_int) => {
                    let v = *current_int * 10 + digit as u32;
                    self.tokens.set(len - 1, Token::Integer(v));
                    return WingStep::Done;
                },
                Token::FloatingPoint(bits, n, frac) => {
                    return WingStep::EditDecimal { bits: *bits, n: *n, frac: *frac, digit };
                },
                _ => {},
            }
        }
        self.push_token(Token::Integer(digit as u32));
        WingStep::Done
    }

    fn handle_char(&mut self, c: char)
        ensures
            char_tokens(old(self).spec_tokens(), c, final(self).spec_tokens()),
            final(self).spec_pending() == old(self).spec_pending(),
    {
        let len = self.tokens.len();
        let ghost old_ts = self.tokens@;
        if len > 0 {
            if let Token::String(string) = &self.tokens[len - 1] {
                let mut s = string.clone();
                s.push(c);
                self.tokens.set(len - 1, Token::String(s));
                assert(self.tokens@.drop_last() =~= old_ts.drop_last());
                return;
            }
        }
        let mut s = String::new();
        s.push(c);
        assert(s@ =~= seq![c]);
        self.push_token(Token::String(s));
        assert(self.tokens@.drop_last() =~= old_ts);
    }

    /// Handles a button press: a token is added, a digit extends an integer
    /// (or starts one), a character extends a string (or starts one), and
    /// enter submits the command the tokens form. After any press but
    /// enter, a command that submits itself (clearing, or setting an
    /// attribute) is submitted at once.
    pub fn handle_button_press(&mut self, button: CommandWingButton) -> (res: WingStep)
        requires
            button matches CommandWingButton::Digit(d) ==> digit_fits(old(self).spec_tokens(), d),
        ensures
            match button {
                CommandWingButton::Token(t) => res == WingStep::Done && auto_submit_step(
                    old(self).spec_tokens().push(t),
                    old(self).spec_pending(),
                    final(self).spec_tokens(),
                    final(self).spec_pending(),
                ),
                CommandWingButton::Digit(d) => if ends_with_decimal(old(self).spec_tokens()) {
                    &&& res == (WingStep::EditDecimal {
                        bits: old(self).spec_tokens().last()->FloatingPoint_0,
                        n: old(self).spec_tokens().last()->FloatingPoint_1,
                        frac: old(self).spec_tokens().last()->FloatingPoint_2,
                        digit: d,
                    })
                    &&& final(self).spec_tokens() == old(self).spec_tokens()
                    &&& final(self).spec_pending() == old(self).spec_pending()
                } else {
                    res == WingStep::Done && auto_submit_step(
                        digit_tokens(old(self).spec_tokens(), d),
                        old(self).spec_pending(),
                        final(self).spec_tokens(),
                        final(self).spec_pending(),
                    )
                },
                CommandWingButton::Char(c) => res == WingStep::Done && exists|ts: Seq<Token>|
                    #![trigger char_tokens(old(self).spec_tokens(), c, ts)]
                    char_tokens(old(self).spec_tokens(), c, ts) && auto_submit_step(
                        ts,
                        old(self).spec_pending(),
                        final(self).spec_tokens(),
                        final(self).spec_pending(),
                    ),
                CommandWingButton::Enter => res == WingStep::Done && match wing_parse(
                    old(self).spec_tokens(),
                ) {
                    Some(a) => final(self).spec_tokens() == Seq::<Token>::empty()
                        && final(self).spec_pending() == old(self).spec_pending().push(a),
                    None => final(self).spec_tokens() == old(self).spec_tokens()
                        && final(self).spec_pending() == old(self).spec_pending(),
                },
            },
    {
        match button {
            CommandWingButton::Token(token) => self.push_token(token),
            CommandWingButton::Digit(digit) => {
                let step = self.handle_digit(digit);
                if let WingStep::EditDecimal { .. } = step {
                    return step;
                }
            },
            CommandWingButton::Char(c) => {
                self.handle_char(c);
                let ghost ts = self.spec_tokens();
                self.auto_submit();
                assert(char_tokens(old(self).spec_tokens(), c, ts));
                return WingStep::Done;
            },
            CommandWingButton::Enter => {
                if let Some(action) = self.parse() {
                    self.submit(action);
                }
                return WingStep::Done;
            },
        }
        self.auto_submit();
        WingStep::Done
    }

    /// Ends the typing of a digit into the decimal that ends the tokens: the
    /// decimal becomes the one with the bits `bits`, integer part `n` and
    /// fraction digits `frac`; then a command that submits itself is
    /// submitted.
    pub fn finish_decimal_digit(&mut self, bits: F32Bits, n: u32, frac: u32)
        requires
            ends_with_decimal(old(self).spec_tokens()),
        ensures
            auto_submit_step(
                old(self).spec_tokens().update(
                    old(self).spec_tokens().len() - 1,
                    Token::FloatingPoint(bits, n, frac),
                ),
                old(self).spec_pending(),
                final(self).spec_tokens(),
                final(self).spec_pending(),
            ),
    {
        let len = self.tokens.len();
        self.tokens.set(len - 1, Token::FloatingPoint(bits, n, frac));
        self.auto_submit();
    }
}

impl Default for CommandWing {
    fn default() -> (res: CommandWing)
        ensures
            res.spec_tokens() == Seq::<Token>::empty(),
            res.spec_pending() == Seq::<Action>::empty(),
    {
        CommandWing::new()
    }
}

/// Law: after the automatic submission, the tokens left on the wing never
/// form a command that would submit itself, so nothing is submitted twice.
pub proof fn law_auto_submit_settles(
    ts: Seq<Token>,
    pending: Seq<Action>,
    ts2: Seq<Token>,
    pending2: Seq<Action>,
)
    requires
        auto_submit_step(ts, pending, ts2, pending2),
    ensures
        !(wing_parse(ts2) matches Some(a) && auto_submits(a)),
        pending2.len() <= pending.len() + 1,
{
    if ts2 != ts {
        assert(ts2 == Seq::<Token>::empty());
        assert(sp_parse(ts2, 0) is Err);
    }
}

/// Law: after a press other than enter, a parsed command is submitted
/// without enter exactly when it clears everything or sets an attribute
/// value; any other command stays on the wing, and nothing but the parsed
/// command is ever submitted.
pub proof fn law_only_clear_and_set_submit_themselves(
    ts: Seq<Token>,
    pending: Seq<Action>,
    ts2: Seq<Token>,
    pending2: Seq<Action>,
)
    requires
        auto_submit_step(ts, pending, ts2, pending2),
    ensures
        (wing_parse(ts) matches Some(a) && (a is ClearAll || a is SetAttributeValue)) ==> (
            pending2 == pending.push(wing_parse(ts)->Some_0) && ts2.len() == 0
        ),
        (wing_parse(ts) matches Some(a) && !(a is ClearAll || a is SetAttributeValue)) ==> (
            pending2 == pending && ts2 == ts
        ),
        wing_parse(ts) is None ==> pending2 == pending && ts2 == ts,
        pending2 != pending ==> (
            pending2.len() == pending.len() + 1
            && pending2.drop_last() == pending
            && wing_parse(ts) == Some(pending2.last())
            && (pending2.last() is ClearAll || pending2.last() is SetAttributeValue)
        ),
{
    if pending2 != pending {
        assert(pending2.drop_last() =~= pending);
    }
}

} // verus!
