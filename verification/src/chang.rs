//! The coordinator: three panes, one of which has the focus and gets the
//! keys.

use crate::claims::Claims;
use crate::codec::{decode_segment, decoded_segment, display_lines, shown_lines};
use crate::editor::{changes, ctrl_char, is_ctrl_char, keys_for, pane_after, PaneState};
use crate::header::Header;
use crate::signature::{
    lemma_typing_the_key, signature_after, signature_after_all, signature_takes, Signature,
    SignatureState,
};
use crate::token::{
    declared_algorithm, decomposed, has_three_segments, Token, TokenError, TokenView,
};
use crate::validator::{validation_of, ValidationResult};
use jsonwebtoken::Algorithm;
use tui_textarea::{Input, Key};
use vstd::prelude::*;
use vstd::utf8::encode_utf8;

verus! {

/// The pane that has the focus.
#[derive(Clone, Copy, Debug, PartialEq, Eq, Structural)]
pub enum FocusArea {
    /// The pane that shows the header.
    Header,
    /// The pane that shows the claims.
    Claims,
    /// The pane into which the key is typed.
    Signature,
}

/// What the coordinator is, as far as its behaviour depends on it.
pub struct ChangState {
    /// The pane that shows the header.
    pub header: PaneState,
    /// The pane that shows the claims.
    pub claims: PaneState,
    /// The pane into which the key is typed.
    pub signature: SignatureState,
    /// The pane that has the focus.
    pub focus: FocusArea,
}

/// Whether exactly the pane that has the focus is drawn with emphasis.
pub open spec fn one_pane_focused(state: ChangState) -> bool {
    &&& state.header.focused == (state.focus == FocusArea::Header)
    &&& state.claims.focused == (state.focus == FocusArea::Claims)
    &&& state.signature.focused == (state.focus == FocusArea::Signature)
}

/// `state` with the emphasis of the pane `area` set to `focused`.
pub open spec fn with_emphasis(state: ChangState, area: FocusArea, focused: bool) -> ChangState {
    match area {
        FocusArea::Header => ChangState {
            header: PaneState { focused, ..state.header },
            ..state
        },
        FocusArea::Claims => ChangState {
            claims: PaneState { focused, ..state.claims },
            ..state
        },
        FocusArea::Signature => ChangState {
            signature: SignatureState { focused, ..state.signature },
            ..state
        },
    }
}

/// The coordinator after the focus was given to `area`: the pane that had
/// it loses its emphasis, `area` gains it.
pub open spec fn after_focus(state: ChangState, area: FocusArea) -> ChangState {
    let dimmed = with_emphasis(state, state.focus, false);
    ChangState { focus: area, ..with_emphasis(dimmed, area, true) }
}

/// The coordinator after `input` went to the pane that has the focus.
pub open spec fn after_input(state: ChangState, input: Input) -> ChangState {
    match state.focus {
        FocusArea::Header => ChangState { header: pane_after(state.header, input), ..state },
        FocusArea::Claims => ChangState { claims: pane_after(state.claims, input), ..state },
        FocusArea::Signature => ChangState {
            signature: signature_after(state.signature, input),
            ..state
        },
    }
}

/// Whether the pane that has the focus takes `input` up.
pub open spec fn takes_input(state: ChangState, input: Input) -> bool {
    match state.focus {
        FocusArea::Header => changes(state.header.buffer, input),
        FocusArea::Claims => changes(state.claims.buffer, input),
        FocusArea::Signature => signature_takes(state.signature, input),
    }
}

/// What a key asks of the coordinator.
#[derive(Clone, Copy, Debug, PartialEq, Eq, Structural)]
pub enum Command {
    /// End the session.
    Quit,
    /// Give the focus to a pane.
    Focus(FocusArea),
    /// Hand the key to the pane that has the focus.
    Forward,
}

/// Whether `input` ends the session: Esc alone, or `c` with Ctrl alone.
pub open spec fn quits(input: Input) -> bool {
    &&& !input.alt
    &&& !input.shift
    &&& input.key == Key::Esc && !input.ctrl || input.key == Key::Char('c') && input.ctrl
}

/// What `input` asks of the coordinator. Quitting comes first, then the
/// focus keys (Ctrl with `h`, `b` or `d`); every other key is forwarded.
pub open spec fn command_of(input: Input) -> Command {
    if quits(input) {
        Command::Quit
    } else if is_ctrl_char(input, 'h') {
        Command::Focus(FocusArea::Header)
    } else if is_ctrl_char(input, 'b') {
        Command::Focus(FocusArea::Claims)
    } else if is_ctrl_char(input, 'd') {
        Command::Focus(FocusArea::Signature)
    } else {
        Command::Forward
    }
}

/// What `input` asks of the coordinator.
pub fn command_for(input: &Input) -> (command: Command)
    ensures
        command == command_of(*input),
{
    let plain = !input.alt && !input.shift;
    let esc = match input.key {
        Key::Esc => !input.ctrl,
        _ => false,
    };
    if plain && (esc || ctrl_char(input, 'c')) {
        Command::Quit
    } else if ctrl_char(input, 'h') {
        Command::Focus(FocusArea::Header)
    } else if ctrl_char(input, 'b') {
        Command::Focus(FocusArea::Claims)
    } else if ctrl_char(input, 'd') {
        Command::Focus(FocusArea::Signature)
    } else {
        Command::Forward
    }
}

/// What became of a key.
#[derive(Clone, Copy, Debug, PartialEq, Eq, Structural)]
pub enum Outcome {
    /// The session ends; the coordinator did not change.
    Quit,
    /// The focus moved, or the pane that has the focus took the key up.
    Handled,
    /// The key went to the pane that has the focus, which did not take it up.
    Unhandled,
}

/// The coordinator after the key `input`.
pub open spec fn after_key(state: ChangState, input: Input) -> ChangState {
    match command_of(input) {
        Command::Quit => state,
        Command::Focus(area) => after_focus(state, area),
        Command::Forward => after_input(state, input),
    }
}

/// What becomes of the key `input`.
pub open spec fn outcome_of(state: ChangState, input: Input) -> Outcome {
    match command_of(input) {
        Command::Quit => Outcome::Quit,
        Command::Focus(_) => Outcome::Handled,
        Command::Forward => if takes_input(state, input) {
            Outcome::Handled
        } else {
            Outcome::Unhandled
        },
    }
}

/// Heights of the three panes from top to bottom, in percent of the screen.
pub struct Shares {
    /// The pane that shows the header.
    pub header: u16,
    /// The pane that shows the claims.
    pub claims: u16,
    /// The pane into which the key is typed.
    pub signature: u16,
}

/// The token's header and claims on display and the pane for the key, with
/// one of the three in focus.
pub struct Chang {
    header: Header,
    claims: Claims,
    signature: Signature,
    focus_area: FocusArea,
}

impl View for Chang {
    type V = ChangState;

    closed spec fn view(&self) -> ChangState {
        ChangState {
            header: self.header@,
            claims: self.claims@,
            signature: self.signature@,
            focus: self.focus_area,
        }
    }
}

impl Chang {
    /// Loads a token. Fails where `jwt` is not three non-empty segments
    /// separated by dots, or its header declares no known algorithm, or
    /// EdDSA. Otherwise the header and claims are on display, decoded where
    /// they can be; the key pane is empty, has the focus, and says `Invalid`.
    pub fn new(jwt: String) -> (outcome: Result<Chang, TokenError>)
        ensures
            match outcome {
                Ok(chang) => {
                    &&& decomposed(jwt@) == Ok::<TokenView, TokenError>(chang@.signature.token)
                    &&& chang@.header.buffer.lines == shown_lines(
                        decoded_segment(chang@.signature.token.header),
                    )
                    &&& chang@.claims.buffer.lines == shown_lines(
                        decoded_segment(chang@.signature.token.claims),
                    )
                    &&& chang@.signature.buffer.lines == seq![Seq::<char>::empty()]
                    &&& chang@.signature.buffer.appending
                    &&& chang@.signature.result == ValidationResult::Invalid
                    &&& chang@.focus == FocusArea::Signature
                    &&& one_pane_focused(chang@)
                },
                Err(e) => decomposed(jwt@) == Err::<TokenView, TokenError>(e),
            },
            !has_three_segments(jwt@) <==> outcome matches Err(TokenError::MalformedToken),
            has_three_segments(jwt@) && declared_algorithm(jwt@) == Some(Algorithm::EdDSA)
                ==> outcome matches Err(TokenError::UnsupportedAlgorithm),
    {
        let token = match Token::decompose(jwt.as_str()) {
            Ok(token) => token,
            Err(e) => {
                return Err(e);
            },
        };
        let mut header = Header::new(display_lines(decode_segment(token.header())));
        header.set_focused(false);
        let mut claims = Claims::new(display_lines(decode_segment(token.claims())));
        claims.set_focused(false);
        let signature = Signature::for_token(token);
        Ok(Chang { header, claims, signature, focus_area: FocusArea::Signature })
    }

    /// Gives the focus to `area`, whichever pane had it: that pane loses its
    /// emphasis and `area` gains it.
    pub fn focus_area(&mut self, area: FocusArea)
        ensures
            final(self)@ == after_focus(old(self)@, area),
            final(self)@.focus == area,
            one_pane_focused(old(self)@) ==> one_pane_focused(final(self)@),
    {
        match self.focus_area {
            FocusArea::Header => self.header.set_focused(false),
            FocusArea::Claims => self.claims.set_focused(false),
            FocusArea::Signature => self.signature.set_focused(false),
        }
        match area {
            FocusArea::Header => self.header.set_focused(true),
            FocusArea::Claims => self.claims.set_focused(true),
            FocusArea::Signature => self.signature.set_focused(true),
        }
        self.focus_area = area;
    }

    /// Hands `input` to the pane that has the focus, and to no other.
    /// Returns whether that pane took it up.
    pub fn process_input(&mut self, input: Input) -> (taken: bool)
        ensures
            final(self)@ == after_input(old(self)@, input),
            taken == takes_input(old(self)@, input),
            final(self)@.focus == old(self)@.focus,
            one_pane_focused(old(self)@) ==> one_pane_focused(final(self)@),
    {
        match self.focus_area {
            FocusArea::Header => self.header.input(input),
            FocusArea::Claims => self.claims.input(input),
            FocusArea::Signature => self.signature.input(input),
        }
    }

    /// Handles one key of the session: quits, moves the focus, or hands the
    /// key to the pane that has the focus.
    pub fn handle_key(&mut self, input: Input) -> (outcome: Outcome)
        ensures
            final(self)@ == after_key(old(self)@, input),
            outcome == outcome_of(old(self)@, input),
            one_pane_focused(old(self)@) ==> one_pane_focused(final(self)@),
    {
        match command_for(&input) {
            Command::Quit => Outcome::Quit,
            Command::Focus(area) => {
                self.focus_area(area);
                Outcome::Handled
            },
            Command::Forward => {
                if self.process_input(input) {
                    Outcome::Handled
                } else {
                    Outcome::Unhandled
                }
            },
        }
    }

    /// The pane that has the focus.
    pub fn focus(&self) -> (area: FocusArea)
        ensures
            area == self@.focus,
    {
        self.focus_area
    }

    /// The pane that shows the header.
    pub fn header(&self) -> (pane: &Header)
        ensures
            pane@ == self@.header,
    {
        &self.header
    }

    /// The pane that shows the claims.
    pub fn claims(&self) -> (pane: &Claims)
        ensures
            pane@ == self@.claims,
    {
        &self.claims
    }

    /// The pane into which the key is typed.
    pub fn signature(&self) -> (pane: &Signature)
        ensures
            pane@ == self@.signature,
    {
        &self.signature
    }

    /// Heights of the three panes: a fifth, three fifths, a fifth.
    pub fn shares() -> (shares: Shares)
        ensures
            shares.header == 20,
            shares.claims == 60,
            shares.signature == 20,
    {
        Shares { header: 20, claims: 60, signature: 20 }
    }
}

/// Giving the focus to a pane leaves exactly that pane with emphasis.
pub proof fn lemma_focus_keeps_one_pane_focused(state: ChangState, area: FocusArea)
    requires
        one_pane_focused(state),
    ensures
        one_pane_focused(after_focus(state, area)),
        after_focus(state, area).focus == area,
{
}

/// No key changes which pane has the focus or which is drawn with emphasis
/// when it is handed to the pane in focus.
pub proof fn lemma_input_keeps_focus(state: ChangState, input: Input)
    ensures
        after_input(state, input).focus == state.focus,
        one_pane_focused(state) ==> one_pane_focused(after_input(state, input)),
{
}

/// Whatever the key, afterwards exactly the pane in focus is drawn with
/// emphasis, if that was so before.
pub proof fn lemma_key_keeps_one_pane_focused(state: ChangState, input: Input)
    requires
        one_pane_focused(state),
    ensures
        one_pane_focused(after_key(state, input)),
{
}

/// A key handed on while the header or the claims have the focus changes
/// nothing of the key pane: not its buffer, not its token, not its result.
pub proof fn lemma_unfocused_key_pane_is_untouched(state: ChangState, input: Input)
    requires
        state.focus != FocusArea::Signature,
    ensures
        after_input(state, input).signature == state.signature,
{
}

/// A key goes to one pane only: the two that are not in focus stay as they
/// were.
pub proof fn lemma_input_reaches_one_pane(state: ChangState, input: Input)
    ensures
        state.focus != FocusArea::Header ==> after_input(state, input).header == state.header,
        state.focus != FocusArea::Claims ==> after_input(state, input).claims == state.claims,
        state.focus != FocusArea::Signature ==> after_input(state, input).signature
            == state.signature,
{
}

/// Moving the focus changes no text, no token and no validation result.
pub proof fn lemma_focus_changes_emphasis_only(state: ChangState, area: FocusArea)
    ensures
        after_focus(state, area).header.buffer == state.header.buffer,
        after_focus(state, area).claims.buffer == state.claims.buffer,
        after_focus(state, area).signature.buffer == state.signature.buffer,
        after_focus(state, area).signature.token == state.signature.token,
        after_focus(state, area).signature.result == state.signature.result,
{
}

/// The coordinator after a run of keys was handed to the pane in focus,
/// first key first.
pub open spec fn after_inputs(state: ChangState, inputs: Seq<Input>) -> ChangState
    decreases inputs.len(),
{
    if inputs.len() == 0 {
        state
    } else {
        after_input(after_inputs(state, inputs.drop_last()), inputs.last())
    }
}

/// While the header or the claims have the focus, no run of keys handed on
/// changes anything of the key pane.
pub proof fn lemma_unfocused_key_pane_stays_untouched(state: ChangState, inputs: Seq<Input>)
    requires
        state.focus != FocusArea::Signature,
    ensures
        after_inputs(state, inputs).signature == state.signature,
        after_inputs(state, inputs).focus == state.focus,
    decreases inputs.len(),
{
    if inputs.len() > 0 {
        lemma_unfocused_key_pane_stays_untouched(state, inputs.drop_last());
    }
}

/// While the key pane has the focus, a run of keys handed on is a run of
/// keys of the key pane, and the other panes stay as they were.
pub proof fn lemma_focused_key_pane_gets_the_keys(state: ChangState, inputs: Seq<Input>)
    requires
        state.focus == FocusArea::Signature,
    ensures
        after_inputs(state, inputs) == (ChangState {
            signature: signature_after_all(state.signature, inputs),
            ..state
        }),
    decreases inputs.len(),
{
    if inputs.len() > 0 {
        lemma_focused_key_pane_gets_the_keys(state, inputs.drop_last());
    }
}

/// With the key pane in focus, empty and appending, as it is when a token
/// was loaded, typing a key text that holds no carriage return leaves the
/// result of validating the token against that text.
pub proof fn lemma_typing_the_key_after_loading(state: ChangState, text: Seq<char>)
    requires
        state.focus == FocusArea::Signature,
        state.signature.buffer.lines == seq![Seq::<char>::empty()],
        state.signature.buffer.appending,
        text.len() > 0,
        !text.contains('\r'),
    ensures
        after_inputs(state, keys_for(text)).signature.result == validation_of(
            state.signature.token.raw,
            state.signature.token.algorithm,
            encode_utf8(text),
        ),
{
    lemma_focused_key_pane_gets_the_keys(state, keys_for(text));
    lemma_typing_the_key(state.signature, text);
}

} // verus!
