//! The pane into which a candidate decoding key is typed. Every key that
//! reaches its buffer validates the token afresh; two keys set the result by
//! hand instead.

use crate::algorithm::{family_of, AlgorithmFamily};
use crate::editor::{
    changes, ctrl_char, is_ctrl_char, key_for, keys_for, lemma_typing_appends, snapshot_lines,
    typed, typed_all, BufferState, EditBuffer, Snapshot,
};
use crate::key::{ec_key_in_pem, rsa_key_in_pem};
use crate::text::{join, join_lines};
use crate::token::{decomposed, Token, TokenError, TokenView};
use crate::validator::{
    lemma_text_without_pem_key_is_invalid, on_key_buffer_changed, validation_of, ValidationResult,
};
use tui_textarea::Input;
use vstd::prelude::*;
use vstd::utf8::encode_utf8;

verus! {

/// What the key pane is, as far as its behaviour depends on it.
pub struct SignatureState {
    /// The candidate key as typed so far.
    pub buffer: BufferState,
    /// The token under inspection.
    pub token: TokenView,
    /// Whether the candidate key is held to verify the token.
    pub result: ValidationResult,
    /// Whether the pane is drawn with emphasis.
    pub focused: bool,
}

/// The candidate key that a buffer of these lines holds: the lines joined
/// with line feeds, as bytes.
pub open spec fn key_material(lines: Seq<Seq<char>>) -> Seq<u8> {
    encode_utf8(join(lines, '\n'))
}

/// Whether `input` marks the candidate key as valid by hand: Ctrl and `v`.
pub open spec fn marks_valid(input: Input) -> bool {
    is_ctrl_char(input, 'v')
}

/// Whether `input` marks the candidate key as invalid by hand: Ctrl and `b`.
pub open spec fn marks_invalid(input: Input) -> bool {
    is_ctrl_char(input, 'b')
}

/// The result of validating `token` against the key that a buffer of these
/// lines holds.
pub open spec fn validated(token: TokenView, lines: Seq<Seq<char>>) -> ValidationResult {
    validation_of(token.raw, token.algorithm, key_material(lines))
}

/// The key pane after `input`.
///
/// A mark by hand sets the result and leaves the buffer alone. Every other
/// key goes to the buffer, and the result is that of validating the token
/// against what the buffer then holds.
pub open spec fn signature_after(state: SignatureState, input: Input) -> SignatureState {
    if marks_valid(input) {
        SignatureState { result: ValidationResult::Valid, ..state }
    } else if marks_invalid(input) {
        SignatureState { result: ValidationResult::Invalid, ..state }
    } else {
        let buffer = typed(state.buffer, input);
        SignatureState { buffer, result: validated(state.token, buffer.lines), ..state }
    }
}

/// Whether the key pane takes `input` up: a mark by hand always, another key
/// where it changes the text.
pub open spec fn signature_takes(state: SignatureState, input: Input) -> bool {
    marks_valid(input) || marks_invalid(input) || changes(state.buffer, input)
}

/// The pane into which a candidate decoding key is typed.
pub struct Signature {
    text_area: EditBuffer,
    token: Token,
    result: ValidationResult,
    focused: bool,
}

impl View for Signature {
    type V = SignatureState;

    closed spec fn view(&self) -> SignatureState {
        SignatureState {
            buffer: self.text_area@,
            token: self.token@,
            result: self.result,
            focused: self.focused,
        }
    }
}

impl Signature {
    /// The key pane for `jwt`: an empty buffer, the result `Invalid`, drawn
    /// with emphasis. Fails where `jwt` cannot be taken apart.
    pub fn new(jwt: String) -> (outcome: Result<Signature, TokenError>)
        ensures
            match outcome {
                Ok(pane) => {
                    &&& decomposed(jwt@) == Ok::<TokenView, TokenError>(pane@.token)
                    &&& pane@.buffer.lines == seq![Seq::<char>::empty()]
                    &&& pane@.buffer.appending
                    &&& pane@.result == ValidationResult::Invalid
                    &&& pane@.focused
                },
                Err(e) => decomposed(jwt@) == Err::<TokenView, TokenError>(e),
            },
    {
        match Token::decompose(jwt.as_str()) {
            Ok(token) => Ok(Signature::for_token(token)),
            Err(e) => Err(e),
        }
    }

    /// The key pane for a token that was taken apart already.
    pub fn for_token(token: Token) -> (pane: Signature)
        ensures
            pane@.token == token@,
            pane@.buffer.lines == seq![Seq::<char>::empty()],
            pane@.buffer.appending,
            pane@.result == ValidationResult::Invalid,
            pane@.focused,
    {
        Signature {
            text_area: EditBuffer::new(Vec::new()),
            token,
            result: ValidationResult::Invalid,
            focused: true,
        }
    }

    /// Handles one key. Ctrl and `v` marks the key valid, Ctrl and `b` marks
    /// it invalid, both without validating. Every other key is handed to the
    /// buffer, and the token is validated against what the buffer then
    /// holds. Returns whether the key was taken up.
    pub fn input(&mut self, input: Input) -> (taken: bool)
        ensures
            final(self)@ == signature_after(old(self)@, input),
            taken == signature_takes(old(self)@, input),
    {
        if ctrl_char(&input, 'v') {
            self.result = ValidationResult::Valid;
            true
        } else if ctrl_char(&input, 'b') {
            self.result = ValidationResult::Invalid;
            true
        } else {
            let changed = self.text_area.input(input);
            self.validate_signature();
            changed
        }
    }

    /// Validates the token against what the buffer holds now.
    fn validate_signature(&mut self)
        ensures
            final(self)@ == (SignatureState {
                result: validated(old(self)@.token, old(self)@.buffer.lines),
                ..old(self)@
            }),
    {
        let lines = self.text_area.lines();
        let decoding_key = join_lines(&lines);
        let alg = self.token.algorithm();
        self.result = on_key_buffer_changed(&self.token, alg, decoding_key.as_str().as_bytes());
    }

    /// Sets whether the pane is drawn with emphasis. Nothing else changes.
    pub fn set_focused(&mut self, focused: bool)
        ensures
            final(self)@ == (SignatureState { focused, ..old(self)@ }),
    {
        self.focused = focused;
    }

    /// Whether the pane is drawn with emphasis.
    pub fn is_focused(&self) -> (focused: bool)
        ensures
            focused == self@.focused,
    {
        self.focused
    }

    /// Whether the candidate key is held to verify the token.
    pub fn result(&self) -> (result: ValidationResult)
        ensures
            result == self@.result,
    {
        self.result
    }

    /// Whether the result is `Valid`.
    pub fn is_valid(&self) -> (valid: bool)
        ensures
            valid == (self@.result == ValidationResult::Valid),
    {
        match self.result {
            ValidationResult::Valid => true,
            ValidationResult::Invalid => false,
        }
    }

    /// The token under inspection.
    pub fn token(&self) -> (token: &Token)
        ensures
            token@ == self@.token,
    {
        &self.token
    }

    /// The lines typed so far.
    pub fn lines(&self) -> (lines: Vec<String>)
        ensures
            lines.deep_view() == self@.buffer.lines,
    {
        self.text_area.lines()
    }

    /// What the pane is drawn from: a copy of its editor, which the caller
    /// dresses with title, border and colours.
    pub fn widget(&self) -> (snapshot: Snapshot)
        ensures
            snapshot_lines(snapshot) == self@.buffer.lines,
    {
        self.text_area.snapshot()
    }

    /// The fixed part of the title on the pane's border.
    pub fn title() -> (title: &'static str)
        ensures
            title@ == " Decoding Key (^d) -"@,
    {
        " Decoding Key (^d) -"
    }

    /// The part of the title that tells the result.
    pub fn status(&self) -> (label: &'static str)
        ensures
            label@ == status_of(self@.result),
    {
        match self.result {
            ValidationResult::Valid => " Valid ",
            ValidationResult::Invalid => " Invalid ",
        }
    }

    /// The colour in which the result is told.
    pub fn status_color(&self) -> (color: StatusColor)
        ensures
            color == color_of(self@.result),
    {
        match self.result {
            ValidationResult::Valid => StatusColor::Green,
            ValidationResult::Invalid => StatusColor::Red,
        }
    }

    /// The colour of the pane's border: red, green, blue.
    pub fn accent() -> (rgb: (u8, u8, u8))
        ensures
            rgb == (0u8, 185u8, 241u8),
    {
        (0, 185, 241)
    }
}

/// The colour in which a result is told.
#[derive(Clone, Copy, Debug, PartialEq, Eq, Structural)]
pub enum StatusColor {
    /// For `Valid`.
    Green,
    /// For `Invalid`.
    Red,
}

/// The words that tell `result` in the title of the key pane.
pub open spec fn status_of(result: ValidationResult) -> Seq<char> {
    match result {
        ValidationResult::Valid => " Valid "@,
        ValidationResult::Invalid => " Invalid "@,
    }
}

/// The colour in which `result` is told.
pub open spec fn color_of(result: ValidationResult) -> StatusColor {
    match result {
        ValidationResult::Valid => StatusColor::Green,
        ValidationResult::Invalid => StatusColor::Red,
    }
}

/// A mark by hand decides the result whatever the buffer holds, and leaves
/// the buffer and the token alone.
pub proof fn lemma_mark_decides_result(state: SignatureState, input: Input)
    ensures
        marks_valid(input) ==> signature_after(state, input) == (SignatureState {
            result: ValidationResult::Valid,
            ..state
        }),
        marks_invalid(input) ==> signature_after(state, input) == (SignatureState {
            result: ValidationResult::Invalid,
            ..state
        }),
{
}

/// After a key that is no mark, the result is that of validating the token
/// against the buffer as the key left it, whatever the result was before.
pub proof fn lemma_key_validates_afresh(state: SignatureState, input: Input)
    requires
        !marks_valid(input),
        !marks_invalid(input),
    ensures
        signature_after(state, input).result == validated(
            state.token,
            signature_after(state, input).buffer.lines,
        ),
        signature_after(state, input).buffer == typed(state.buffer, input),
{
}

/// A mark by hand lasts until the next key that is no mark: after that key
/// the pane is as if the mark had never been given.
pub proof fn lemma_mark_lasts_one_key(state: SignatureState, mark: Input, input: Input)
    requires
        marks_valid(mark) || marks_invalid(mark),
        !marks_valid(input),
        !marks_invalid(input),
    ensures
        signature_after(signature_after(state, mark), input) == signature_after(state, input),
{
}

/// No key changes the token, its algorithm or the emphasis of the pane.
pub proof fn lemma_token_is_fixed(state: SignatureState, input: Input)
    ensures
        signature_after(state, input).token == state.token,
        signature_after(state, input).focused == state.focused,
{
}

/// Under an RSA or ECDSA algorithm, a key after which the buffer holds no
/// PEM key of that family leaves the result `Invalid`.
pub proof fn lemma_key_text_without_pem_key_is_invalid(state: SignatureState, input: Input)
    requires
        !marks_valid(input),
        !marks_invalid(input),
        ({
            let typed = key_material(typed(state.buffer, input).lines);
            let family = family_of(state.token.algorithm);
            family == AlgorithmFamily::Rsa && rsa_key_in_pem(typed) is None || family
                == AlgorithmFamily::Ec && ec_key_in_pem(typed) is None
        }),
    ensures
        signature_after(state, input).result == ValidationResult::Invalid,
{
    lemma_text_without_pem_key_is_invalid(
        state.token.raw,
        state.token.algorithm,
        key_material(typed(state.buffer, input).lines),
    );
}

/// The key pane after a run of keys, first key first.
pub open spec fn signature_after_all(state: SignatureState, inputs: Seq<Input>) -> SignatureState
    decreases inputs.len(),
{
    if inputs.len() == 0 {
        state
    } else {
        signature_after(signature_after_all(state, inputs.drop_last()), inputs.last())
    }
}

/// Typing a text that holds no carriage return, behind the end of what the
/// key pane holds, leaves the result of validating the token against the
/// old text followed by the typed one. In an empty pane that is the typed
/// text alone.
pub proof fn lemma_typing_the_key(state: SignatureState, text: Seq<char>)
    requires
        state.buffer.appending,
        state.buffer.lines.len() > 0,
        text.len() > 0,
        !text.contains('\r'),
    ensures
        signature_after_all(state, keys_for(text)).buffer == typed_all(
            state.buffer,
            keys_for(text),
        ),
        signature_after_all(state, keys_for(text)).token == state.token,
        signature_after_all(state, keys_for(text)).focused == state.focused,
        signature_after_all(state, keys_for(text)).result == validation_of(
            state.token.raw,
            state.token.algorithm,
            encode_utf8(join(state.buffer.lines, '\n') + text),
        ),
        state.buffer.lines == seq![Seq::<char>::empty()] ==> signature_after_all(
            state,
            keys_for(text),
        ).result == validation_of(state.token.raw, state.token.algorithm, encode_utf8(text)),
{
    lemma_typed_keys_reach_the_buffer(state, text);
    lemma_typing_appends(state.buffer, text);
    assert(keys_for(text).last() == key_for(text.last()));
    if state.buffer.lines == seq![Seq::<char>::empty()] {
        assert(join(state.buffer.lines, '\n') + text == text);
    }
}

/// Keys that type characters all go to the buffer, and the result after
/// the last of them is that of validating what the buffer then holds.
pub proof fn lemma_typed_keys_reach_the_buffer(state: SignatureState, text: Seq<char>)
    ensures
        signature_after_all(state, keys_for(text)).buffer == typed_all(
            state.buffer,
            keys_for(text),
        ),
        signature_after_all(state, keys_for(text)).token == state.token,
        signature_after_all(state, keys_for(text)).focused == state.focused,
        text.len() > 0 ==> signature_after_all(state, keys_for(text)).result == validated(
            state.token,
            typed_all(state.buffer, keys_for(text)).lines,
        ),
    decreases text.len(),
{
    if text.len() > 0 {
        let keys = keys_for(text);
        assert(keys.drop_last() == keys_for(text.drop_last()));
        assert(keys.last() == key_for(text.last()));
        lemma_typed_keys_reach_the_buffer(state, text.drop_last());
    }
}

} // verus!
