//! The facade that a host drives: an engine set up from the user's settings.
use vstd::prelude::*;
use crate::config::{Config, InputMethodType};
use crate::engine::{
    backspace_step, step, EngineView, InputMethod, ProcessResult, UnikeyEngine, BACKSPACE,
};

verus! {

/// The convention that a settings value selects.
pub open spec fn method_for(t: InputMethodType) -> InputMethod {
    match t {
        InputMethodType::Vni => InputMethod::Vni,
        _ => InputMethod::Telex,
    }
}

/// What the host talks to: an engine set up from the user's settings.
#[derive(Debug)]
pub struct InputMethodEngine {
    engine: UnikeyEngine,
}

impl View for InputMethodEngine {
    type V = EngineView;

    closed spec fn view(&self) -> EngineView {
        self.engine@
    }
}

impl InputMethodEngine {
    /// A fresh engine in Vietnamese mode, for the convention that `config` names.
    pub fn new(config: &Config) -> (r: Self)
        ensures
            r@ == (EngineView {
                buf: Seq::empty(),
                input_method: method_for(config.input_method),
                vietnamese_mode: true,
                free_marking: true,
                modern_style: true,
                tone_next_to_vowel: false,
                temp_disabled: false,
                last_w_converted: false,
            }),
    {
        let mut engine = UnikeyEngine::new();
        let method = match config.input_method {
            InputMethodType::Vni => InputMethod::Vni,
            _ => InputMethod::Telex,
        };
        engine.set_input_method(method);
        InputMethodEngine { engine }
    }

    pub fn process_keypress(&mut self, key_char: char) -> (r: ProcessResult)
        ensures
            (final(self)@, r@) == step(old(self)@, key_char),
    {
        self.engine.process(key_char)
    }

    /// Switches between Vietnamese and plain typing and starts a new word.
    pub fn toggle_vietnamese_mode(&mut self)
        ensures
            final(self)@ == (EngineView {
                vietnamese_mode: !old(self)@.vietnamese_mode,
                buf: Seq::empty(),
                temp_disabled: false,
                last_w_converted: false,
                ..old(self)@
            }),
    {
        self.engine.toggle_vietnamese_mode();
        self.engine.clear_buf();
    }

    /// Starts a new word, for instance after a focus change or a click.
    pub fn reset_buffer(&mut self)
        ensures
            final(self)@ == (EngineView {
                buf: Seq::empty(),
                temp_disabled: false,
                last_w_converted: false,
                ..old(self)@
            }),
    {
        self.engine.clear_buf();
    }

    pub fn is_vietnamese_mode(&self) -> (r: bool)
        ensures
            r == self@.vietnamese_mode,
    {
        self.engine.is_vietnamese_mode()
    }

    /// Deletes the last character of the word; returns the word left, or
    /// `None` when no word is left.
    pub fn backspace(&mut self) -> (r: Option<String>)
        ensures
            final(self)@ == backspace_step(old(self)@, BACKSPACE).0,
            final(self)@.buf.len() == 0 ==> r is None,
            final(self)@.buf.len() > 0 ==> (r matches Some(s) && s@ == final(self)@.buf),
    {
        let _ = self.engine.process_backspace(BACKSPACE);
        if self.engine.word_len() == 0 {
            None
        } else {
            Some(self.engine.get_buffer())
        }
    }

    /// The word typed so far; a new word then begins.
    pub fn commit_current_text(&mut self) -> (r: String)
        ensures
            r@ == old(self)@.buf,
            final(self)@ == (EngineView {
                buf: Seq::empty(),
                temp_disabled: false,
                last_w_converted: false,
                ..old(self)@
            }),
    {
        let word = self.engine.get_buffer();
        self.engine.clear_buf();
        word
    }

    /// The word typed so far.
    pub fn get_current_buffer(&self) -> (r: String)
        ensures
            r@ == self@.buf,
    {
        self.engine.get_buffer()
    }
}

} // verus!
