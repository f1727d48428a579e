//! The engine: key categories, the abstract state and the `step` function
//! that defines what a keypress does, and `UnikeyEngine`, which carries it out.
use vstd::prelude::*;
use crate::buffer::{pushed, push_char, KeyBuffer};
use crate::charset::{
    apply_mark, apply_tone_to_base, attr_of, base_family_of, base_form, char_attr, has_diacritic,
    is_vowel, letter, letter_of, mark_form, remove_mark, toned, Mark, FAMILY_A, FAMILY_E,
    FAMILY_I, FAMILY_O, FAMILY_U, FAMILY_Y, TONE_DOT, TONE_NONE,
};

verus! {

/// How far left of the tail a tone key looks for a vowel, past trailing consonants.
pub const MAX_AFTER_VOWEL: usize = 2;

/// The longest run of adjacent vowels that a tone is placed within.
pub const MAX_VOWEL_SEQUENCE: usize = 3;

/// How far left of the tail a modifier key looks for a letter to modify.
pub const MAX_MODIFY_LENGTH: usize = 6;

/// The backspace key.
pub const BACKSPACE: char = '\u{8}';

/// The keying conventions.
#[derive(Debug, Clone, Copy, PartialEq, Eq, Structural)]
pub enum InputMethod {
    Telex,
    Vni,
    Viqr,
}

/// What a key does under the active convention.
#[derive(Debug, Clone, Copy, PartialEq, Eq, Structural)]
pub enum KeyCategory {
    /// An ordinary character: it joins the word as typed.
    Plain,
    /// Whitespace and punctuation, and digits outside VNI: the word ends.
    Separator,
    Backspace,
    /// A tone key, with its tone slot (1 to 5).
    ToneMark(u8),
    /// Telex `w`: breve or horn on the nearest `a`, `o` or `u`.
    BreveMark,
    /// Telex `a`, `e`, `o`, `d`: typed after the same letter, it gives `â ê ô đ`.
    DoubleKey,
    /// Telex `[` and `]`, with the letter they stand for.
    ShortKey(char),
    /// VNI `6` to `9`, with the mark they put.
    VniMark(Mark),
}

/// Whitespace and punctuation end a word; so do digits, except under VNI
/// where they are keys; `[` and `]` are shortcuts under Telex.
pub open spec fn is_separator(method: InputMethod, c: char) -> bool {
    match c {
        ' ' | '\n' | '\r' | '\t' | '.' | ',' | ';' | ':' | '!' | '?' | '(' | ')' | '{' | '}'
        | '<' | '>' | '/' | '\\' | '"' | '\'' | '-' | '_' | '+' | '=' | '@' | '#' | '$' | '%'
        | '^' | '&' | '*' | '|' | '`' | '~' => true,
        '[' | ']' => method != InputMethod::Telex,
        '0' | '1' | '2' | '3' | '4' | '5' | '6' | '7' | '8' | '9' => method != InputMethod::Vni,
        _ => false,
    }
}

pub open spec fn category_of(method: InputMethod, c: char) -> KeyCategory {
    if c == BACKSPACE {
        KeyCategory::Backspace
    } else if is_separator(method, c) {
        KeyCategory::Separator
    } else {
        match method {
            InputMethod::Telex => match c {
                's' | 'S' => KeyCategory::ToneMark(1),
                'f' | 'F' => KeyCategory::ToneMark(2),
                'r' | 'R' => KeyCategory::ToneMark(3),
                'x' | 'X' => KeyCategory::ToneMark(4),
                'j' | 'J' => KeyCategory::ToneMark(5),
                'w' | 'W' => KeyCategory::BreveMark,
                'a' | 'A' | 'e' | 'E' | 'o' | 'O' | 'd' | 'D' => KeyCategory::DoubleKey,
                '[' => KeyCategory::ShortKey('ơ'),
                ']' => KeyCategory::ShortKey('Ơ'),
                _ => KeyCategory::Plain,
            },
            InputMethod::Vni => match c {
                '1' => KeyCategory::ToneMark(1),
                '2' => KeyCategory::ToneMark(2),
                '3' => KeyCategory::ToneMark(3),
                '4' => KeyCategory::ToneMark(4),
                '5' => KeyCategory::ToneMark(5),
                '6' => KeyCategory::VniMark(Mark::Circumflex),
                '7' => KeyCategory::VniMark(Mark::Horn),
                '8' => KeyCategory::VniMark(Mark::Breve),
                '9' => KeyCategory::VniMark(Mark::Stroke),
                _ => KeyCategory::Plain,
            },
            InputMethod::Viqr => KeyCategory::Plain,
        }
    }
}

/// The abstract state of the engine.
pub struct EngineView {
    /// The current word as it stands on screen.
    pub buf: Seq<char>,
    pub input_method: InputMethod,
    pub vietnamese_mode: bool,
    pub free_marking: bool,
    pub modern_style: bool,
    pub tone_next_to_vowel: bool,
    /// Set by an escape; Vietnamese processing stays off until the word ends.
    pub temp_disabled: bool,
    /// The last key was a `w` that stood alone for `ư`.
    pub last_w_converted: bool,
}

/// An edit instruction for the host, as values.
pub enum Edit {
    /// Let the key through.
    Pass(char),
    /// Insert the text.
    Emit(Seq<char>),
    /// Delete `backspaces` characters, then insert the text.
    Replace { backspaces: nat, text: Seq<char> },
}

/// The text on screen after the host carries out an edit. A backspace that
/// is let through deletes one character.
pub open spec fn apply_edit(screen: Seq<char>, e: Edit) -> Seq<char> {
    match e {
        Edit::Pass(c) => if c == BACKSPACE {
            if screen.len() > 0 {
                screen.drop_last()
            } else {
                screen
            }
        } else {
            screen.push(c)
        },
        Edit::Emit(t) => screen + t,
        Edit::Replace { backspaces, text } => if backspaces <= screen.len() {
            screen.subrange(0, screen.len() - backspaces) + text
        } else {
            text
        },
    }
}

/// The rightmost vowel at `i` or left of it, but not left of `lo`, with
/// only non-separators between it and `i`.
pub open spec fn find_vowel(method: InputMethod, buf: Seq<char>, i: int, lo: int) -> Option<int>
    decreases i + 1,
{
    if i < 0 || i < lo || i >= buf.len() {
        None
    } else if is_vowel(buf[i]) {
        Some(i)
    } else if is_separator(method, buf[i]) {
        None
    } else {
        find_vowel(method, buf, i - 1, lo)
    }
}

/// The rightmost letter at `i` or left of it, but not left of `lo`, that the
/// mark applies to, with only non-separators between it and `i`.
pub open spec fn find_markable(method: InputMethod, m: Mark, buf: Seq<char>, i: int, lo: int) -> Option<int>
    decreases i + 1,
{
    if i < 0 || i < lo || i >= buf.len() {
        None
    } else if mark_form(m, buf[i]) is Some {
        Some(i)
    } else if is_separator(method, buf[i]) {
        None
    } else {
        find_markable(method, m, buf, i - 1, lo)
    }
}

/// The start of the run of adjacent vowels that ends at `e`, at most
/// `MAX_VOWEL_SEQUENCE` long, searched from `s` leftwards.
pub open spec fn run_start(buf: Seq<char>, e: int, s: int) -> int
    decreases s,
{
    if 0 < s && s <= buf.len() && e - s + 1 < MAX_VOWEL_SEQUENCE && is_vowel(buf[s - 1]) {
        run_start(buf, e, s - 1)
    } else {
        s
    }
}

/// The rightmost position in `s..=k` whose vowel carries a circumflex, breve or horn.
pub open spec fn rightmost_marked(buf: Seq<char>, s: int, k: int) -> Option<int>
    decreases k - s + 1,
{
    if k < s || k < 0 || k >= buf.len() {
        None
    } else if has_diacritic(attr_of(buf[k]).family) {
        Some(k)
    } else {
        rightmost_marked(buf, s, k - 1)
    }
}

/// `qu` and `gi` before a run: the `u` or `i` is a glide, not the vowel that takes the tone.
pub open spec fn glide_at(buf: Seq<char>, s: int) -> bool {
    0 < s < buf.len() && {
        let p = buf[s - 1];
        let f = attr_of(buf[s]).family;
        ((p == 'q' || p == 'Q') && f == FAMILY_U) || ((p == 'g' || p == 'G') && f == FAMILY_I)
    }
}

/// The pairs `oa`, `oe`, `uy`, whose second vowel takes the tone in the modern style.
pub open spec fn modern_pair(a: char, b: char) -> bool {
    let fa = attr_of(a).family;
    let fb = attr_of(b).family;
    (fa == FAMILY_O && (fb == FAMILY_A || fb == FAMILY_E)) || (fa == FAMILY_U && fb == FAMILY_Y)
}

/// Where a tone goes, given the vowel `e` found left of the tone key.
/// A vowel with a circumflex, breve or horn attracts the tone (the rightmost
/// one, as in `ươ`); otherwise a single vowel takes it, a run of three takes
/// it on its middle vowel, and of a pair the second vowel takes it after a
/// glide, in a modern-style `oa`, `oe`, `uy`, and when a consonant closes
/// the word; else the first.
pub open spec fn tone_target(v: EngineView, e: int) -> int {
    let s = run_start(v.buf, e, e);
    if v.tone_next_to_vowel {
        e
    } else {
        match rightmost_marked(v.buf, s, e) {
            Some(k) => k,
            None => if e == s {
                e
            } else if e - s == 2 {
                s + 1
            } else if glide_at(v.buf, s) || (v.modern_style && modern_pair(v.buf[s], v.buf[e]))
                || e + 1 < v.buf.len() {
                e
            } else {
                s
            },
        }
    }
}

/// The vowel that a tone key would change, if there is one in reach.
pub open spec fn tone_vowel(v: EngineView) -> Option<int> {
    find_vowel(v.input_method, v.buf, v.buf.len() - 1, v.buf.len() - 1 - MAX_AFTER_VOWEL)
}

/// The letter that a modifier key would change, if there is one in reach.
pub open spec fn mark_position(v: EngineView, m: Mark) -> Option<int> {
    let n = v.buf.len() as int;
    let lo = if v.free_marking {
        n - MAX_MODIFY_LENGTH
    } else {
        n - 1
    };
    find_markable(v.input_method, m, v.buf, n - 1, lo)
}

/// The word is empty or its tail is a separator.
pub open spec fn at_word_start(v: EngineView) -> bool {
    v.buf.len() == 0 || is_separator(v.input_method, v.buf.last())
}

/// The letter that a stand-alone `w` gives.
pub open spec fn w_shortcut(c: char) -> char {
    if c == 'W' {
        'Ư'
    } else {
        'ư'
    }
}

/// The mark that a doubled Telex letter puts.
pub open spec fn double_mark(c: char) -> Mark {
    if c == 'd' || c == 'D' {
        Mark::Stroke
    } else {
        Mark::Circumflex
    }
}

/// The key joins the word as typed.
pub open spec fn plain_step(v: EngineView, c: char) -> (EngineView, Edit) {
    (EngineView { buf: pushed(v.buf, c), last_w_converted: false, ..v }, Edit::Pass(c))
}

/// A separator ends the word.
pub open spec fn clear_step(v: EngineView, c: char) -> (EngineView, Edit) {
    (
        EngineView {
            buf: Seq::empty(),
            temp_disabled: false,
            last_w_converted: false,
            ..v
        },
        Edit::Pass(c),
    )
}

/// A backspace removes the tail of the word.
pub open spec fn backspace_step(v: EngineView, c: char) -> (EngineView, Edit) {
    (
        EngineView {
            buf: if v.buf.len() > 0 {
                v.buf.drop_last()
            } else {
                v.buf
            },
            last_w_converted: false,
            ..v
        },
        Edit::Pass(c),
    )
}

/// Position `p` is rewritten as `ch` and the text from `p` on is sent again.
/// On an escape the key itself follows, literally, and Vietnamese processing
/// stops until the word ends.
pub open spec fn rewrite_step(v: EngineView, p: int, ch: char, c: char, escape: bool) -> (
    EngineView,
    Edit,
) {
    let b = v.buf.update(p, ch);
    let n = v.buf.len() as int;
    if escape {
        (
            EngineView {
                buf: pushed(b, c),
                temp_disabled: true,
                last_w_converted: false,
                ..v
            },
            Edit::Replace { backspaces: (n - p) as nat, text: b.subrange(p, n).push(c) },
        )
    } else {
        (
            EngineView { buf: b, last_w_converted: false, ..v },
            Edit::Replace { backspaces: (n - p) as nat, text: b.subrange(p, n) },
        )
    }
}

/// A tone key: the vowel chosen by `tone_target` takes the tone; where it
/// already carries that tone, the tone comes off and the key stays literal.
pub open spec fn tone_step(v: EngineView, c: char, tone: u8) -> (EngineView, Edit) {
    match tone_vowel(v) {
        None => plain_step(v, c),
        Some(e) => {
            let p = tone_target(v, e);
            let ch = v.buf[p];
            if attr_of(ch).tone == tone {
                rewrite_step(v, p, toned(ch, TONE_NONE), c, true)
            } else {
                rewrite_step(v, p, toned(ch, tone), c, false)
            }
        },
    }
}

/// A modifier key: the nearest letter that the mark applies to takes it;
/// where it already carries it, the mark comes off and the key stays literal.
pub open spec fn mark_step(v: EngineView, c: char, m: Mark) -> Option<(EngineView, Edit)> {
    match mark_position(v, m) {
        None => None,
        Some(i) => {
            let ch = v.buf[i];
            let target = mark_form(m, ch)->Some_0;
            if target == ch {
                Some(rewrite_step(v, i, base_form(ch), c, true))
            } else {
                Some(rewrite_step(v, i, target, c, false))
            }
        },
    }
}

/// A shortcut key adds the letter it stands for; typed again over that
/// letter, it replaces it, literally, and Vietnamese processing stops until
/// the word ends.
pub open spec fn shortcut_step(v: EngineView, c: char, target: char, is_w: bool) -> (
    EngineView,
    Edit,
) {
    let n = v.buf.len() as int;
    if n > 0 && v.buf[n - 1] == target {
        (
            EngineView {
                buf: v.buf.update(n - 1, c),
                temp_disabled: true,
                last_w_converted: false,
                ..v
            },
            Edit::Replace { backspaces: 1, text: seq![c] },
        )
    } else {
        (
            EngineView { buf: pushed(v.buf, target), last_w_converted: is_w, ..v },
            Edit::Emit(seq![target]),
        )
    }
}

/// Telex `w`: a breve or horn where a letter takes one, else `ư` at the
/// start of a word, else the key as typed.
pub open spec fn breve_step(v: EngineView, c: char) -> (EngineView, Edit) {
    if v.last_w_converted {
        shortcut_step(v, c, w_shortcut(c), true)
    } else {
        match mark_step(v, c, Mark::BreveOrHorn) {
            Some(r) => r,
            None => if at_word_start(v) {
                shortcut_step(v, c, w_shortcut(c), true)
            } else {
                plain_step(v, c)
            },
        }
    }
}

/// Telex `a`, `e`, `o`, `d` typed after the same letter: the circumflex or
/// the stroke; typed after `â`, `ê`, `ô`, `đ`: the mark comes off and the key
/// stays literal.
pub open spec fn double_step(v: EngineView, c: char) -> (EngineView, Edit) {
    let n = v.buf.len() as int;
    if n > 0 && letter_of(v.buf[n - 1]) == letter_of(c) && mark_form(double_mark(c), v.buf[n - 1]) is Some {
        let ch = v.buf[n - 1];
        let target = mark_form(double_mark(c), ch)->Some_0;
        if target == ch {
            rewrite_step(v, n - 1, base_form(ch), c, true)
        } else {
            rewrite_step(v, n - 1, target, c, false)
        }
    } else {
        plain_step(v, c)
    }
}

/// What one keypress does: the next state, and the instruction for the host.
pub open spec fn step(v: EngineView, c: char) -> (EngineView, Edit) {
    if !v.vietnamese_mode {
        (EngineView { buf: pushed(v.buf, c), ..v }, Edit::Pass(c))
    } else {
        match category_of(v.input_method, c) {
            KeyCategory::Separator => clear_step(v, c),
            KeyCategory::Backspace => backspace_step(v, c),
            cat => if v.temp_disabled {
                plain_step(v, c)
            } else {
                match cat {
                    KeyCategory::ToneMark(t) => tone_step(v, c, t),
                    KeyCategory::BreveMark => breve_step(v, c),
                    KeyCategory::DoubleKey => double_step(v, c),
                    KeyCategory::ShortKey(target) => shortcut_step(v, c, target, false),
                    KeyCategory::VniMark(m) => match mark_step(v, c, m) {
                        Some(r) => r,
                        None => plain_step(v, c),
                    },
                    _ => plain_step(v, c),
                }
            },
        }
    }
}

pub proof fn lemma_find_vowel_bounds(method: InputMethod, buf: Seq<char>, i: int, lo: int)
    ensures
        find_vowel(method, buf, i, lo) matches Some(e) ==> lo <= e <= i && 0 <= e < buf.len(),
    decreases i + 1,
{
    if i < 0 || i < lo || i >= buf.len() {
    } else if is_vowel(buf[i]) {
    } else if is_separator(method, buf[i]) {
    } else {
        lemma_find_vowel_bounds(method, buf, i - 1, lo);
    }
}

pub proof fn lemma_rightmost_marked_bounds(buf: Seq<char>, s: int, k: int)
    ensures
        rightmost_marked(buf, s, k) matches Some(j) ==> s <= j <= k && 0 <= j < buf.len(),
    decreases k - s + 1,
{
    if k < s || k < 0 || k >= buf.len() {
    } else if has_diacritic(attr_of(buf[k]).family) {
    } else {
        lemma_rightmost_marked_bounds(buf, s, k - 1);
    }
}

pub proof fn lemma_find_markable_bounds(method: InputMethod, m: Mark, buf: Seq<char>, i: int, lo: int)
    ensures
        find_markable(method, m, buf, i, lo) matches Some(e) ==> lo <= e <= i && 0 <= e
            < buf.len() && mark_form(m, buf[e]) is Some,
    decreases i + 1,
{
    if i < 0 || i < lo || i >= buf.len() {
    } else if mark_form(m, buf[i]) is Some {
    } else if is_separator(method, buf[i]) {
    } else {
        lemma_find_markable_bounds(method, m, buf, i - 1, lo);
    }
}

/// An edit instruction for the host.
#[derive(Debug, Clone)]
pub enum ProcessResult {
    /// Let the key through unchanged.
    PassThrough(char),
    /// Insert the text; delete nothing.
    Output(String),
    /// Delete `backspaces` characters, then insert the text.
    Replace { backspaces: usize, text: String },
}

impl View for ProcessResult {
    type V = Edit;

    open spec fn view(&self) -> Edit {
        match self {
            ProcessResult::PassThrough(c) => Edit::Pass(*c),
            ProcessResult::Output(t) => Edit::Emit(t@),
            ProcessResult::Replace { backspaces, text } => Edit::Replace {
                backspaces: *backspaces as nat,
                text: text@,
            },
        }
    }
}

/// The input method engine: a transducer from keypresses to edit instructions.
#[derive(Debug)]
pub struct UnikeyEngine {
    buf: KeyBuffer,
    last_w_converted: bool,
    temp_viet_off: bool,
    input_method: InputMethod,
    vietnamese_mode: bool,
    free_marking: bool,
    tone_next_to_vowel: bool,
    modern_style: bool,
}

impl View for UnikeyEngine {
    type V = EngineView;

    closed spec fn view(&self) -> EngineView {
        EngineView {
            buf: self.buf@,
            input_method: self.input_method,
            vietnamese_mode: self.vietnamese_mode,
            free_marking: self.free_marking,
            modern_style: self.modern_style,
            tone_next_to_vowel: self.tone_next_to_vowel,
            temp_disabled: self.temp_viet_off,
            last_w_converted: self.last_w_converted,
        }
    }
}

fn is_vowel_char(c: char) -> (r: bool)
    ensures
        r == is_vowel(c),
{
    char_attr(c).family > 0
}

fn single_char_text(c: char) -> (r: String)
    ensures
        r@ == seq![c],
{
    let mut s = String::new();
    push_char(&mut s, c);
    proof {
        assert(s@ =~= seq![c]);
    }
    s
}

impl UnikeyEngine {
    /// A fresh engine: Telex, Vietnamese mode on, free marking on, modern
    /// style on, tones placed by the orthographic rules, an empty word.
    pub fn new() -> (r: Self)
        ensures
            r@ == (EngineView {
                buf: Seq::empty(),
                input_method: InputMethod::Telex,
                vietnamese_mode: true,
                free_marking: true,
                modern_style: true,
                tone_next_to_vowel: false,
                temp_disabled: false,
                last_w_converted: false,
            }),
    {
        UnikeyEngine {
            buf: KeyBuffer::new(),
            last_w_converted: false,
            temp_viet_off: false,
            input_method: InputMethod::Telex,
            vietnamese_mode: true,
            free_marking: true,
            tone_next_to_vowel: false,
            modern_style: true,
        }
    }

    /// Forgets the current word and both latches.
    pub fn clear_buf(&mut self)
        ensures
            final(self)@ == (EngineView {
                buf: Seq::empty(),
                temp_disabled: false,
                last_w_converted: false,
                ..old(self)@
            }),
    {
        self.buf.clear();
        self.last_w_converted = false;
        self.temp_viet_off = false;
    }

    fn is_separator_char(&self, c: char) -> (r: bool)
        ensures
            r == is_separator(self.input_method, c),
    {
        match c {
            ' ' | '\n' | '\r' | '\t' | '.' | ',' | ';' | ':' | '!' | '?' | '(' | ')' | '{' | '}'
            | '<' | '>' | '/' | '\\' | '"' | '\'' | '-' | '_' | '+' | '=' | '@' | '#' | '$'
            | '%' | '^' | '&' | '*' | '|' | '`' | '~' => true,
            '[' | ']' => match self.input_method {
                InputMethod::Telex => false,
                _ => true,
            },
            '0' | '1' | '2' | '3' | '4' | '5' | '6' | '7' | '8' | '9' => match self.input_method {
                InputMethod::Vni => false,
                _ => true,
            },
            _ => false,
        }
    }

    /// What the key does under the active convention.
    fn key_category(&self, c: char) -> (r: KeyCategory)
        ensures
            r == category_of(self.input_method, c),
    {
        if c == BACKSPACE {
            KeyCategory::Backspace
        } else if self.is_separator_char(c) {
            KeyCategory::Separator
        } else {
            match self.input_method {
                InputMethod::Telex => match c {
                    's' | 'S' => KeyCategory::ToneMark(1),
                    'f' | 'F' => KeyCategory::ToneMark(2),
                    'r' | 'R' => KeyCategory::ToneMark(3),
                    'x' | 'X' => KeyCategory::ToneMark(4),
                    'j' | 'J' => KeyCategory::ToneMark(5),
                    'w' | 'W' => KeyCategory::BreveMark,
                    'a' | 'A' | 'e' | 'E' | 'o' | 'O' | 'd' | 'D' => KeyCategory::DoubleKey,
                    '[' => KeyCategory::ShortKey('ơ'),
                    ']' => KeyCategory::ShortKey('Ơ'),
                    _ => KeyCategory::Plain,
                },
                InputMethod::Vni => match c {
                    '1' => KeyCategory::ToneMark(1),
                    '2' => KeyCategory::ToneMark(2),
                    '3' => KeyCategory::ToneMark(3),
                    '4' => KeyCategory::ToneMark(4),
                    '5' => KeyCategory::ToneMark(5),
                    '6' => KeyCategory::VniMark(Mark::Circumflex),
                    '7' => KeyCategory::VniMark(Mark::Horn),
                    '8' => KeyCategory::VniMark(Mark::Breve),
                    '9' => KeyCategory::VniMark(Mark::Stroke),
                    _ => KeyCategory::Plain,
                },
                InputMethod::Viqr => KeyCategory::Plain,
            }
        }
    }

    /// Appends the key to the word and lets it through.
    fn put_char(&mut self, c: char) -> (r: ProcessResult)
        ensures
            (final(self)@, r@) == plain_step(old(self)@, c),
    {
        self.buf.push(c);
        self.last_w_converted = false;
        ProcessResult::PassThrough(c)
    }

    /// Removes the tail of the word and lets the backspace through.
    pub(crate) fn process_backspace(&mut self, c: char) -> (r: ProcessResult)
        ensures
            (final(self)@, r@) == backspace_step(old(self)@, c),
    {
        let _ = self.buf.pop();
        self.last_w_converted = false;
        ProcessResult::PassThrough(c)
    }

    /// Walks left from the tail, past at most `MAX_AFTER_VOWEL` consonants,
    /// to the vowel that a tone key would act on.
    fn find_tone_vowel(&self) -> (r: Option<usize>)
        ensures
            match r {
                Some(i) => tone_vowel(self@) == Some(i as int),
                None => tone_vowel(self@) is None,
            },
    {
        let n = self.buf.len();
        let ghost lo: int = n - 1 - MAX_AFTER_VOWEL;
        let lo_u: usize = if n > 1 + MAX_AFTER_VOWEL {
            n - 1 - MAX_AFTER_VOWEL
        } else {
            0
        };
        let mut k: usize = n;
        while k > lo_u
            invariant
                lo_u <= k <= n,
                n == self@.buf.len(),
                lo_u == (if lo > 0 { lo } else { 0 }),
                tone_vowel(self@) == find_vowel(self.input_method, self@.buf, k - 1, lo),
            decreases k,
        {
            let ch = self.buf.get(k - 1);
            if is_vowel_char(ch) {
                return Some(k - 1);
            }
            if self.is_separator_char(ch) {
                return None;
            }
            k -= 1;
        }
        None
    }

    /// The start of the vowel run that ends at `e`.
    fn vowel_run_start(&self, e: usize) -> (r: usize)
        requires
            e < self@.buf.len(),
        ensures
            r == run_start(self@.buf, e as int, e as int),
            r <= e,
    {
        let mut s: usize = e;
        loop
            invariant
                s <= e < self@.buf.len(),
                run_start(self@.buf, e as int, s as int) == run_start(self@.buf, e as int, e as int),
            decreases s,
        {
            if s > 0 && e - s + 1 < MAX_VOWEL_SEQUENCE && is_vowel_char(self.buf.get(s - 1)) {
                s -= 1;
            } else {
                return s;
            }
        }
    }

    /// The rightmost vowel in `s..=e` that carries a circumflex, breve or horn.
    fn find_marked(&self, s: usize, e: usize) -> (r: Option<usize>)
        requires
            s <= e < self@.buf.len(),
        ensures
            match r {
                Some(k) => rightmost_marked(self@.buf, s as int, e as int) == Some(k as int),
                None => rightmost_marked(self@.buf, s as int, e as int) is None,
            },
    {
        let mut k: usize = e;
        loop
            invariant
                s <= k <= e < self@.buf.len(),
                rightmost_marked(self@.buf, s as int, e as int) == rightmost_marked(
                    self@.buf,
                    s as int,
                    k as int,
                ),
            decreases k,
        {
            let f = char_attr(self.buf.get(k)).family;
            if f != base_family_of(f) {
                return Some(k);
            }
            if k == s {
                assert(rightmost_marked(self@.buf, s as int, k - 1) is None);
                return None;
            }
            k -= 1;
        }
    }

    /// Where the tone goes, given the vowel `e` that the walk found.
    fn tone_target_pos(&self, e: usize) -> (r: usize)
        requires
            e < self@.buf.len(),
        ensures
            r == tone_target(self@, e as int),
            r <= e,
    {
        let s = self.vowel_run_start(e);
        if self.tone_next_to_vowel {
            return e;
        }
        proof {
            lemma_rightmost_marked_bounds(self@.buf, s as int, e as int);
        }
        match self.find_marked(s, e) {
            Some(k) => k,
            None => {
                if e == s {
                    e
                } else if e - s == 2 {
                    s + 1
                } else {
                    let first = char_attr(self.buf.get(s)).family;
                    let second = char_attr(self.buf.get(e)).family;
                    let glide = s > 0 && {
                        let p = self.buf.get(s - 1);
                        ((p == 'q' || p == 'Q') && first == FAMILY_U) || ((p == 'g' || p == 'G')
                            && first == FAMILY_I)
                    };
                    let pair = (first == FAMILY_O && (second == FAMILY_A || second == FAMILY_E))
                        || (first == FAMILY_U && second == FAMILY_Y);
                    if glide || (self.modern_style && pair) || e < self.buf.len() - 1 {
                        e
                    } else {
                        s
                    }
                }
            },
        }
    }

    /// A tone key: puts the tone on the vowel that `tone_target` picks.
    fn put_tone_mark(&mut self, c: char, tone: u8) -> (r: ProcessResult)
        requires
            tone <= TONE_DOT,
        ensures
            (final(self)@, r@) == tone_step(old(self)@, c, tone),
    {
        match self.find_tone_vowel() {
            None => self.put_char(c),
            Some(e) => {
                proof {
                    let n = self@.buf.len() as int;
                    lemma_find_vowel_bounds(self.input_method, self@.buf, n - 1, n - 1 - MAX_AFTER_VOWEL);
                }
                let p = self.tone_target_pos(e);
                let ch = self.buf.get(p);
                if char_attr(ch).tone == tone {
                    let base = apply_tone_to_base(ch, TONE_NONE);
                    self.rewrite(p, base, c, true)
                } else {
                    let marked = apply_tone_to_base(ch, tone);
                    self.rewrite(p, marked, c, false)
                }
            },
        }
    }

    /// Walks left from the tail to the nearest letter that the mark applies
    /// to: over the whole reach with free marking, else the tail alone.
    fn find_mark_pos(&self, m: Mark) -> (r: Option<usize>)
        ensures
            match r {
                Some(i) => mark_position(self@, m) == Some(i as int),
                None => mark_position(self@, m) is None,
            },
    {
        let n = self.buf.len();
        let reach: usize = if self.free_marking {
            MAX_MODIFY_LENGTH
        } else {
            1
        };
        let ghost lo: int = n - reach;
        let lo_u: usize = if n > reach {
            n - reach
        } else {
            0
        };
        let mut k: usize = n;
        while k > lo_u
            invariant
                lo_u <= k <= n,
                n == self@.buf.len(),
                lo == n - reach,
                lo_u == (if lo > 0 { lo } else { 0 }),
                reach == (if self.free_marking { MAX_MODIFY_LENGTH } else { 1 }),
                mark_position(self@, m) == find_markable(self.input_method, m, self@.buf, k - 1, lo),
            decreases k,
        {
            let ch = self.buf.get(k - 1);
            if apply_mark(m, ch).is_some() {
                return Some(k - 1);
            }
            if self.is_separator_char(ch) {
                return None;
            }
            k -= 1;
        }
        None
    }

    /// A modifier key; `None` where no letter in reach takes the mark.
    fn put_breve_mark(&mut self, c: char, m: Mark) -> (r: Option<ProcessResult>)
        ensures
            match r {
                Some(res) => mark_step(old(self)@, c, m) == Some((final(self)@, res@)),
                None => mark_step(old(self)@, c, m) is None && final(self)@ == old(self)@,
            },
    {
        match self.find_mark_pos(m) {
            None => None,
            Some(i) => {
                proof {
                    let n = self@.buf.len() as int;
                    let lo = if self.free_marking { n - MAX_MODIFY_LENGTH } else { n - 1 };
                    lemma_find_markable_bounds(self.input_method, m, self@.buf, n - 1, lo);
                }
                let ch = self.buf.get(i);
                match apply_mark(m, ch) {
                    Some(target) => {
                        if target == ch {
                            let base = remove_mark(ch);
                            Some(self.rewrite(i, base, c, true))
                        } else {
                            Some(self.rewrite(i, target, c, false))
                        }
                    },
                    None => None,
                }
            },
        }
    }

    /// Telex `a`, `e`, `o`, `d`: the circumflex or stroke on a tail of the same letter.
    fn double_char(&mut self, c: char) -> (r: ProcessResult)
        ensures
            (final(self)@, r@) == double_step(old(self)@, c),
    {
        let n = self.buf.len();
        if n == 0 {
            return self.put_char(c);
        }
        let last = self.buf.get(n - 1);
        let m = if c == 'd' || c == 'D' {
            Mark::Stroke
        } else {
            Mark::Circumflex
        };
        if letter(last) != letter(c) {
            return self.put_char(c);
        }
        match apply_mark(m, last) {
            Some(target) => {
                if target == last {
                    let base = remove_mark(last);
                    self.rewrite(n - 1, base, c, true)
                } else {
                    self.rewrite(n - 1, target, c, false)
                }
            },
            None => self.put_char(c),
        }
    }

    /// A shortcut key that stands for the letter `target`.
    fn short_key(&mut self, c: char, target: char, is_w: bool) -> (r: ProcessResult)
        ensures
            (final(self)@, r@) == shortcut_step(old(self)@, c, target, is_w),
    {
        let n = self.buf.len();
        if n > 0 && self.buf.get(n - 1) == target {
            self.buf.set(n - 1, c);
            self.temp_viet_off = true;
            self.last_w_converted = false;
            ProcessResult::Replace { backspaces: 1, text: single_char_text(c) }
        } else {
            self.buf.push(target);
            self.last_w_converted = is_w;
            ProcessResult::Output(single_char_text(target))
        }
    }

    /// Whether the word is empty or ends with a separator.
    fn at_word_start(&self) -> (r: bool)
        ensures
            r == at_word_start(self@),
    {
        let n = self.buf.len();
        n == 0 || self.is_separator_char(self.buf.get(n - 1))
    }

    /// Telex `w`: a breve or horn, or `ư` standing alone.
    fn breve_key(&mut self, c: char) -> (r: ProcessResult)
        ensures
            (final(self)@, r@) == breve_step(old(self)@, c),
    {
        let shortcut = if c == 'W' {
            'Ư'
        } else {
            'ư'
        };
        if self.last_w_converted {
            return self.short_key(c, shortcut, true);
        }
        match self.put_breve_mark(c, Mark::BreveOrHorn) {
            Some(r) => r,
            None => {
                if self.at_word_start() {
                    self.short_key(c, shortcut, true)
                } else {
                    self.put_char(c)
                }
            },
        }
    }

    /// Processes one keypress and returns what the host should do.
    pub fn process(&mut self, c: char) -> (r: ProcessResult)
        ensures
            (final(self)@, r@) == step(old(self)@, c),
    {
        if !self.vietnamese_mode {
            self.buf.push(c);
            return ProcessResult::PassThrough(c);
        }
        let category = self.key_category(c);
        match category {
            KeyCategory::Separator => {
                self.clear_buf();
                ProcessResult::PassThrough(c)
            },
            KeyCategory::Backspace => self.process_backspace(c),
            _ => {
                if self.temp_viet_off {
                    return self.put_char(c);
                }
                match category {
                    KeyCategory::ToneMark(t) => self.put_tone_mark(c, t),
                    KeyCategory::BreveMark => self.breve_key(c),
                    KeyCategory::DoubleKey => self.double_char(c),
                    KeyCategory::ShortKey(target) => self.short_key(c, target, false),
                    KeyCategory::VniMark(m) => match self.put_breve_mark(c, m) {
                        Some(r) => r,
                        None => self.put_char(c),
                    },
                    _ => self.put_char(c),
                }
            },
        }
    }

    pub fn set_input_method(&mut self, method: InputMethod)
        ensures
            final(self)@ == (EngineView { input_method: method, ..old(self)@ }),
    {
        self.input_method = method;
    }

    /// Turning Vietnamese mode off also forgets the current word.
    pub fn set_vietnamese_mode(&mut self, enabled: bool)
        ensures
            enabled ==> final(self)@ == (EngineView { vietnamese_mode: true, ..old(self)@ }),
            !enabled ==> final(self)@ == (EngineView {
                vietnamese_mode: false,
                buf: Seq::empty(),
                temp_disabled: false,
                last_w_converted: false,
                ..old(self)@
            }),
    {
        self.vietnamese_mode = enabled;
        if !enabled {
            self.clear_buf();
        }
    }

    pub fn toggle_vietnamese_mode(&mut self)
        ensures
            old(self)@.vietnamese_mode ==> final(self)@ == (EngineView {
                vietnamese_mode: false,
                buf: Seq::empty(),
                temp_disabled: false,
                last_w_converted: false,
                ..old(self)@
            }),
            !old(self)@.vietnamese_mode ==> final(self)@ == (EngineView {
                vietnamese_mode: true,
                ..old(self)@
            }),
    {
        let enabled = !self.vietnamese_mode;
        self.set_vietnamese_mode(enabled);
    }

    pub fn is_vietnamese_mode(&self) -> (r: bool)
        ensures
            r == self@.vietnamese_mode,
    {
        self.vietnamese_mode
    }

    /// The current word, as it stands on screen.
    pub fn get_buffer(&self) -> (r: String)
        ensures
            r@ == self@.buf,
    {
        let r = self.buf.text_from(0);
        proof {
            assert(self@.buf.subrange(0, self@.buf.len() as int) =~= self@.buf);
        }
        r
    }

    /// How many characters the current word holds.
    pub(crate) fn word_len(&self) -> (r: usize)
        ensures
            r == self@.buf.len(),
    {
        self.buf.len()
    }

    /// With free marking a modifier key reaches back up to
    /// `MAX_MODIFY_LENGTH` letters in the word; without it, only the tail.
    /// Tone keys reach past up to `MAX_AFTER_VOWEL` consonants either way.
    pub fn set_free_marking(&mut self, enabled: bool)
        ensures
            final(self)@ == (EngineView { free_marking: enabled, ..old(self)@ }),
    {
        self.free_marking = enabled;
    }

    /// In the modern style `oa`, `oe` and `uy` take the tone on their second vowel.
    pub fn set_modern_style(&mut self, enabled: bool)
        ensures
            final(self)@ == (EngineView { modern_style: enabled, ..old(self)@ }),
    {
        self.modern_style = enabled;
    }

    /// When set, a tone lands on the vowel nearest the tone key, whatever
    /// the orthographic rules say.
    pub fn set_tone_next_to_vowel(&mut self, enabled: bool)
        ensures
            final(self)@ == (EngineView { tone_next_to_vowel: enabled, ..old(self)@ }),
    {
        self.tone_next_to_vowel = enabled;
    }

    /// Rewrites position `p` as `ch` and sends the text from `p` on again,
    /// followed on an escape by the key itself.
    fn rewrite(&mut self, p: usize, ch: char, c: char, escape: bool) -> (r: ProcessResult)
        requires
            p < old(self)@.buf.len(),
        ensures
            (final(self)@, r@) == rewrite_step(old(self)@, p as int, ch, c, escape),
    {
        let n = self.buf.len();
        self.buf.set(p, ch);
        let mut text = self.buf.text_from(p);
        if escape {
            push_char(&mut text, c);
            self.buf.push(c);
            self.temp_viet_off = true;
        }
        self.last_w_converted = false;
        ProcessResult::Replace { backspaces: n - p, text }
    }
}


impl Default for UnikeyEngine {
    fn default() -> (r: Self)
        ensures
            r@ == (EngineView {
                buf: Seq::empty(),
                input_method: InputMethod::Telex,
                vietnamese_mode: true,
                free_marking: true,
                modern_style: true,
                tone_next_to_vowel: false,
                temp_disabled: false,
                last_w_converted: false,
            }),
    {
        Self::new()
    }
}

} // verus!
