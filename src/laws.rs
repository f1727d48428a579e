//! Properties of the engine that hold over every keypress, proved over the
//! state machine that `UnikeyEngine::process` follows.
use vstd::prelude::*;
use crate::buffer::{pushed, KEY_BUFSIZE};
use crate::charset::{
    attr_of, base_form, has_diacritic, is_vowel, lemma_attr_bounds, lemma_attr_of_form, letter_of,
    mark_form, toned, CharAttr, Mark, TONE_NONE,
};
use crate::engine::{
    apply_edit, category_of, double_mark, find_vowel, is_separator, lemma_find_markable_bounds,
    lemma_find_vowel_bounds, lemma_rightmost_marked_bounds, mark_position, mark_step,
    rewrite_step, rightmost_marked, run_start, shortcut_step, step, tone_target, tone_vowel,
    w_shortcut, Edit, EngineView, InputMethod, KeyCategory, BACKSPACE, MAX_AFTER_VOWEL,
    MAX_MODIFY_LENGTH,
};

verus! {

/// `t` is what `s` ends with.
pub open spec fn ends_with(s: Seq<char>, t: Seq<char>) -> bool {
    t.len() <= s.len() && s.subrange(s.len() - t.len(), s.len() as int) == t
}

proof fn lemma_pushed_suffix(h: Seq<char>, b: Seq<char>, c: char)
    ensures
        ends_with(h + b.push(c), pushed(b, c)),
        pushed(b, c).len() <= KEY_BUFSIZE || pushed(b, c).len() == b.len() + 1,
{
    let s = h + b.push(c);
    let t = pushed(b, c);
    if b.len() >= KEY_BUFSIZE {
        assert(s.subrange(s.len() - t.len(), s.len() as int) =~= t);
    } else {
        assert(s.subrange(s.len() - t.len(), s.len() as int) =~= t);
    }
}

proof fn lemma_pushed_len(b: Seq<char>, c: char)
    ensures
        b.len() <= KEY_BUFSIZE ==> pushed(b, c).len() <= KEY_BUFSIZE,
        pushed(b, c).last() == c,
{
}

proof fn lemma_run_start_bounds(buf: Seq<char>, e: int, s: int)
    requires
        0 <= s <= e,
    ensures
        0 <= run_start(buf, e, s) <= s,
    decreases s,
{
    if 0 < s && s <= buf.len() && e - s + 1 < 3 && is_vowel(buf[s - 1]) {
        lemma_run_start_bounds(buf, e, s - 1);
    }
}

proof fn lemma_tone_target_bounds(v: EngineView, e: int)
    requires
        0 <= e < v.buf.len(),
    ensures
        0 <= tone_target(v, e) <= e,
{
    lemma_run_start_bounds(v.buf, e, e);
    let s = run_start(v.buf, e, e);
    lemma_rightmost_marked_bounds(v.buf, s, e);
}

proof fn lemma_rewrite_screen(v: EngineView, p: int, ch: char, c: char, escape: bool, h: Seq<char>)
    requires
        0 <= p < v.buf.len(),
    ensures
        ends_with(
            apply_edit(h + v.buf, rewrite_step(v, p, ch, c, escape).1),
            rewrite_step(v, p, ch, c, escape).0.buf,
        ),
        v.buf.len() <= KEY_BUFSIZE ==> rewrite_step(v, p, ch, c, escape).0.buf.len() <= KEY_BUFSIZE,
{
    let b = v.buf.update(p, ch);
    let n = v.buf.len() as int;
    let screen = h + v.buf;
    assert(screen.subrange(0, screen.len() - (n - p)) =~= h + b.subrange(0, p));
    if escape {
        assert(h + b.subrange(0, p) + b.subrange(p, n).push(c) =~= h + b.push(c));
        lemma_pushed_suffix(h, b, c);
        lemma_pushed_len(b, c);
    } else {
        let out = h + b.subrange(0, p) + b.subrange(p, n);
        assert(out =~= h + b);
        assert(out.subrange(out.len() - b.len(), out.len() as int) =~= b);
    }
}

/// The positions that a step rewrites lie inside the word.
proof fn lemma_step_positions(v: EngineView, c: char)
    ensures
        tone_vowel(v) matches Some(e) ==> 0 <= e < v.buf.len() && 0 <= tone_target(v, e) <= e,
        forall|m: Mark|
            #![trigger mark_position(v, m)]
            mark_position(v, m) matches Some(i) ==> 0 <= i < v.buf.len() && mark_form(m, v.buf[i]) is Some,
{
    let n = v.buf.len() as int;
    lemma_find_vowel_bounds(v.input_method, v.buf, n - 1, n - 1 - MAX_AFTER_VOWEL);
    if let Some(e) = tone_vowel(v) {
        lemma_tone_target_bounds(v, e);
    }
    assert forall|m: Mark|
        #![trigger mark_position(v, m)]
        mark_position(v, m) matches Some(i) ==> 0 <= i < v.buf.len() && mark_form(m, v.buf[i]) is Some by {
        let lo = if v.free_marking {
            n - MAX_MODIFY_LENGTH
        } else {
            n - 1
        };
        lemma_find_markable_bounds(v.input_method, m, v.buf, n - 1, lo);
    }
}

proof fn lemma_append_screen(h: Seq<char>, b: Seq<char>, c: char)
    requires
        c != BACKSPACE,
    ensures
        ends_with(apply_edit(h + b, Edit::Pass(c)), pushed(b, c)),
        ends_with(apply_edit(h + b, Edit::Emit(seq![c])), pushed(b, c)),
{
    assert((h + b).push(c) =~= h + b.push(c));
    assert(h + b + seq![c] =~= h + b.push(c));
    lemma_pushed_suffix(h, b, c);
}

proof fn lemma_shortcut_screen(v: EngineView, c: char, target: char, is_w: bool, h: Seq<char>)
    requires
        target != BACKSPACE,
    ensures
        ends_with(
            apply_edit(h + v.buf, shortcut_step(v, c, target, is_w).1),
            shortcut_step(v, c, target, is_w).0.buf,
        ),
{
    let b = v.buf;
    let n = b.len() as int;
    if n > 0 && b[n - 1] == target {
        let s = h + b.update(n - 1, c);
        assert((h + b).subrange(0, h.len() + n - 1) + seq![c] =~= s);
        assert(s.subrange(s.len() - n, s.len() as int) =~= b.update(n - 1, c));
    } else {
        lemma_append_screen(h, b, target);
    }
}

proof fn lemma_mark_screen(v: EngineView, c: char, m: Mark, h: Seq<char>)
    ensures
        mark_step(v, c, m) matches Some(r) ==> ends_with(apply_edit(h + v.buf, r.1), r.0.buf),
{
    lemma_step_positions(v, c);
    if let Some(i) = mark_position(v, m) {
        let ch = v.buf[i];
        lemma_rewrite_screen(v, i, base_form(ch), c, true, h);
        lemma_rewrite_screen(v, i, mark_form(m, ch)->Some_0, c, false, h);
    }
}

/// The screen follows the word: whatever text precedes the word on screen,
/// once the host has carried out the instruction that a keypress returns,
/// the screen ends with the new word. Edits never reach left of the word.
/// (With Vietnamese mode off a backspace is kept in the word as typed, so
/// that one input is left out.)
pub proof fn lemma_screen_tracks_word(v: EngineView, c: char, history: Seq<char>)
    requires
        v.vietnamese_mode || c != BACKSPACE,
    ensures
        ends_with(apply_edit(history + v.buf, step(v, c).1), step(v, c).0.buf),
{
    let h = history;
    let b = v.buf;
    let n = b.len() as int;
    lemma_step_positions(v, c);
    let cat = category_of(v.input_method, c);
    if !v.vietnamese_mode {
        lemma_append_screen(h, b, c);
        return;
    }
    if cat == KeyCategory::Separator {
        let s = apply_edit(h + b, step(v, c).1);
        assert(s.subrange(s.len() - 0, s.len() as int) =~= Seq::<char>::empty());
        return;
    }
    if cat == KeyCategory::Backspace {
        assert(c == BACKSPACE);
        if n > 0 {
            assert((h + b).drop_last() =~= h + b.drop_last());
            let s = h + b.drop_last();
            assert(s.subrange(s.len() - b.drop_last().len(), s.len() as int) =~= b.drop_last());
        } else {
            let s = apply_edit(h + b, step(v, c).1);
            assert(b =~= Seq::<char>::empty());
            assert(s.subrange(s.len() - 0, s.len() as int) =~= Seq::<char>::empty());
        }
        return;
    }
    assert(c != BACKSPACE);
    lemma_append_screen(h, b, c);
    if v.temp_disabled {
        return;
    }
    match cat {
        KeyCategory::ToneMark(t) => {
            if let Some(e) = tone_vowel(v) {
                let p = tone_target(v, e);
                lemma_rewrite_screen(v, p, toned(b[p], TONE_NONE), c, true, h);
                lemma_rewrite_screen(v, p, toned(b[p], t), c, false, h);
            }
        },
        KeyCategory::BreveMark => {
            lemma_shortcut_screen(v, c, w_shortcut(c), true, h);
            lemma_mark_screen(v, c, Mark::BreveOrHorn, h);
        },
        KeyCategory::DoubleKey => {
            if n > 0 {
                let ch = b[n - 1];
                lemma_rewrite_screen(v, n - 1, base_form(ch), c, true, h);
                lemma_rewrite_screen(v, n - 1, mark_form(double_mark(c), ch)->Some_0, c, false, h);
            }
        },
        KeyCategory::ShortKey(target) => {
            lemma_shortcut_screen(v, c, target, false, h);
        },
        KeyCategory::VniMark(m) => {
            lemma_mark_screen(v, c, m, h);
        },
        _ => {},
    }
}

/// The buffer never holds more than `KEY_BUFSIZE` keys.
pub proof fn lemma_buffer_bounded(v: EngineView, c: char)
    requires
        v.buf.len() <= KEY_BUFSIZE,
    ensures
        step(v, c).0.buf.len() <= KEY_BUFSIZE,
{
    let b = v.buf;
    let n = b.len() as int;
    lemma_step_positions(v, c);
    assert forall|t: char| #![auto] pushed(b, t).len() <= KEY_BUFSIZE by {
        lemma_pushed_len(b, t);
    }
    assert forall|p: int, ch: char, esc: bool|
        #![trigger rewrite_step(v, p, ch, c, esc)]
        0 <= p < n ==> rewrite_step(v, p, ch, c, esc).0.buf.len() <= KEY_BUFSIZE by {
        if 0 <= p < n {
            lemma_rewrite_screen(v, p, ch, c, esc, Seq::empty());
        }
    }
}

/// In Vietnamese mode a separator ends the word: the buffer is empty after it.
pub proof fn lemma_separator_clears(v: EngineView, c: char)
    requires
        v.vietnamese_mode,
        is_separator(v.input_method, c),
    ensures
        step(v, c).0.buf.len() == 0,
        step(v, c).1 == Edit::Pass(c),
        !step(v, c).0.temp_disabled,
{
}

/// With Vietnamese mode off every key passes through unchanged.
pub proof fn lemma_off_mode_passes(v: EngineView, c: char)
    requires
        !v.vietnamese_mode,
    ensures
        step(v, c).1 == Edit::Pass(c),
        step(v, c).0.buf == pushed(v.buf, c),
{
}

/// A separator commits the word exactly as it stands on screen: the screen
/// then shows the word followed by the separator, and a new word begins.
pub proof fn lemma_separator_commits_word(v: EngineView, c: char, history: Seq<char>)
    requires
        v.vietnamese_mode,
        is_separator(v.input_method, c),
    ensures
        apply_edit(history + v.buf, step(v, c).1) == history + v.buf + seq![c],
        step(v, c).0.buf.len() == 0,
{
    assert(c != BACKSPACE);
    assert((history + v.buf).push(c) =~= history + v.buf + seq![c]);
}

/// The mark that a modifier key puts, for the keys that look for a letter to mark.
pub open spec fn key_mark(method: InputMethod, c: char) -> Option<Mark> {
    match category_of(method, c) {
        KeyCategory::BreveMark => Some(Mark::BreveOrHorn),
        KeyCategory::VniMark(m) => Some(m),
        _ => None,
    }
}

/// Free marking decides nothing for a key unless it is a modifier key
/// typed after a letter that it cannot mark.
pub open spec fn marking_unambiguous(v: EngineView, c: char) -> bool {
    match key_mark(v.input_method, c) {
        Some(m) => v.buf.len() == 0 || mark_form(m, v.buf.last()) is Some,
        None => true,
    }
}

/// Where no ambiguity exists (every modifier key directly follows the
/// letter it marks), a keypress gives the same word and the same instruction
/// with free marking on and off.
pub proof fn lemma_free_marking_irrelevant(v: EngineView, c: char)
    requires
        marking_unambiguous(v, c),
    ensures
        step(EngineView { free_marking: true, ..v }, c).0.buf == step(
            EngineView { free_marking: false, ..v },
            c,
        ).0.buf,
        step(EngineView { free_marking: true, ..v }, c).1 == step(
            EngineView { free_marking: false, ..v },
            c,
        ).1,
{
    let on = EngineView { free_marking: true, ..v };
    let off = EngineView { free_marking: false, ..v };
    let n = v.buf.len() as int;
    if let Some(m) = key_mark(v.input_method, c) {
        if n > 0 {
            assert(mark_position(on, m) == Some(n - 1));
            assert(mark_position(off, m) == Some(n - 1));
        } else {
            assert(mark_position(on, m) is None);
            assert(mark_position(off, m) is None);
        }
    }
    assert(tone_vowel(on) == tone_vowel(off));
}

/// Under Telex, typing `a`, `e`, `o` or `d` three times in a row leaves the
/// letter twice: the second key makes `â`, `ê`, `ô` or `đ`, the third undoes
/// it and stays literal, and Vietnamese processing stops until the word ends.
pub proof fn lemma_triple_letter_escapes(v: EngineView, l: char)
    requires
        v.vietnamese_mode,
        v.input_method == InputMethod::Telex,
        !v.temp_disabled,
        l == 'a' || l == 'e' || l == 'o' || l == 'd',
        v.buf.len() == 0 || letter_of(v.buf.last()) != l,
    ensures
        ({
            let v1 = step(v, l).0;
            let v2 = step(v1, l).0;
            let v3 = step(v2, l).0;
            &&& v1.buf == pushed(v.buf, l)
            &&& step(v1, l).1 == Edit::Replace { backspaces: 1, text: seq![mark_form(
                if l == 'd' { Mark::Stroke } else { Mark::Circumflex },
                l,
            )->Some_0] }
            &&& step(v2, l).1 == Edit::Replace { backspaces: 1, text: seq![l, l] }
            &&& v3.buf == pushed(pushed(v.buf, l), l)
            &&& v3.temp_disabled
        }),
{
    let v1 = step(v, l).0;
    let b1 = pushed(v.buf, l);
    lemma_pushed_len(v.buf, l);
    let n = b1.len() as int;
    assert(v1.buf == b1);
    let m = if l == 'd' {
        Mark::Stroke
    } else {
        Mark::Circumflex
    };
    let target = mark_form(m, l)->Some_0;
    let v2 = step(v1, l).0;
    assert(b1[n - 1] == l);
    assert(letter_of(target) == l && mark_form(m, target) == Some(target) && base_form(target) == l) by {
        if l == 'a' {
            assert(target == 'â');
        } else if l == 'e' {
            assert(target == 'ê');
        } else if l == 'o' {
            assert(target == 'ô');
        } else {
            assert(target == 'đ');
        }
    }
    let b2 = b1.update(n - 1, target);
    assert(b2.subrange(n - 1, n) =~= seq![target]);
    assert(v2.buf == b2);
    let b3 = b2.update(n - 1, l);
    assert(b3 =~= b1);
    assert(b3.subrange(n - 1, n).push(l) =~= seq![l, l]);
}

/// A tone key that lands on a vowel already carrying that tone takes the
/// tone off (the vowel keeps its family and case) and stays in the word
/// literally, and Vietnamese processing stops until the word ends.
pub proof fn lemma_repeated_tone_escapes(v: EngineView, c: char, tone: u8)
    requires
        v.vietnamese_mode,
        !v.temp_disabled,
        category_of(v.input_method, c) == KeyCategory::ToneMark(tone),
        tone_vowel(v) is Some,
        attr_of(v.buf[tone_target(v, tone_vowel(v)->Some_0)]).tone == tone,
    ensures
        ({
            let p = tone_target(v, tone_vowel(v)->Some_0);
            let old_attr = attr_of(v.buf[p]);
            let plain = toned(v.buf[p], TONE_NONE);
            let n = v.buf.len() as int;
            &&& attr_of(plain) == (CharAttr { family: old_attr.family, tone: 0, upper: old_attr.upper })
            &&& step(v, c).0.buf == pushed(v.buf.update(p, plain), c)
            &&& step(v, c).1 == Edit::Replace {
                backspaces: (n - p) as nat,
                text: v.buf.update(p, plain).subrange(p, n).push(c),
            }
            &&& step(v, c).0.temp_disabled
        }),
{
    lemma_step_positions(v, c);
    let p = tone_target(v, tone_vowel(v)->Some_0);
    lemma_attr_bounds(v.buf[p]);
    let a = attr_of(v.buf[p]);
    assert(a.family > 0);
    lemma_attr_of_form(a.family, 0, a.upper);
}

/// Under Telex a `w` typed into an empty word stands alone for `ư`
/// (`Ư` for `W`).
pub proof fn lemma_w_at_word_start(v: EngineView, c: char)
    requires
        v.vietnamese_mode,
        v.input_method == InputMethod::Telex,
        !v.temp_disabled,
        v.buf.len() == 0,
        c == 'w' || c == 'W',
    ensures
        step(v, c).0.buf == seq![w_shortcut(c)],
        step(v, c).1 == Edit::Emit(seq![w_shortcut(c)]),
{
    assert(pushed(v.buf, w_shortcut(c)) =~= seq![w_shortcut(c)]);
}

proof fn lemma_no_vowel_in_reach(method: InputMethod, buf: Seq<char>, i: int, lo: int)
    requires
        forall|j: int| lo <= j <= i && 0 <= j < buf.len() ==> !is_vowel(buf[j]),
    ensures
        find_vowel(method, buf, i, lo) is None,
    decreases i + 1,
{
    if i < 0 || i < lo || i >= buf.len() {
    } else {
        lemma_no_vowel_in_reach(method, buf, i - 1, lo);
    }
}

/// A tone key with no vowel among the last `MAX_AFTER_VOWEL + 1` keys of the
/// word joins the word as typed and passes through.
pub proof fn lemma_tone_without_vowel_is_literal(v: EngineView, c: char, tone: u8)
    requires
        v.vietnamese_mode,
        !v.temp_disabled,
        category_of(v.input_method, c) == KeyCategory::ToneMark(tone),
        forall|j: int|
            v.buf.len() - 1 - MAX_AFTER_VOWEL <= j < v.buf.len() && 0 <= j ==> !is_vowel(
                #[trigger] v.buf[j],
            ),
    ensures
        step(v, c).0.buf == pushed(v.buf, c),
        step(v, c).1 == Edit::Pass(c),
{
    let n = v.buf.len() as int;
    lemma_no_vowel_in_reach(v.input_method, v.buf, n - 1, n - 1 - MAX_AFTER_VOWEL);
}

/// In a run of three vowels the tone goes on the middle one, unless the first
/// or the last carries a circumflex, breve or horn (which attracts the tone,
/// as in `uyê`) or tones are set to land next to the key.
pub proof fn lemma_three_vowel_run_middle(v: EngineView, e: int)
    requires
        2 <= e < v.buf.len(),
        is_vowel(v.buf[e]),
        is_vowel(v.buf[e - 1]),
        is_vowel(v.buf[e - 2]),
        !has_diacritic(attr_of(v.buf[e]).family),
        !has_diacritic(attr_of(v.buf[e - 2]).family),
        !v.tone_next_to_vowel,
    ensures
        tone_target(v, e) == e - 1,
{
    assert(run_start(v.buf, e, e - 2) == e - 2);
    assert(run_start(v.buf, e, e - 1) == e - 2);
    assert(run_start(v.buf, e, e) == e - 2);
    assert(rightmost_marked(v.buf, e - 2, e - 3) is None);
    assert(rightmost_marked(v.buf, e - 2, e - 2) is None);
    if has_diacritic(attr_of(v.buf[e - 1]).family) {
        assert(rightmost_marked(v.buf, e - 2, e - 1) == Some(e - 1));
    } else {
        assert(rightmost_marked(v.buf, e - 2, e - 1) is None);
    }
    assert(rightmost_marked(v.buf, e - 2, e) == rightmost_marked(v.buf, e - 2, e - 1));
}

/// So a tone key whose vowel closes such a run of three rewrites the middle vowel.
pub proof fn lemma_three_vowel_run_step(v: EngineView, c: char, tone: u8)
    requires
        v.vietnamese_mode,
        !v.temp_disabled,
        category_of(v.input_method, c) == KeyCategory::ToneMark(tone),
        tone_vowel(v) is Some,
        ({
            let e = tone_vowel(v)->Some_0;
            &&& 2 <= e
            &&& is_vowel(v.buf[e - 1])
            &&& is_vowel(v.buf[e - 2])
            &&& !has_diacritic(attr_of(v.buf[e]).family)
            &&& !has_diacritic(attr_of(v.buf[e - 2]).family)
            &&& attr_of(v.buf[e - 1]).tone != tone
        }),
        !v.tone_next_to_vowel,
    ensures
        ({
            let e = tone_vowel(v)->Some_0;
            step(v, c).0.buf == v.buf.update(e - 1, toned(v.buf[e - 1], tone))
        }),
{
    lemma_step_positions(v, c);
    let n = v.buf.len() as int;
    lemma_find_vowel_bounds(v.input_method, v.buf, n - 1, n - 1 - MAX_AFTER_VOWEL);
    let e = tone_vowel(v)->Some_0;
    assert(is_vowel(v.buf[e])) by {
        lemma_found_vowel_is_vowel(v.input_method, v.buf, n - 1, n - 1 - MAX_AFTER_VOWEL);
    }
    lemma_three_vowel_run_middle(v, e);
}

proof fn lemma_found_vowel_is_vowel(method: InputMethod, buf: Seq<char>, i: int, lo: int)
    ensures
        find_vowel(method, buf, i, lo) matches Some(e) ==> 0 <= e < buf.len() && is_vowel(buf[e]),
    decreases i + 1,
{
    if i < 0 || i < lo || i >= buf.len() {
    } else if is_vowel(buf[i]) {
    } else if is_separator(method, buf[i]) {
    } else {
        lemma_found_vowel_is_vowel(method, buf, i - 1, lo);
    }
}

} // verus!
