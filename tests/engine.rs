use vaixkey::buffer::KEY_BUFSIZE;
use vaixkey::engine::{InputMethod, ProcessResult, UnikeyEngine, BACKSPACE};

fn typed(keys: &str) -> String {
    let mut e = UnikeyEngine::new();
    for c in keys.chars() {
        e.process(c);
    }
    e.get_buffer()
}

fn typed_with(e: &mut UnikeyEngine, keys: &str) -> String {
    for c in keys.chars() {
        e.process(c);
    }
    e.get_buffer()
}

/// Carries out an edit instruction on a screen, as a host would.
fn apply(screen: &mut Vec<char>, r: &ProcessResult) {
    match r {
        ProcessResult::PassThrough(c) => {
            if *c == BACKSPACE {
                screen.pop();
            } else {
                screen.push(*c);
            }
        }
        ProcessResult::Output(t) => screen.extend(t.chars()),
        ProcessResult::Replace { backspaces, text } => {
            assert!(*backspaces <= screen.len());
            let keep = screen.len() - backspaces;
            screen.truncate(keep);
            screen.extend(text.chars());
        }
    }
}

fn screen_after(e: &mut UnikeyEngine, keys: &str) -> String {
    let mut screen = Vec::new();
    for c in keys.chars() {
        let r = e.process(c);
        apply(&mut screen, &r);
        let word: Vec<char> = e.get_buffer().chars().collect();
        assert!(screen.ends_with(&word), "screen {:?} does not end with {:?}", screen, word);
    }
    screen.into_iter().collect()
}

#[test]
fn word_mootj() {
    assert_eq!(typed("mootj"), "một");
}

#[test]
fn word_vieetj() {
    assert_eq!(typed("Vieetj"), "Việt");
}

#[test]
fn word_naawng() {
    assert_eq!(typed("naawng"), "năng");
}

#[test]
fn word_ddaays() {
    assert_eq!(typed("ddaays"), "đấy");
}

#[test]
fn word_hocj() {
    assert_eq!(typed("hocj"), "học");
}

#[test]
fn word_tooij() {
    assert_eq!(typed("tooij"), "tội");
}

#[test]
fn word_xooong_undoes_circumflex() {
    assert_eq!(typed("xooong"), "xoong");
}

#[test]
fn triple_a_escapes() {
    assert_eq!(typed("aaa"), "aa");
}

#[test]
fn triple_letters_escape() {
    assert_eq!(typed("ooo"), "oo");
    assert_eq!(typed("eee"), "ee");
    assert_eq!(typed("ddd"), "dd");
}

#[test]
fn escape_latch_holds_until_separator() {
    // after the escape a further `a` stays literal
    assert_eq!(typed("aaaa"), "aaa");
    // a separator ends the latch
    assert_eq!(typed("aaa aa"), "â");
}

#[test]
fn space_clears_word() {
    assert_eq!(typed("nam s"), "s");
}

#[test]
fn digit_and_period_clear_word() {
    assert_eq!(typed("thi9s"), "s");
    assert_eq!(typed("abc.def"), "dè");
}

#[test]
fn basic_letters() {
    assert_eq!(typed("a"), "a");
    assert_eq!(typed("aa"), "â");
    assert_eq!(typed("aw"), "ă");
    assert_eq!(typed("e"), "e");
    assert_eq!(typed("ee"), "ê");
    assert_eq!(typed("o"), "o");
    assert_eq!(typed("oo"), "ô");
    assert_eq!(typed("ow"), "ơ");
    assert_eq!(typed("u"), "u");
    assert_eq!(typed("uw"), "ư");
    assert_eq!(typed("d"), "d");
    assert_eq!(typed("dd"), "đ");
}

#[test]
fn five_tones() {
    assert_eq!(typed("as"), "á");
    assert_eq!(typed("af"), "à");
    assert_eq!(typed("ar"), "ả");
    assert_eq!(typed("ax"), "ã");
    assert_eq!(typed("aj"), "ạ");
}

#[test]
fn upper_case_is_kept() {
    assert_eq!(typed("AA"), "Â");
    assert_eq!(typed("Aa"), "Â");
    assert_eq!(typed("DD"), "Đ");
    assert_eq!(typed("AS"), "Á");
    assert_eq!(typed("VIEETJ"), "VIỆT");
    assert_eq!(typed("AAA"), "AA");
}

#[test]
fn tone_kept_under_new_mark() {
    assert_eq!(typed("asa"), "ấ");
    assert_eq!(typed("asw"), "ắ");
}

#[test]
fn tone_replaced_by_another() {
    assert_eq!(typed("asf"), "à");
}

#[test]
fn replace_instruction_for_tone() {
    let mut e = UnikeyEngine::new();
    for c in "moot".chars() {
        e.process(c);
    }
    match e.process('j') {
        ProcessResult::Replace { backspaces, text } => {
            assert_eq!(backspaces, 2);
            assert_eq!(text, "ột");
        }
        other => panic!("unexpected {:?}", other),
    }
}

#[test]
fn replace_instruction_for_double() {
    let mut e = UnikeyEngine::new();
    e.process('a');
    match e.process('a') {
        ProcessResult::Replace { backspaces, text } => {
            assert_eq!(backspaces, 1);
            assert_eq!(text, "â");
        }
        other => panic!("unexpected {:?}", other),
    }
    match e.process('a') {
        ProcessResult::Replace { backspaces, text } => {
            assert_eq!(backspaces, 1);
            assert_eq!(text, "aa");
        }
        other => panic!("unexpected {:?}", other),
    }
}

#[test]
fn repeated_tone_removes_it() {
    let mut e = UnikeyEngine::new();
    e.process('a');
    e.process('s');
    match e.process('s') {
        ProcessResult::Replace { backspaces, text } => {
            assert_eq!(backspaces, 1);
            assert_eq!(text, "as");
        }
        other => panic!("unexpected {:?}", other),
    }
    assert_eq!(e.get_buffer(), "as");
    // processing stays off until the word ends
    assert_eq!(typed_with(&mut e, "s"), "ass");
}

#[test]
fn repeated_tone_in_word() {
    assert_eq!(typed("mootjj"), "môtj");
}

#[test]
fn w_at_word_start_is_u_horn() {
    let mut e = UnikeyEngine::new();
    match e.process('w') {
        ProcessResult::Output(t) => assert_eq!(t, "ư"),
        other => panic!("unexpected {:?}", other),
    }
    assert_eq!(e.get_buffer(), "ư");
    assert_eq!(typed("W"), "Ư");
}

#[test]
fn w_twice_escapes() {
    assert_eq!(typed("ww"), "w");
}

#[test]
fn w_after_consonant_is_literal() {
    assert_eq!(typed("tw"), "tw");
}

#[test]
fn bracket_shortcuts() {
    assert_eq!(typed("["), "ơ");
    assert_eq!(typed("]"), "Ơ");
    assert_eq!(typed("[["), "[");
}

#[test]
fn tone_without_vowel_is_literal() {
    let mut e = UnikeyEngine::new();
    match e.process('s') {
        ProcessResult::PassThrough(c) => assert_eq!(c, 's'),
        other => panic!("unexpected {:?}", other),
    }
    assert_eq!(typed("ths"), "ths");
    // the vowel lies three consonants back: out of reach
    assert_eq!(typed("anghs"), "anghs");
    // two consonants back it is in reach
    assert_eq!(typed("angs"), "áng");
}

#[test]
fn tone_reaches_past_two_consonants() {
    assert_eq!(typed("nghieengx"), "nghiễng");
}

#[test]
fn three_vowel_run_takes_middle() {
    assert_eq!(typed("khoais"), "khoái");
    assert_eq!(typed("ngoaif"), "ngoài");
}

#[test]
fn marked_vowel_attracts_tone() {
    assert_eq!(typed("nguyeenx"), "nguyễn");
    assert_eq!(typed("nguwowif"), "người");
    assert_eq!(typed("cuwar"), "cửa");
    assert_eq!(typed("muoons"), "muốn");
}

#[test]
fn two_vowel_rules() {
    assert_eq!(typed("muas"), "múa");
    assert_eq!(typed("toanf"), "toàn");
    assert_eq!(typed("quas"), "quá");
    assert_eq!(typed("gias"), "giá");
    assert_eq!(typed("hoaf"), "hoà");
    assert_eq!(typed("thuyr"), "thuỷ");
}

#[test]
fn traditional_style() {
    let mut e = UnikeyEngine::new();
    e.set_modern_style(false);
    assert_eq!(typed_with(&mut e, "hoaf"), "hòa");
    e.clear_buf();
    assert_eq!(typed_with(&mut e, "toanf"), "toàn");
}

#[test]
fn tone_next_to_vowel_setting() {
    let mut e = UnikeyEngine::new();
    e.set_tone_next_to_vowel(true);
    assert_eq!(typed_with(&mut e, "muas"), "muá");
}

#[test]
fn free_marking_setting() {
    assert_eq!(typed("nguoiw"), "nguơi");
    let mut e = UnikeyEngine::new();
    e.set_free_marking(false);
    assert_eq!(typed_with(&mut e, "nguoiw"), "nguoiw");
    e.clear_buf();
    assert_eq!(typed_with(&mut e, "aw"), "ă");
}

#[test]
fn separator_empties_buffer() {
    let mut e = UnikeyEngine::new();
    typed_with(&mut e, "Vieetj");
    match e.process(' ') {
        ProcessResult::PassThrough(c) => assert_eq!(c, ' '),
        other => panic!("unexpected {:?}", other),
    }
    assert_eq!(e.get_buffer(), "");
    for sep in [',', '.', '\n', '!', '7'] {
        typed_with(&mut e, "ab");
        e.process(sep);
        assert_eq!(e.get_buffer(), "");
    }
}

#[test]
fn screen_matches_buffer() {
    let mut e = UnikeyEngine::new();
    let screen = screen_after(&mut e, "Vieetj Nam ddaays laf xooong aaa nguwowif ww");
    assert_eq!(screen, "Việt Nam đấy là xoong aa người w");
}

#[test]
fn screen_with_backspace() {
    let mut e = UnikeyEngine::new();
    let mut keys = String::from("mootj");
    keys.push(BACKSPACE);
    keys.push('c');
    let screen = screen_after(&mut e, &keys);
    assert_eq!(screen, "mộc");
    assert_eq!(e.get_buffer(), "mộc");
}

#[test]
fn buffer_never_exceeds_capacity() {
    let mut e = UnikeyEngine::new();
    let mut screen = Vec::new();
    for i in 0..100 {
        let c = if i % 7 == 3 { 'a' } else { 'b' };
        let r = e.process(c);
        apply(&mut screen, &r);
        let word: Vec<char> = e.get_buffer().chars().collect();
        assert!(word.len() <= KEY_BUFSIZE);
        assert!(screen.ends_with(&word));
    }
    assert_eq!(e.get_buffer().chars().count(), 40);
}

#[test]
fn compaction_keeps_recent_keys() {
    let mut e = UnikeyEngine::new();
    for _ in 0..40 {
        e.process('b');
    }
    e.process('c');
    assert_eq!(e.get_buffer(), format!("{}c", "b".repeat(20)));
}

#[test]
fn backspace_pops_tail() {
    let mut e = UnikeyEngine::new();
    typed_with(&mut e, "vieet");
    match e.process(BACKSPACE) {
        ProcessResult::PassThrough(c) => assert_eq!(c, BACKSPACE),
        other => panic!("unexpected {:?}", other),
    }
    assert_eq!(e.get_buffer(), "viê");
    e.process(BACKSPACE);
    e.process(BACKSPACE);
    e.process(BACKSPACE);
    e.process(BACKSPACE);
    assert_eq!(e.get_buffer(), "");
}

#[test]
fn off_mode_passes_everything() {
    let mut e = UnikeyEngine::new();
    e.set_vietnamese_mode(false);
    assert!(!e.is_vietnamese_mode());
    for c in "aas w[".chars() {
        match e.process(c) {
            ProcessResult::PassThrough(p) => assert_eq!(p, c),
            other => panic!("unexpected {:?}", other),
        }
    }
    assert_eq!(e.get_buffer(), "aas w[");
}

#[test]
fn turning_mode_off_clears_word() {
    let mut e = UnikeyEngine::new();
    typed_with(&mut e, "vie");
    e.toggle_vietnamese_mode();
    assert!(!e.is_vietnamese_mode());
    assert_eq!(e.get_buffer(), "");
    e.toggle_vietnamese_mode();
    assert!(e.is_vietnamese_mode());
    assert_eq!(typed_with(&mut e, "aa"), "â");
}

#[test]
fn vni_marks_and_tones() {
    let mut e = UnikeyEngine::new();
    e.set_input_method(InputMethod::Vni);
    for (keys, word) in [
        ("a6", "â"),
        ("a8", "ă"),
        ("o7", "ơ"),
        ("u7", "ư"),
        ("d9", "đ"),
        ("a1", "á"),
        ("a2", "à"),
        ("a3", "ả"),
        ("a4", "ã"),
        ("a5", "ạ"),
        ("Vie65t", "Việt"),
        ("a66", "a6"),
        ("aa", "aa"),
        ("as", "as"),
    ] {
        e.clear_buf();
        assert_eq!(typed_with(&mut e, keys), word, "keys {}", keys);
    }
}

#[test]
fn vni_digits_do_not_separate() {
    let mut e = UnikeyEngine::new();
    e.set_input_method(InputMethod::Vni);
    assert_eq!(typed_with(&mut e, "b0"), "b0");
    e.process(' ');
    assert_eq!(e.get_buffer(), "");
}

#[test]
fn viqr_types_plainly() {
    let mut e = UnikeyEngine::new();
    e.set_input_method(InputMethod::Viqr);
    assert_eq!(typed_with(&mut e, "aas"), "aas");
    e.process('9');
    assert_eq!(e.get_buffer(), "");
}

#[test]
fn default_engine_is_new_engine() {
    let mut e = UnikeyEngine::default();
    assert!(e.is_vietnamese_mode());
    assert_eq!(typed_with(&mut e, "dd"), "đ");
}

#[test]
fn free_marking_irrelevant_without_ambiguity() {
    for keys in ["mootj", "Vieetj", "naawng", "ddaays", "nguwowif", "w", "xooong"] {
        let mut on = UnikeyEngine::new();
        let mut off = UnikeyEngine::new();
        off.set_free_marking(false);
        assert_eq!(typed_with(&mut on, keys), typed_with(&mut off, keys), "keys {}", keys);
    }
}
