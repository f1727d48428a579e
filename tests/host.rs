use vaixkey::config::{Config, InputMethodType};
use vaixkey::engine::ProcessResult;
use vaixkey::input_method::InputMethodEngine;
use vaixkey::processors::{TelexProcessor, VniProcessor};

fn feed(e: &mut InputMethodEngine, keys: &str) {
    for c in keys.chars() {
        e.process_keypress(c);
    }
}

#[test]
fn default_config() {
    let c = Config::default();
    assert!(matches!(c.input_method, InputMethodType::Telex));
    assert_eq!(c.hotkeys.toggle_vietnamese, "Ctrl+Shift");
    assert_eq!(c.hotkeys.switch_input_method, "Ctrl+Alt+V");
    assert!(!c.auto_start);
    assert!(c.show_status_bar);
}

#[test]
fn engine_follows_config() {
    let mut c = Config::default();
    c.input_method = InputMethodType::Vni;
    let mut e = InputMethodEngine::new(&c);
    feed(&mut e, "a6");
    assert_eq!(e.get_current_buffer(), "â");

    c.input_method = InputMethodType::SimpleTelex;
    let mut e = InputMethodEngine::new(&c);
    feed(&mut e, "aa");
    assert_eq!(e.get_current_buffer(), "â");
}

#[test]
fn keypress_results() {
    let mut e = InputMethodEngine::new(&Config::default());
    assert!(e.is_vietnamese_mode());
    match e.process_keypress('v') {
        ProcessResult::PassThrough(c) => assert_eq!(c, 'v'),
        other => panic!("unexpected {:?}", other),
    }
    feed(&mut e, "ie");
    match e.process_keypress('e') {
        ProcessResult::Replace { backspaces, text } => {
            assert_eq!(backspaces, 1);
            assert_eq!(text, "ê");
        }
        other => panic!("unexpected {:?}", other),
    }
}

#[test]
fn backspace_and_commit() {
    let mut e = InputMethodEngine::new(&Config::default());
    feed(&mut e, "mooc");
    assert_eq!(e.backspace(), Some(String::from("mô")));
    assert_eq!(e.backspace(), Some(String::from("m")));
    assert_eq!(e.backspace(), None);
    assert_eq!(e.backspace(), None);
    feed(&mut e, "hocj");
    assert_eq!(e.commit_current_text(), "học");
    assert_eq!(e.get_current_buffer(), "");
}

#[test]
fn toggle_and_reset() {
    let mut e = InputMethodEngine::new(&Config::default());
    feed(&mut e, "vie");
    e.toggle_vietnamese_mode();
    assert!(!e.is_vietnamese_mode());
    assert_eq!(e.get_current_buffer(), "");
    match e.process_keypress('a') {
        ProcessResult::PassThrough(c) => assert_eq!(c, 'a'),
        other => panic!("unexpected {:?}", other),
    }
    e.toggle_vietnamese_mode();
    assert!(e.is_vietnamese_mode());
    assert_eq!(e.get_current_buffer(), "");
    feed(&mut e, "dd");
    e.reset_buffer();
    assert_eq!(e.get_current_buffer(), "");
}

#[test]
fn whole_string_processors_convert_nothing() {
    let t = TelexProcessor::new();
    assert_eq!(t.process("aa"), None);
    assert!(!t.can_transform("aa"));
    let v = VniProcessor::new();
    assert_eq!(v.process("a6"), None);
    assert!(!v.can_transform("a6"));
}
