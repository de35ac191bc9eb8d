use json_editor::app::{App, CurrentScreen, CurrentlyDeleting, CurrentlyEditing};
use json_editor::input::{dispatch, Decision, Key, KeyEvent, KeyKind, Modifiers};

fn text(s: &str) -> String {
    s.to_string()
}

fn plain(c: char) -> KeyEvent {
    KeyEvent::press(Key::Char(c), Modifiers::Plain)
}

fn control(c: char) -> KeyEvent {
    KeyEvent::press(Key::Char(c), Modifiers::Control)
}

fn key(code: Key) -> KeyEvent {
    KeyEvent::press(code, Modifiers::Plain)
}

fn type_text(app: &mut App, typed: &str) {
    for c in typed.chars() {
        assert_eq!(dispatch(plain(c), app), Decision::Continue);
    }
}

fn app_with(pairs: &[(&str, &str)]) -> App {
    let mut app = App::new();
    for (k, v) in pairs {
        app.pairs.insert(text(k), text(v));
    }
    app
}

fn snapshot(app: &App) -> (String, String, String, Vec<(String, String)>, CurrentScreen, Option<CurrentlyEditing>, Option<CurrentlyDeleting>) {
    let mut pairs = Vec::new();
    let mut i = 0;
    while let Some((k, v)) = app.pairs.entry(i) {
        pairs.push((k.clone(), v.clone()));
        i += 1;
    }
    (
        app.key_input.clone(),
        app.value_input.clone(),
        app.delete_index.clone(),
        pairs,
        app.current_screen,
        app.currently_editing,
        app.currently_deleting,
    )
}

fn on_screen(screen: CurrentScreen) -> App {
    let mut app = app_with(&[("a", "1"), ("b", "2")]);
    app.key_input = text("k");
    app.value_input = text("v");
    app.delete_index = text("0");
    match screen {
        CurrentScreen::Editing => app.begin_edit(),
        CurrentScreen::Deleting => app.begin_delete(),
        other => app.switch_screen(other),
    }
    app
}

const SCREENS: [CurrentScreen; 5] = [
    CurrentScreen::Main,
    CurrentScreen::Editing,
    CurrentScreen::FileTree,
    CurrentScreen::Exiting,
    CurrentScreen::Deleting,
];

#[test]
fn press_builds_a_press_event() {
    let e = KeyEvent::press(Key::Tab, Modifiers::Control);
    assert_eq!(e.code, Key::Tab);
    assert_eq!(e.modifiers, Modifiers::Control);
    assert_eq!(e.kind, KeyKind::Press);
}

#[test]
fn scenario_add_a_pair() {
    let mut app = App::new();
    assert_eq!(dispatch(plain('e'), &mut app), Decision::Continue);
    assert_eq!(app.current_screen, CurrentScreen::Editing);
    assert_eq!(app.currently_editing, Some(CurrentlyEditing::Key));
    type_text(&mut app, "color");
    assert_eq!(app.key_input, "color");
    assert_eq!(dispatch(key(Key::Tab), &mut app), Decision::Continue);
    assert_eq!(app.currently_editing, Some(CurrentlyEditing::Value));
    type_text(&mut app, "red");
    assert_eq!(app.value_input, "red");
    assert_eq!(dispatch(key(Key::Enter), &mut app), Decision::Continue);
    assert_eq!(app.pairs.len(), 1);
    assert_eq!(app.pairs.get(&text("color")), Some(&text("red")));
    assert_eq!(app.current_screen, CurrentScreen::Main);
    assert_eq!(app.key_input, "");
    assert_eq!(app.value_input, "");
    assert_eq!(app.currently_editing, None);
}

#[test]
fn scenario_delete_first_of_two() {
    let mut app = app_with(&[("a", "1"), ("b", "2")]);
    dispatch(plain('d'), &mut app);
    assert_eq!(app.current_screen, CurrentScreen::Deleting);
    assert_eq!(app.currently_deleting, Some(CurrentlyDeleting::Index));
    type_text(&mut app, "0");
    assert_eq!(app.delete_index, "0");
    assert_eq!(dispatch(key(Key::Enter), &mut app), Decision::Continue);
    assert_eq!(app.pairs.len(), 1);
    assert_eq!(app.pairs.get(&text("a")), None);
    assert_eq!(app.pairs.get(&text("b")), Some(&text("2")));
    assert_eq!(app.current_screen, CurrentScreen::Main);
    assert_eq!(app.delete_index, "");
}

#[test]
fn scenario_delete_out_of_range() {
    let mut app = app_with(&[("a", "1")]);
    dispatch(plain('d'), &mut app);
    type_text(&mut app, "9");
    assert_eq!(dispatch(key(Key::Enter), &mut app), Decision::Continue);
    assert_eq!(app.pairs.len(), 1);
    assert_eq!(app.pairs.get(&text("a")), Some(&text("1")));
    assert_eq!(app.current_screen, CurrentScreen::Main);
    assert_eq!(app.delete_index, "");
}

#[test]
fn scenario_quit_and_persist() {
    let mut app = app_with(&[("a", "1")]);
    assert_eq!(dispatch(plain('q'), &mut app), Decision::Continue);
    assert_eq!(app.current_screen, CurrentScreen::Exiting);
    assert_eq!(dispatch(plain('y'), &mut app), Decision::Terminate { persist: true });
    let written = app.print_json().ok().unwrap();
    assert_eq!(written, "{\n  \"a\": \"1\"\n}");
    let compact: String = written.chars().filter(|c| !c.is_whitespace()).collect();
    assert_eq!(compact, "{\"a\":\"1\"}");
}

#[test]
fn scenario_backspace_then_escape() {
    let mut app = App::new();
    dispatch(plain('e'), &mut app);
    type_text(&mut app, "na");
    assert_eq!(app.currently_editing, Some(CurrentlyEditing::Key));
    assert_eq!(app.key_input, "na");
    assert_eq!(dispatch(key(Key::Backspace), &mut app), Decision::Continue);
    assert_eq!(app.key_input, "n");
    assert_eq!(dispatch(key(Key::Esc), &mut app), Decision::Continue);
    assert_eq!(app.current_screen, CurrentScreen::Main);
    assert_eq!(app.key_input, "");
    assert_eq!(app.value_input, "");
    assert_eq!(app.currently_editing, None);
}

#[test]
fn release_events_change_nothing_on_any_screen() {
    let codes = [
        Key::Char('e'), Key::Char('d'), Key::Char('q'), Key::Char('y'), Key::Char('n'),
        Key::Char('c'), Key::Char('1'), Key::Char('2'), Key::Char('x'),
        Key::Enter, Key::Backspace, Key::Esc, Key::Tab, Key::Other,
    ];
    for screen in SCREENS {
        for code in codes {
            for modifiers in [Modifiers::Plain, Modifiers::Control, Modifiers::Other] {
                let mut app = on_screen(screen);
                let before = snapshot(&app);
                let event = KeyEvent { code, modifiers, kind: KeyKind::Release };
                assert_eq!(dispatch(event, &mut app), Decision::Continue);
                assert_eq!(snapshot(&app), before);
            }
        }
    }
}

#[test]
fn repeat_events_change_nothing() {
    for screen in SCREENS {
        for code in [Key::Char('e'), Key::Char('y'), Key::Enter, Key::Esc, Key::Char('2')] {
            let mut app = on_screen(screen);
            let before = snapshot(&app);
            let event = KeyEvent { code, modifiers: Modifiers::Plain, kind: KeyKind::Repeat };
            assert_eq!(dispatch(event, &mut app), Decision::Continue);
            assert_eq!(snapshot(&app), before);
        }
    }
}

#[test]
fn main_screen_keys() {
    let mut app = App::new();
    dispatch(plain('1'), &mut app);
    assert_eq!(app.current_screen, CurrentScreen::FileTree);

    let mut app = App::new();
    dispatch(plain('q'), &mut app);
    assert_eq!(app.current_screen, CurrentScreen::Exiting);

    let mut app = App::new();
    dispatch(control('c'), &mut app);
    assert_eq!(app.current_screen, CurrentScreen::Exiting);

    let mut app = App::new();
    dispatch(plain('d'), &mut app);
    assert_eq!(app.current_screen, CurrentScreen::Deleting);
    assert_eq!(app.currently_deleting, Some(CurrentlyDeleting::Index));
}

#[test]
fn main_screen_ignores_other_keys() {
    let events = [
        plain('c'), plain('x'), plain('2'), plain('y'), plain('E'),
        control('e'), control('q'), control('d'), control('1'),
        KeyEvent::press(Key::Char('e'), Modifiers::Other),
        KeyEvent::press(Key::Char('c'), Modifiers::Other),
        key(Key::Enter), key(Key::Esc), key(Key::Tab), key(Key::Backspace), key(Key::Other),
    ];
    for event in events {
        let mut app = on_screen(CurrentScreen::Main);
        let before = snapshot(&app);
        assert_eq!(dispatch(event, &mut app), Decision::Continue);
        assert_eq!(snapshot(&app), before);
    }
}

#[test]
fn exiting_screen_decides() {
    let mut app = on_screen(CurrentScreen::Exiting);
    let before = snapshot(&app);
    assert_eq!(dispatch(plain('y'), &mut app), Decision::Terminate { persist: true });
    assert_eq!(dispatch(plain('n'), &mut app), Decision::Terminate { persist: false });
    assert_eq!(dispatch(plain('q'), &mut app), Decision::Terminate { persist: false });
    assert_eq!(dispatch(control('c'), &mut app), Decision::Terminate { persist: false });
    assert_eq!(dispatch(plain('c'), &mut app), Decision::Continue);
    assert_eq!(dispatch(control('y'), &mut app), Decision::Continue);
    assert_eq!(dispatch(control('n'), &mut app), Decision::Continue);
    assert_eq!(dispatch(plain('e'), &mut app), Decision::Continue);
    assert_eq!(dispatch(key(Key::Enter), &mut app), Decision::Continue);
    assert_eq!(dispatch(key(Key::Esc), &mut app), Decision::Continue);
    assert_eq!(dispatch(KeyEvent::press(Key::Char('y'), Modifiers::Other), &mut app), Decision::Continue);
    assert_eq!(snapshot(&app), before);
}

#[test]
fn only_the_exiting_screen_terminates() {
    for screen in [CurrentScreen::Main, CurrentScreen::Editing, CurrentScreen::FileTree, CurrentScreen::Deleting] {
        for event in [plain('y'), plain('n'), plain('q'), control('c')] {
            let mut app = on_screen(screen);
            assert_eq!(dispatch(event, &mut app), Decision::Continue);
        }
    }
}

#[test]
fn editing_enter_moves_to_value_then_commits() {
    let mut app = App::new();
    dispatch(plain('e'), &mut app);
    type_text(&mut app, "k");
    dispatch(key(Key::Enter), &mut app);
    assert_eq!(app.current_screen, CurrentScreen::Editing);
    assert_eq!(app.currently_editing, Some(CurrentlyEditing::Value));
    assert_eq!(app.pairs.len(), 0);
    type_text(&mut app, "v");
    dispatch(key(Key::Enter), &mut app);
    assert_eq!(app.current_screen, CurrentScreen::Main);
    assert_eq!(app.pairs.get(&text("k")), Some(&text("v")));
}

#[test]
fn editing_takes_any_character_whatever_the_modifiers() {
    let mut app = App::new();
    dispatch(plain('e'), &mut app);
    dispatch(plain('e'), &mut app);
    dispatch(control('c'), &mut app);
    dispatch(KeyEvent::press(Key::Char('Q'), Modifiers::Other), &mut app);
    dispatch(plain(' '), &mut app);
    dispatch(plain('é'), &mut app);
    assert_eq!(app.key_input, "ecQ é");
    assert_eq!(app.current_screen, CurrentScreen::Editing);
}

#[test]
fn editing_tab_switches_fields_both_ways() {
    let mut app = App::new();
    dispatch(plain('e'), &mut app);
    dispatch(key(Key::Tab), &mut app);
    assert_eq!(app.currently_editing, Some(CurrentlyEditing::Value));
    dispatch(key(Key::Tab), &mut app);
    assert_eq!(app.currently_editing, Some(CurrentlyEditing::Key));
}

#[test]
fn editing_backspace_removes_from_active_field() {
    let mut app = App::new();
    dispatch(plain('e'), &mut app);
    type_text(&mut app, "key");
    dispatch(key(Key::Tab), &mut app);
    type_text(&mut app, "val");
    dispatch(key(Key::Backspace), &mut app);
    assert_eq!(app.key_input, "key");
    assert_eq!(app.value_input, "va");
}

#[test]
fn editing_ignores_other_keys() {
    let mut app = on_screen(CurrentScreen::Editing);
    let before = snapshot(&app);
    assert_eq!(dispatch(key(Key::Other), &mut app), Decision::Continue);
    assert_eq!(snapshot(&app), before);
}

#[test]
fn deleting_keys() {
    let mut app = app_with(&[("a", "1"), ("b", "2")]);
    dispatch(plain('d'), &mut app);
    type_text(&mut app, "12");
    assert_eq!(app.delete_index, "12");
    dispatch(key(Key::Backspace), &mut app);
    assert_eq!(app.delete_index, "1");
    dispatch(key(Key::Tab), &mut app);
    dispatch(key(Key::Other), &mut app);
    assert_eq!(app.delete_index, "1");
    assert_eq!(app.current_screen, CurrentScreen::Deleting);
    dispatch(key(Key::Enter), &mut app);
    assert_eq!(app.pairs.len(), 1);
    assert_eq!(app.pairs.get(&text("a")), Some(&text("1")));
    assert_eq!(app.current_screen, CurrentScreen::Main);
    assert_eq!(app.currently_deleting, None);
}

#[test]
fn deleting_escape_cancels() {
    let mut app = app_with(&[("a", "1")]);
    dispatch(plain('d'), &mut app);
    type_text(&mut app, "0");
    dispatch(key(Key::Esc), &mut app);
    assert_eq!(app.pairs.len(), 1);
    assert_eq!(app.delete_index, "");
    assert_eq!(app.current_screen, CurrentScreen::Main);
    assert_eq!(app.currently_deleting, None);
}

#[test]
fn deleting_non_numeric_is_silently_ignored() {
    let mut app = app_with(&[("a", "1")]);
    dispatch(plain('d'), &mut app);
    type_text(&mut app, "abc");
    assert_eq!(dispatch(key(Key::Enter), &mut app), Decision::Continue);
    assert_eq!(app.pairs.len(), 1);
    assert_eq!(app.current_screen, CurrentScreen::Main);
    assert_eq!(app.delete_index, "");
}

#[test]
fn file_tree_keys() {
    let mut app = on_screen(CurrentScreen::FileTree);
    dispatch(plain('2'), &mut app);
    assert_eq!(app.current_screen, CurrentScreen::Main);

    let mut app = on_screen(CurrentScreen::FileTree);
    dispatch(control('c'), &mut app);
    assert_eq!(app.current_screen, CurrentScreen::Exiting);

    for event in [plain('q'), plain('c'), plain('1'), plain('e'), control('2'), key(Key::Esc), key(Key::Enter)] {
        let mut app = on_screen(CurrentScreen::FileTree);
        let before = snapshot(&app);
        assert_eq!(dispatch(event, &mut app), Decision::Continue);
        assert_eq!(snapshot(&app), before);
    }
}

#[test]
fn markers_follow_the_screen() {
    let mut app = App::new();
    let events = [
        plain('e'), plain('k'), key(Key::Tab), plain('v'), key(Key::Enter),
        plain('d'), plain('0'), key(Key::Enter),
        plain('e'), key(Key::Esc), plain('d'), key(Key::Esc),
        plain('1'), plain('2'), plain('q'),
    ];
    for event in events {
        dispatch(event, &mut app);
        assert_eq!(app.currently_editing.is_some(), app.current_screen == CurrentScreen::Editing);
        assert_eq!(app.currently_deleting.is_some(), app.current_screen == CurrentScreen::Deleting);
    }
    assert_eq!(app.current_screen, CurrentScreen::Exiting);
}
