use http_tui::app::App;
use http_tui::events::{Action, Key};
use http_tui::models::{FormField, RequestForm, Screen};

fn app_with(n: usize) -> App {
    let mut app = App::new();
    for i in 0..n {
        app.add_request(format!("r{}", i), format!("http://h/{}", i), "GET".to_string());
    }
    app
}

fn type_str(app: &mut App, s: &str) {
    for c in s.chars() {
        assert_eq!(app.handle_key(Key::Char(c)), Action::Continue);
    }
}

#[test]
fn new_app_is_empty_on_main() {
    let app = App::new();
    assert!(app.requests.is_empty());
    assert_eq!(app.selected, 0);
    assert_eq!(app.screen, Screen::Main);
    assert_eq!(app.form.field, FormField::Name);
    assert_eq!(app.form.name, "");
}

#[test]
fn next_full_cycle_returns_to_start() {
    for n in 1..6 {
        for start in 0..n {
            let mut app = app_with(n);
            app.selected = start;
            for _ in 0..n {
                app.next();
            }
            assert_eq!(app.selected, start);
        }
    }
}

#[test]
fn prev_full_cycle_returns_to_start() {
    for n in 1..6 {
        for start in 0..n {
            let mut app = app_with(n);
            app.selected = start;
            for _ in 0..n {
                app.prev();
            }
            assert_eq!(app.selected, start);
        }
    }
}

#[test]
fn navigation_on_empty_list_is_noop() {
    let mut app = App::new();
    app.next();
    assert_eq!(app.selected, 0);
    app.prev();
    assert_eq!(app.selected, 0);
    assert_eq!(app.handle_key(Key::Down), Action::Continue);
    assert_eq!(app.handle_key(Key::Up), Action::Continue);
    assert_eq!(app.selected, 0);
}

#[test]
fn next_wraps_from_last_to_first() {
    let mut app = app_with(3);
    app.selected = 2;
    app.next();
    assert_eq!(app.selected, 0);
}

#[test]
fn prev_wraps_from_first_to_last() {
    let mut app = app_with(3);
    app.prev();
    assert_eq!(app.selected, 2);
    app.prev();
    assert_eq!(app.selected, 1);
}

#[test]
fn arrow_keys_move_selection() {
    let mut app = app_with(3);
    app.handle_key(Key::Down);
    assert_eq!(app.selected, 1);
    app.handle_key(Key::Up);
    app.handle_key(Key::Up);
    assert_eq!(app.selected, 2);
}

#[test]
fn new_request_scenario() {
    let mut app = App::new();
    assert_eq!(app.handle_key(Key::Char('a')), Action::Continue);
    assert_eq!(app.screen, Screen::NewRequest);
    type_str(&mut app, "Ping");
    app.handle_key(Key::Enter);
    assert_eq!(app.form.field, FormField::Url);
    type_str(&mut app, "http://x/");
    app.handle_key(Key::Enter);
    assert_eq!(app.form.field, FormField::Method);
    type_str(&mut app, "GET");
    app.handle_key(Key::Enter);
    assert_eq!(app.requests.len(), 1);
    assert_eq!(app.requests[0].name, "Ping");
    assert_eq!(app.requests[0].url, "http://x/");
    assert_eq!(app.requests[0].method, "GET");
    assert_eq!(app.requests[0].response, None);
    assert_eq!(app.screen, Screen::Main);
}

#[test]
fn confirming_form_appends_and_resets() {
    let mut app = app_with(2);
    app.selected = 1;
    app.handle_key(Key::Char('a'));
    type_str(&mut app, "q name");
    app.handle_key(Key::Enter);
    type_str(&mut app, "u");
    app.handle_key(Key::Enter);
    type_str(&mut app, "PATCH");
    app.handle_key(Key::Enter);
    assert_eq!(app.requests.len(), 3);
    assert_eq!(app.requests[2].name, "q name");
    assert_eq!(app.requests[2].url, "u");
    assert_eq!(app.requests[2].method, "PATCH");
    assert_eq!(app.requests[0].name, "r0");
    assert_eq!(app.selected, 1);
    assert_eq!(app.screen, Screen::Main);
    assert_eq!(app.form.name, "");
    assert_eq!(app.form.url, "");
    assert_eq!(app.form.method, "");
    assert_eq!(app.form.field, FormField::Name);
}

#[test]
fn empty_fields_make_empty_request() {
    let mut app = App::new();
    app.handle_key(Key::Char('a'));
    app.handle_key(Key::Enter);
    app.handle_key(Key::Enter);
    app.handle_key(Key::Enter);
    assert_eq!(app.requests.len(), 1);
    assert_eq!(app.requests[0].name, "");
    assert_eq!(app.requests[0].url, "");
    assert_eq!(app.requests[0].method, "");
}

#[test]
fn cancel_at_each_field_discards() {
    for confirmed in 0..3 {
        let mut app = app_with(1);
        app.handle_key(Key::Char('a'));
        type_str(&mut app, "abc");
        for _ in 0..confirmed {
            app.handle_key(Key::Enter);
            type_str(&mut app, "xyz");
        }
        assert_eq!(app.handle_key(Key::Esc), Action::Continue);
        assert_eq!(app.screen, Screen::Main);
        assert_eq!(app.requests.len(), 1);
        assert_eq!(app.form.name, "");
        assert_eq!(app.form.url, "");
        assert_eq!(app.form.method, "");
        assert_eq!(app.form.field, FormField::Name);
    }
}

#[test]
fn begin_discards_earlier_form() {
    let mut app = App::new();
    app.handle_key(Key::Char('a'));
    type_str(&mut app, "old");
    app.handle_key(Key::Esc);
    app.handle_key(Key::Char('a'));
    assert_eq!(app.form.name, "");
}

#[test]
fn backspace_on_empty_buffer_is_noop() {
    let mut app = App::new();
    app.handle_key(Key::Char('a'));
    assert_eq!(app.handle_key(Key::Backspace), Action::Continue);
    assert_eq!(app.form.name, "");
    assert_eq!(app.screen, Screen::NewRequest);
    assert_eq!(app.form.field, FormField::Name);
}

#[test]
fn backspace_twice_after_abc_leaves_a() {
    let mut app = App::new();
    app.handle_key(Key::Char('a'));
    type_str(&mut app, "abc");
    app.handle_key(Key::Backspace);
    app.handle_key(Key::Backspace);
    assert_eq!(app.form.name, "a");
}

#[test]
fn backspace_acts_on_active_field_only() {
    let mut app = App::new();
    app.handle_key(Key::Char('a'));
    type_str(&mut app, "nm");
    app.handle_key(Key::Enter);
    type_str(&mut app, "ur");
    app.handle_key(Key::Backspace);
    assert_eq!(app.form.name, "nm");
    assert_eq!(app.form.url, "u");
}

#[test]
fn form_push_and_erase() {
    let mut form = RequestForm::new();
    form.push('x');
    form.push('y');
    assert_eq!(form.name, "xy");
    form.erase();
    assert_eq!(form.name, "x");
    form.field = FormField::Method;
    form.push('P');
    assert_eq!(form.method, "P");
    assert_eq!(form.name, "x");
}

#[test]
fn default_form_is_empty() {
    let form: RequestForm = Default::default();
    assert_eq!(form.name, "");
    assert_eq!(form.field, FormField::Name);
}

#[test]
fn quit_keys_on_main() {
    let mut app = App::new();
    assert_eq!(app.handle_key(Key::Char('q')), Action::Quit);
    assert_eq!(app.handle_key(Key::Esc), Action::Quit);
}

#[test]
fn q_is_typed_on_form() {
    let mut app = App::new();
    app.handle_key(Key::Char('a'));
    assert_eq!(app.handle_key(Key::Char('q')), Action::Continue);
    assert_eq!(app.form.name, "q");
}

#[test]
fn other_keys_ignored() {
    let mut app = app_with(2);
    assert_eq!(app.handle_key(Key::Other), Action::Continue);
    assert_eq!(app.handle_key(Key::Enter), Action::Continue);
    assert_eq!(app.handle_key(Key::Char('z')), Action::Continue);
    assert_eq!(app.screen, Screen::Main);
    assert_eq!(app.selected, 0);
    app.handle_key(Key::Char('a'));
    assert_eq!(app.handle_key(Key::Down), Action::Continue);
    assert_eq!(app.screen, Screen::NewRequest);
    assert_eq!(app.selected, 0);
}

#[test]
fn send_key_names_selected_request() {
    let mut app = app_with(3);
    app.selected = 1;
    assert_eq!(app.handle_key(Key::Char('s')), Action::Send(1));
    assert_eq!(app.selected, 1);
    let mut empty = App::new();
    assert_eq!(empty.handle_key(Key::Char('s')), Action::Continue);
}
