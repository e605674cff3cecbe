use repo_killer::app::{Action, App, CurrentScreen, Scene, TOKEN_PAGE, WELCOME};
use repo_killer::key::{Key, KeyPress};
use repo_killer::widgets::input::InputMode;

fn press(app: &mut App, key: Key) {
    app.handle_key_event(KeyPress::plain(key));
}

fn type_text(app: &mut App, text: &str) {
    for c in text.chars() {
        press(app, Key::Char(c));
    }
}

fn ctrl_c() -> KeyPress {
    KeyPress::with_control(Key::Char('c'))
}

#[test]
fn starts_on_the_welcome_page() {
    let app = App::new();
    assert_eq!(app.current_screen(), CurrentScreen::Welcome);
    assert_eq!(app.input_mode(), InputMode::Normal);
    assert_eq!(app.token(), None);
    assert_eq!(app.input().input, "");
    assert_eq!(app.input().character_index, 0);
    assert!(!app.should_exit());
    assert!(app.is_well_formed());
}

#[test]
fn default_is_the_start_state() {
    let mut app = App::default();
    assert_eq!(app.current_screen(), CurrentScreen::Welcome);
    assert_eq!(app.input_mode(), InputMode::Normal);
    assert_eq!(app.token(), None);
    assert_eq!(app.take_pending_action(), None);
    assert!(!app.should_exit());
    assert_eq!(CurrentScreen::default(), CurrentScreen::Welcome);
}

#[test]
fn enter_opens_the_token_page_and_enter_again_commits() {
    let mut app = App::new();
    press(&mut app, Key::Enter);
    assert_eq!(app.current_screen(), CurrentScreen::Auth);
    assert_eq!(app.input_mode(), InputMode::Editing);
    assert_eq!(app.take_pending_action(), Some(Action::OpenTokenPage));
    assert_eq!(app.take_pending_action(), None);

    type_text(&mut app, "abc123");
    assert_eq!(app.input().input, "abc123");
    assert_eq!(app.token(), None);

    press(&mut app, Key::Enter);
    assert_eq!(app.token(), Some("abc123"));
    assert_eq!(app.current_screen(), CurrentScreen::Auth);
    assert_eq!(app.input_mode(), InputMode::Normal);
    assert_eq!(app.input().input, "");
    assert_eq!(app.input().character_index, 0);
    assert_eq!(app.take_pending_action(), None);
    assert!(!app.should_exit());
}

#[test]
fn the_action_names_the_token_page() {
    assert_eq!(
        Action::OpenTokenPage.uri(),
        "https://github.com/settings/tokens/new?scopes=delete_repo,repo&description=Repo%20Remover%20Token"
    );
    assert_eq!(Action::OpenTokenPage.uri(), TOKEN_PAGE);
}

#[test]
fn pending_action_waits_until_it_is_taken() {
    let mut app = App::new();
    press(&mut app, Key::Enter);
    type_text(&mut app, "ab");
    press(&mut app, Key::Enter);
    assert_eq!(app.take_pending_action(), Some(Action::OpenTokenPage));
    assert_eq!(app.take_pending_action(), None);
    assert_eq!(app.token(), Some("ab"));
}

#[test]
fn exit_chord_works_in_every_state() {
    let mut app = App::new();
    app.handle_key_event(ctrl_c());
    assert!(app.should_exit());
    assert_eq!(app.current_screen(), CurrentScreen::Welcome);
    assert_eq!(app.input_mode(), InputMode::Normal);

    let mut app = App::new();
    press(&mut app, Key::Enter);
    app.handle_key_event(ctrl_c());
    assert!(app.should_exit());
    assert_eq!(app.current_screen(), CurrentScreen::Auth);
    assert_eq!(app.input_mode(), InputMode::Editing);

    let mut app = App::new();
    press(&mut app, Key::Enter);
    type_text(&mut app, "日本語");
    press(&mut app, Key::Enter);
    app.handle_key_event(ctrl_c());
    assert!(app.should_exit());
    assert_eq!(app.token(), Some("日本語"));
    assert_eq!(app.input_mode(), InputMode::Normal);
}

#[test]
fn exit_chord_in_the_middle_of_typing_leaves_the_text() {
    let mut app = App::new();
    press(&mut app, Key::Enter);
    type_text(&mut app, "secret");
    press(&mut app, Key::Left);
    app.handle_key_event(ctrl_c());
    assert!(app.should_exit());
    assert_eq!(app.input().input, "secret");
    assert_eq!(app.input().character_index, 5);
    assert_eq!(app.input_mode(), InputMode::Editing);
    assert_eq!(app.token(), None);
}

#[test]
fn exit_flag_stays_set() {
    let mut app = App::new();
    app.handle_key_event(ctrl_c());
    press(&mut app, Key::Enter);
    type_text(&mut app, "a");
    assert!(app.should_exit());
    assert_eq!(app.input().input, "a");
}

#[test]
fn only_control_with_small_c_is_the_exit_chord() {
    assert!(ctrl_c().is_exit_chord());
    assert!(!KeyPress::plain(Key::Char('c')).is_exit_chord());
    assert!(!KeyPress::with_control(Key::Char('C')).is_exit_chord());
    assert!(!KeyPress::with_control(Key::Char('d')).is_exit_chord());
    assert!(!KeyPress::with_control(Key::Enter).is_exit_chord());
    assert!(!KeyPress::with_control(Key::Other).is_exit_chord());
    assert_eq!(KeyPress::plain(Key::Left), KeyPress { key: Key::Left, control: false });
    assert_eq!(KeyPress::with_control(Key::Left), KeyPress { key: Key::Left, control: true });
}

#[test]
fn welcome_page_ignores_other_keys() {
    let keys = [
        KeyPress::plain(Key::Other),
        KeyPress::plain(Key::Char('x')),
        KeyPress::plain(Key::Char('c')),
        KeyPress::plain(Key::Backspace),
        KeyPress::plain(Key::Left),
        KeyPress::plain(Key::Right),
        KeyPress::with_control(Key::Other),
        KeyPress::with_control(Key::Char('x')),
    ];
    let mut app = App::new();
    for key in keys {
        app.handle_key_event(key);
        assert_eq!(app.current_screen(), CurrentScreen::Welcome);
        assert_eq!(app.input_mode(), InputMode::Normal);
        assert_eq!(app.token(), None);
        assert_eq!(app.input().input, "");
        assert_eq!(app.input().character_index, 0);
        assert!(!app.should_exit());
        assert_eq!(app.take_pending_action(), None);
    }
}

#[test]
fn enter_with_control_still_confirms() {
    let mut app = App::new();
    app.handle_key_event(KeyPress::with_control(Key::Enter));
    assert_eq!(app.current_screen(), CurrentScreen::Auth);
    assert_eq!(app.input_mode(), InputMode::Editing);
}

#[test]
fn editing_keys_reach_the_editor() {
    let mut app = App::new();
    press(&mut app, Key::Enter);
    type_text(&mut app, "café");
    press(&mut app, Key::Left);
    press(&mut app, Key::Left);
    assert_eq!(app.input().character_index, 2);
    press(&mut app, Key::Backspace);
    assert_eq!(app.input().input, "cfé");
    assert_eq!(app.input().character_index, 1);
    press(&mut app, Key::Char('日'));
    assert_eq!(app.input().input, "c日fé");
    assert_eq!(app.input().character_index, 2);
    for _ in 0..9 {
        press(&mut app, Key::Right);
    }
    assert_eq!(app.input().character_index, 4);
    press(&mut app, Key::Other);
    assert_eq!(app.input().input, "c日fé");
    assert_eq!(app.input().character_index, 4);
    assert_eq!(app.input_mode(), InputMode::Editing);
    app.handle_key_event(KeyPress::with_control(Key::Char('a')));
    assert_eq!(app.input().input, "c日féa");
    press(&mut app, Key::Enter);
    assert_eq!(app.token(), Some("c日féa"));
}

#[test]
fn backspace_in_empty_editor_does_nothing() {
    let mut app = App::new();
    press(&mut app, Key::Enter);
    press(&mut app, Key::Backspace);
    press(&mut app, Key::Left);
    assert_eq!(app.input().input, "");
    assert_eq!(app.input().character_index, 0);
    press(&mut app, Key::Enter);
    assert_eq!(app.token(), Some(""));
}

#[test]
fn no_editing_after_commit() {
    let mut app = App::new();
    press(&mut app, Key::Enter);
    type_text(&mut app, "tok");
    press(&mut app, Key::Enter);
    for key in [Key::Enter, Key::Char('z'), Key::Backspace, Key::Left, Key::Right, Key::Other] {
        press(&mut app, key);
        assert_eq!(app.token(), Some("tok"));
        assert_eq!(app.current_screen(), CurrentScreen::Auth);
        assert_eq!(app.input_mode(), InputMode::Normal);
        assert_eq!(app.input().input, "");
        assert!(!app.should_exit());
    }
}

#[test]
fn every_state_on_the_way_is_well_formed() {
    let mut app = App::new();
    let keys = [
        KeyPress::plain(Key::Backspace),
        KeyPress::plain(Key::Enter),
        KeyPress::plain(Key::Char('é')),
        KeyPress::plain(Key::Left),
        KeyPress::plain(Key::Left),
        KeyPress::plain(Key::Char('日')),
        KeyPress::plain(Key::Right),
        KeyPress::plain(Key::Right),
        KeyPress::plain(Key::Backspace),
        ctrl_c(),
        KeyPress::plain(Key::Enter),
        KeyPress::plain(Key::Char('q')),
    ];
    for key in keys {
        assert!(app.is_well_formed());
        app.handle_key_event(key);
        assert!(app.is_well_formed());
        if app.input_mode() == InputMode::Editing {
            assert_eq!(app.current_screen(), CurrentScreen::Auth);
        }
    }
    assert_eq!(app.token(), Some("日"));
    assert!(app.should_exit());
}

#[test]
fn scene_follows_the_state() {
    let mut app = App::new();
    match app.scene() {
        Scene::Welcome { message } => {
            assert_eq!(message, "Welcome, press enter to authenticate.");
            assert_eq!(message, WELCOME);
        }
        Scene::TokenPrompt(_) => panic!("the token page is not open yet"),
    }
    press(&mut app, Key::Enter);
    type_text(&mut app, "日本");
    press(&mut app, Key::Left);
    match app.scene() {
        Scene::TokenPrompt(prompt) => {
            assert_eq!(prompt.title, "Paste your token");
            assert_eq!(prompt.text, "日本");
            assert_eq!(prompt.cursor, 1);
            assert!(prompt.highlighted);
        }
        Scene::Welcome { .. } => panic!("the token page is open"),
    }
    press(&mut app, Key::Enter);
    match app.scene() {
        Scene::TokenPrompt(prompt) => {
            assert_eq!(prompt.text, "");
            assert_eq!(prompt.cursor, 0);
            assert!(!prompt.highlighted);
        }
        Scene::Welcome { .. } => panic!("the token page is open"),
    }
}
