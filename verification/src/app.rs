//! The screen and mode state machine that key presses drive.

use crate::key::{Key, KeyPress};
use crate::widgets::input::{EditState, Input, InputMode, Prompt};
use vstd::prelude::*;
use vstd::string::StrSliceExecFns;

verus! {

/// Where a token with the needed scopes is made.
pub const TOKEN_PAGE: &'static str =
    "https://github.com/settings/tokens/new?scopes=delete_repo,repo&description=Repo%20Remover%20Token";

/// What the welcome page says.
pub const WELCOME: &'static str = "Welcome, press enter to authenticate.";

/// The page that is shown.
#[derive(Debug, Clone, Copy, PartialEq, Eq, Structural)]
pub enum CurrentScreen {
    Welcome,
    Auth,
}

impl Default for CurrentScreen {
    fn default() -> (screen: CurrentScreen)
        ensures
            screen == CurrentScreen::Welcome,
    {
        CurrentScreen::Welcome
    }
}

/// Something that the host is asked to do once.
#[derive(Debug, Clone, Copy, PartialEq, Eq, Structural)]
pub enum Action {
    /// Open [`TOKEN_PAGE`] in the user's browser.
    OpenTokenPage,
}

impl Action {
    /// The address that the action is about.
    pub fn uri(&self) -> (uri: &'static str)
        ensures
            uri@ == TOKEN_PAGE@,
    {
        match self {
            Action::OpenTokenPage => TOKEN_PAGE,
        }
    }
}

/// What is drawn for a state: the welcome line, or the box in which the
/// token is typed.
#[derive(Debug)]
pub enum Scene {
    Welcome { message: &'static str },
    TokenPrompt(Prompt),
}

/// Everything that can be observed of the state machine.
pub struct AppState {
    pub screen: CurrentScreen,
    pub mode: InputMode,
    pub editor: EditState,
    pub token: Option<Seq<char>>,
    pub pending_action: Option<Action>,
    pub exit: bool,
}

impl AppState {
    /// The state at start: the welcome page, nothing typed, nothing asked for.
    pub open spec fn initial() -> AppState {
        AppState {
            screen: CurrentScreen::Welcome,
            mode: InputMode::Normal,
            editor: EditState::empty(),
            token: None,
            pending_action: None,
            exit: false,
        }
    }

    /// What holds of every state that key presses can lead to.
    pub open spec fn wf(self) -> bool {
        &&& self.editor.wf()
        &&& (self.mode is Editing ==> self.screen is Auth)
        &&& (self.mode is Normal ==> self.editor == EditState::empty())
        &&& (self.token is Some ==> self.screen is Auth && self.mode is Normal)
        &&& (self.pending_action is Some ==> self.screen is Auth)
    }

    /// The welcome page was confirmed: the host is asked to open the token
    /// page, and an empty editor takes the keys from now on.
    pub open spec fn begin_capture(self) -> AppState {
        AppState {
            screen: CurrentScreen::Auth,
            mode: InputMode::Editing,
            editor: EditState::empty(),
            pending_action: Some(Action::OpenTokenPage),
            ..self
        }
    }

    /// The typed text becomes the token, and the editor is emptied and left.
    pub open spec fn commit(self) -> AppState {
        AppState {
            screen: CurrentScreen::Auth,
            mode: InputMode::Normal,
            editor: EditState::empty(),
            token: Some(self.editor.text),
            ..self
        }
    }

    /// The state after all of `keys`, first to last.
    pub open spec fn run(self, keys: Seq<KeyPress>) -> AppState
        decreases keys.len(),
    {
        if keys.len() == 0 {
            self
        } else {
            self.run(keys.drop_last()).step(keys.last())
        }
    }

    /// The state after `key`. The exit chord is looked at first and ends the
    /// handling of the key; what no rule names is ignored.
    pub open spec fn step(self, key: KeyPress) -> AppState {
        if key.exits() {
            AppState { exit: true, ..self }
        } else {
            match self.mode {
                InputMode::Normal => match self.screen {
                    CurrentScreen::Welcome => if key.key == Key::Enter {
                        self.begin_capture()
                    } else {
                        self
                    },
                    CurrentScreen::Auth => self,
                },
                InputMode::Editing => match key.key {
                    Key::Enter => self.commit(),
                    Key::Char(c) => AppState { editor: self.editor.insert(c), ..self },
                    Key::Backspace => AppState {
                        editor: self.editor.delete_before_cursor(),
                        ..self
                    },
                    Key::Left => AppState { editor: self.editor.move_left(), ..self },
                    Key::Right => AppState { editor: self.editor.move_right(), ..self },
                    Key::Other => self,
                },
            }
        }
    }
}

/// The state machine of the front-end.
#[derive(Debug)]
pub struct App {
    current_screen: CurrentScreen,
    exit: bool,
    token: Option<String>,
    input: Input,
    pending_action: Option<Action>,
}

impl View for App {
    type V = AppState;

    closed spec fn view(&self) -> AppState {
        AppState {
            screen: self.current_screen,
            mode: self.input.input_mode,
            editor: self.input@,
            token: match self.token {
                Some(t) => Some(t@),
                None => None,
            },
            pending_action: self.pending_action,
            exit: self.exit,
        }
    }
}

impl App {
    /// The machine is in a state that key presses can lead to.
    pub open spec fn wf(&self) -> bool {
        self@.wf()
    }

    /// The machine at start.
    pub fn new() -> (app: App)
        ensures
            app@ == AppState::initial(),
            app.wf(),
    {
        App {
            current_screen: CurrentScreen::Welcome,
            exit: false,
            token: None,
            input: Input {
                input: String::new(),
                character_index: 0,
                input_mode: InputMode::Normal,
            },
            pending_action: None,
        }
    }

    /// Takes one key press and moves to the next state.
    pub fn handle_key_event(&mut self, key: KeyPress)
        requires
            old(self).wf(),
        ensures
            final(self)@ == old(self)@.step(key),
            final(self).wf(),
    {
        if key.is_exit_chord() {
            self.exit();
            return ;
        }
        match self.input.input_mode {
            InputMode::Normal => match self.current_screen {
                CurrentScreen::Welcome => {
                    if let Key::Enter = key.key {
                        self.current_screen = CurrentScreen::Auth;
                        self.pending_action = Some(Action::OpenTokenPage);
                        self.input = Input::new();
                    }
                },
                CurrentScreen::Auth => {},
            },
            InputMode::Editing => match key.key {
                Key::Enter => {
                    let text = self.input.current_text();
                    self.input.clear();
                    self.input.input_mode = InputMode::Normal;
                    self.token = Some(text);
                    self.current_screen = CurrentScreen::Auth;
                },
                Key::Char(c) => {
                    self.input.enter_char(c);
                },
                Key::Backspace => {
                    self.input.delete_char();
                },
                Key::Left => {
                    self.input.move_cursor_left();
                },
                Key::Right => {
                    self.input.move_cursor_right();
                },
                Key::Other => {},
            },
        }
    }

    /// Asks the host's loop to stop.
    fn exit(&mut self)
        ensures
            final(self)@ == (AppState { exit: true, ..old(self)@ }),
    {
        self.exit = true;
    }

    /// Whether the machine is in a state that key presses can lead to.
    pub fn is_well_formed(&self) -> (ok: bool)
        ensures
            ok == self.wf(),
    {
        let editing = match self.input.input_mode {
            InputMode::Normal => false,
            InputMode::Editing => true,
        };
        let at_auth = match self.current_screen {
            CurrentScreen::Welcome => false,
            CurrentScreen::Auth => true,
        };
        let empty = self.input.character_index == 0 && self.input.input.as_str().unicode_len() == 0;
        let committed = self.token.is_some();
        let asked = self.pending_action.is_some();
        proof {
            if empty {
                assert(self.input@.text =~= Seq::<char>::empty());
            }
        }
        self.input.is_well_formed() && (at_auth || !editing) && (editing || empty) && (!committed || (
        at_auth && !editing)) && (at_auth || !asked)
    }

    /// The page that is shown.
    pub fn current_screen(&self) -> (screen: CurrentScreen)
        ensures
            screen == self@.screen,
    {
        self.current_screen
    }

    /// Whether keys go to navigation or into the editor.
    pub fn input_mode(&self) -> (mode: InputMode)
        ensures
            mode == self@.mode,
    {
        self.input.input_mode
    }

    /// The editor, with the text typed so far and the cursor.
    pub fn input(&self) -> (input: &Input)
        ensures
            input@ == self@.editor,
            input.input_mode == self@.mode,
    {
        &self.input
    }

    /// The token, once it has been confirmed.
    pub fn token(&self) -> (token: Option<&str>)
        ensures
            match token {
                Some(t) => self@.token == Some(t@),
                None => self@.token is None,
            },
    {
        match &self.token {
            Some(t) => Some(t.as_str()),
            None => None,
        }
    }

    /// Whether the host's loop is to stop.
    pub fn should_exit(&self) -> (exit: bool)
        ensures
            exit == self@.exit,
    {
        self.exit
    }

    /// Hands out what the host is asked to do, if anything, and forgets it:
    /// each request is handed out once.
    pub fn take_pending_action(&mut self) -> (action: Option<Action>)
        ensures
            action == old(self)@.pending_action,
            final(self)@ == (AppState { pending_action: None, ..old(self)@ }),
            old(self).wf() ==> final(self).wf(),
    {
        let action = self.pending_action;
        self.pending_action = None;
        action
    }

    /// What to draw for the state as it stands.
    pub fn scene(&self) -> (scene: Scene)
        ensures
            match scene {
                Scene::Welcome { message } => self@.screen is Welcome && message@ == WELCOME@,
                Scene::TokenPrompt(prompt) => {
                    &&& self@.screen is Auth
                    &&& prompt.title@ == crate::widgets::input::TITLE@
                    &&& prompt.text@ == self@.editor.text
                    &&& prompt.cursor == self@.editor.cursor
                    &&& prompt.highlighted == (self@.mode is Editing)
                },
            },
    {
        match self.current_screen {
            CurrentScreen::Welcome => Scene::Welcome { message: WELCOME },
            CurrentScreen::Auth => Scene::TokenPrompt(self.input.prompt()),
        }
    }
}

impl Default for App {
    fn default() -> (app: App)
        ensures
            app@ == AppState::initial(),
            app.wf(),
    {
        App::new()
    }
}

/// A key press leads from a state that key presses can lead to into another
/// such state. In particular the editor takes keys on the token page only,
/// and its cursor stays within its text.
pub proof fn lemma_step_keeps_wf(s: AppState, key: KeyPress)
    requires
        s.wf(),
    ensures
        s.step(key).wf(),
{
}

/// Whatever keys were pressed since the start, the state is well formed.
pub proof fn lemma_reachable_states_wf(keys: Seq<KeyPress>)
    ensures
        AppState::initial().run(keys).wf(),
    decreases keys.len(),
{
    if keys.len() > 0 {
        lemma_reachable_states_wf(keys.drop_last());
        lemma_step_keeps_wf(AppState::initial().run(keys.drop_last()), keys.last());
    }
}

/// The exit chord asks for the exit in every state, whatever has been typed,
/// and changes nothing else.
pub proof fn lemma_exit_chord_always_exits(s: AppState, key: KeyPress)
    requires
        key.exits(),
    ensures
        s.step(key).exit,
        s.step(key) == (AppState { exit: true, ..s }),
{
}

/// On the welcome page every key but the confirming one and the exit chord
/// is ignored: the state stays as it is.
pub proof fn lemma_welcome_ignores_other_keys(s: AppState, key: KeyPress)
    requires
        s.screen is Welcome,
        s.mode is Normal,
        key.key != Key::Enter,
        !key.exits(),
    ensures
        s.step(key) == s,
{
}

/// Confirming on the welcome page opens the token page with an empty editor
/// that takes the keys, and asks the host once to open the token page.
pub proof fn lemma_enter_begins_capture(s: AppState, key: KeyPress)
    requires
        s.screen is Welcome,
        s.mode is Normal,
        key.key == Key::Enter,
    ensures
        s.step(key).screen is Auth,
        s.step(key).mode is Editing,
        s.step(key).editor == EditState::empty(),
        s.step(key).pending_action == Some(Action::OpenTokenPage),
        s.step(key).token == s.token,
        s.step(key).exit == s.exit,
{
}

/// Confirming in the editor makes the typed text the token, empties the
/// editor and leaves it; the token page stays.
pub proof fn lemma_enter_commits(s: AppState, key: KeyPress)
    requires
        s.mode is Editing,
        key.key == Key::Enter,
    ensures
        s.step(key).token == Some(s.editor.text),
        s.step(key).screen is Auth,
        s.step(key).mode is Normal,
        s.step(key).editor == EditState::empty(),
        s.step(key).pending_action == s.pending_action,
        s.step(key).exit == s.exit,
{
}

/// Only the confirming key on the welcome page raises a request to the host,
/// and the welcome page is not shown again once it was left: no run of keys
/// raises the request twice.
pub proof fn lemma_request_raised_once(s: AppState, key: KeyPress)
    ensures
        s.step(key).pending_action != s.pending_action ==> s.screen is Welcome && s.step(
            key,
        ).screen is Auth,
        s.screen is Auth ==> s.step(key).screen is Auth,
{
}

/// Once the token is confirmed no key changes anything but the exit flag.
pub proof fn lemma_no_edit_after_commit(s: AppState, key: KeyPress)
    requires
        s.screen is Auth,
        s.mode is Normal,
    ensures
        s.step(key) == (AppState { exit: s.exit || key.exits(), ..s }),
{
}

} // verus!
