//! The state of the screen and what each key does to it.

use vstd::prelude::*;
use vstd::string::StringExecFns;
use crate::display::{DisplayString, FieldModel};
use crate::dropdown::{Dropdown, DropdownModel};
use crate::request::{method_named, render_reply, reply_text, RequestReply, RequestType};
use crate::tabs::SelectedTab;
use crate::text::{contains, is_substring};
use crate::url::{normalized_url, parse_into_https};

verus! {

/// What the URL field shows before anything is typed.
pub const PLACEHOLDER_URL_VALUE: &'static str = "<Enter URL here>";

/// What the body field shows before anything is typed.
pub const PLACEHOLDER_REQUEST_BODY: &'static str = "<Provide request body here>";

/// What the headers field shows before anything is typed.
pub const PLACEHOLDER_HEADERS: &'static str = "{\"content-type\": \"application/json\"}";

/// The number of blocks of the request form that the arrow keys walk.
pub const BLOCK_COUNT: usize = 4;

/// A key press.
#[derive(Clone, Copy, Debug, PartialEq, Eq, Structural)]
pub enum Key {
    Char(char),
    Backspace,
    Down,
    Right,
    Up,
    Left,
    Enter,
    Esc,
    /// Any other key.
    Other,
}

/// What is to be done outside after a key press.
#[derive(Debug)]
pub enum Command {
    /// Nothing.
    Nothing,
    /// Start a load test run against `url`.
    RunLoadTest { url: String },
    /// Send one request. `headers` is the text of the headers field;
    /// `body` is absent where the request goes out without one.
    SendRequest { method: RequestType, url: String, headers: String, body: Option<String> },
}

/// What a command holds.
pub enum CommandModel {
    Nothing,
    RunLoadTest { url: Seq<char> },
    SendRequest {
        method: RequestType,
        url: Seq<char>,
        headers: Seq<char>,
        body: Option<Seq<char>>,
    },
}

impl View for Command {
    type V = CommandModel;

    open spec fn view(&self) -> CommandModel {
        match *self {
            Command::Nothing => CommandModel::Nothing,
            Command::RunLoadTest { url } => CommandModel::RunLoadTest { url: url@ },
            Command::SendRequest { method, url, headers, body } => CommandModel::SendRequest {
                method,
                url: url@,
                headers: headers@,
                body: match body {
                    Some(text) => Some(text@),
                    None => None,
                },
            },
        }
    }
}

/// The state of the screen.
pub struct AppState {
    /// Whether the user has asked to leave.
    pub should_exit: bool,
    /// The block of the request form that the arrow keys stand on: method,
    /// URL, body or headers, counted from 0.
    pub active_block: usize,
    /// The number of blocks that the arrow keys walk.
    pub block_size: usize,
    /// The list of methods.
    pub request_type: Dropdown,
    pub request_url: DisplayString,
    pub request_body: DisplayString,
    pub headers: DisplayString,
    /// What came back from the last request.
    pub response: DisplayString,
    pub selected_tab: SelectedTab,
    /// The address of the endpoint to load test.
    pub load_test_url: DisplayString,
}

/// What the screen holds.
pub struct AppModel {
    pub should_exit: bool,
    pub active_block: nat,
    pub block_size: nat,
    pub request_type: DropdownModel,
    pub request_url: FieldModel,
    pub request_body: FieldModel,
    pub headers: FieldModel,
    pub response: FieldModel,
    pub selected_tab: SelectedTab,
    pub load_test_url: FieldModel,
}

impl View for AppState {
    type V = AppModel;

    open spec fn view(&self) -> AppModel {
        AppModel {
            should_exit: self.should_exit,
            active_block: self.active_block as nat,
            block_size: self.block_size as nat,
            request_type: self.request_type@,
            request_url: self.request_url@,
            request_body: self.request_body@,
            headers: self.headers@,
            response: self.response@,
            selected_tab: self.selected_tab,
            load_test_url: self.load_test_url@,
        }
    }
}

impl AppModel {
    /// Whether a field of the request form is being edited.
    pub open spec fn form_editing(self) -> bool {
        self.request_url.edit_mode || self.request_body.edit_mode || self.headers.edit_mode
    }

    /// Whether any field at all is being edited.
    pub open spec fn any_editing(self) -> bool {
        self.form_editing() || self.load_test_url.edit_mode
    }

    /// The effect of a letter as a shortcut: `h` and `l` walk the tabs and
    /// `q` asks to leave.
    pub open spec fn shortcut(self, c: char) -> AppModel {
        if c == 'h' {
            AppModel { selected_tab: self.selected_tab.left(), ..self }
        } else if c == 'l' {
            AppModel { selected_tab: self.selected_tab.right(), ..self }
        } else if c == 'q' {
            AppModel { should_exit: true, ..self }
        } else {
            self
        }
    }

    /// The form after `c` went to the field being edited: the first of URL,
    /// body and headers that is in edit mode, if any.
    pub open spec fn typed_into_form(self, c: char) -> AppModel {
        if self.request_url.edit_mode {
            AppModel { request_url: self.request_url.with_char(c), ..self }
        } else if self.request_body.edit_mode {
            AppModel { request_body: self.request_body.with_char(c), ..self }
        } else if self.headers.edit_mode {
            AppModel { headers: self.headers.with_char(c), ..self }
        } else {
            self
        }
    }

    /// The form after `e` was pressed on the active block: the method list
    /// opens or closes; a field that is not being edited enters edit mode,
    /// and loses its placeholder.
    pub open spec fn edit_pressed(self) -> AppModel {
        if self.active_block == 0 {
            AppModel { request_type: self.request_type.toggled(), ..self }
        } else if self.active_block == 1 && !self.request_url.edit_mode {
            AppModel { request_url: self.request_url.opened(PLACEHOLDER_URL_VALUE@), ..self }
        } else if self.active_block == 2 && !self.request_body.edit_mode {
            AppModel {
                request_body: self.request_body.opened(PLACEHOLDER_REQUEST_BODY@),
                ..self
            }
        } else if self.active_block == 3 && !self.headers.edit_mode {
            AppModel { headers: self.headers.toggled(), ..self }
        } else {
            self
        }
    }

    /// The screen after a character key on the load test tab.
    pub open spec fn typed_on_load_test(self, c: char) -> AppModel {
        if self.load_test_url.edit_mode {
            AppModel { load_test_url: self.load_test_url.with_char(c), ..self }
        } else if c == 'e' {
            AppModel { load_test_url: self.load_test_url.toggled(), ..self }
        } else {
            self
        }
    }

    /// The screen after a character key on the request tab.
    pub open spec fn typed_on_request(self, c: char) -> AppModel {
        if c == 'e' {
            self.typed_into_form(c).edit_pressed()
        } else {
            self.typed_into_form(c)
        }
    }

    /// The screen after a character key: shortcuts count while nothing is
    /// being edited, then the key goes to the tab that is selected.
    pub open spec fn typed(self, c: char) -> AppModel {
        let switched = if self.any_editing() {
            self
        } else {
            self.shortcut(c)
        };
        match switched.selected_tab {
            SelectedTab::LoadTest => switched.typed_on_load_test(c),
            SelectedTab::RequestReply => switched.typed_on_request(c),
        }
    }

    /// The screen after backspace.
    pub open spec fn erased(self) -> AppModel {
        match self.selected_tab {
            SelectedTab::LoadTest => AppModel {
                load_test_url: self.load_test_url.without_last_char(),
                ..self
            },
            SelectedTab::RequestReply => if self.request_url.edit_mode {
                AppModel { request_url: self.request_url.without_last_char(), ..self }
            } else if self.request_body.edit_mode {
                AppModel { request_body: self.request_body.without_last_char(), ..self }
            } else if self.headers.edit_mode {
                AppModel { headers: self.headers.without_last_char(), ..self }
            } else {
                self
            },
        }
    }

    /// The screen after down or right: the next method while the list is
    /// open; else, unless a field is being edited, the next block.
    pub open spec fn moved_forward(self) -> AppModel {
        if self.request_type.open {
            AppModel { request_type: self.request_type.advanced(), ..self }
        } else if self.form_editing() {
            self
        } else {
            AppModel {
                active_block: if self.active_block + 1 <= self.block_size - 1 {
                    self.active_block + 1
                } else {
                    (self.block_size - 1) as nat
                },
                ..self
            }
        }
    }

    /// The screen after up or left: the method before while the list is
    /// open; else, unless a field is being edited, the block before.
    pub open spec fn moved_back(self) -> AppModel {
        if self.request_type.open {
            AppModel { request_type: self.request_type.retreated(), ..self }
        } else if self.form_editing() {
            self
        } else {
            AppModel {
                active_block: if self.active_block == 0 {
                    0
                } else {
                    (self.active_block - 1) as nat
                },
                ..self
            }
        }
    }

    /// The form with the field being edited out of edit mode.
    pub open spec fn edit_closed(self) -> AppModel {
        if self.request_url.edit_mode {
            AppModel { request_url: self.request_url.toggled(), ..self }
        } else if self.request_body.edit_mode {
            AppModel { request_body: self.request_body.toggled(), ..self }
        } else if self.headers.edit_mode {
            AppModel { headers: self.headers.toggled(), ..self }
        } else {
            self
        }
    }

    /// The screen after enter or escape.
    pub open spec fn confirmed(self) -> AppModel {
        match self.selected_tab {
            SelectedTab::LoadTest => AppModel {
                load_test_url: self.load_test_url.toggled(),
                ..self
            },
            SelectedTab::RequestReply => if self.request_type.open {
                AppModel { request_type: self.request_type.toggled(), ..self }.edit_closed()
            } else {
                self.edit_closed()
            },
        }
    }

    /// The screen after a key press.
    pub open spec fn after(self, key: Key) -> AppModel {
        match key {
            Key::Char(c) => self.typed(c),
            Key::Backspace => self.erased(),
            Key::Down | Key::Right => self.moved_forward(),
            Key::Up | Key::Left => self.moved_back(),
            Key::Enter | Key::Esc => self.confirmed(),
            Key::Other => self,
        }
    }

    /// Whether `r` starts a load test run: on the load test tab, while the
    /// address is not being edited.
    pub open spec fn starts_load_test(self, key: Key) -> bool {
        key == Key::Char('r') && self.selected_tab == SelectedTab::LoadTest
            && !self.load_test_url.edit_mode
    }

    /// Whether `r` sends the request: on the request tab, while neither URL
    /// nor body is being edited and the method list is closed.
    pub open spec fn sends_request(self, key: Key) -> bool {
        key == Key::Char('r') && self.selected_tab == SelectedTab::RequestReply
            && !self.request_url.edit_mode && !self.request_body.edit_mode
            && !self.request_type.open
    }

    /// The name of the selected method.
    pub open spec fn method_name(self) -> Seq<char> {
        self.request_type.items[self.request_type.selected as int]
    }

    /// The request that the form describes. A request other than GET takes
    /// the body field along, unless the placeholder is still in it.
    pub open spec fn request(self) -> CommandModel {
        let method = method_named(self.method_name()).unwrap();
        CommandModel::SendRequest {
            method,
            url: normalized_url(self.request_url.value),
            headers: self.headers.value,
            body: if method == RequestType::GET || is_substring(
                PLACEHOLDER_REQUEST_BODY@,
                self.request_body.value,
            ) {
                None
            } else {
                Some(self.request_body.value)
            },
        }
    }

    /// What is to be done outside after a key press.
    pub open spec fn command(self, key: Key) -> CommandModel {
        if self.starts_load_test(key) {
            CommandModel::RunLoadTest { url: normalized_url(self.load_test_url.value) }
        } else if self.sends_request(key) {
            self.after(key).request()
        } else {
            CommandModel::Nothing
        }
    }

    /// The key presses that the screen can take in this state: a walk
    /// through the method list needs a list that is not empty, a walk
    /// through the blocks needs a block to stand on, and a request needs
    /// the selected item to be the name of a method.
    pub open spec fn accepts(self, key: Key) -> bool {
        match key {
            Key::Down | Key::Right => if self.request_type.open {
                self.request_type.items.len() > 0
            } else {
                self.form_editing() || (self.block_size > 0 && self.active_block < usize::MAX)
            },
            Key::Up | Key::Left => self.request_type.open ==> self.request_type.items.len() > 0,
            _ => self.sends_request(key) ==> self.request_type.items.len() > 0 && method_named(
                self.method_name(),
            ) is Some,
        }
    }
}

impl AppState {
    /// The screen at the start: the request tab, the first block active,
    /// nothing being edited, every field showing its default.
    pub fn new(
        request_types: Vec<String>,
        default_request_url: &str,
        default_request_body: &str,
        default_headers: &str,
        default_response: &str,
    ) -> (state: AppState)
        ensures
            state@ == (AppModel {
                should_exit: false,
                active_block: 0,
                block_size: BLOCK_COUNT as nat,
                request_type: DropdownModel {
                    items: Seq::new(request_types@.len(), |i: int| request_types@[i]@),
                    selected: 0,
                    open: false,
                },
                request_url: FieldModel { value: default_request_url@, edit_mode: false },
                request_body: FieldModel { value: default_request_body@, edit_mode: false },
                headers: FieldModel { value: default_headers@, edit_mode: false },
                response: FieldModel { value: default_response@, edit_mode: false },
                selected_tab: SelectedTab::RequestReply,
                load_test_url: FieldModel { value: Seq::empty(), edit_mode: false },
            }),
    {
        AppState {
            should_exit: false,
            active_block: 0,
            block_size: BLOCK_COUNT,
            request_type: Dropdown::new(request_types),
            request_url: DisplayString::new(String::from_str(default_request_url)),
            request_body: DisplayString::new(String::from_str(default_request_body)),
            headers: DisplayString::new(String::from_str(default_headers)),
            response: DisplayString::new(String::from_str(default_response)),
            selected_tab: SelectedTab::RequestReply,
            load_test_url: DisplayString::new(String::new()),
        }
    }

    /// Adds `c` to the field of the form that is being edited.
    fn type_into_form(&mut self, c: char)
        ensures
            final(self)@ == old(self)@.typed_into_form(c),
    {
        if self.request_url.edit_mode {
            self.request_url.add_char(c);
        } else if self.request_body.edit_mode {
            self.request_body.add_char(c);
        } else if self.headers.edit_mode {
            self.headers.add_char(c);
        }
    }

    /// Begins editing on the active block.
    fn press_edit(&mut self)
        ensures
            final(self)@ == old(self)@.edit_pressed(),
    {
        if self.active_block == 0 {
            self.request_type.toggle();
        }
        if self.active_block == 1 && !self.request_url.edit_mode {
            self.request_url.toggle_mode();
            if self.request_url.value == String::from_str(PLACEHOLDER_URL_VALUE) {
                self.request_url.update_value(String::new());
            }
        }
        if self.active_block == 2 && !self.request_body.edit_mode {
            self.request_body.toggle_mode();
            if self.request_body.value == String::from_str(PLACEHOLDER_REQUEST_BODY) {
                self.request_body.update_value(String::new());
            }
        }
        if self.active_block == 3 && !self.headers.edit_mode {
            self.headers.toggle_mode();
        }
    }

    /// Ends editing of the field of the form that is being edited.
    fn close_edit(&mut self)
        ensures
            final(self)@ == old(self)@.edit_closed(),
    {
        if self.request_url.edit_mode {
            self.request_url.toggle_mode();
        } else if self.request_body.edit_mode {
            self.request_body.toggle_mode();
        } else if self.headers.edit_mode {
            self.headers.toggle_mode();
        }
    }

    /// Removes the last character of the field that backspace goes to.
    fn erase(&mut self)
        ensures
            final(self)@ == old(self)@.erased(),
    {
        match self.selected_tab {
            SelectedTab::LoadTest => {
                self.load_test_url.remove_last_char();
            },
            SelectedTab::RequestReply => {
                if self.request_url.edit_mode {
                    self.request_url.remove_last_char();
                } else if self.request_body.edit_mode {
                    self.request_body.remove_last_char();
                } else if self.headers.edit_mode {
                    self.headers.remove_last_char();
                }
            },
        }
    }

    /// The request that the form describes.
    fn request_command(&self) -> (command: Command)
        requires
            self@.request_type.items.len() > 0,
            method_named(self@.method_name()) is Some,
        ensures
            command@ == self@.request(),
    {
        let name = self.request_type.get_selected_value();
        let method = match RequestType::from_name(name.as_str()) {
            Some(method) => method,
            None => RequestType::GET,
        };
        let url = parse_into_https(self.request_url.value.as_str());
        let headers = self.headers.value.clone();
        let without_body = match method {
            RequestType::GET => true,
            _ => contains(self.request_body.value.as_str(), PLACEHOLDER_REQUEST_BODY),
        };
        let body = if without_body {
            None
        } else {
            Some(self.request_body.value.clone())
        };
        Command::SendRequest { method, url, headers, body }
    }

    /// Whether the screen can take `key` in this state.
    pub fn accepts(&self, key: Key) -> (accepted: bool)
        ensures
            accepted == self@.accepts(key),
    {
        let form_editing = self.request_url.edit_mode || self.request_body.edit_mode
            || self.headers.edit_mode;
        match key {
            Key::Down | Key::Right => {
                if self.request_type.open() {
                    self.request_type.len() > 0
                } else {
                    form_editing || (self.block_size > 0 && self.active_block < usize::MAX)
                }
            },
            Key::Up | Key::Left => !self.request_type.open() || self.request_type.len() > 0,
            Key::Char(c) => {
                let sends = c == 'r' && !self.request_url.edit_mode && !self.request_body.edit_mode
                    && !self.request_type.open() && match self.selected_tab {
                    SelectedTab::RequestReply => true,
                    SelectedTab::LoadTest => false,
                };
                if sends {
                    if self.request_type.len() == 0 {
                        false
                    } else {
                        let name = self.request_type.get_selected_value();
                        RequestType::from_name(name.as_str()).is_some()
                    }
                } else {
                    true
                }
            },
            _ => true,
        }
    }

    /// Takes one key press: changes the screen and says what is to be done
    /// outside.
    pub fn handle_key(&mut self, key: Key) -> (command: Command)
        requires
            old(self)@.accepts(key),
        ensures
            final(self)@ == old(self)@.after(key),
            command@ == old(self)@.command(key),
    {
        match key {
            Key::Char(c) => {
                let any_editing = self.request_body.edit_mode || self.request_url.edit_mode
                    || self.headers.edit_mode || self.load_test_url.edit_mode;
                if c == 'h' && !any_editing {
                    self.selected_tab = self.selected_tab.previous();
                }
                if c == 'l' && !any_editing {
                    self.selected_tab = self.selected_tab.next();
                }
                if c == 'q' && !any_editing {
                    self.should_exit = true;
                }
                match self.selected_tab {
                    SelectedTab::LoadTest => {
                        let was_editing = self.load_test_url.edit_mode;
                        if was_editing {
                            self.load_test_url.add_char(c);
                        }
                        if c == 'e' && !was_editing {
                            self.load_test_url.toggle_mode();
                        }
                        if c == 'r' && !was_editing {
                            Command::RunLoadTest {
                                url: parse_into_https(self.load_test_url.value.as_str()),
                            }
                        } else {
                            Command::Nothing
                        }
                    },
                    SelectedTab::RequestReply => {
                        self.type_into_form(c);
                        if c == 'e' {
                            self.press_edit();
                        }
                        if c == 'r' && !self.request_url.edit_mode && !self.request_body.edit_mode
                            && !self.request_type.open() {
                            self.request_command()
                        } else {
                            Command::Nothing
                        }
                    },
                }
            },
            Key::Backspace => {
                self.erase();
                Command::Nothing
            },
            Key::Down | Key::Right => {
                if self.request_type.open() {
                    self.request_type.next();
                } else if self.request_url.edit_mode || self.request_body.edit_mode
                    || self.headers.edit_mode {
                } else {
                    let next_block: usize = self.active_block + 1;
                    let last_block: usize = self.block_size - 1;
                    self.active_block = if next_block <= last_block {
                        next_block
                    } else {
                        last_block
                    };
                }
                Command::Nothing
            },
            Key::Up | Key::Left => {
                if self.request_type.open() {
                    self.request_type.previous();
                } else if self.request_url.edit_mode || self.request_body.edit_mode
                    || self.headers.edit_mode {
                } else {
                    self.active_block = if self.active_block == 0 {
                        0
                    } else {
                        self.active_block - 1
                    };
                }
                Command::Nothing
            },
            Key::Enter | Key::Esc => {
                match self.selected_tab {
                    SelectedTab::LoadTest => {
                        self.load_test_url.toggle_mode();
                    },
                    SelectedTab::RequestReply => {
                        if self.request_type.open() {
                            self.request_type.toggle();
                        }
                        self.close_edit();
                    },
                }
                Command::Nothing
            },
            Key::Other => Command::Nothing,
        }
    }

    /// Shows the reply to a request in the response field.
    pub fn show_reply(&mut self, reply: RequestReply)
        ensures
            final(self)@ == (AppModel {
                response: FieldModel {
                    value: reply_text(reply),
                    edit_mode: old(self)@.response.edit_mode,
                },
                ..old(self)@
            }),
    {
        self.response.update_value(render_reply(reply));
    }
}

} // verus!
