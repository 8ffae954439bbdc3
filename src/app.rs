use vstd::prelude::*;

use crate::events::{Action, Key};
use crate::models::{FormField, FormView, Request, RequestForm, RequestView, Screen};

verus! {

/// The whole state of the interface: the stored requests, the selection,
/// the active screen and the single form slot.
pub struct App {
    pub requests: Vec<Request>,
    pub selected: usize,
    pub screen: Screen,
    pub form: RequestForm,
}

/// The mathematical value of an [`App`].
pub struct AppView {
    pub requests: Seq<RequestView>,
    pub selected: int,
    pub screen: Screen,
    pub form: FormView,
}

impl View for App {
    type V = AppView;

    open spec fn view(&self) -> AppView {
        AppView {
            requests: self.requests@.map_values(|r: Request| r@),
            selected: self.selected as int,
            screen: self.screen,
            form: self.form@,
        }
    }
}

/// The index after `sel` in a list of `len` entries, wrapping to the front.
pub open spec fn next_index(sel: int, len: int) -> int {
    if len <= 0 {
        sel
    } else {
        (sel + 1) % len
    }
}

/// The index before `sel` in a list of `len` entries, wrapping to the back.
pub open spec fn prev_index(sel: int, len: int) -> int {
    if len <= 0 {
        sel
    } else if sel == 0 {
        len - 1
    } else {
        sel - 1
    }
}

impl AppView {
    /// The selection points into the list when there is one, and is 0 when
    /// the list is empty.
    pub open spec fn wf(self) -> bool {
        if self.requests.len() == 0 {
            self.selected == 0
        } else {
            0 <= self.selected < self.requests.len()
        }
    }

    pub open spec fn with_selected(self, sel: int) -> AppView {
        AppView { selected: sel, ..self }
    }

    pub open spec fn selected_next(self) -> AppView {
        self.with_selected(next_index(self.selected, self.requests.len() as int))
    }

    pub open spec fn selected_prev(self) -> AppView {
        self.with_selected(prev_index(self.selected, self.requests.len() as int))
    }

    pub open spec fn with_form(self, f: FormView) -> AppView {
        AppView { form: f, ..self }
    }

    /// The state after a request is appended to the list.
    pub open spec fn with_request(self, r: RequestView) -> AppView {
        AppView { requests: self.requests.push(r), ..self }
    }

    /// The state once a new request is begun: a fresh form on its screen.
    pub open spec fn begun(self) -> AppView {
        AppView { screen: Screen::NewRequest, form: FormView::empty(), ..self }
    }

    /// The state once the form is cancelled: back on the main screen, the
    /// form's content discarded.
    pub open spec fn cancelled(self) -> AppView {
        AppView { screen: Screen::Main, form: FormView::empty(), ..self }
    }

    /// The state once the active field is confirmed: the next field becomes
    /// active, and after the last one the form becomes a stored request.
    pub open spec fn confirmed(self) -> AppView {
        match self.form.field {
            FormField::Name => self.with_form(FormView { field: FormField::Url, ..self.form }),
            FormField::Url => self.with_form(FormView { field: FormField::Method, ..self.form }),
            FormField::Method => AppView {
                requests: self.requests.push(self.form.to_request()),
                screen: Screen::Main,
                form: FormView::empty(),
                ..self
            },
        }
    }

    /// The state once the request at `i` has received the response text `t`.
    pub open spec fn responded(self, i: int, t: Seq<char>) -> AppView {
        AppView {
            requests: self.requests.update(i, RequestView { response: Some(t), ..self.requests[i] }),
            ..self
        }
    }

    /// The transition table: the next state and the action for `key`.
    pub open spec fn step(self, key: Key) -> (AppView, Action) {
        match self.screen {
            Screen::Main => match key {
                Key::Char('q') | Key::Esc => (self, Action::Quit),
                Key::Char('a') => (self.begun(), Action::Continue),
                Key::Char('s') => if self.requests.len() > 0 {
                    (self, Action::Send(self.selected as usize))
                } else {
                    (self, Action::Continue)
                },
                Key::Down => (self.selected_next(), Action::Continue),
                Key::Up => (self.selected_prev(), Action::Continue),
                _ => (self, Action::Continue),
            },
            Screen::NewRequest => match key {
                Key::Esc => (self.cancelled(), Action::Continue),
                Key::Enter => (self.confirmed(), Action::Continue),
                Key::Char(c) => (self.with_form(self.form.typed(c)), Action::Continue),
                Key::Backspace => (self.with_form(self.form.erased()), Action::Continue),
                _ => (self, Action::Continue),
            },
        }
    }
}

impl App {
    /// An empty application on the main screen.
    pub fn new() -> (r: App)
        ensures
            r@ == (AppView {
                requests: Seq::empty(),
                selected: 0,
                screen: Screen::Main,
                form: FormView::empty(),
            }),
            r@.wf(),
    {
        let r = App {
            requests: Vec::new(),
            selected: 0,
            screen: Screen::Main,
            form: RequestForm::new(),
        };
        assert(r@.requests =~= Seq::empty());
        r
    }

    /// Moves the selection one entry down, wrapping to the first; does
    /// nothing on an empty list.
    pub fn next(&mut self)
        requires
            old(self)@.wf(),
        ensures
            final(self)@ == old(self)@.selected_next(),
            final(self)@.wf(),
    {
        if self.requests.len() > 0 {
            self.selected = (self.selected + 1) % self.requests.len();
        }
    }

    /// Moves the selection one entry up, wrapping to the last; does nothing
    /// on an empty list.
    pub fn prev(&mut self)
        requires
            old(self)@.wf(),
        ensures
            final(self)@ == old(self)@.selected_prev(),
            final(self)@.wf(),
    {
        if self.requests.len() > 0 {
            if self.selected == 0 {
                self.selected = self.requests.len() - 1;
            } else {
                self.selected = self.selected - 1;
            }
        }
    }

    /// Appends a request with these fields and no response.
    pub fn add_request(&mut self, name: String, url: String, method: String)
        requires
            old(self)@.wf(),
        ensures
            final(self)@ == old(self)@.with_request(
                RequestView { name: name@, url: url@, method: method@, response: None },
            ),
            final(self)@.wf(),
    {
        let ghost before = self@;
        self.requests.push(Request { name, url, method, response: None });
        assert(self@.requests =~= before.requests.push(
            RequestView { name: name@, url: url@, method: method@, response: None },
        ));
    }

    /// Opens the new-request screen with a fresh form; whatever an earlier
    /// form held is discarded.
    pub fn begin_new_request(&mut self)
        ensures
            final(self)@ == old(self)@.begun(),
    {
        self.screen = Screen::NewRequest;
        self.form = RequestForm::new();
    }

    /// Returns to the main screen and discards the form's content.
    pub fn cancel_form(&mut self)
        ensures
            final(self)@ == old(self)@.cancelled(),
    {
        self.screen = Screen::Main;
        self.form = RequestForm::new();
    }

    /// Confirms the active field. After the method field the form's buffers
    /// become a new request at the end of the list, the main screen returns
    /// and the form is reset.
    pub fn confirm_field(&mut self)
        requires
            old(self)@.wf(),
        ensures
            final(self)@ == old(self)@.confirmed(),
            final(self)@.wf(),
    {
        match self.form.field {
            FormField::Name => {
                self.form.field = FormField::Url;
            },
            FormField::Url => {
                self.form.field = FormField::Method;
            },
            FormField::Method => {
                let name = self.form.name.clone();
                let url = self.form.url.clone();
                let method = self.form.method.clone();
                self.add_request(name, url, method);
                self.screen = Screen::Main;
                self.form = RequestForm::new();
            },
        }
    }

    /// Types `c` into the active field of the form.
    pub fn type_char(&mut self, c: char)
        ensures
            final(self)@ == old(self)@.with_form(old(self)@.form.typed(c)),
    {
        self.form.push(c);
    }

    /// Erases the last character of the active field, if it has one.
    pub fn erase_char(&mut self)
        ensures
            final(self)@ == old(self)@.with_form(old(self)@.form.erased()),
    {
        self.form.erase();
    }

    /// Handles one key press: updates the state by the transition table and
    /// says what the event loop is to do next.
    pub fn handle_key(&mut self, key: Key) -> (r: Action)
        requires
            old(self)@.wf(),
        ensures
            (final(self)@, r) == old(self)@.step(key),
            final(self)@.wf(),
    {
        match self.screen {
            Screen::Main => match key {
                Key::Char('q') | Key::Esc => Action::Quit,
                Key::Char('a') => {
                    self.begin_new_request();
                    Action::Continue
                },
                Key::Char('s') => {
                    if self.requests.len() > 0 {
                        Action::Send(self.selected)
                    } else {
                        Action::Continue
                    }
                },
                Key::Down => {
                    self.next();
                    Action::Continue
                },
                Key::Up => {
                    self.prev();
                    Action::Continue
                },
                _ => Action::Continue,
            },
            Screen::NewRequest => match key {
                Key::Esc => {
                    self.cancel_form();
                    Action::Continue
                },
                Key::Enter => {
                    self.confirm_field();
                    Action::Continue
                },
                Key::Char(c) => {
                    self.type_char(c);
                    Action::Continue
                },
                Key::Backspace => {
                    self.erase_char();
                    Action::Continue
                },
                _ => Action::Continue,
            },
        }
    }
}

} // verus!
