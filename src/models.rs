use vstd::prelude::*;

use crate::text::{pop_char, push_char};

verus! {

/// A stored request and the text of its last response, if any.
#[derive(Debug, Clone)]
pub struct Request {
    pub name: String,
    pub url: String,
    pub method: String,
    pub response: Option<String>,
}

/// The mathematical value of a [`Request`].
pub struct RequestView {
    pub name: Seq<char>,
    pub url: Seq<char>,
    pub method: Seq<char>,
    pub response: Option<Seq<char>>,
}

pub open spec fn opt_text(o: Option<String>) -> Option<Seq<char>> {
    match o {
        Some(s) => Some(s@),
        None => None,
    }
}

impl View for Request {
    type V = RequestView;

    open spec fn view(&self) -> RequestView {
        RequestView {
            name: self.name@,
            url: self.url@,
            method: self.method@,
            response: opt_text(self.response),
        }
    }
}

/// The top-level mode of the interface.
#[derive(Debug, Clone, Copy, PartialEq, Eq, Structural)]
pub enum Screen {
    Main,
    NewRequest,
}

/// The field of the form that receives typed characters, in the order in
/// which the fields are confirmed.
#[derive(Debug, Clone, Copy, PartialEq, Eq, Structural)]
pub enum FormField {
    Name,
    Url,
    Method,
}

/// Transient state for composing a new request.
pub struct RequestForm {
    pub name: String,
    pub url: String,
    pub method: String,
    pub field: FormField,
}

/// The mathematical value of a [`RequestForm`].
pub struct FormView {
    pub name: Seq<char>,
    pub url: Seq<char>,
    pub method: Seq<char>,
    pub field: FormField,
}

impl View for RequestForm {
    type V = FormView;

    open spec fn view(&self) -> FormView {
        FormView { name: self.name@, url: self.url@, method: self.method@, field: self.field }
    }
}

impl FormView {
    /// A form with three empty buffers, receiving input in the name field.
    pub open spec fn empty() -> FormView {
        FormView {
            name: Seq::empty(),
            url: Seq::empty(),
            method: Seq::empty(),
            field: FormField::Name,
        }
    }

    /// The buffer of the active field.
    pub open spec fn active(self) -> Seq<char> {
        match self.field {
            FormField::Name => self.name,
            FormField::Url => self.url,
            FormField::Method => self.method,
        }
    }

    /// The form with the active field's buffer replaced by `b`.
    pub open spec fn with_active(self, b: Seq<char>) -> FormView {
        match self.field {
            FormField::Name => FormView { name: b, ..self },
            FormField::Url => FormView { url: b, ..self },
            FormField::Method => FormView { method: b, ..self },
        }
    }

    /// The form after the character `c` is typed.
    pub open spec fn typed(self, c: char) -> FormView {
        self.with_active(self.active().push(c))
    }

    /// The form after one erase: the active buffer loses its last character,
    /// if it has one.
    pub open spec fn erased(self) -> FormView {
        if self.active().len() == 0 {
            self
        } else {
            self.with_active(self.active().drop_last())
        }
    }

    /// The request that confirming this form produces: the buffers verbatim,
    /// with no response yet.
    pub open spec fn to_request(self) -> RequestView {
        RequestView { name: self.name, url: self.url, method: self.method, response: None }
    }
}

impl RequestForm {
    /// A fresh form: empty buffers, input going to the name field.
    pub fn new() -> (r: RequestForm)
        ensures
            r@ == FormView::empty(),
    {
        RequestForm {
            name: String::new(),
            url: String::new(),
            method: String::new(),
            field: FormField::Name,
        }
    }

    /// Appends `c` to the buffer of the active field.
    pub fn push(&mut self, c: char)
        ensures
            final(self)@ == old(self)@.typed(c),
    {
        match self.field {
            FormField::Name => push_char(&mut self.name, c),
            FormField::Url => push_char(&mut self.url, c),
            FormField::Method => push_char(&mut self.method, c),
        }
    }

    /// Removes the last character of the active field's buffer; an empty
    /// buffer is left as it is.
    pub fn erase(&mut self)
        ensures
            final(self)@ == old(self)@.erased(),
    {
        let _ = match self.field {
            FormField::Name => pop_char(&mut self.name),
            FormField::Url => pop_char(&mut self.url),
            FormField::Method => pop_char(&mut self.method),
        };
    }
}

impl Default for RequestForm {
    fn default() -> (r: RequestForm)
        ensures
            r@ == FormView::empty(),
    {
        RequestForm::new()
    }
}

} // verus!
