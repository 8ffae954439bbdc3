use vstd::prelude::*;

use crate::app::{App, AppView};
use crate::models::{FormField, FormView, Request, RequestForm, RequestView};

verus! {

/// The response panel's text: the selected request's response, or a
/// placeholder when there is none.
pub open spec fn response_shown(v: AppView) -> Seq<char> {
    if 0 <= v.selected < v.requests.len() {
        match v.requests[v.selected].response {
            Some(t) => t,
            None => "No response yet"@,
        }
    } else {
        "No response yet"@
    }
}

/// The details panel's text: name, URL and method of the selected request
/// on three lines, or a placeholder when the list is empty.
pub open spec fn details_shown(v: AppView) -> Seq<char> {
    if 0 <= v.selected < v.requests.len() {
        let r = v.requests[v.selected];
        "Name: "@ + r.name + "\nURL: "@ + r.url + "\nMethod: "@ + r.method
    } else {
        "No request selected"@
    }
}

/// A request's entry in the list: its method, a space and its name.
pub open spec fn label_shown(r: RequestView) -> Seq<char> {
    r.method + " "@ + r.name
}

/// The marker after the active field's line.
pub open spec fn marker(f: FormView, field: FormField) -> Seq<char> {
    if f.field == field {
        " <"@
    } else {
        ""@
    }
}

/// The lines of the new-request screen: each field's value with the active
/// one marked, then the instructions.
pub open spec fn form_lines_shown(f: FormView) -> Seq<Seq<char>> {
    seq![
        "Name:  "@ + f.name + marker(f, FormField::Name),
        "URL:   "@ + f.url + marker(f, FormField::Url),
        "Method:    "@ + f.method + marker(f, FormField::Method),
        "Press Enter to confirm each field, Esc to cancel"@,
    ]
}

fn marker_text(active: FormField, field: FormField) -> (r: &'static str)
    ensures
        r@ == (if active == field { " <"@ } else { ""@ }),
{
    if active == field {
        " <"
    } else {
        ""
    }
}

fn field_line(prefix: &str, value: &String, active: FormField, field: FormField) -> (r: String)
    ensures
        r@ == prefix@ + value@ + (if active == field { " <"@ } else { ""@ }),
{
    let mut r = prefix.to_owned();
    r.append(value.as_str());
    r.append(marker_text(active, field));
    r
}

impl Request {
    /// The text of this request's entry in the list.
    pub fn label(&self) -> (r: String)
        ensures
            r@ == label_shown(self@),
    {
        let mut r = self.method.clone();
        r.append(" ");
        r.append(self.name.as_str());
        r
    }
}

impl RequestForm {
    /// The lines that the new-request screen shows for this form.
    pub fn lines(&self) -> (r: Vec<String>)
        ensures
            r@.len() == 4,
            forall|i: int| 0 <= i < 4 ==> #[trigger] r@[i]@ == form_lines_shown(self@)[i],
    {
        let mut r: Vec<String> = Vec::new();
        r.push(field_line("Name:  ", &self.name, self.field, FormField::Name));
        r.push(field_line("URL:   ", &self.url, self.field, FormField::Url));
        r.push(field_line("Method:    ", &self.method, self.field, FormField::Method));
        r.push("Press Enter to confirm each field, Esc to cancel".to_owned());
        r
    }
}

impl App {
    /// The text of the response panel.
    pub fn response_text(&self) -> (r: String)
        ensures
            r@ == response_shown(self@),
    {
        if self.selected < self.requests.len() {
            match &self.requests[self.selected].response {
                Some(t) => t.clone(),
                None => "No response yet".to_owned(),
            }
        } else {
            "No response yet".to_owned()
        }
    }

    /// The text of the details panel.
    pub fn details_text(&self) -> (r: String)
        ensures
            r@ == details_shown(self@),
    {
        if self.selected < self.requests.len() {
            let req = &self.requests[self.selected];
            let mut r = "Name: ".to_owned();
            r.append(req.name.as_str());
            r.append("\nURL: ");
            r.append(req.url.as_str());
            r.append("\nMethod: ");
            r.append(req.method.as_str());
            r
        } else {
            "No request selected".to_owned()
        }
    }
}

} // verus!
