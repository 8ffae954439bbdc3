use vstd::prelude::*;

use vstd::arithmetic::div_mod::{
    lemma_add_mod_noop_right, lemma_mod_add_multiples_vanish, lemma_mod_sub_multiples_vanish,
    lemma_small_mod,
};

use crate::app::AppView;
use crate::events::{Action, Key};
use crate::http::outcome_text;
use crate::models::{FormField, FormView, RequestView, Screen};

verus! {

/// The state after moving the selection down `k` times.
pub open spec fn nexts(v: AppView, k: nat) -> AppView
    decreases k,
{
    if k == 0 {
        v
    } else {
        nexts(v, (k - 1) as nat).selected_next()
    }
}

/// The state after moving the selection up `k` times.
pub open spec fn prevs(v: AppView, k: nat) -> AppView
    decreases k,
{
    if k == 0 {
        v
    } else {
        prevs(v, (k - 1) as nat).selected_prev()
    }
}

proof fn lemma_nexts_shift(v: AppView, k: nat)
    requires
        v.wf(),
        v.requests.len() > 0,
    ensures
        nexts(v, k) == v.with_selected((v.selected + k) % (v.requests.len() as int)),
    decreases k,
{
    let m = v.requests.len() as int;
    if k == 0 {
        lemma_small_mod(v.selected as nat, m as nat);
        assert(v.with_selected(v.selected % m) == v);
    } else {
        lemma_nexts_shift(v, (k - 1) as nat);
        lemma_add_mod_noop_right(1, v.selected + k - 1, m);
    }
}

proof fn lemma_prevs_shift(v: AppView, k: nat)
    requires
        v.wf(),
        v.requests.len() > 0,
    ensures
        prevs(v, k) == v.with_selected((v.selected - k) % (v.requests.len() as int)),
    decreases k,
{
    let m = v.requests.len() as int;
    if k == 0 {
        lemma_small_mod(v.selected as nat, m as nat);
        assert(v.with_selected(v.selected % m) == v);
    } else {
        lemma_prevs_shift(v, (k - 1) as nat);
        let x = (v.selected - k + 1) % m;
        lemma_add_mod_noop_right(-1, v.selected - k + 1, m);
        if x == 0 {
            lemma_mod_add_multiples_vanish(-1, m);
            lemma_small_mod((m - 1) as nat, m as nat);
        } else {
            lemma_small_mod((x - 1) as nat, m as nat);
        }
    }
}

/// Moving the selection down as many times as there are requests brings it
/// back where it was, and so does moving it up as many times.
pub proof fn lemma_full_cycle(v: AppView)
    requires
        v.wf(),
        v.requests.len() > 0,
    ensures
        nexts(v, v.requests.len()) == v,
        prevs(v, v.requests.len()) == v,
{
    let m = v.requests.len() as int;
    lemma_nexts_shift(v, v.requests.len());
    lemma_prevs_shift(v, v.requests.len());
    lemma_mod_add_multiples_vanish(v.selected, m);
    lemma_mod_sub_multiples_vanish(v.selected, m);
    lemma_small_mod(v.selected as nat, m as nat);
    assert(v.with_selected(v.selected) == v);
}

/// On an empty list, moving the selection either way changes nothing.
pub proof fn lemma_select_on_empty(v: AppView)
    requires
        v.requests.len() == 0,
    ensures
        v.selected_next() == v,
        v.selected_prev() == v,
{
}

/// The state after the keys `ks` are handled in order.
pub open spec fn run(v: AppView, ks: Seq<Key>) -> AppView
    decreases ks.len(),
{
    if ks.len() == 0 {
        v
    } else {
        run(v, ks.drop_last()).step(ks.last()).0
    }
}

/// The key press that types `c`.
pub open spec fn char_key(c: char) -> Key {
    Key::Char(c)
}

/// The key presses that type the characters of `s`.
pub open spec fn typing(s: Seq<char>) -> Seq<Key>
    decreases s.len(),
{
    if s.len() == 0 {
        Seq::empty()
    } else {
        typing(s.drop_last()).push(char_key(s.last()))
    }
}

proof fn lemma_run_one(v: AppView, k: Key)
    ensures
        run(v, seq![k]) == v.step(k).0,
{
    assert(seq![k].drop_last() =~= Seq::<Key>::empty());
    assert(run(v, seq![k].drop_last()) == v);
}

proof fn lemma_run_concat(v: AppView, a: Seq<Key>, b: Seq<Key>)
    ensures
        run(v, a + b) == run(run(v, a), b),
    decreases b.len(),
{
    if b.len() == 0 {
        assert(a + b =~= a);
    } else {
        assert((a + b).drop_last() =~= a + b.drop_last());
        assert((a + b).last() == b.last());
        lemma_run_concat(v, a, b.drop_last());
    }
}

proof fn lemma_run_typing(v: AppView, s: Seq<char>)
    requires
        v.screen == Screen::NewRequest,
    ensures
        run(v, typing(s)) == v.with_form(v.form.with_active(v.form.active() + s)),
    decreases s.len(),
{
    if s.len() == 0 {
        assert(typing(s).len() == 0);
        assert(v.form.active() + s =~= v.form.active());
        assert(v.form.with_active(v.form.active()) == v.form);
        assert(v.with_form(v.form) == v);
    } else {
        let p = s.drop_last();
        assert(typing(s).drop_last() =~= typing(p));
        lemma_run_typing(v, p);
        assert(v.form.active() + s =~= (v.form.active() + p).push(s.last()));
    }
}

/// Beginning a request on the main screen and typing a name, a URL and a
/// method, each followed by Enter, appends exactly one request holding the
/// typed text verbatim and no response, returns to the main screen and leaves
/// an empty form; the selection and the earlier requests are kept.
pub proof fn lemma_new_request_round_trip(
    v: AppView,
    name: Seq<char>,
    url: Seq<char>,
    method: Seq<char>,
)
    requires
        v.wf(),
        v.screen == Screen::Main,
    ensures
        run(
            v,
            seq![Key::Char('a')] + typing(name) + seq![Key::Enter] + typing(url) + seq![
                Key::Enter,
            ] + typing(method) + seq![Key::Enter],
        ) == (AppView {
            requests: v.requests.push(
                RequestView { name: name, url: url, method: method, response: None },
            ),
            selected: v.selected,
            screen: Screen::Main,
            form: FormView::empty(),
        }),
        run(
            v,
            seq![Key::Char('a')] + typing(name) + seq![Key::Enter] + typing(url) + seq![
                Key::Enter,
            ] + typing(method) + seq![Key::Enter],
        ).wf(),
{
    let enter = seq![Key::Enter];
    let k0 = seq![Key::Char('a')];
    let k1 = k0 + typing(name);
    let k2 = k1 + enter;
    let k3 = k2 + typing(url);
    let k4 = k3 + enter;
    let k5 = k4 + typing(method);
    let k6 = k5 + enter;
    assert(k0.drop_last() =~= Seq::<Key>::empty());
    assert(run(v, k0.drop_last()) == v);
    assert(k0.last() == Key::Char('a'));
    let s0 = run(v, k0);
    assert(s0 == v.begun());
    lemma_run_concat(v, k0, typing(name));
    lemma_run_typing(s0, name);
    let s1 = run(v, k1);
    assert(Seq::<char>::empty() + name =~= name);
    assert(s1.form == FormView { name: name, ..FormView::empty() });
    lemma_run_concat(v, k1, enter);
    assert(enter.drop_last() =~= Seq::<Key>::empty());
    assert(enter.last() == Key::Enter);
    let s2 = run(v, k2);
    lemma_run_one(s1, Key::Enter);
    assert(s2 == s1.step(Key::Enter).0);
    lemma_run_concat(v, k2, typing(url));
    lemma_run_typing(s2, url);
    assert(Seq::<char>::empty() + url =~= url);
    let s3 = run(v, k3);
    assert(s3.form == FormView { name: name, url: url, field: FormField::Url, ..FormView::empty() });
    lemma_run_concat(v, k3, enter);
    let s4 = run(v, k4);
    lemma_run_one(s3, Key::Enter);
    assert(s4 == s3.step(Key::Enter).0);
    lemma_run_concat(v, k4, typing(method));
    lemma_run_typing(s4, method);
    assert(Seq::<char>::empty() + method =~= method);
    let s5 = run(v, k5);
    assert(s5.form == FormView { name: name, url: url, method: method, field: FormField::Method });
    lemma_run_concat(v, k5, enter);
    lemma_run_one(s5, Key::Enter);
    assert(run(v, k6) == s5.step(Key::Enter).0);
}

/// Escape on the new-request screen, whatever field is active, returns to
/// the main screen with an empty form and leaves the requests and the
/// selection as they were.
pub proof fn lemma_cancel_discards(v: AppView)
    requires
        v.screen == Screen::NewRequest,
    ensures
        v.step(Key::Esc) == (AppView {
            requests: v.requests,
            selected: v.selected,
            screen: Screen::Main,
            form: FormView::empty(),
        }, Action::Continue),
{
}

/// Beginning a request, typing into one, two or all three fields and then
/// pressing Escape leaves the main-screen state as it was before, with an
/// empty form: nothing typed survives and no request is added.
pub proof fn lemma_cancel_after_typing(
    v: AppView,
    name: Seq<char>,
    url: Seq<char>,
    method: Seq<char>,
)
    requires
        v.wf(),
        v.screen == Screen::Main,
    ensures
        run(v, seq![Key::Char('a')] + typing(name) + seq![Key::Esc]) == v.with_form(
            FormView::empty(),
        ),
        run(
            v,
            seq![Key::Char('a')] + typing(name) + seq![Key::Enter] + typing(url) + seq![Key::Esc],
        ) == v.with_form(FormView::empty()),
        run(
            v,
            seq![Key::Char('a')] + typing(name) + seq![Key::Enter] + typing(url) + seq![
                Key::Enter,
            ] + typing(method) + seq![Key::Esc],
        ) == v.with_form(FormView::empty()),
{
    let esc = seq![Key::Esc];
    let enter = seq![Key::Enter];
    let k0 = seq![Key::Char('a')];
    lemma_run_one(v, Key::Char('a'));
    let k1 = k0 + typing(name);
    lemma_run_concat(v, k0, typing(name));
    lemma_run_typing(v.begun(), name);
    let s1 = run(v, k1);
    assert(s1.screen == Screen::NewRequest);
    lemma_run_concat(v, k1, esc);
    lemma_run_one(s1, Key::Esc);
    let k2 = k1 + enter;
    lemma_run_concat(v, k1, enter);
    lemma_run_one(s1, Key::Enter);
    let s2 = run(v, k2);
    let k3 = k2 + typing(url);
    lemma_run_concat(v, k2, typing(url));
    lemma_run_typing(s2, url);
    let s3 = run(v, k3);
    lemma_run_concat(v, k3, esc);
    lemma_run_one(s3, Key::Esc);
    let k4 = k3 + enter;
    lemma_run_concat(v, k3, enter);
    lemma_run_one(s3, Key::Enter);
    let s4 = run(v, k4);
    let k5 = k4 + typing(method);
    lemma_run_concat(v, k4, typing(method));
    lemma_run_typing(s4, method);
    let s5 = run(v, k5);
    lemma_run_concat(v, k5, esc);
    lemma_run_one(s5, Key::Esc);
}

/// Erasing on the new-request screen while the active buffer is empty
/// changes nothing.
pub proof fn lemma_erase_empty_is_noop(v: AppView)
    requires
        v.screen == Screen::NewRequest,
        v.form.active().len() == 0,
    ensures
        v.step(Key::Backspace) == (v, Action::Continue),
{
    assert(v.form.erased() == v.form);
    assert(v.with_form(v.form) == v);
}

/// Erasing right after typing a character undoes the typing.
pub proof fn lemma_erase_undoes_typing(f: FormView, c: char)
    ensures
        f.typed(c).erased() == f,
{
    assert(f.typed(c).active() =~= f.active().push(c));
    assert(f.active().push(c).drop_last() =~= f.active());
}

/// Storing a response text at `i` gives that request exactly this response,
/// keeps its other fields, and leaves every other request, the selection,
/// the screen and the form untouched.
pub proof fn lemma_response_targets_one(v: AppView, i: int, t: Seq<char>)
    requires
        v.wf(),
        0 <= i < v.requests.len(),
    ensures
        v.responded(i, t).wf(),
        v.responded(i, t).requests.len() == v.requests.len(),
        v.responded(i, t).requests[i] == (RequestView { response: Some(t), ..v.requests[i] }),
        forall|j: int|
            0 <= j < v.requests.len() && j != i ==> #[trigger] v.responded(i, t).requests[j]
                == v.requests[j],
        v.responded(i, t).selected == v.selected,
        v.responded(i, t).screen == v.screen,
        v.responded(i, t).form == v.form,
{
}

/// A failed execution is stored as a non-empty text, which replaces
/// whatever response the request held before.
pub proof fn lemma_failure_text(v: AppView, i: int, e: Seq<char>)
    requires
        v.wf(),
        0 <= i < v.requests.len(),
    ensures
        outcome_text(Err(e)).len() > 0,
        v.responded(i, outcome_text(Err(e))).requests[i].response == Some(outcome_text(Err(e))),
{
    reveal_strlit("Error: ");
}

} // verus!
