//! The window metadata of an xdg toplevel.
use vstd::prelude::*;

verus! {

pub open spec fn text_of(s: Option<String>) -> Option<Seq<char>> {
    match s {
        None => None,
        Some(t) => Some(t@),
    }
}

/// The title and application id a client gave its toplevel.
#[derive(Debug)]
pub struct ToplevelData {
    title: Option<String>,
    app_id: Option<String>,
}

fn clone_text(s: &Option<String>) -> (r: Option<String>)
    ensures
        text_of(r) == text_of(*s),
{
    match s {
        None => None,
        Some(t) => Some(t.clone()),
    }
}

impl ToplevelData {
    pub closed spec fn spec_title(&self) -> Option<Seq<char>> {
        text_of(self.title)
    }

    pub closed spec fn spec_app_id(&self) -> Option<Seq<char>> {
        text_of(self.app_id)
    }

    /// A toplevel with neither title nor application id.
    pub fn new() -> (d: ToplevelData)
        ensures
            d.spec_title() is None,
            d.spec_app_id() is None,
    {
        ToplevelData { title: None, app_id: None }
    }

    /// The title, if one was set.
    pub fn title(&self) -> (r: Option<String>)
        ensures
            text_of(r) == self.spec_title(),
    {
        clone_text(&self.title)
    }

    /// The application id, if one was set.
    pub fn app_id(&self) -> (r: Option<String>)
        ensures
            text_of(r) == self.spec_app_id(),
    {
        clone_text(&self.app_id)
    }

    /// Replaces the title; the application id is unchanged.
    pub fn set_title(&mut self, title: String)
        ensures
            final(self).spec_title() == Some(title@),
            final(self).spec_app_id() == old(self).spec_app_id(),
    {
        self.title = Some(title);
    }

    /// Replaces the application id; the title is unchanged.
    pub fn set_app_id(&mut self, app_id: String)
        ensures
            final(self).spec_app_id() == Some(app_id@),
            final(self).spec_title() == old(self).spec_title(),
    {
        self.app_id = Some(app_id);
    }
}

/// A call of one of the setters of a toplevel, with the text it was given.
pub enum ToplevelCall {
    SetTitle(Seq<char>),
    SetAppId(Seq<char>),
}

/// The title given by the last `set_title` among `calls`, if any.
pub open spec fn latest_title(calls: Seq<ToplevelCall>) -> Option<Seq<char>>
    decreases calls.len(),
{
    if calls.len() == 0 {
        None
    } else {
        match calls.last() {
            ToplevelCall::SetTitle(t) => Some(t),
            ToplevelCall::SetAppId(_) => latest_title(calls.drop_last()),
        }
    }
}

/// The application id given by the last `set_app_id` among `calls`, if any.
pub open spec fn latest_app_id(calls: Seq<ToplevelCall>) -> Option<Seq<char>>
    decreases calls.len(),
{
    if calls.len() == 0 {
        None
    } else {
        match calls.last() {
            ToplevelCall::SetAppId(a) => Some(a),
            ToplevelCall::SetTitle(_) => latest_app_id(calls.drop_last()),
        }
    }
}

/// What a setter call does, as its contract states: `after` is `before` with
/// the one field the call sets replaced.
pub open spec fn call_effect(before: ToplevelData, call: ToplevelCall, after: ToplevelData) -> bool {
    match call {
        ToplevelCall::SetTitle(t) => after.spec_title() == Some(t) && after.spec_app_id()
            == before.spec_app_id(),
        ToplevelCall::SetAppId(a) => after.spec_app_id() == Some(a) && after.spec_title()
            == before.spec_title(),
    }
}

/// After a fresh toplevel has gone through any sequence of setter calls, its
/// title is the one the latest `set_title` gave (none if there was no such
/// call), and its application id the one the latest `set_app_id` gave: the
/// latest call of each setter wins, and neither setter changes the other field.
pub proof fn lemma_latest_setter_wins(states: Seq<ToplevelData>, calls: Seq<ToplevelCall>)
    requires
        states.len() == calls.len() + 1,
        states[0].spec_title() is None,
        states[0].spec_app_id() is None,
        forall|i: int|
            0 <= i < calls.len() ==> call_effect(#[trigger] states[i], calls[i], states[i + 1]),
    ensures
        states.last().spec_title() == latest_title(calls),
        states.last().spec_app_id() == latest_app_id(calls),
    decreases calls.len(),
{
    if calls.len() > 0 {
        let n = calls.len() - 1;
        assert(call_effect(states[n], calls[n], states[n + 1]));
        lemma_latest_setter_wins(states.drop_last(), calls.drop_last());
        assert(states.drop_last().last() == states[n]);
    }
}

} // verus!
