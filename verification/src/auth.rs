//! The authentication pane: a component that shows either the login page
//! or the account-creation page, and tells its parent when login is
//! done.
use vstd::prelude::*;
use vstd::string::StringExecFns;

use crate::html::Html;

verus! {

/// Which child page the pane shows.
#[derive(Clone, Copy, Debug, PartialEq, Eq, Structural)]
pub enum AuthPage {
    /// The login page.
    Login,
    /// The account-creation page.
    Create,
}

/// A callback the parent registered: the component never runs it itself,
/// it only hands it back to the runtime to invoke.
#[derive(Clone, Copy, Debug, PartialEq, Eq, Structural)]
pub struct Callback {
    /// The identity of the registered callback.
    pub callback_id: u64,
}

/// What the parent hands the pane.
#[derive(Clone, Copy, Debug, PartialEq)]
pub struct Props {
    /// The child page to show first.
    pub child: AuthPage,
    /// Called when login completes, when the parent wants to know.
    pub callback: Option<Callback>,
}

impl Default for Props {
    /// By default the pane shows the login page and tells nobody.
    fn default() -> (r: Self)
        ensures
            r.child == AuthPage::Login,
            r.callback is None,
    {
        Props { child: AuthPage::Login, callback: None }
    }
}

/// The messages the pane's children send it.
#[derive(Clone, Copy, Debug, PartialEq)]
pub enum Msg {
    /// Login completed; the parent's callback should run.
    Callback,
    /// Switch to the other child page.
    SetChild(AuthPage),
}

/// The authentication pane.
#[derive(Clone, Copy, Debug, PartialEq)]
pub struct Auth {
    /// The child page currently shown.
    pub child: AuthPage,
    /// Called when login completes, when the parent wants to know.
    pub callback: Option<Callback>,
}

/// Whether `v` renders the named child page: a pane holding one text
/// node naming the child component that is mounted there.
pub open spec fn is_auth_view(v: Html, page: AuthPage) -> bool {
    &&& v matches Html::Panel { class, children }
    &&& class@ == "auth-page"@
    &&& children@.len() == 1
    &&& children@[0] matches Html::Text(m)
    &&& (page == AuthPage::Login ==> m@ == "Login"@)
    &&& (page == AuthPage::Create ==> m@ == "Create Account"@)
}

impl Auth {
    /// Mounts the pane with the parent's properties.
    pub fn create(props: Props) -> (r: Auth)
        ensures
            r.child == props.child,
            r.callback == props.callback,
    {
        Auth { child: props.child, callback: props.callback }
    }

    /// Steps the pane on one message. The result says whether to render
    /// again, and carries the parent's callback when it should run: a
    /// completed login does not re-render and hands the callback back; a
    /// page switch re-renders and runs nothing.
    pub fn update(&mut self, msg: Msg) -> (r: (bool, Option<Callback>))
        ensures
            msg == Msg::Callback ==> *final(self) == *old(self) && r.0 == false && r.1 == old(self).callback,
            msg matches Msg::SetChild(c) ==> final(self).child == c && final(self).callback == old(self).callback && r.0 == true && r.1 is None,
    {
        match msg {
            Msg::Callback => {
                let cb = self.callback;
                (false, cb)
            },
            Msg::SetChild(child) => {
                self.child = child;
                (true, None)
            },
        }
    }

    /// Takes fresh properties from the parent; the pane always renders
    /// again.
    pub fn change(&mut self, props: Props) -> (r: bool)
        ensures
            final(self).child == props.child,
            final(self).callback == props.callback,
            r == true,
    {
        self.callback = props.callback;
        self.child = props.child;
        true
    }

    /// Renders the pane: the mounting point of the child page the pane
    /// currently shows.
    pub fn view(&self) -> (r: Html)
        ensures
            is_auth_view(r, self.child),
    {
        let mut children: Vec<Html> = Vec::new();
        match self.child {
            AuthPage::Login => {
                children.push(Html::Text(String::from_str("Login")));
            },
            AuthPage::Create => {
                children.push(Html::Text(String::from_str("Create Account")));
            },
        }
        Html::Panel { class: String::from_str("auth-page"), children }
    }
}

} // verus!
