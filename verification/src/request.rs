//! The command surface: what one invocation asks for.

use vstd::prelude::*;

verus! {

/// What an invocation asks for.
#[derive(Debug, PartialEq, Eq)]
pub enum Request {
    /// Run setup.
    Setup,
    /// Show the selection menu.
    Menu,
    /// Move on to the next mode.
    Next,
    /// Move to the mode with this name.
    Named(String),
    /// Nothing that can be done: show how the program is used.
    Usage,
}

/// A request as a mathematical value.
pub enum RequestView {
    Setup,
    Menu,
    Next,
    Named(Seq<char>),
    Usage,
}

impl View for Request {
    type V = RequestView;

    open spec fn view(&self) -> RequestView {
        match self {
            Request::Setup => RequestView::Setup,
            Request::Menu => RequestView::Menu,
            Request::Next => RequestView::Next,
            Request::Named(name) => RequestView::Named(name@),
            Request::Usage => RequestView::Usage,
        }
    }
}

/// How many of the four things that an invocation can ask for it asks for.
pub open spec fn asked(mode: Option<Seq<char>>, next_mode: bool, setup: bool, menu: bool) -> nat {
    let named: nat = if mode is Some {
        1
    } else {
        0
    };
    let next: nat = if next_mode {
        1
    } else {
        0
    };
    let first_run: nat = if setup {
        1
    } else {
        0
    };
    let listed: nat = if menu {
        1
    } else {
        0
    };
    named + next + first_run + listed
}

/// The request that the arguments state. Exactly one of a mode name, the
/// next-mode flag, the setup flag and the menu flag makes a request; any
/// other combination asks for nothing.
pub open spec fn requested(
    mode: Option<Seq<char>>,
    next_mode: bool,
    setup: bool,
    menu: bool,
) -> RequestView {
    if asked(mode, next_mode, setup, menu) != 1 {
        RequestView::Usage
    } else if setup {
        RequestView::Setup
    } else if menu {
        RequestView::Menu
    } else if next_mode {
        RequestView::Next
    } else {
        RequestView::Named(mode->0)
    }
}

/// The view of an optional mode name.
pub open spec fn name_view(mode: Option<String>) -> Option<Seq<char>> {
    match mode {
        Some(name) => Some(name@),
        None => None,
    }
}

/// Reads the arguments of an invocation.
pub fn resolve_request(
    mode: Option<String>,
    next_mode: bool,
    setup: bool,
    menu: bool,
) -> (request: Request)
    ensures
        request@ == requested(name_view(mode), next_mode, setup, menu),
{
    match mode {
        Some(name) => {
            if next_mode || setup || menu {
                Request::Usage
            } else {
                Request::Named(name)
            }
        },
        None => {
            if setup && !next_mode && !menu {
                Request::Setup
            } else if menu && !next_mode && !setup {
                Request::Menu
            } else if next_mode && !setup && !menu {
                Request::Next
            } else {
                Request::Usage
            }
        },
    }
}

} // verus!
