//! Mode-dependent key routing: one verified transition per (input mode, key)
//! pair. The event loop reads terminal events, translates them to [`Key`],
//! lets [`handle_key`] mutate the state, and then performs the returned
//! [`Action`] (the part that needs I/O) before drawing the next frame.

use vstd::prelude::*;

use crate::app::{App, InputMode};

verus! {

/// A key event as the core understands it. `Other` stands for every key the
/// application does not react to.
#[derive(Clone, Copy, Debug, PartialEq, Eq, Structural)]
pub enum Key {
    Char(char),
    Up,
    Down,
    Enter,
    Backspace,
    Esc,
    Other,
}

/// The I/O the event loop must perform after a transition, if any.
#[derive(Clone, Copy, Debug, PartialEq, Eq, Structural)]
pub enum Action {
    /// Nothing left to do; draw the next frame.
    NoOp,
    /// Leave the event loop.
    Quit,
    /// Fetch the issues again and hand the outcome to `App::refresh`.
    Refresh,
    /// Open the URL `App::open_selected` returns, best effort.
    OpenBrowser,
    /// Place the text `App::copy_issue_prompt` returns on the clipboard.
    CopyPrompt,
}

/// The keys Normal mode reacts to.
pub open spec fn normal_handled(key: Key) -> bool {
    ||| key == Key::Char('q')
    ||| key == Key::Char('j')
    ||| key == Key::Down
    ||| key == Key::Char('k')
    ||| key == Key::Up
    ||| key == Key::Enter
    ||| key == Key::Char('/')
    ||| key == Key::Char('r')
    ||| key == Key::Char('P')
    ||| key == Key::Esc
}

/// All fields of `b` agree with `a` except possibly the selection.
pub open spec fn same_but_selected(a: App, b: App) -> bool {
    b.repo == a.repo && b.issues == a.issues && b.filter == a.filter && b.input_mode
        == a.input_mode && b.loading == a.loading && b.error == a.error
}

/// All fields of `b` agree with `a` except possibly the filter text and the
/// selection.
pub open spec fn same_but_filter(a: App, b: App) -> bool {
    b.repo == a.repo && b.issues == a.issues && b.input_mode == a.input_mode && b.loading
        == a.loading && b.error == a.error
}

/// The selection moved one step down, clamped to the end of the filtered
/// view; unchanged on an empty view.
pub open spec fn stepped_down(a: App, b: App) -> bool {
    if a.spec_filtered().len() > 0 {
        b.selected == if a.selected + 1 < a.spec_filtered().len() {
            a.selected + 1
        } else {
            a.spec_filtered().len() - 1
        }
    } else {
        b.selected == a.selected
    }
}

/// The selection moved one step up, stopping at the top.
pub open spec fn stepped_up(a: App, b: App) -> bool {
    b.selected == if a.selected > 0 {
        (a.selected - 1) as int
    } else {
        0
    }
}

/// Routes one key event: mutates the state as the (mode, key) table says and
/// returns the I/O action the event loop still has to perform. A control-C
/// always quits; otherwise Normal mode navigates and Filter mode edits the
/// filter text.
pub fn handle_key(app: &mut App, key: Key, ctrl: bool) -> (r: Action)
    requires
        old(app).wf(),
    ensures
        final(app).wf(),
        ctrl && key == Key::Char('c') ==> *final(app) == *old(app) && r == Action::Quit,
        !(ctrl && key == Key::Char('c')) && old(app).input_mode == InputMode::Normal ==> {
            &&& key == Key::Char('q') ==> *final(app) == *old(app) && r == Action::Quit
            &&& key == Key::Char('j') || key == Key::Down ==> same_but_selected(
                *old(app),
                *final(app),
            ) && stepped_down(*old(app), *final(app)) && r == Action::NoOp
            &&& key == Key::Char('k') || key == Key::Up ==> same_but_selected(
                *old(app),
                *final(app),
            ) && stepped_up(*old(app), *final(app)) && r == Action::NoOp
            &&& key == Key::Enter ==> *final(app) == *old(app) && r == Action::OpenBrowser
            &&& key == Key::Char('/') ==> *final(app) == (App {
                input_mode: InputMode::Filter,
                ..*old(app)
            }) && r == Action::NoOp
            &&& key == Key::Char('r') ==> *final(app) == *old(app) && r == Action::Refresh
            &&& key == Key::Char('P') ==> *final(app) == *old(app) && r == Action::CopyPrompt
            &&& key == Key::Esc ==> same_but_filter(*old(app), *final(app)) && final(app).filter@.len() == 0 && final(app).selected == 0 && r == Action::NoOp
            &&& !normal_handled(key) ==> *final(app) == *old(app) && r == Action::NoOp
        },
        !(ctrl && key == Key::Char('c')) && old(app).input_mode == InputMode::Filter ==> {
            &&& key == Key::Enter || key == Key::Esc ==> *final(app) == (App {
                input_mode: InputMode::Normal,
                ..*old(app)
            }) && r == Action::NoOp
            &&& key == Key::Backspace ==> same_but_filter(*old(app), *final(app)) && (old(app).filter@.len() > 0 ==> final(app).filter@ == old(app).filter@.drop_last()) && (old(app).filter@.len() == 0 ==> final(app).filter@ == old(app).filter@) && final(app).selected
                == 0 && r == Action::NoOp
            &&& forall|c: char|
                key == Key::Char(c) ==> same_but_filter(*old(app), *final(app)) && final(app).filter@ == old(app).filter@.push(c) && final(app).selected == 0 && r
                    == Action::NoOp
            &&& key == Key::Up || key == Key::Down || key == Key::Other ==> *final(app) == *old(app) && r == Action::NoOp
        },
{
    if ctrl {
        if let Key::Char(c) = key {
            if c == 'c' {
                return Action::Quit;
            }
        }
    }
    match app.input_mode {
        InputMode::Normal => {
            match key {
                Key::Char(c) => {
                    if c == 'q' {
                        Action::Quit
                    } else if c == 'j' {
                        app.next();
                        Action::NoOp
                    } else if c == 'k' {
                        app.previous();
                        Action::NoOp
                    } else if c == '/' {
                        app.start_filter();
                        Action::NoOp
                    } else if c == 'r' {
                        Action::Refresh
                    } else if c == 'P' {
                        Action::CopyPrompt
                    } else {
                        Action::NoOp
                    }
                },
                Key::Down => {
                    app.next();
                    Action::NoOp
                },
                Key::Up => {
                    app.previous();
                    Action::NoOp
                },
                Key::Enter => Action::OpenBrowser,
                Key::Esc => {
                    app.clear_filter();
                    Action::NoOp
                },
                _ => Action::NoOp,
            }
        },
        InputMode::Filter => {
            match key {
                Key::Enter => {
                    app.exit_filter();
                    Action::NoOp
                },
                Key::Esc => {
                    app.exit_filter();
                    Action::NoOp
                },
                Key::Backspace => {
                    app.filter_pop();
                    Action::NoOp
                },
                Key::Char(c) => {
                    app.filter_push(c);
                    Action::NoOp
                },
                _ => Action::NoOp,
            }
        },
    }
}

} // verus!
