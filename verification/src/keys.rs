//! What each key does to the dashboard.

use vstd::prelude::*;
use crate::dashboard::{
    add_started, edit_started, input_handled, moved_down, moved_up, reloaded,
    selection_completed, selection_deleted, template_add_started, view_toggled, App, InputField,
    InputMode,
};
use crate::commands::Completion;
use crate::models::{Date, Error, Hours};
use crate::store::Store;
use crate::text::{pop_char, push_char, without_last};

verus! {

/// A key as the dashboard tells keys apart.
#[derive(Clone, Copy, Debug, PartialEq, Eq, Structural)]
pub enum Key {
    Char(char),
    Enter,
    Esc,
    Backspace,
    Delete,
    Up,
    Down,
    /// Any other key.
    Other,
}

/// Whether the dashboard goes on after a key.
#[derive(Clone, Copy, Debug, PartialEq, Eq, Structural)]
pub enum Flow {
    Continue,
    Quit,
}

/// What a key asks for while keys are commands.
#[derive(Clone, Copy, Debug, PartialEq, Eq, Structural)]
pub enum Command {
    Quit,
    Next,
    Previous,
    Complete,
    Delete,
    StartAdd,
    StartEdit(InputField),
    ToggleCompleted,
    ToggleView,
    AddFromTemplate,
    /// The key is bound to nothing.
    Ignore,
}

/// What a key asks for while keys are commands.
pub open spec fn command_of(key: Key) -> Command {
    match key {
        Key::Char(c) => if c == 'q' {
            Command::Quit
        } else if c == 'j' {
            Command::Next
        } else if c == 'k' {
            Command::Previous
        } else if c == ' ' {
            Command::Complete
        } else if c == 'd' {
            Command::Delete
        } else if c == 'a' {
            Command::StartAdd
        } else if c == 'n' {
            Command::StartEdit(InputField::Name)
        } else if c == 'p' {
            Command::StartEdit(InputField::Project)
        } else if c == 't' {
            Command::StartEdit(InputField::Due)
        } else if c == 'h' {
            Command::StartEdit(InputField::Hours)
        } else if c == 'r' {
            Command::StartEdit(InputField::Recur)
        } else if c == 'm' {
            Command::StartEdit(InputField::Template)
        } else if c == 'l' {
            Command::StartEdit(InputField::LogHours)
        } else if c == 'u' {
            Command::StartEdit(InputField::EstimateHours)
        } else if c == 'c' {
            Command::ToggleCompleted
        } else if c == 'v' {
            Command::ToggleView
        } else {
            Command::Ignore
        },
        Key::Down => Command::Next,
        Key::Up => Command::Previous,
        Key::Delete => Command::Delete,
        Key::Enter => Command::AddFromTemplate,
        _ => Command::Ignore,
    }
}

/// What a key asks for while keys are commands.
pub fn command_for(key: Key) -> (r: Command)
    ensures
        r == command_of(key),
{
    match key {
        Key::Char(c) => if c == 'q' {
            Command::Quit
        } else if c == 'j' {
            Command::Next
        } else if c == 'k' {
            Command::Previous
        } else if c == ' ' {
            Command::Complete
        } else if c == 'd' {
            Command::Delete
        } else if c == 'a' {
            Command::StartAdd
        } else if c == 'n' {
            Command::StartEdit(InputField::Name)
        } else if c == 'p' {
            Command::StartEdit(InputField::Project)
        } else if c == 't' {
            Command::StartEdit(InputField::Due)
        } else if c == 'h' {
            Command::StartEdit(InputField::Hours)
        } else if c == 'r' {
            Command::StartEdit(InputField::Recur)
        } else if c == 'm' {
            Command::StartEdit(InputField::Template)
        } else if c == 'l' {
            Command::StartEdit(InputField::LogHours)
        } else if c == 'u' {
            Command::StartEdit(InputField::EstimateHours)
        } else if c == 'c' {
            Command::ToggleCompleted
        } else if c == 'v' {
            Command::ToggleView
        } else {
            Command::Ignore
        },
        Key::Down => Command::Next,
        Key::Up => Command::Previous,
        Key::Delete => Command::Delete,
        Key::Enter => Command::AddFromTemplate,
        _ => Command::Ignore,
    }
}

/// What a command does to the dashboard and the store, and what comes
/// back: the flow, or the error of a command that failed.
pub open spec fn command_run(
    pre: App,
    post: App,
    store_pre: Store,
    store_post: Store,
    r: Result<Flow, Error>,
    command: Command,
    today: Date,
) -> bool {
    let idle = store_post == store_pre && r == Ok::<Flow, Error>(Flow::Continue);
    match command {
        Command::Quit => post == pre && store_post == store_pre && r == Ok::<Flow, Error>(
            Flow::Quit,
        ),
        Command::Next => post == moved_down(pre) && idle,
        Command::Previous => post == moved_up(pre) && idle,
        Command::Complete => exists|done: Option<Result<Completion, Error>>| #[trigger]
            selection_completed(pre, post, store_pre, store_post, done, today) && r == (
            match done {
                Some(Err(e)) => Err::<Flow, Error>(e),
                _ => Ok(Flow::Continue),
            }),
        Command::Delete => exists|removed: Option<Result<(), Error>>| #[trigger]
            selection_deleted(pre, post, store_pre, store_post, removed, today) && r == (
            match removed {
                Some(Err(e)) => Err::<Flow, Error>(e),
                _ => Ok(Flow::Continue),
            }),
        Command::StartAdd => add_started(pre, post, None) && idle,
        Command::StartEdit(field) => edit_started(pre, post, field) && idle,
        Command::ToggleCompleted => reloaded(
            App { show_completed: !pre.show_completed, ..pre },
            post,
            store_pre,
            today,
        ) && idle,
        Command::ToggleView => post == view_toggled(pre) && idle,
        Command::AddFromTemplate => template_add_started(pre, post) && idle,
        Command::Ignore => post == pre && idle,
    }
}

/// What a key does while keys go into the buffer: Enter confirms the input,
/// Esc leaves the mode with an empty buffer, Backspace takes the last
/// character away, and a character goes to the end of the buffer.
pub open spec fn input_key_handled(
    pre: App,
    post: App,
    store_pre: Store,
    store_post: Store,
    r: Result<Flow, Error>,
    key: Key,
    today: Date,
    parsed: Option<Hours>,
) -> bool {
    let idle = store_post == store_pre && r == Ok::<Flow, Error>(Flow::Continue);
    match key {
        Key::Enter => r != Ok::<Flow, Error>(Flow::Quit) && input_handled(
            pre,
            post,
            store_pre,
            store_post,
            match r {
                Ok(_) => Ok(()),
                Err(e) => Err(e),
            },
            today,
            parsed,
        ),
        Key::Esc => idle && post.input_buffer@.len() == 0 && post == (App {
            input_mode: InputMode::Normal,
            input_buffer: post.input_buffer,
            ..pre
        }),
        Key::Char(c) => idle && post.input_buffer@ == pre.input_buffer@.push(c) && post == (App {
            input_buffer: post.input_buffer,
            ..pre
        }),
        Key::Backspace => idle && post.input_buffer@ == without_last(pre.input_buffer@) && post
            == (App { input_buffer: post.input_buffer, ..pre }),
        _ => idle && post == pre,
    }
}

/// What a key does in the mode the keyboard is in.
pub open spec fn key_handled(
    pre: App,
    post: App,
    store_pre: Store,
    store_post: Store,
    r: Result<Flow, Error>,
    key: Key,
    today: Date,
    parsed: Option<Hours>,
) -> bool {
    match pre.input_mode {
        InputMode::Normal => command_run(
            pre,
            post,
            store_pre,
            store_post,
            r,
            command_of(key),
            today,
        ),
        _ => input_key_handled(pre, post, store_pre, store_post, r, key, today, parsed),
    }
}

impl App {
    /// Runs a command of the dashboard.
    pub fn run_command(&mut self, command: Command, store: &mut Store, today: Date) -> (r: Result<
        Flow,
        Error,
    >)
        ensures
            command_run(*old(self), *final(self), *old(store), *final(store), r, command, today),
            old(store).wf() ==> final(store).wf(),
    {
        match command {
            Command::Quit => {
                return Ok(Flow::Quit);
            },
            Command::Next => {
                self.next();
            },
            Command::Previous => {
                self.previous();
            },
            Command::Complete => {
                let done = self.complete_selected(store, today);
                match done {
                    Some(Err(e)) => {
                        return Err(e);
                    },
                    _ => {},
                }
            },
            Command::Delete => {
                let removed = self.delete_selected(store, today);
                match removed {
                    Some(Err(e)) => {
                        return Err(e);
                    },
                    _ => {},
                }
            },
            Command::StartAdd => {
                self.start_add();
            },
            Command::StartEdit(field) => {
                self.start_edit(field);
            },
            Command::ToggleCompleted => {
                self.toggle_completed(store, today);
            },
            Command::ToggleView => {
                self.toggle_view();
            },
            Command::AddFromTemplate => {
                self.start_add_from_template();
            },
            Command::Ignore => {},
        }
        Ok(Flow::Continue)
    }

    /// Takes one key: a command while keys are commands, else input for the
    /// buffer.  `parsed` is the number of hours read from the buffer, if it
    /// holds one.
    pub fn handle_key(
        &mut self,
        key: Key,
        store: &mut Store,
        today: Date,
        parsed: Option<Hours>,
    ) -> (r: Result<Flow, Error>)
        ensures
            key_handled(
                *old(self),
                *final(self),
                *old(store),
                *final(store),
                r,
                key,
                today,
                parsed,
            ),
            old(store).wf() ==> final(store).wf(),
    {
        match self.input_mode {
            InputMode::Normal => self.run_command(command_for(key), store, today),
            _ => {
                match key {
                    Key::Enter => match self.handle_input(store, today, parsed) {
                        Ok(_) => Ok(Flow::Continue),
                        Err(e) => Err(e),
                    },
                    Key::Esc => {
                        self.input_mode = InputMode::Normal;
                        self.input_buffer = String::new();
                        Ok(Flow::Continue)
                    },
                    Key::Char(c) => {
                        push_char(&mut self.input_buffer, c);
                        Ok(Flow::Continue)
                    },
                    Key::Backspace => {
                        pop_char(&mut self.input_buffer);
                        Ok(Flow::Continue)
                    },
                    _ => Ok(Flow::Continue),
                }
            },
        }
    }
}

} // verus!
