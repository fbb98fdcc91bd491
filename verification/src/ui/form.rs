//! Form inputs: a single-line text input and a list selection, and the
//! statuses they report to their controllers.

use vstd::prelude::*;

use crate::ui::{Key, KeyEvent, Modifiers, Task};

verus! {

/// What an input reports after a key press.
pub enum InputStatus {
    /// The input is complete, with the entered value.
    Done(String),
    /// The input changed and wants to be redrawn.
    Redraw,
    /// The key meant nothing to the input.
    Idle,
}

/// What a form controller reports after a key press.
pub enum FormStatus {
    /// The form is complete, with the task it asks for.
    Done { task: Task, block: bool },
    /// The form changed and wants to be redrawn.
    Redraw,
    /// The key meant nothing to the form.
    Idle,
}

/// A single-line text input with a placeholder.
pub struct TextInput {
    pub placeholder: &'static str,
    pub value: String,
}

impl TextInput {
    /// An empty text input with the given placeholder.
    pub fn new(placeholder: &'static str) -> (r: TextInput)
        ensures
            r.placeholder@ == placeholder@,
            r.value@.len() == 0,
    {
        TextInput { placeholder, value: String::new() }
    }

    /// A text input with the given placeholder and initial value.
    pub fn new_init_value(placeholder: &'static str, init: &'static str) -> (r: TextInput)
        ensures
            r.placeholder@ == placeholder@,
            r.value@ == init@,
    {
        TextInput { placeholder, value: String::from_str(init) }
    }

    /// Reads one key press: a plain character is appended, backspace
    /// removes the last character, and enter completes the input with
    /// the value entered so far; every other key means nothing.
    pub fn on_event(&mut self, event: KeyEvent) -> (r: InputStatus)
        ensures
            final(self).placeholder == old(self).placeholder,
            event.modifiers == Modifiers::Plain ==> (event.code matches Key::Char(c) ==> (final(self).value@ == old(self).value@.push(c) && r is Redraw)),
            (event.code == Key::Backspace && event.modifiers == Modifiers::Plain) ==> final(self).value@ == (if old(self).value@.len() > 0 {
                old(self).value@.drop_last()
            } else {
                old(self).value@
            }) && r is Redraw,
            (event.code == Key::Enter && event.modifiers == Modifiers::Plain) ==> (*final(self)
                == *old(self) && (r matches InputStatus::Done(s) && s@ == old(self).value@)),
            !((event.code is Char || event.code == Key::Backspace || event.code == Key::Enter)
                && event.modifiers == Modifiers::Plain) ==> *final(self) == *old(self) && r
                is Idle,
    {
        if event.modifiers == Modifiers::Plain {
            match event.code {
                Key::Char(c) => {
                    self.value.push(c);
                    InputStatus::Redraw
                },
                Key::Backspace => {
                    let _ = self.value.pop();
                    InputStatus::Redraw
                },
                Key::Enter => {
                    let entered = String::from_str(self.value.as_str());
                    InputStatus::Done(entered)
                },
                _ => InputStatus::Idle,
            }
        } else {
            InputStatus::Idle
        }
    }
}

/// A selection among a fixed list of labels.
pub struct SelectInput {
    pub options: Vec<&'static str>,
    pub selected: usize,
}

impl SelectInput {
    /// The selection's invariant: there is at least one option and the
    /// cursor points at one of them.
    pub open spec fn wf(self) -> bool {
        &&& self.options@.len() > 0
        &&& self.selected < self.options@.len()
    }

    /// A selection over the given labels, starting at the first.
    pub fn new(options: Vec<&'static str>) -> (r: SelectInput)
        requires
            options@.len() > 0,
        ensures
            r.wf(),
            r.options@ == options@,
            r.selected == 0,
    {
        SelectInput { options, selected: 0 }
    }

    /// Reads one key press: up and down move the cursor around the
    /// list, wrapping at its ends, and enter completes the selection
    /// with the label under the cursor; every other key means nothing.
    pub fn on_event(&mut self, event: KeyEvent) -> (r: InputStatus)
        requires
            old(self).wf(),
        ensures
            final(self).wf(),
            final(self).options@ == old(self).options@,
            (event.code == Key::Up && event.modifiers == Modifiers::Plain) ==> final(self).selected
                == (if old(self).selected == 0 {
                old(self).options@.len() - 1
            } else {
                old(self).selected - 1
            }) && r is Redraw,
            (event.code == Key::Down && event.modifiers == Modifiers::Plain) ==> final(self).selected == (if old(self).selected + 1 == old(self).options@.len() {
                0int
            } else {
                old(self).selected + 1
            }) && r is Redraw,
            (event.code == Key::Enter && event.modifiers == Modifiers::Plain) ==> (*final(self)
                == *old(self) && (r matches InputStatus::Done(s) && s@ == old(self).options@[old(self).selected as int]@)),
            !((event.code == Key::Up || event.code == Key::Down || event.code == Key::Enter)
                && event.modifiers == Modifiers::Plain) ==> *final(self) == *old(self) && r
                is Idle,
    {
        if event.modifiers == Modifiers::Plain {
            match event.code {
                Key::Up => {
                    if self.selected == 0 {
                        self.selected = self.options.len() - 1;
                    } else {
                        self.selected = self.selected - 1;
                    }
                    InputStatus::Redraw
                },
                Key::Down => {
                    if self.selected == self.options.len() - 1 {
                        self.selected = 0;
                    } else {
                        self.selected = self.selected + 1;
                    }
                    InputStatus::Redraw
                },
                Key::Enter => {
                    let label: &'static str = self.options[self.selected];
                    InputStatus::Done(String::from_str(label))
                },
                _ => InputStatus::Idle,
            }
        } else {
            InputStatus::Idle
        }
    }
}

} // verus!
