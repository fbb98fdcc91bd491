//! The main menu's controller and the test form.

use vstd::prelude::*;

use crate::ui::form::{FormStatus, InputStatus, SelectInput, TextInput};
use crate::ui::{
    FormKind, Key, KeyEvent, Modifiers, ScreenCommandKey, ScreenFeedback, ScreenKind,
    ScreenToggleKey, Task,
};

verus! {

/// The main menu's answer to a key press: quit on `q`, the identities
/// screen on `i`, the test form on `t`; the contracts, wallet and
/// version-upgrade entries are listed but not routed yet.
pub open spec fn main_menu_feedback(ev: KeyEvent) -> ScreenFeedback {
    if ev.modifiers != Modifiers::Plain {
        ScreenFeedback::Idle
    } else if ev.code == Key::Char('q') {
        ScreenFeedback::Quit
    } else if ev.code == Key::Char('i') {
        ScreenFeedback::NextScreen(ScreenKind::Identities)
    } else if ev.code == Key::Char('t') {
        ScreenFeedback::Form(FormKind::Test)
    } else {
        ScreenFeedback::Idle
    }
}

/// The controller of the main menu.
pub struct MainScreenController;

impl MainScreenController {
    /// The screen's name.
    pub fn name(&self) -> (r: &'static str)
        ensures
            r@ == "Main menu"@,
    {
        "Main menu"
    }

    /// The text the screen opens with.
    pub fn init_text(&self) -> (r: &'static str)
        ensures
            r@
                == "Welcome to Platform TUI!\n\nUse keys listed in the section below to switch screens and execute commands.\nSome of them require signature and are disabled until an identity key is loaded.\n\nItalics are used to mark flags.\nBold italics are flags that are enabled.\n\nText inputs with completions support both arrows and Ctrl+n / Ctrl+p keys for selection.\nUse Ctrl+q to go back from completion list or once again to leave input at all.\n"@,
    {
        "Welcome to Platform TUI!\n\nUse keys listed in the section below to switch screens and execute commands.\nSome of them require signature and are disabled until an identity key is loaded.\n\nItalics are used to mark flags.\nBold italics are flags that are enabled.\n\nText inputs with completions support both arrows and Ctrl+n / Ctrl+p keys for selection.\nUse Ctrl+q to go back from completion list or once again to leave input at all.\n"
    }

    /// The command keys the screen lists.
    pub fn command_keys(&self) -> (r: Vec<ScreenCommandKey>)
        ensures
            r@.len() == 6,
            r@[0].key@ == "q"@ && r@[0].description@ == "Quit"@,
            r@[1].key@ == "i"@ && r@[1].description@ == "Identities"@,
            r@[2].key@ == "c"@ && r@[2].description@ == "Contracts"@,
            r@[3].key@ == "w"@ && r@[3].description@ == "Wallet"@,
            r@[4].key@ == "v"@ && r@[4].description@ == "Version Upgrade"@,
            r@[5].key@ == "t"@ && r@[5].description@ == "Test form"@,
    {
        let mut r: Vec<ScreenCommandKey> = Vec::new();
        r.push(ScreenCommandKey::new("q", "Quit"));
        r.push(ScreenCommandKey::new("i", "Identities"));
        r.push(ScreenCommandKey::new("c", "Contracts"));
        r.push(ScreenCommandKey::new("w", "Wallet"));
        r.push(ScreenCommandKey::new("v", "Version Upgrade"));
        r.push(ScreenCommandKey::new("t", "Test form"));
        r
    }

    /// The screen has no toggle keys.
    pub fn toggle_keys(&self) -> (r: Vec<ScreenToggleKey>)
        ensures
            r@.len() == 0,
    {
        Vec::new()
    }

    /// Routes a key press.
    pub fn on_event(&mut self, key_event: KeyEvent) -> (r: ScreenFeedback)
        ensures
            *final(self) == *old(self),
            r == main_menu_feedback(key_event),
    {
        if key_event.modifiers == Modifiers::Plain {
            match key_event.code {
                Key::Char(c) => {
                    if c == 'q' {
                        ScreenFeedback::Quit
                    } else if c == 'i' {
                        ScreenFeedback::NextScreen(ScreenKind::Identities)
                    } else if c == 't' {
                        ScreenFeedback::Form(FormKind::Test)
                    } else {
                        ScreenFeedback::Idle
                    }
                },
                _ => ScreenFeedback::Idle,
            }
        } else {
            ScreenFeedback::Idle
        }
    }
}

/// The labels the test form's selection offers.
#[derive(Debug, Clone, Copy, PartialEq, Eq, Structural)]
pub enum TestVariants {
    Yeet,
    Swag,
    Kek,
    Lol,
}

impl TestVariants {
    /// The label shown for the variant.
    pub fn label(&self) -> (r: &'static str)
        ensures
            self is Yeet ==> r@ == "Yeet"@,
            self is Swag ==> r@ == "Swag"@,
            self is Kek ==> r@ == "Kek"@,
            self is Lol ==> r@ == "Lol"@,
    {
        match self {
            TestVariants::Yeet => "Yeet",
            TestVariants::Swag => "Swag",
            TestVariants::Kek => "Kek",
            TestVariants::Lol => "Lol",
        }
    }
}


/// The untouched steps of the test form across one key press: only the
/// listed parts may change.
pub open spec fn test_form_keeps(
    pre: TestFormController,
    post: TestFormController,
    first_same: bool,
    second_same: bool,
    third_same: bool,
) -> bool {
    &&& (first_same ==> post.first == pre.first)
    &&& (second_same ==> post.second == pre.second)
    &&& (third_same ==> post.third == pre.third)
}

/// The test form's full transition for one key press: the key goes to
/// the current step's input, whose own contract decides the outcome; a
/// completed step stores its value and moves on; completing the last
/// step asks the backend to render the three collected values.
pub open spec fn test_form_step_rel(
    pre: TestFormController,
    event: KeyEvent,
    post: TestFormController,
    r: FormStatus,
) -> bool {
    if event.modifiers != Modifiers::Plain {
        &&& post == pre
        &&& r is Idle
    } else if pre.step == 0 {
        match event.code {
            Key::Char(c) => {
                &&& post.step == 0
                &&& post.first.placeholder == pre.first.placeholder
                &&& post.first.value@ == pre.first.value@.push(c)
                &&& test_form_keeps(pre, post, false, true, true)
                &&& post.first_value == pre.first_value
                &&& post.second_value == pre.second_value
                &&& r is Redraw
            },
            Key::Backspace => {
                &&& post.step == 0
                &&& post.first.placeholder == pre.first.placeholder
                &&& post.first.value@ == (if pre.first.value@.len() > 0 {
                    pre.first.value@.drop_last()
                } else {
                    pre.first.value@
                })
                &&& test_form_keeps(pre, post, false, true, true)
                &&& post.first_value == pre.first_value
                &&& post.second_value == pre.second_value
                &&& r is Redraw
            },
            Key::Enter => {
                &&& post.step == 1
                &&& test_form_keeps(pre, post, true, true, true)
                &&& (post.first_value matches Some(v) && v@ == pre.first.value@)
                &&& post.second_value == pre.second_value
                &&& r is Redraw
            },
            _ => post == pre && r is Idle,
        }
    } else if pre.step == 1 {
        match event.code {
            Key::Up => {
                &&& post.step == 1
                &&& post.second.options@ == pre.second.options@
                &&& post.second.selected == (if pre.second.selected == 0 {
                    pre.second.options@.len() - 1
                } else {
                    pre.second.selected - 1
                })
                &&& test_form_keeps(pre, post, true, false, true)
                &&& post.first_value == pre.first_value
                &&& post.second_value == pre.second_value
                &&& r is Redraw
            },
            Key::Down => {
                &&& post.step == 1
                &&& post.second.options@ == pre.second.options@
                &&& post.second.selected == (if pre.second.selected + 1
                    == pre.second.options@.len() {
                    0int
                } else {
                    pre.second.selected + 1
                })
                &&& test_form_keeps(pre, post, true, false, true)
                &&& post.first_value == pre.first_value
                &&& post.second_value == pre.second_value
                &&& r is Redraw
            },
            Key::Enter => {
                &&& post.step == 2
                &&& test_form_keeps(pre, post, true, true, true)
                &&& post.first_value == pre.first_value
                &&& (post.second_value matches Some(v) && v@ == pre.second.options@[
                    pre.second.selected as int]@)
                &&& r is Redraw
            },
            _ => post == pre && r is Idle,
        }
    } else {
        match event.code {
            Key::Char(c) => {
                &&& post.step == 2
                &&& post.third.placeholder == pre.third.placeholder
                &&& post.third.value@ == pre.third.value@.push(c)
                &&& test_form_keeps(pre, post, true, true, false)
                &&& post.first_value == pre.first_value
                &&& post.second_value == pre.second_value
                &&& r is Redraw
            },
            Key::Backspace => {
                &&& post.step == 2
                &&& post.third.placeholder == pre.third.placeholder
                &&& post.third.value@ == (if pre.third.value@.len() > 0 {
                    pre.third.value@.drop_last()
                } else {
                    pre.third.value@
                })
                &&& test_form_keeps(pre, post, true, true, false)
                &&& post.first_value == pre.first_value
                &&& post.second_value == pre.second_value
                &&& r is Redraw
            },
            Key::Enter => {
                &&& post == pre
                &&& (r matches FormStatus::Done { task, block } && !block && (task
                    matches Task::RenderData(values) && values@.len() == 3 && (pre.first_value
                    matches Some(v1) && values@[0]@ == v1@) && (pre.second_value matches Some(
                    v2,
                ) && values@[1]@ == v2@) && values@[2]@ == pre.third.value@))
            },
            _ => post == pre && r is Idle,
        }
    }
}

/// A three-step form exercising the input machinery: a text field, a
/// selection, and a second text field with an initial value.
pub struct TestFormController {
    pub first: TextInput,
    pub second: SelectInput,
    pub third: TextInput,
    pub step: u8,
    pub first_value: Option<String>,
    pub second_value: Option<String>,
}

impl TestFormController {
    /// The form's invariant: the step is one of the three.
    pub open spec fn wf(self) -> bool {
        &&& self.step < 3
        &&& self.second.wf()
        &&& self.step >= 1 ==> self.first_value is Some
        &&& self.step == 2 ==> self.second_value is Some
    }

    /// The fresh test form: the first field empty under its
    /// placeholder, the selection over two of the labels, the third
    /// field with its initial value.
    pub fn new() -> (r: TestFormController)
        ensures
            r.wf(),
            r.step == 0,
            r.first.placeholder@ == "lol placeholder"@ && r.first.value@.len() == 0,
            r.second.options@.len() == 2 && r.second.options@[0]@ == "Yeet"@
                && r.second.options@[1]@ == "Lol"@ && r.second.selected == 0,
            r.third.placeholder@ == "cheburek placeholder"@ && r.third.value@ == "lao gan ma"@,
            r.first_value is None,
            r.second_value is None,
    {
        let mut options: Vec<&'static str> = Vec::new();
        options.push(TestVariants::Yeet.label());
        options.push(TestVariants::Lol.label());
        TestFormController {
            first: TextInput::new("lol placeholder"),
            second: SelectInput::new(options),
            third: TextInput::new_init_value("cheburek placeholder", "lao gan ma"),
            step: 0,
            first_value: None,
            second_value: None,
        }
    }

    /// The form's name.
    pub fn form_name(&self) -> (r: &'static str)
        ensures
            r@ == "Test form"@,
    {
        "Test form"
    }

    /// The current step's name.
    pub fn step_name(&self) -> (r: &'static str)
        requires
            self.wf(),
        ensures
            self.step == 0 ==> r@ == "lol"@,
            self.step == 1 ==> r@ == "kek"@,
            self.step == 2 ==> r@ == "cheburek"@,
    {
        if self.step == 0 {
            "lol"
        } else if self.step == 1 {
            "kek"
        } else {
            "cheburek"
        }
    }

    /// The current step's position.
    pub fn step_index(&self) -> (r: u8)
        ensures
            r == self.step,
    {
        self.step
    }

    /// How many steps the form has.
    pub fn steps_number(&self) -> (r: u8)
        ensures
            r == 3,
    {
        3
    }

    /// Reads one key press, exactly as the transition relation states:
    /// the key goes to the current step's input; a completed step
    /// stores its value and moves on, and completing the last step asks
    /// the backend to render the three collected values.
    pub fn on_event(&mut self, event: KeyEvent) -> (r: FormStatus)
        requires
            old(self).wf(),
        ensures
            final(self).wf(),
            test_form_step_rel(*old(self), event, *final(self), r),
    {
        if self.step == 0 {
            match self.first.on_event(event) {
                InputStatus::Done(value) => {
                    self.first_value = Some(value);
                    self.step = 1;
                    FormStatus::Redraw
                },
                InputStatus::Redraw => FormStatus::Redraw,
                InputStatus::Idle => FormStatus::Idle,
            }
        } else if self.step == 1 {
            match self.second.on_event(event) {
                InputStatus::Done(value) => {
                    self.second_value = Some(value);
                    self.step = 2;
                    FormStatus::Redraw
                },
                InputStatus::Redraw => FormStatus::Redraw,
                InputStatus::Idle => FormStatus::Idle,
            }
        } else {
            match self.third.on_event(event) {
                InputStatus::Done(value) => {
                    let mut values: Vec<String> = Vec::new();
                    match &self.first_value {
                        Some(v) => values.push(String::from_str(v.as_str())),
                        None => {
                            proof {
                                assert(false);
                            }
                            values.push(String::new())
                        },
                    }
                    match &self.second_value {
                        Some(v) => values.push(String::from_str(v.as_str())),
                        None => {
                            proof {
                                assert(false);
                            }
                            values.push(String::new())
                        },
                    }
                    values.push(value);
                    FormStatus::Done { task: Task::RenderData(values), block: false }
                },
                InputStatus::Redraw => FormStatus::Redraw,
                InputStatus::Idle => FormStatus::Idle,
            }
        }
    }
}

} // verus!
