//! The welcome screen and its command pallet.

use vstd::prelude::*;

use crate::ui::{Key, KeyEvent, Message, Modifiers, Screen};

verus! {

/// Whether a command key is a one-shot command or a toggle.
#[derive(Debug, Clone, Copy, PartialEq, Eq, Structural)]
pub enum KeyType {
    Command,
    Toggle,
}

/// One key of the command pallet.
pub struct CommandPalletKey {
    pub key: char,
    pub description: &'static str,
    pub key_type: KeyType,
}

/// The pallet listing a screen's keys.
pub struct CommandPallet {
    pub keys: Vec<CommandPalletKey>,
}

impl CommandPallet {
    /// A pallet over the given keys.
    pub fn new(keys: Vec<CommandPalletKey>) -> (r: CommandPallet)
        ensures
            r.keys@ == keys@,
    {
        CommandPallet { keys }
    }
}

/// One styled line of the welcome text.
pub struct TextSpan {
    pub text: &'static str,
    pub italic: bool,
    pub bold: bool,
}

impl TextSpan {
    /// A plain line.
    pub fn new(text: &'static str) -> (r: TextSpan)
        ensures
            r.text@ == text@,
            !r.italic,
            !r.bold,
    {
        TextSpan { text, italic: false, bold: false }
    }

    /// The same line in italics.
    pub fn italic(self) -> (r: TextSpan)
        ensures
            r.text@ == self.text@,
            r.italic,
            r.bold == self.bold,
    {
        TextSpan { italic: true, ..self }
    }

    /// The same line in bold.
    pub fn bold(self) -> (r: TextSpan)
        ensures
            r.text@ == self.text@,
            r.bold,
            r.italic == self.italic,
    {
        TextSpan { bold: true, ..self }
    }
}

/// The welcome screen: a fixed block of text.
pub struct MainScreen {
    pub component: Vec<TextSpan>,
}

impl MainScreen {
    /// The welcome text, as the user first sees it.
    pub fn new() -> (r: MainScreen)
        ensures
            r.component@.len() == 7,
            r.component@[0].text@ == "Welcome to Platform TUI!"@,
            r.component@[1].text@ == ""@,
            r.component@[2].text@
                == "Use keys listed in the section below to switch screens and execute commands."@,
            r.component@[3].text@
                == "Some of them require signature and are disabled until an identity key is loaded."@,
            r.component@[4].text@ == ""@,
            r.component@[5].text@ == "Italics are used to mark flags."@ && r.component@[5].italic
                && !r.component@[5].bold,
            r.component@[6].text@ == "Bold italics are flags that are enabled."@
                && r.component@[6].italic && r.component@[6].bold,
    {
        let mut component: Vec<TextSpan> = Vec::new();
        component.push(TextSpan::new("Welcome to Platform TUI!"));
        component.push(TextSpan::new(""));
        component.push(
            TextSpan::new(
                "Use keys listed in the section below to switch screens and execute commands.",
            ),
        );
        component.push(
            TextSpan::new(
                "Some of them require signature and are disabled until an identity key is loaded.",
            ),
        );
        component.push(TextSpan::new(""));
        component.push(TextSpan::new("Italics are used to mark flags.").italic());
        component.push(TextSpan::new("Bold italics are flags that are enabled.").italic().bold());
        MainScreen { component }
    }

    /// The welcome screen reacts to no event.
    pub fn on(&mut self, event: KeyEvent) -> (r: Option<Message>)
        ensures
            *final(self) == *old(self),
            r is None,
    {
        None
    }
}

/// The message the welcome screen's command pallet answers a key press
/// with: quit on `q`, the identities screen on `i`.
pub open spec fn main_commands_message(ev: KeyEvent) -> Option<Message> {
    if ev.code == Key::Char('q') && ev.modifiers == Modifiers::Plain {
        Some(Message::AppClose)
    } else if ev.code == Key::Char('i') && ev.modifiers == Modifiers::Plain {
        Some(Message::NextScreen(Screen::Identity))
    } else {
        None
    }
}

/// The welcome screen's command pallet.
pub struct MainScreenCommands {
    pub component: CommandPallet,
}

impl MainScreenCommands {
    /// The welcome screen's two commands: quit and identities.
    pub fn new() -> (r: MainScreenCommands)
        ensures
            r.component.keys@.len() == 2,
            r.component.keys@[0].key == 'q' && r.component.keys@[0].description@ == "Quit"@
                && r.component.keys@[0].key_type == KeyType::Command,
            r.component.keys@[1].key == 'i' && r.component.keys@[1].description@ == "Identities"@
                && r.component.keys@[1].key_type == KeyType::Command,
    {
        let mut keys: Vec<CommandPalletKey> = Vec::new();
        keys.push(CommandPalletKey { key: 'q', description: "Quit", key_type: KeyType::Command });
        keys.push(
            CommandPalletKey { key: 'i', description: "Identities", key_type: KeyType::Command },
        );
        MainScreenCommands { component: CommandPallet::new(keys) }
    }

    /// Answers a key press with the pallet's message, if any.
    pub fn on(&mut self, event: KeyEvent) -> (r: Option<Message>)
        ensures
            *final(self) == *old(self),
            r == main_commands_message(event),
    {
        if event.modifiers == Modifiers::Plain {
            match event.code {
                Key::Char(c) => {
                    if c == 'q' {
                        Some(Message::AppClose)
                    } else if c == 'i' {
                        Some(Message::NextScreen(Screen::Identity))
                    } else {
                        None
                    }
                },
                _ => None,
            }
        } else {
            None
        }
    }
}

} // verus!
