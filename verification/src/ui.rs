//! The terminal interface's decision layer: key events in, messages,
//! tasks and screen feedback out.
//!
//! Drawing is the terminal toolkit's work and stays outside this crate;
//! what is modelled here is everything the interface decides — which
//! key triggers which command, how forms collect their values, and how
//! backend events update what a screen shows.

use vstd::prelude::*;

use crate::wallet::Wallet;

pub mod form;
pub mod main_screen;
pub mod main_view;
pub mod wallet_view;

verus! {

/// A key press code.
#[derive(Debug, Clone, Copy, PartialEq, Eq, Structural)]
pub enum Key {
    Char(char),
    Enter,
    Backspace,
    Esc,
    Up,
    Down,
    Other,
}

/// The modifier held during a key press.
#[derive(Debug, Clone, Copy, PartialEq, Eq, Structural)]
pub enum Modifiers {
    Plain,
    Control,
    Shift,
    Alt,
}

/// One key press as the terminal reports it.
#[derive(Debug, Clone, Copy, PartialEq, Eq, Structural)]
pub struct KeyEvent {
    pub code: Key,
    pub modifiers: Modifiers,
}

/// The screens the application can switch to.
#[derive(Debug, Clone, Copy, PartialEq, Eq, Structural)]
pub enum Screen {
    Main,
    Identity,
}

/// A message a component hands back to the application loop.
#[derive(Debug, Clone, Copy, PartialEq, Eq, Structural)]
pub enum Message {
    AppClose,
    NextScreen(Screen),
}

/// The screens a controller can route to.
#[derive(Debug, Clone, Copy, PartialEq, Eq, Structural)]
pub enum ScreenKind {
    Main,
    Identities,
    Wallet,
}

/// The forms a controller can open.
#[derive(Debug, Clone, Copy, PartialEq, Eq, Structural)]
pub enum FormKind {
    Test,
    AddWalletPrivateKey,
}

/// A wallet-related task for the backend.
pub enum WalletTask {
    /// Refresh the outputs and the balance from the chain.
    Refresh,
    /// Load a wallet from a private key entered as text.
    AddByPrivateKey(String),
}

/// A task for the backend.
pub enum Task {
    Wallet(WalletTask),
    /// Show the given values to the user.
    RenderData(Vec<String>),
}

/// A change of application state announced by the backend.
pub enum AppStateUpdate {
    LoadedWallet(Wallet),
}

/// An event arriving from the backend.
pub enum BackendEvent {
    AppStateUpdated(AppStateUpdate),
    TaskCompletedStateChange(AppStateUpdate),
}

/// An event arriving at a screen controller: a key press or a backend
/// announcement.
pub enum Event {
    Key(KeyEvent),
    Backend(BackendEvent),
}

/// What a screen controller asks the application loop to do.
pub enum ScreenFeedback {
    NextScreen(ScreenKind),
    PreviousScreen(ScreenKind),
    Form(FormKind),
    Task { task: Task, block: bool },
    Redraw,
    Quit,
    /// Nothing to do.
    Idle,
}

/// One entry of a screen's command key listing.
pub struct ScreenCommandKey {
    pub key: &'static str,
    pub description: &'static str,
}

impl ScreenCommandKey {
    /// Lists a command key with its description.
    pub fn new(key: &'static str, description: &'static str) -> (r: ScreenCommandKey)
        ensures
            r.key@ == key@,
            r.description@ == description@,
    {
        ScreenCommandKey { key, description }
    }
}

/// One entry of a screen's toggle key listing.
pub struct ScreenToggleKey {
    pub key: &'static str,
    pub description: &'static str,
}

} // verus!
