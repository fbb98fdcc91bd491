//! The wallet screen's controller and the form that loads a wallet
//! from a private key.

use vstd::prelude::*;

use crate::ui::form::{FormStatus, InputStatus, TextInput};
use crate::ui::{
    AppStateUpdate, BackendEvent, Event, FormKind, Key, KeyEvent, Modifiers, ScreenCommandKey,
    ScreenFeedback, ScreenKind, ScreenToggleKey, Task, WalletTask,
};
use crate::protocol::AppState;
use crate::wallet::{description_of, utxo_sum, Wallet};

verus! {

/// Shows a wallet to the user: its description.
pub fn display_wallet(wallet: &Wallet) -> (r: String)
    requires
        wallet.wf(),
    ensures
        r@ == description_of(
            wallet.inner().public_key@,
            wallet.inner().pubkey_hash@,
            utxo_sum(wallet.inner().utxos@),
        ),
{
    wallet.description()
}

/// The wallet carried by a backend event is well-formed; events are
/// made from the application's own state, which keeps its wallets
/// well-formed.
pub open spec fn event_wallet_wf(event: Event) -> bool {
    match event {
        Event::Backend(BackendEvent::AppStateUpdated(AppStateUpdate::LoadedWallet(w))) => w.wf(),
        Event::Backend(
            BackendEvent::TaskCompletedStateChange(AppStateUpdate::LoadedWallet(w)),
        ) => w.wf(),
        _ => true,
    }
}

/// The wallet screen: what it shows, and whether a wallet is loaded.
pub struct WalletScreenController {
    pub info: String,
    pub wallet_loaded: bool,
}

impl WalletScreenController {
    /// The wallet screen over the current application state: the
    /// loaded wallet's description, or a hint that none is loaded yet.
    pub fn new(app_state: &AppState) -> (r: WalletScreenController)
        requires
            app_state.wf(),
        ensures
            match app_state.loaded_wallet {
                Some(w) => r.info@ == description_of(
                    w.inner().public_key@,
                    w.inner().pubkey_hash@,
                    utxo_sum(w.inner().utxos@),
                ) && r.wallet_loaded,
                None => r.info@ == "Wallet management commands\n\nNo wallet loaded yet"@
                    && !r.wallet_loaded,
            },
    {
        match &app_state.loaded_wallet {
            Some(wallet) => WalletScreenController {
                info: display_wallet(wallet),
                wallet_loaded: true,
            },
            None => WalletScreenController {
                info: String::from_str("Wallet management commands\n\nNo wallet loaded yet"),
                wallet_loaded: false,
            },
        }
    }

    /// The screen's name.
    pub fn name(&self) -> (r: &'static str)
        ensures
            r@ == "Wallet"@,
    {
        "Wallet"
    }

    /// The command keys the screen lists: going back and adding a
    /// wallet while none is loaded, going back and refreshing once one
    /// is.
    pub fn command_keys(&self) -> (r: Vec<ScreenCommandKey>)
        ensures
            r@.len() == 2,
            r@[0].key@ == "q"@ && r@[0].description@ == "Back to Main"@,
            self.wallet_loaded ==> r@[1].key@ == "r"@ && r@[1].description@
                == "Refresh utxos and balance"@,
            !self.wallet_loaded ==> r@[1].key@ == "a"@ && r@[1].description@
                == "Add by private key"@,
    {
        let mut r: Vec<ScreenCommandKey> = Vec::new();
        r.push(ScreenCommandKey::new("q", "Back to Main"));
        if self.wallet_loaded {
            r.push(ScreenCommandKey::new("r", "Refresh utxos and balance"));
        } else {
            r.push(ScreenCommandKey::new("a", "Add by private key"));
        }
        r
    }

    /// The screen has no toggle keys.
    pub fn toggle_keys(&self) -> (r: Vec<ScreenToggleKey>)
        ensures
            r@.len() == 0,
    {
        Vec::new()
    }

    /// Routes an event: `q` goes back to the main screen, `a` opens
    /// the add-wallet form while no wallet is loaded, `r` refreshes the
    /// outputs once one is, and a backend announcement of a loaded
    /// wallet updates what the screen shows.
    pub fn on_event(&mut self, event: Event) -> (r: ScreenFeedback)
        requires
            event_wallet_wf(event),
        ensures
            match event {
                Event::Key(k) => {
                    &&& (k.code == Key::Char('q') && k.modifiers == Modifiers::Plain) ==> (r
                        matches ScreenFeedback::PreviousScreen(s) && s == ScreenKind::Main
                        && *final(self) == *old(self))
                    &&& (k.code == Key::Char('a') && k.modifiers == Modifiers::Plain && !old(self).wallet_loaded) ==> (r matches ScreenFeedback::Form(f) && f
                        == FormKind::AddWalletPrivateKey && *final(self) == *old(self))
                    &&& (k.code == Key::Char('r') && k.modifiers == Modifiers::Plain && old(self).wallet_loaded) ==> (r matches ScreenFeedback::Task { task, block } && (task
                        matches Task::Wallet(t) && t is Refresh) && block && *final(self) == *old(self))
                    &&& !((k.code == Key::Char('q') && k.modifiers == Modifiers::Plain) || (
                    k.code == Key::Char('a') && k.modifiers == Modifiers::Plain && !old(self).wallet_loaded) || (k.code == Key::Char('r') && k.modifiers
                        == Modifiers::Plain && old(self).wallet_loaded)) ==> r is Idle && *final(self) == *old(self)
                },
                Event::Backend(b) => match b {
                    BackendEvent::AppStateUpdated(AppStateUpdate::LoadedWallet(w))
                    | BackendEvent::TaskCompletedStateChange(AppStateUpdate::LoadedWallet(w)) => {
                        &&& r is Redraw
                        &&& final(self).wallet_loaded
                        &&& final(self).info@ == description_of(
                            w.inner().public_key@,
                            w.inner().pubkey_hash@,
                            utxo_sum(w.inner().utxos@),
                        )
                    },
                },
            },
    {
        match event {
            Event::Key(k) => {
                if k.modifiers == Modifiers::Plain && k.code == Key::Char('q') {
                    ScreenFeedback::PreviousScreen(ScreenKind::Main)
                } else if k.modifiers == Modifiers::Plain && k.code == Key::Char('a')
                    && !self.wallet_loaded {
                    ScreenFeedback::Form(FormKind::AddWalletPrivateKey)
                } else if k.modifiers == Modifiers::Plain && k.code == Key::Char('r')
                    && self.wallet_loaded {
                    ScreenFeedback::Task { task: Task::Wallet(WalletTask::Refresh), block: true }
                } else {
                    ScreenFeedback::Idle
                }
            },
            Event::Backend(b) => {
                let wallet = match b {
                    BackendEvent::AppStateUpdated(AppStateUpdate::LoadedWallet(w)) => w,
                    BackendEvent::TaskCompletedStateChange(AppStateUpdate::LoadedWallet(w)) => w,
                };
                self.info = display_wallet(&wallet);
                self.wallet_loaded = true;
                ScreenFeedback::Redraw
            },
        }
    }
}

/// The form that loads a wallet from a private key entered as text.
pub struct AddWalletPrivateKeyFormController {
    pub input: TextInput,
}

impl AddWalletPrivateKeyFormController {
    /// The fresh form: an empty key input under its placeholder.
    pub fn new() -> (r: AddWalletPrivateKeyFormController)
        ensures
            r.input.placeholder@ == "SHA256 hex"@,
            r.input.value@.len() == 0,
    {
        AddWalletPrivateKeyFormController { input: TextInput::new("SHA256 hex") }
    }

    /// Reads one key press; a completed input asks the backend to load
    /// the wallet from the entered key.
    pub fn on_event(&mut self, event: KeyEvent) -> (r: FormStatus)
        ensures
            (event.code == Key::Enter && event.modifiers == Modifiers::Plain) ==> (r
                matches FormStatus::Done { task, block } && !block && (task matches Task::Wallet(
                t,
            ) && (t matches WalletTask::AddByPrivateKey(s) && s@ == old(self).input.value@))),
            event.modifiers == Modifiers::Plain ==> (event.code matches Key::Char(c) ==> (r is Redraw && final(self).input.value@ == old(self).input.value@.push(c))),
            (event.code == Key::Backspace && event.modifiers == Modifiers::Plain) ==> r is Redraw,
            !((event.code is Char || event.code == Key::Backspace || event.code == Key::Enter)
                && event.modifiers == Modifiers::Plain) ==> r is Idle && *final(self) == *old(self),
    {
        match self.input.on_event(event) {
            InputStatus::Done(private_key) => FormStatus::Done {
                task: Task::Wallet(WalletTask::AddByPrivateKey(private_key)),
                block: false,
            },
            InputStatus::Redraw => FormStatus::Redraw,
            InputStatus::Idle => FormStatus::Idle,
        }
    }

    /// The form's name.
    pub fn form_name(&self) -> (r: &'static str)
        ensures
            r@ == "Add wallet with private key"@,
    {
        "Add wallet with private key"
    }

    /// The single step's name.
    pub fn step_name(&self) -> (r: &'static str)
        ensures
            r@ == "Private key"@,
    {
        "Private key"
    }

    /// The single step's position.
    pub fn step_index(&self) -> (r: u8)
        ensures
            r == 0,
    {
        0
    }

    /// How many steps the form has.
    pub fn steps_number(&self) -> (r: u8)
        ensures
            r == 1,
    {
        1
    }
}

} // verus!
