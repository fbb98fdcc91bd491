use platform_tui::protocol::AppState;
use platform_tui::ui::form::FormStatus;
use platform_tui::ui::main_screen::{KeyType, MainScreen, MainScreenCommands};
use platform_tui::ui::main_view::{MainScreenController, TestFormController};
use platform_tui::ui::wallet_view::{AddWalletPrivateKeyFormController, WalletScreenController};
use platform_tui::ui::{
    AppStateUpdate, BackendEvent, Event, FormKind, Key, KeyEvent, Message, Modifiers, Screen,
    ScreenFeedback, ScreenKind, Task, WalletTask,
};
use platform_tui::wallet::{SingleKeyWallet, Wallet};

fn plain(code: Key) -> KeyEvent {
    KeyEvent { code, modifiers: Modifiers::Plain }
}

#[test]
fn welcome_screen_lists_its_commands() {
    let screen = MainScreenCommands::new();
    assert_eq!(screen.component.keys.len(), 2);
    assert_eq!(screen.component.keys[0].key, 'q');
    assert_eq!(screen.component.keys[0].description, "Quit");
    assert_eq!(screen.component.keys[0].key_type, KeyType::Command);
    assert_eq!(screen.component.keys[1].key, 'i');
    assert_eq!(screen.component.keys[1].description, "Identities");
}

#[test]
fn welcome_commands_route_quit_and_identities() {
    let mut screen = MainScreenCommands::new();
    assert_eq!(screen.on(plain(Key::Char('q'))), Some(Message::AppClose));
    assert_eq!(
        screen.on(plain(Key::Char('i'))),
        Some(Message::NextScreen(Screen::Identity))
    );
    assert_eq!(screen.on(plain(Key::Char('x'))), None);
    assert_eq!(
        screen.on(KeyEvent { code: Key::Char('q'), modifiers: Modifiers::Control }),
        None
    );
}

#[test]
fn welcome_text_has_seven_lines() {
    let screen = MainScreen::new();
    assert_eq!(screen.component.len(), 7);
    assert_eq!(screen.component[0].text, "Welcome to Platform TUI!");
    assert!(screen.component[5].italic && !screen.component[5].bold);
    assert!(screen.component[6].italic && screen.component[6].bold);
}

#[test]
fn main_menu_routes_keys() {
    let mut controller = MainScreenController;
    assert_eq!(controller.name(), "Main menu");
    assert!(matches!(controller.on_event(plain(Key::Char('q'))), ScreenFeedback::Quit));
    assert!(matches!(
        controller.on_event(plain(Key::Char('i'))),
        ScreenFeedback::NextScreen(ScreenKind::Identities)
    ));
    assert!(matches!(
        controller.on_event(plain(Key::Char('t'))),
        ScreenFeedback::Form(FormKind::Test)
    ));
    assert!(matches!(controller.on_event(plain(Key::Char('c'))), ScreenFeedback::Idle));
    let keys = controller.command_keys();
    assert_eq!(keys.len(), 6);
    assert_eq!(keys[5].description, "Test form");
    let text = controller.init_text();
    assert!(text.starts_with("Welcome to Platform TUI!"));
    assert!(text.contains("Ctrl+n / Ctrl+p"));
    assert!(text.ends_with(
        "Use Ctrl+q to go back from completion list or once again to leave input at all.\n"
    ));
}

#[test]
fn test_form_walks_its_three_steps() {
    let mut form = TestFormController::new();
    assert_eq!(form.form_name(), "Test form");
    assert_eq!(form.steps_number(), 3);
    assert_eq!(form.step_index(), 0);
    assert_eq!(form.step_name(), "lol");
    // type into the first field and complete it
    form.on_event(plain(Key::Char('h')));
    form.on_event(plain(Key::Char('i')));
    assert!(matches!(form.on_event(plain(Key::Enter)), FormStatus::Redraw));
    assert_eq!(form.step_index(), 1);
    assert_eq!(form.step_name(), "kek");
    // move the selection down to the second label and take it
    form.on_event(plain(Key::Down));
    assert!(matches!(form.on_event(plain(Key::Enter)), FormStatus::Redraw));
    assert_eq!(form.step_index(), 2);
    assert_eq!(form.step_name(), "cheburek");
    // accept the third field's initial value
    let status = form.on_event(plain(Key::Enter));
    match status {
        FormStatus::Done { task: Task::RenderData(values), block } => {
            assert!(!block);
            assert_eq!(values, vec!["hi", "Lol", "lao gan ma"]);
        },
        _ => panic!("expected the completed form"),
    }
}

#[test]
fn text_input_backspace_edits_the_value() {
    let mut form = AddWalletPrivateKeyFormController::new();
    form.on_event(plain(Key::Char('a')));
    form.on_event(plain(Key::Char('b')));
    form.on_event(plain(Key::Backspace));
    form.on_event(plain(Key::Char('c')));
    match form.on_event(plain(Key::Enter)) {
        FormStatus::Done { task: Task::Wallet(WalletTask::AddByPrivateKey(s)), block } => {
            assert!(!block);
            assert_eq!(s, "ac");
        },
        _ => panic!("expected the completed form"),
    }
}

#[test]
fn add_wallet_form_describes_itself() {
    let form = AddWalletPrivateKeyFormController::new();
    assert_eq!(form.form_name(), "Add wallet with private key");
    assert_eq!(form.step_name(), "Private key");
    assert_eq!(form.step_index(), 0);
    assert_eq!(form.steps_number(), 1);
    assert_eq!(form.input.placeholder, "SHA256 hex");
}

#[test]
fn wallet_screen_reflects_the_loaded_wallet() {
    let empty = AppState {
        loaded_wallet: None,
        identity_creation_private_key: None,
        loaded_identity: None,
    };
    let mut controller = WalletScreenController::new(&empty);
    assert!(!controller.wallet_loaded);
    assert_eq!(controller.info, "Wallet management commands\n\nNo wallet loaded yet");
    assert_eq!(controller.name(), "Wallet");
    let keys = controller.command_keys();
    assert_eq!(keys[1].description, "Add by private key");
    // without a wallet, `a` opens the add form
    assert!(matches!(
        controller.on_event(Event::Key(plain(Key::Char('a')))),
        ScreenFeedback::Form(FormKind::AddWalletPrivateKey)
    ));
    // the backend announces a loaded wallet
    let wallet = Wallet::SingleKeyWallet(
        SingleKeyWallet::from_private_key(vec![1; 32]).expect("a valid key"),
    );
    let expected = wallet.description();
    let feedback = controller.on_event(Event::Backend(BackendEvent::AppStateUpdated(
        AppStateUpdate::LoadedWallet(wallet),
    )));
    assert!(matches!(feedback, ScreenFeedback::Redraw));
    assert!(controller.wallet_loaded);
    assert_eq!(controller.info, expected);
    // with a wallet, `r` refreshes and `a` does nothing
    match controller.on_event(Event::Key(plain(Key::Char('r')))) {
        ScreenFeedback::Task { task: Task::Wallet(WalletTask::Refresh), block } => {
            assert!(block)
        },
        _ => panic!("expected the refresh task"),
    }
    assert!(matches!(
        controller.on_event(Event::Key(plain(Key::Char('a')))),
        ScreenFeedback::Idle
    ));
    assert!(matches!(
        controller.on_event(Event::Key(plain(Key::Char('q')))),
        ScreenFeedback::PreviousScreen(ScreenKind::Main)
    ));
}
