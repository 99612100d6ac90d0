use grin_gui::error::GuiError;
use grin_gui::gui::element::modal::{error_card, exit_card, CardText};
use grin_gui::gui::element::setup;
use grin_gui::gui::element::setup::wallet::{data_container, LocalViewInteraction};
use grin_gui::gui::element::InputTarget;
use grin_gui::gui::{
    resolve, Ajour, Command, Content, Interaction, Message, Mode, ModeStates, SelfUpdateStatus,
    State, ThemeState, WindowMode, MAIN_MENU_VIEW, MAIN_SETTINGS_VIEW,
};

#[test]
fn default_application_shows_the_loading_catalog() {
    let ajour: Ajour<u8> = Ajour::default();
    assert_eq!(ajour.current_mode(), Mode::Catalog);
    assert_eq!(ajour.error(), &None);
    assert_eq!(ajour.mode_state(Mode::Catalog), Some(&State::Loading));
    assert_eq!(ajour.mode_state(Mode::Install), None);
    assert_eq!(ajour.mode_state(Mode::Settings), None);
    assert_eq!(ajour.mode_state(Mode::About), None);
    assert!(ajour.views().is_empty());
    assert_eq!(ajour.view_labels().get(MAIN_MENU_VIEW), None);
}

#[test]
fn new_application_has_both_fixed_views_and_no_command() {
    let (ajour, command) = Ajour::new("settings", "menu");
    assert_eq!(command, Command::Nothing);
    assert_eq!(ajour.current_mode(), Mode::Catalog);
    assert_eq!(ajour.mode_state(Mode::Catalog), Some(&State::Loading));
    let menu = ajour.view_labels().get(MAIN_MENU_VIEW).unwrap();
    let settings = ajour.view_labels().get(MAIN_SETTINGS_VIEW).unwrap();
    assert_eq!(ajour.views().get(&menu), Some(&"menu"));
    assert_eq!(ajour.views().get(&settings), Some(&"settings"));
    assert_eq!(ajour.views().len(), 2);
}

#[test]
fn title_is_ajour() {
    let ajour: Ajour<u8> = Ajour::default();
    assert_eq!(ajour.title(), "Ajour");
}

#[test]
fn window_is_hidden_when_the_interface_is() {
    let ajour: Ajour<u8> = Ajour::default();
    assert_eq!(ajour.mode(true), WindowMode::Windowed);
    assert_eq!(ajour.mode(false), WindowMode::Hidden);
}

#[test]
fn state_defaults_to_ready() {
    assert_eq!(State::default(), State::Ready);
}

#[test]
fn resolve_passes_the_command_of_a_handler_that_succeeded() {
    assert_eq!(resolve(Ok(Command::Nothing)), Command::Nothing);
    let wanted = Command::Perform(Message::Interaction(Interaction::Backup));
    assert_eq!(resolve(Ok(wanted)), Command::Perform(Message::Interaction(Interaction::Backup)));
}

#[test]
fn resolve_turns_a_failure_into_an_error_message() {
    let command = resolve(Err(GuiError::new("no connection".to_string())));
    assert_eq!(
        command,
        Command::Perform(Message::Error(GuiError::new("no connection".to_string())))
    );
}

#[test]
fn error_message_opens_the_error_modal() {
    let mut ajour: Ajour<u8> = Ajour::default();
    let command = ajour.update(Message::Error(GuiError::new("first".to_string())));
    assert_eq!(command, Command::Nothing);
    assert_eq!(ajour.error(), &Some(GuiError::new("first".to_string())));
    ajour.update(Message::Error(GuiError::new("second".to_string())));
    assert_eq!(ajour.error(), &Some(GuiError::new("second".to_string())));
}

#[test]
fn failure_of_a_handler_is_shown_in_the_next_cycle() {
    let mut ajour: Ajour<u8> = Ajour::default();
    let command = resolve(Err(GuiError::new("no connection".to_string())));
    let delivered = match command {
        Command::Perform(message) => message,
        Command::Nothing => panic!("the failure was dropped"),
    };
    ajour.update(delivered);
    let shown = ajour.error().clone().unwrap().to_string();
    assert_eq!(shown, "no connection");
    assert_eq!(error_card(shown).body, CardText::Plain("no connection".to_string()));
}

#[test]
fn closing_the_error_modal_clears_the_error_once_and_for_all() {
    let mut ajour: Ajour<u8> = Ajour::default();
    ajour.update(Message::Interaction(Interaction::ModeSelected(Mode::Settings)));
    ajour.update(Message::Error(GuiError::new("failed".to_string())));
    let card = error_card("failed".to_string());
    assert_eq!(ajour.update(Message::Interaction(card.on_close.clone())), Command::Nothing);
    assert_eq!(ajour.error(), &None);
    assert_eq!(ajour.current_mode(), Mode::Settings);
    ajour.update(Message::Interaction(card.on_close));
    assert_eq!(ajour.error(), &None);
}

#[test]
fn the_ok_button_dismisses_as_the_close_control_does() {
    let mut by_button: Ajour<u8> = Ajour::default();
    let mut by_close: Ajour<u8> = Ajour::default();
    by_button.update(Message::Error(GuiError::new("failed".to_string())));
    by_close.update(Message::Error(GuiError::new("failed".to_string())));
    let card = error_card("failed".to_string());
    by_button.update(Message::Interaction(card.buttons[0].on_press.clone()));
    by_close.update(Message::Interaction(card.on_close));
    assert_eq!(by_button.error(), &None);
    assert_eq!(by_button.error(), by_close.error());
    assert_eq!(by_button.current_mode(), by_close.current_mode());
}

#[test]
fn closing_the_exit_card_leaves_mode_and_wizard() {
    let mut ajour: Ajour<u8> = Ajour::default();
    ajour.update(Message::Interaction(Interaction::ModeSelected(Mode::About)));
    ajour.update(Message::Interaction(exit_card().on_close));
    assert_eq!(ajour.current_mode(), Mode::About);
    assert_eq!(ajour.error(), &None);
    assert_eq!(ajour.setup_state().mode, setup::Mode::Init);
}

#[test]
fn messages_that_act_elsewhere_leave_the_state() {
    let (mut ajour, _) = Ajour::new(1u8, 2u8);
    ajour.update(Message::Interaction(Interaction::ModeSelected(Mode::Install)));
    ajour.update(Message::Error(GuiError::new("kept".to_string())));
    let elsewhere = vec![
        Message::Nothing(()),
        Message::Interaction(Interaction::Exit),
        Message::Interaction(Interaction::ExitCancel),
        Message::Interaction(Interaction::ScaleUp),
        Message::Interaction(Interaction::ScaleDown),
        Message::Interaction(Interaction::Backup),
        Message::Interaction(Interaction::UpdateAjour),
        Message::Interaction(Interaction::InstallScmUrl),
        Message::Interaction(Interaction::SelectBackupDirectory()),
        Message::Interaction(Interaction::ViewInteraction("menu".to_string())),
        Message::Interaction(Interaction::OpenLink("https://example.org".to_string())),
        Message::Interaction(Interaction::Ignore("a".to_string())),
        Message::Interaction(Interaction::Unignore("a".to_string())),
        Message::Interaction(Interaction::Update("a".to_string())),
        Message::Interaction(Interaction::CatalogQuery("q".to_string())),
        Message::Interaction(Interaction::InstallScmQuery("q".to_string())),
        Message::Interaction(Interaction::ToggleHideIgnoredAddons(true)),
        Message::Interaction(Interaction::AlternatingRowColorToggled(false)),
        Message::Interaction(Interaction::KeybindingsToggle(true)),
        Message::Interaction(Interaction::ToggleCloseToTray(true)),
        Message::Interaction(Interaction::ToggleAutoStart(false)),
        Message::Interaction(Interaction::ToggleStartClosedToTray(true)),
        Message::Interaction(Interaction::WriteToClipboard("text".to_string())),
        Message::RuntimeEvent(iced_native::Event::Window(iced_native::window::Event::Focused)),
    ];
    for message in elsewhere {
        assert_eq!(ajour.update(message), Command::Nothing);
        assert_eq!(ajour.current_mode(), Mode::Install);
        assert_eq!(ajour.error(), &Some(GuiError::new("kept".to_string())));
        assert_eq!(ajour.setup_state().mode, setup::Mode::Init);
        assert_eq!(ajour.setup_wallet_state().password_state.input_value(), "");
        assert_eq!(ajour.views().len(), 2);
    }
}

#[test]
fn typing_into_the_password_fields_shows_masks() {
    let mut ajour: Ajour<u8> = Ajour::default();
    ajour.update(Message::Interaction(InputTarget::SetupWalletPassword.on_change("abc".into())));
    ajour.update(Message::Interaction(
        InputTarget::SetupWalletPasswordRepeat.on_change("abcd".into()),
    ));
    assert_eq!(ajour.setup_wallet_state().password_state.input_value(), "***");
    assert_eq!(ajour.setup_wallet_state().password_state.repeat_input_value(), "****");
    let content = data_container(ajour.setup_wallet_state());
    assert_eq!(content.password_input.value, "***");
    assert_eq!(content.repeat_password_input.value, "****");
    ajour.update(Message::Interaction(Interaction::SetupWalletViewInteraction(
        LocalViewInteraction::PasswordInput("a".to_string()),
    )));
    assert_eq!(ajour.setup_wallet_state().password_state.input_value(), "*");
    assert_eq!(ajour.setup_wallet_state().password_state.repeat_input_value(), "****");
}

#[test]
fn the_back_button_returns_the_wizard_to_its_first_step() {
    let mut ajour: Ajour<u8> = Ajour::default();
    let back = data_container(ajour.setup_wallet_state()).back_button.on_press;
    ajour.update(Message::Interaction(back.clone()));
    assert_eq!(ajour.setup_state().mode, setup::Mode::Init);
    ajour.update(Message::Interaction(back));
    assert_eq!(ajour.setup_state().mode, setup::Mode::Init);
    assert_eq!(ajour.current_mode(), Mode::Catalog);
}

#[test]
fn handle_message_never_fails() {
    let mut ajour: Ajour<u8> = Ajour::default();
    assert_eq!(ajour.handle_message(Message::Nothing(())), Ok(Command::Nothing));
    assert_eq!(
        ajour.handle_message(Message::Interaction(Interaction::ModeSelected(Mode::About))),
        Ok(Command::Nothing)
    );
    assert_eq!(ajour.current_mode(), Mode::About);
}

#[test]
fn error_describes_itself() {
    let error = GuiError::new("the cause".to_string());
    assert_eq!(error.message(), "the cause");
    assert_eq!(error.to_string(), "the cause");
    assert_eq!(error.clone(), error);
}

#[test]
fn catalog_shows_the_menu_only() {
    let (ajour, _) = Ajour::new("settings", "menu");
    let menu = ajour.view_labels().get(MAIN_MENU_VIEW).unwrap();
    assert_eq!(ajour.view(), vec![Content::Registered(menu)]);
}

#[test]
fn install_shows_the_menu_only() {
    let (mut ajour, _) = Ajour::new("settings", "menu");
    ajour.update(Message::Interaction(Interaction::ModeSelected(Mode::Install)));
    let menu = ajour.view_labels().get(MAIN_MENU_VIEW).unwrap();
    assert_eq!(ajour.view(), vec![Content::Registered(menu)]);
}

#[test]
fn about_shows_the_menu_and_the_about_screen() {
    let (mut ajour, _) = Ajour::new("settings", "menu");
    ajour.update(Message::Interaction(Interaction::ModeSelected(Mode::About)));
    let menu = ajour.view_labels().get(MAIN_MENU_VIEW).unwrap();
    assert_eq!(ajour.view(), vec![Content::Registered(menu), Content::About]);
}

#[test]
fn settings_shows_the_menu_and_the_settings_view() {
    let (mut ajour, _) = Ajour::new("settings", "menu");
    ajour.update(Message::Interaction(Interaction::ModeSelected(Mode::Settings)));
    let menu = ajour.view_labels().get(MAIN_MENU_VIEW).unwrap();
    let settings = ajour.view_labels().get(MAIN_SETTINGS_VIEW).unwrap();
    assert_eq!(ajour.view(), vec![Content::Registered(menu), Content::Registered(settings)]);
}

#[test]
fn a_view_that_is_gone_is_left_out() {
    let (mut ajour, _) = Ajour::new("settings", "menu");
    ajour.update(Message::Interaction(Interaction::ModeSelected(Mode::Settings)));
    let menu = ajour.view_labels().get(MAIN_MENU_VIEW).unwrap();
    let settings = ajour.view_labels().get(MAIN_SETTINGS_VIEW).unwrap();
    {
        let (_, views) = ajour.views_mut();
        views.remove(&menu);
    }
    assert_eq!(ajour.view(), vec![Content::Registered(settings)]);
    ajour.update(Message::Interaction(Interaction::ModeSelected(Mode::About)));
    assert_eq!(ajour.view(), vec![Content::About]);
    ajour.update(Message::Interaction(Interaction::ModeSelected(Mode::Catalog)));
    assert_eq!(ajour.view(), vec![]);
}

#[test]
fn mode_follows_the_selection() {
    let mut ajour: Ajour<u8> = Ajour::default();
    for mode in [Mode::About, Mode::Settings, Mode::Install, Mode::Catalog, Mode::Catalog] {
        ajour.update(Message::Interaction(Interaction::ModeSelected(mode)));
        assert_eq!(ajour.current_mode(), mode);
    }
}

#[test]
fn mode_states_are_kept_by_mode() {
    let mut ajour: Ajour<u8> = Ajour::default();
    ajour.set_mode_state(Mode::Install, State::Ready);
    ajour.set_mode_state(Mode::Catalog, State::Error(GuiError::new("offline".to_string())));
    assert_eq!(ajour.mode_state(Mode::Install), Some(&State::Ready));
    assert_eq!(
        ajour.mode_state(Mode::Catalog),
        Some(&State::Error(GuiError::new("offline".to_string())))
    );
    assert_eq!(ajour.mode_state(Mode::About), None);
}

#[test]
fn mode_states_insert_returns_what_was_there() {
    let mut states = ModeStates::new();
    for mode in [Mode::Catalog, Mode::Install, Mode::Settings, Mode::About] {
        assert_eq!(states.get(mode), None);
    }
    assert_eq!(states.insert(Mode::Settings, State::Loading), None);
    assert_eq!(states.insert(Mode::Settings, State::Ready), Some(State::Loading));
    assert_eq!(states.insert(Mode::About, State::Loading), None);
    assert_eq!(states.get(Mode::Settings), Some(&State::Ready));
    assert_eq!(states.get(Mode::About), Some(&State::Loading));
    assert_eq!(states.get(Mode::Catalog), None);
    assert_eq!(states.get(Mode::Install), None);
}

#[test]
fn self_update_status_names_its_text() {
    assert_eq!(SelfUpdateStatus::InProgress.localization_key(), "updating");
    assert_eq!(SelfUpdateStatus::Failed.localization_key(), "failed");
}

#[test]
fn theme_state_starts_with_the_dark_theme() {
    let state = ThemeState::new(vec![
        ("Light".to_string(), 1),
        ("Dark".to_string(), 2),
        ("Solarized".to_string(), 3),
    ]);
    assert_eq!(state.current_theme_name, "Dark");
    assert_eq!(state.input_url, "");
    assert_eq!(state.themes.len(), 3);
    assert_eq!(state.current_theme(), Some(&2));
}

#[test]
fn current_theme_is_the_first_of_its_name() {
    let mut state = ThemeState::new(vec![
        ("Light".to_string(), 1),
        ("Dark".to_string(), 2),
        ("Light".to_string(), 3),
        ("Dark".to_string(), 4),
    ]);
    assert_eq!(state.current_theme(), Some(&2));
    state.current_theme_name = "Light".to_string();
    assert_eq!(state.current_theme(), Some(&1));
}

#[test]
fn unknown_theme_name_finds_nothing() {
    let mut state = ThemeState::new(vec![("Light".to_string(), 1), ("Dark".to_string(), 2)]);
    state.current_theme_name = "dark".to_string();
    assert_eq!(state.current_theme(), None);
    let empty: ThemeState<u8> = ThemeState::new(vec![]);
    assert_eq!(empty.current_theme(), None);
}

#[test]
fn messages_carry_runtime_events() {
    let event = iced_native::Event::Window(iced_native::window::Event::Focused);
    let message = Message::RuntimeEvent(event.clone());
    assert_eq!(message, Message::RuntimeEvent(event));
    assert_ne!(message, Message::Nothing(()));
    assert_ne!(
        message,
        Message::RuntimeEvent(iced_native::Event::Window(iced_native::window::Event::Unfocused))
    );
}
