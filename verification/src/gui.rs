//! Application state, messages and the view registry.

use crate::error::GuiError;
use crate::gui::element::modal::{is_error_card, CardContent};
use crate::gui::element::setup;
use crate::gui::element::setup::wallet;
use crate::gui::element::setup::wallet::{LocalViewInteraction, PasswordView};
use crate::gui::element::InputTarget;
use crate::gui::labels::ViewLabels;
use crate::gui::registry::{is_random_uuid, Registry, ViewId};
use std::collections::HashMap;
use vstd::prelude::*;

pub mod element;
pub mod labels;
pub mod registry;
pub mod window;

verus! {

broadcast use vstd::std_specs::hash::group_hash_axioms;

/// The label under which the main menu is registered.
pub const MAIN_MENU_VIEW: &'static str = "MAIN_MENU_VIEW";

/// The label under which the settings screen is registered.
pub const MAIN_SETTINGS_VIEW: &'static str = "MAIN_SETTINGS_VIEW";

/// `iced_native::Event`: an event that the window system delivers at run
/// time. Nothing is claimed of it and its contents are not read here: a
/// message carries it to whoever subscribed.
#[verifier::external_type_specification]
#[verifier::external_body]
pub struct ExRuntimeEvent(iced_native::Event);

/// The top-level screen that is shown.
#[derive(Debug, Clone, Copy, PartialEq, Eq, Hash, Structural)]
pub enum Mode {
    Catalog,
    Install,
    Settings,
    About,
}

/// How far the content of a mode has been loaded.
#[derive(Debug, Clone, PartialEq, Eq)]
pub enum State {
    Ready,
    Loading,
    Error(GuiError),
}

impl Default for State {
    fn default() -> (state: State)
        ensures
            state == State::Ready,
    {
        State::Ready
    }
}

/// The progress of an update of the application itself.
#[derive(Debug, Clone, Copy, PartialEq, Eq, Structural)]
pub enum SelfUpdateStatus {
    InProgress,
    Failed,
}

impl SelfUpdateStatus {
    /// The localization key of the text that describes the status.
    pub open spec fn spec_localization_key(self) -> Seq<char> {
        match self {
            SelfUpdateStatus::InProgress => "updating"@,
            SelfUpdateStatus::Failed => "failed"@,
        }
    }

    /// The localization key of the text that describes the status.
    pub fn localization_key(&self) -> (key: &'static str)
        ensures
            key@ == self.spec_localization_key(),
    {
        match self {
            SelfUpdateStatus::InProgress => "updating",
            SelfUpdateStatus::Failed => "failed",
        }
    }
}

/// What the user did.
#[derive(Debug, Clone, PartialEq, Eq)]
pub enum Interaction {
    ViewInteraction(String),
    ModeSelected(Mode),
    Ignore(String),
    SelectBackupDirectory(),
    OpenLink(String),
    Unignore(String),
    Update(String),
    ScaleUp,
    ScaleDown,
    Backup,
    ToggleHideIgnoredAddons(bool),
    CatalogQuery(String),
    InstallScmQuery(String),
    InstallScmUrl,
    UpdateAjour,
    AlternatingRowColorToggled(bool),
    KeybindingsToggle(bool),
    /// Sent by the settings of the tray, which only Windows has.
    ToggleCloseToTray(bool),
    /// Sent by the settings of the tray, which only Windows has.
    ToggleAutoStart(bool),
    /// Sent by the settings of the tray, which only Windows has.
    ToggleStartClosedToTray(bool),
    Exit,
    ExitCancel,
    CloseErrorModal,
    WriteToClipboard(String),
    SetupWalletViewInteraction(LocalViewInteraction),
    SetupWalletViewPasswordInput(String),
    SetupWalletViewPasswordRepeatInput(String),
}

/// Everything the update loop can be told.
#[derive(Debug, PartialEq)]
pub enum Message {
    Error(GuiError),
    Interaction(Interaction),
    RuntimeEvent(iced_native::Event),
    /// A message that carries nothing and asks for nothing.
    Nothing(()),
}

/// What a handler asks the runtime to do once it has returned.
#[derive(Debug, PartialEq)]
pub enum Command {
    /// Nothing.
    Nothing,
    /// Deliver the message in a later cycle of the update loop.
    Perform(Message),
}

/// The loading states of the modes: a map from modes to states, with at
/// most one state for each mode.
#[derive(Debug)]
pub struct ModeStates {
    catalog: Option<State>,
    install: Option<State>,
    settings: Option<State>,
    about: Option<State>,
}

impl ModeStates {
    spec fn slot(&self, mode: Mode) -> Option<State> {
        match mode {
            Mode::Catalog => self.catalog,
            Mode::Install => self.install,
            Mode::Settings => self.settings,
            Mode::About => self.about,
        }
    }

    /// The map without states.
    pub fn new() -> (states: ModeStates)
        ensures
            states@ == Map::<Mode, State>::empty(),
    {
        let states = ModeStates { catalog: None, install: None, settings: None, about: None };
        assert(states@ =~= Map::<Mode, State>::empty());
        states
    }

    /// The state recorded for `mode`, if there is one.
    pub fn get(&self, mode: Mode) -> (state: Option<&State>)
        ensures
            match state {
                Some(found) => self@.contains_key(mode) && self@[mode] == *found,
                None => !self@.contains_key(mode),
            },
    {
        match mode {
            Mode::Catalog => self.catalog.as_ref(),
            Mode::Install => self.install.as_ref(),
            Mode::Settings => self.settings.as_ref(),
            Mode::About => self.about.as_ref(),
        }
    }

    /// Records `state` for `mode`, in place of the state that the mode had,
    /// which is returned.
    pub fn insert(&mut self, mode: Mode, state: State) -> (previous: Option<State>)
        ensures
            final(self)@ == old(self)@.insert(mode, state),
            match previous {
                Some(replaced) => old(self)@.contains_key(mode) && old(self)@[mode] == replaced,
                None => !old(self)@.contains_key(mode),
            },
    {
        let ghost before = *self;
        let mut slot = Some(state);
        match mode {
            Mode::Catalog => core::mem::swap(&mut self.catalog, &mut slot),
            Mode::Install => core::mem::swap(&mut self.install, &mut slot),
            Mode::Settings => core::mem::swap(&mut self.settings, &mut slot),
            Mode::About => core::mem::swap(&mut self.about, &mut slot),
        }
        assert(self@ =~= before@.insert(mode, state));
        slot
    }
}

impl View for ModeStates {
    type V = Map<Mode, State>;

    closed spec fn view(&self) -> Map<Mode, State> {
        Map::new(|mode: Mode| self.slot(mode) is Some, |mode: Mode| self.slot(mode)->0)
    }
}

/// Whether the window of the application is shown.
#[derive(Debug, Clone, Copy, PartialEq, Eq, Structural)]
pub enum WindowMode {
    Windowed,
    Hidden,
}

/// One part of what the root container shows, from top to bottom.
#[derive(Debug, Clone, Copy, PartialEq, Eq, Structural)]
pub enum Content {
    /// What the registered view with this identifier draws.
    Registered(ViewId),
    /// The screen that tells about the application.
    About,
}

/// `Uuid::new_v4` of the uuid crate, read as a number by `Uuid::as_u128`: a
/// random identifier. Of the number only its form is known: the version
/// and variant fields that every version 4 UUID carries. The call fails
/// hard where the operating system hands out no random bytes.
#[verifier::external_body]
fn fresh_view_id() -> (id: ViewId)
    ensures
        is_random_uuid(id),
{
    uuid::Uuid::new_v4().as_u128()
}

/// `HashMap::get_mut` of the standard library, for a map keyed by view
/// identifiers: a mutable borrow of the view stored under `id`, or nothing
/// where the map has no such key. The map keeps its keys; under `id` it
/// ends up holding whatever the borrower leaves behind the borrow.
#[verifier::external_body]
fn view_entry_mut<'a, V>(views: &'a mut HashMap<ViewId, V>, id: &ViewId) -> (entry: Option<
    &'a mut V,
>)
    ensures
        match entry {
            Some(view) => {
                &&& old(views)@.contains_key(*id)
                &&& *view == old(views)@[*id]
                &&& final(views)@ == old(views)@.insert(*id, *final(view))
            },
            None => {
                &&& !old(views)@.contains_key(*id)
                &&& final(views)@ == old(views)@
            },
        },
{
    views.get_mut(id)
}

/// The state of the application: the mode that is shown, the error that is
/// reported, the loading states of the modes, the wallet setup wizard with
/// its password screen, and the registry of views.
pub struct Ajour<V> {
    state: ModeStates,
    error: Option<GuiError>,
    mode: Mode,
    views: HashMap<ViewId, V>,
    view_labels: ViewLabels,
    setup_state: setup::StateContainer,
    setup_wallet_state: wallet::StateContainer,
}

/// The state of the application as contracts see it.
pub struct AjourModel<V> {
    /// The mode that is shown.
    pub mode: Mode,
    /// The error that the error modal reports; without one no modal is open.
    pub error: Option<GuiError>,
    /// The loading states of the modes.
    pub state: Map<Mode, State>,
    /// The step of the wallet setup wizard.
    pub setup_mode: setup::Mode,
    /// What the password fields of the wizard show.
    pub passwords: PasswordView,
    /// The registry of views.
    pub registry: Registry<V>,
}

impl<V> Ajour<V> {
    /// The state as contracts see it.
    pub closed spec fn model(&self) -> AjourModel<V> {
        AjourModel {
            mode: self.mode,
            error: self.error,
            state: self.state@,
            setup_mode: self.setup_state.mode,
            passwords: self.setup_wallet_state@,
            registry: Registry { labels: self.view_labels@, views: self.views@ },
        }
    }
}

/// What the root container shows in `mode` with the given registry: first
/// the main menu, then the content of the mode. The about screen is not a
/// registered view; the settings screen is; the other modes add nothing. A
/// registered view whose identifier leads nowhere is left out.
pub open spec fn root_content<V>(registry: Registry<V>, mode: Mode) -> Seq<Content> {
    let menu = registry.labels[MAIN_MENU_VIEW@];
    let settings = registry.labels[MAIN_SETTINGS_VIEW@];
    let first = if registry.views.contains_key(menu) {
        seq![Content::Registered(menu)]
    } else {
        Seq::<Content>::empty()
    };
    match mode {
        Mode::About => first.push(Content::About),
        Mode::Settings => if registry.views.contains_key(settings) {
            first.push(Content::Registered(settings))
        } else {
            first
        },
        _ => first,
    }
}

/// The state after `message` was handled. An error message opens the error
/// modal with that error; closing the modal removes the error; selecting a
/// mode shows it; what is done on the password screen of the wizard acts on
/// the wizard. Every other message leaves this state as it is: what it
/// asks for lies outside of it.
pub open spec fn handled<V>(before: AjourModel<V>, message: Message) -> AjourModel<V> {
    match message {
        Message::Error(error) => AjourModel { error: Some(error), ..before },
        Message::Interaction(Interaction::CloseErrorModal) => AjourModel { error: None, ..before },
        Message::Interaction(Interaction::ModeSelected(mode)) => AjourModel { mode, ..before },
        Message::Interaction(Interaction::SetupWalletViewInteraction(local)) => {
            let (passwords, setup_mode) = wallet::handled(
                before.passwords,
                before.setup_mode,
                local,
            );
            AjourModel { passwords, setup_mode, ..before }
        },
        Message::Interaction(Interaction::SetupWalletViewPasswordInput(text)) => {
            let (passwords, setup_mode) = wallet::handled(
                before.passwords,
                before.setup_mode,
                LocalViewInteraction::PasswordInput(text),
            );
            AjourModel { passwords, setup_mode, ..before }
        },
        Message::Interaction(Interaction::SetupWalletViewPasswordRepeatInput(text)) => {
            let (passwords, setup_mode) = wallet::handled(
                before.passwords,
                before.setup_mode,
                LocalViewInteraction::PasswordRepeatInput(text),
            );
            AjourModel { passwords, setup_mode, ..before }
        },
        _ => before,
    }
}

/// What the update loop hands to the runtime for the outcome of a handler:
/// the command of the handler where it succeeded; where it failed, the
/// command to deliver the error as a message in a later cycle.
pub open spec fn resolved(outcome: Result<Command, GuiError>) -> Command {
    match outcome {
        Ok(wanted) => wanted,
        Err(error) => Command::Perform(Message::Error(error)),
    }
}

/// Turns the outcome of a handler into the command for the runtime. A
/// failure goes no further than this: it comes back as an error message.
pub fn resolve(outcome: Result<Command, GuiError>) -> (command: Command)
    ensures
        command == resolved(outcome),
{
    match outcome {
        Ok(wanted) => wanted,
        Err(error) => Command::Perform(Message::Error(error)),
    }
}

impl<V> Default for Ajour<V> {
    /// The application before anything was registered: it shows the
    /// catalog, which is still loading, reports no error, and its wizard
    /// is at the first step with empty password fields.
    fn default() -> (ajour: Ajour<V>)
        ensures
            ajour.model().mode == Mode::Catalog,
            ajour.model().error == None::<GuiError>,
            ajour.model().state == Map::<Mode, State>::empty().insert(Mode::Catalog, State::Loading),
            ajour.model().setup_mode == setup::Mode::Init,
            ajour.model().passwords.input_value == Seq::<char>::empty(),
            ajour.model().passwords.repeat_input_value == Seq::<char>::empty(),
            ajour.model().registry == Registry::<V>::empty(),
            ajour.model().registry.consistent(),
    {
        let mut state = ModeStates::new();
        state.insert(Mode::Catalog, State::Loading);
        Ajour {
            state,
            error: None,
            mode: Mode::Catalog,
            views: HashMap::new(),
            view_labels: ViewLabels::new(),
            setup_state: setup::StateContainer::default(),
            setup_wallet_state: wallet::StateContainer::default(),
        }
    }
}

impl<V> Ajour<V> {
    /// Whether `self` differs from `before` in nothing but the registry,
    /// which is `registry`.
    pub open spec fn differs_in_registry(&self, before: &Ajour<V>, registry: Registry<V>) -> bool {
        self.model() == (AjourModel { registry, ..before.model() })
    }

    /// Registers `view` under `view_label` with the identifier `id`: the
    /// label now leads to `id`, and `id` to `view`.
    pub fn register_view(&mut self, view_label: &str, id: ViewId, view: V)
        ensures
            final(self).differs_in_registry(
                old(self),
                old(self).model().registry.register(view_label@, id, view),
            ),
            final(self).model().registry.lookup(view_label@) == Some(view),
            old(self).model().registry.consistent() ==> final(self).model().registry.consistent(),
    {
        proof {
            if self.model().registry.consistent() {
                crate::gui::registry::lemma_register_consistent(
                    self.model().registry,
                    view_label@,
                    id,
                    view,
                );
            }
        }
        self.view_labels.insert(view_label, id);
        self.views.insert(id, view);
    }

    /// Registers `view` under `view_label` with a fresh random identifier.
    pub fn create_view(&mut self, view_label: &'static str, view: V)
        ensures
            final(self).model().registry.labels.contains_key(view_label@),
            is_random_uuid(final(self).model().registry.labels[view_label@]),
            final(self).differs_in_registry(
                old(self),
                old(self).model().registry.register(
                    view_label@,
                    final(self).model().registry.labels[view_label@],
                    view,
                ),
            ),
            final(self).model().registry.lookup(view_label@) == Some(view),
            old(self).model().registry.consistent() ==> final(self).model().registry.consistent(),
    {
        let uuid = fresh_view_id();
        self.register_view(view_label, uuid, view);
    }

    /// The identifier recorded for `view_label`, which must be registered.
    pub fn view_uuid_for_label(view_labels: &ViewLabels, view_label: &str) -> (id: ViewId)
        requires
            view_labels@.contains_key(view_label@),
        ensures
            id == view_labels@[view_label@],
    {
        view_labels.get(view_label).unwrap()
    }

    /// The view stored under `view_uuid`, borrowed so that it can handle a
    /// message or be drawn; nothing where no view has that identifier. The
    /// registry keeps its identifiers.
    pub fn get_view<'a>(views: &'a mut HashMap<ViewId, V>, view_uuid: &ViewId) -> (entry: Option<
        &'a mut V,
    >)
        ensures
            match entry {
                Some(view) => {
                    &&& old(views)@.contains_key(*view_uuid)
                    &&& *view == old(views)@[*view_uuid]
                    &&& final(views)@ == old(views)@.insert(*view_uuid, *final(view))
                },
                None => {
                    &&& !old(views)@.contains_key(*view_uuid)
                    &&& final(views)@ == old(views)@
                },
            },
    {
        view_entry_mut(views, view_uuid)
    }

    /// The view that `view_label` leads to, borrowed so that it can handle
    /// a message or be drawn: the label is looked up, then the identifier
    /// found. Nothing where the label is not registered or leads nowhere.
    /// The registry keeps its labels and identifiers.
    pub fn view_for_label(&mut self, view_label: &str) -> (entry: Option<&mut V>)
        ensures
            match entry {
                Some(view) => {
                    &&& old(self).model().registry.lookup(view_label@) == Some(*view)
                    &&& final(self).differs_in_registry(
                        old(self),
                        Registry {
                            labels: old(self).model().registry.labels,
                            views: old(self).model().registry.views.insert(
                                old(self).model().registry.labels[view_label@],
                                *final(view),
                            ),
                        },
                    )
                },
                None => {
                    &&& old(self).model().registry.lookup(view_label@) is None
                    &&& final(self).model() == old(self).model()
                },
            },
    {
        match self.view_labels.get(view_label) {
            Some(view_uuid) => view_entry_mut(&mut self.views, &view_uuid),
            None => None,
        }
    }

    /// Registers the two views that every run of the application has: the
    /// settings screen first, then the main menu. Each is found again by
    /// its label, unless the two random identifiers drawn are the same, in
    /// which case both labels lead to the menu.
    pub fn create_views(&mut self, settings_view: V, menu_view: V)
        ensures
            final(self).model().registry.labels.contains_key(MAIN_SETTINGS_VIEW@),
            final(self).model().registry.labels.contains_key(MAIN_MENU_VIEW@),
            is_random_uuid(final(self).model().registry.labels[MAIN_SETTINGS_VIEW@]),
            is_random_uuid(final(self).model().registry.labels[MAIN_MENU_VIEW@]),
            final(self).differs_in_registry(
                old(self),
                old(self).model().registry.register(
                    MAIN_SETTINGS_VIEW@,
                    final(self).model().registry.labels[MAIN_SETTINGS_VIEW@],
                    settings_view,
                ).register(
                    MAIN_MENU_VIEW@,
                    final(self).model().registry.labels[MAIN_MENU_VIEW@],
                    menu_view,
                ),
            ),
            final(self).model().registry.lookup(MAIN_MENU_VIEW@) == Some(menu_view),
            final(self).model().registry.labels[MAIN_SETTINGS_VIEW@]
                != final(self).model().registry.labels[MAIN_MENU_VIEW@]
                ==> final(self).model().registry.lookup(MAIN_SETTINGS_VIEW@) == Some(settings_view),
            old(self).model().registry.consistent() ==> final(self).model().registry.consistent(),
    {
        proof {
            lemma_view_labels_differ();
        }
        self.create_view(MAIN_SETTINGS_VIEW, settings_view);
        self.create_view(MAIN_MENU_VIEW, menu_view);
    }

    /// The application as it starts: in its default state, with the two
    /// fixed views registered, and with nothing left for the runtime to do.
    pub fn new(settings_view: V, menu_view: V) -> (started: (Ajour<V>, Command))
        ensures
            started.1 == Command::Nothing,
            started.0.model().mode == Mode::Catalog,
            started.0.model().error == None::<GuiError>,
            started.0.model().state == Map::<Mode, State>::empty().insert(Mode::Catalog, State::Loading),
            started.0.model().setup_mode == setup::Mode::Init,
            started.0.model().registry == Registry::<V>::empty().register(
                MAIN_SETTINGS_VIEW@,
                started.0.model().registry.labels[MAIN_SETTINGS_VIEW@],
                settings_view,
            ).register(MAIN_MENU_VIEW@, started.0.model().registry.labels[MAIN_MENU_VIEW@], menu_view),
            started.0.model().registry.consistent(),
            started.0.model().registry.lookup(MAIN_MENU_VIEW@) == Some(menu_view),
            started.0.model().registry.labels[MAIN_SETTINGS_VIEW@]
                != started.0.model().registry.labels[MAIN_MENU_VIEW@]
                ==> started.0.model().registry.lookup(MAIN_SETTINGS_VIEW@) == Some(settings_view),
    {
        let mut ajour = Ajour::default();
        ajour.create_views(settings_view, menu_view);
        (ajour, Command::Nothing)
    }

    /// The title of the window.
    pub fn title(&self) -> (title: String)
        ensures
            title@ == "Ajour"@,
    {
        "Ajour".to_owned()
    }

    /// Whether the window is shown, given whether the tray reports the
    /// interface as visible.
    pub fn mode(&self, gui_visible: bool) -> (window: WindowMode)
        ensures
            window == (if gui_visible {
                WindowMode::Windowed
            } else {
                WindowMode::Hidden
            }),
    {
        if gui_visible {
            WindowMode::Windowed
        } else {
            WindowMode::Hidden
        }
    }

    /// Handles `message` as far as it acts on this state. The registry
    /// stays as it is. No message fails here, and none leaves anything for
    /// the runtime to do.
    pub fn handle_message(&mut self, message: Message) -> (result: Result<Command, GuiError>)
        ensures
            final(self).model() == handled(old(self).model(), message),
            result == Ok::<Command, GuiError>(Command::Nothing),
    {
        match message {
            Message::Error(error) => {
                self.error = Some(error);
                Ok(Command::Nothing)
            },
            Message::Interaction(Interaction::CloseErrorModal) => {
                self.error = None;
                Ok(Command::Nothing)
            },
            Message::Interaction(Interaction::ModeSelected(mode)) => {
                self.mode = mode;
                Ok(Command::Nothing)
            },
            Message::Interaction(Interaction::SetupWalletViewInteraction(local)) => {
                wallet::handle_message(
                    &mut self.setup_wallet_state,
                    &mut self.setup_state,
                    local,
                    &mut self.error,
                )
            },
            Message::Interaction(Interaction::SetupWalletViewPasswordInput(text)) => {
                wallet::handle_message(
                    &mut self.setup_wallet_state,
                    &mut self.setup_state,
                    LocalViewInteraction::PasswordInput(text),
                    &mut self.error,
                )
            },
            Message::Interaction(Interaction::SetupWalletViewPasswordRepeatInput(text)) => {
                wallet::handle_message(
                    &mut self.setup_wallet_state,
                    &mut self.setup_state,
                    LocalViewInteraction::PasswordRepeatInput(text),
                    &mut self.error,
                )
            },
            _ => Ok(Command::Nothing),
        }
    }

    /// One cycle of the update loop: handles `message`, and hands back what
    /// is left for the runtime to do. A handler that fails does not stop
    /// the loop: its error comes back as a message in a later cycle.
    pub fn update(&mut self, message: Message) -> (command: Command)
        ensures
            final(self).model() == handled(old(self).model(), message),
            command == Command::Nothing,
    {
        let outcome = self.handle_message(message);
        resolve(outcome)
    }

    /// What the root container shows, from top to bottom. The main menu
    /// must be registered, and in the settings mode the settings screen
    /// too.
    pub fn view(&self) -> (content: Vec<Content>)
        requires
            self.model().registry.labels.contains_key(MAIN_MENU_VIEW@),
            self.model().mode == Mode::Settings ==> self.model().registry.labels.contains_key(
                MAIN_SETTINGS_VIEW@,
            ),
        ensures
            content@ == root_content(self.model().registry, self.model().mode),
    {
        let mut content: Vec<Content> = Vec::new();
        let view_uuid = Self::view_uuid_for_label(&self.view_labels, MAIN_MENU_VIEW);
        if self.views.contains_key(&view_uuid) {
            content.push(Content::Registered(view_uuid));
        }
        match self.mode {
            Mode::About => {
                content.push(Content::About);
            },
            Mode::Settings => {
                let view_uuid = Self::view_uuid_for_label(&self.view_labels, MAIN_SETTINGS_VIEW);
                if self.views.contains_key(&view_uuid) {
                    content.push(Content::Registered(view_uuid));
                }
            },
            _ => {},
        }
        assert(content@ =~= root_content(self.model().registry, self.model().mode));
        content
    }

    /// The mode that is shown.
    pub fn current_mode(&self) -> (mode: Mode)
        ensures
            mode == self.model().mode,
    {
        self.mode
    }

    /// The error that the error modal reports, if any.
    pub fn error(&self) -> (error: &Option<GuiError>)
        ensures
            *error == self.model().error,
    {
        &self.error
    }

    /// The loading state recorded for `mode`, if there is one.
    pub fn mode_state(&self, mode: Mode) -> (state: Option<&State>)
        ensures
            match state {
                Some(found) => self.model().state.contains_key(mode) && self.model().state[mode] == *found,
                None => !self.model().state.contains_key(mode),
            },
    {
        self.state.get(mode)
    }

    /// Records `state` as the loading state of `mode`.
    pub fn set_mode_state(&mut self, mode: Mode, state: State)
        ensures
            final(self).model() == (AjourModel {
                state: old(self).model().state.insert(mode, state),
                ..old(self).model()
            }),
    {
        self.state.insert(mode, state);
    }

    /// The state of the wallet setup wizard.
    pub fn setup_state(&self) -> (wizard: &setup::StateContainer)
        ensures
            wizard.mode == self.model().setup_mode,
    {
        &self.setup_state
    }

    /// The state of the password screen of the wizard.
    pub fn setup_wallet_state(&self) -> (screen: &wallet::StateContainer)
        ensures
            screen@ == self.model().passwords,
    {
        &self.setup_wallet_state
    }

    /// The labels of the registered views.
    pub fn view_labels(&self) -> (labels: &ViewLabels)
        ensures
            labels@ == self.model().registry.labels,
    {
        &self.view_labels
    }

    /// The registered views, by identifier.
    pub fn views(&self) -> (views: &HashMap<ViewId, V>)
        ensures
            views@ == self.model().registry.views,
    {
        &self.views
    }

    /// The labels together with the views, the latter borrowed so that a
    /// view can be worked on. What is left behind the borrow is what the
    /// registry holds afterwards; nothing else changes.
    pub fn views_mut(&mut self) -> (parts: (&ViewLabels, &mut HashMap<ViewId, V>))
        ensures
            parts.0@ == old(self).model().registry.labels,
            parts.1@ == old(self).model().registry.views,
            final(self).differs_in_registry(
                old(self),
                Registry { labels: old(self).model().registry.labels, views: final(parts.1)@ },
            ),
    {
        (&self.view_labels, &mut self.views)
    }
}

/// Dismissing the error card clears the error, by whichever of its two
/// ways: the acknowledging button and the close control send the same
/// message, each sends that one message and no other, and handling it
/// closes the modal and changes nothing else. Handling it once more
/// changes nothing at all.
pub proof fn lemma_error_card_dismissal<V>(
    before: AjourModel<V>,
    card: CardContent,
    cause: Seq<char>,
)
    requires
        is_error_card(card, cause),
    ensures
        card.buttons@[0].on_press == card.on_close,
        handled(before, Message::Interaction(card.on_close)) == (AjourModel {
            error: None,
            ..before
        }),
        handled(
            handled(before, Message::Interaction(card.on_close)),
            Message::Interaction(card.on_close),
        ) == handled(before, Message::Interaction(card.on_close)),
{
}

/// An error message opens the error modal with its error, whatever was
/// reported before, and dismissing the card built for it closes the modal
/// again: the state is as it was before the error, but for an error that
/// was already reported then.
pub proof fn lemma_error_then_dismissal<V>(
    before: AjourModel<V>,
    error: GuiError,
    card: CardContent,
)
    requires
        is_error_card(card, error@),
    ensures
        handled(before, Message::Error(error)).error == Some(error),
        handled(handled(before, Message::Error(error)), Message::Interaction(card.on_close))
            == (AjourModel { error: None, ..before }),
{
}

/// Where both fixed views are registered and every label leads to a view,
/// the root container always begins with the main menu; the about mode
/// puts the about screen below it, the settings mode the settings screen,
/// and the other modes nothing.
pub proof fn lemma_root_content<V>(registry: Registry<V>, mode: Mode)
    requires
        registry.consistent(),
        registry.labels.contains_key(MAIN_MENU_VIEW@),
        registry.labels.contains_key(MAIN_SETTINGS_VIEW@),
    ensures
        root_content(registry, mode) == (match mode {
            Mode::About => seq![
                Content::Registered(registry.labels[MAIN_MENU_VIEW@]),
                Content::About,
            ],
            Mode::Settings => seq![
                Content::Registered(registry.labels[MAIN_MENU_VIEW@]),
                Content::Registered(registry.labels[MAIN_SETTINGS_VIEW@]),
            ],
            _ => seq![Content::Registered(registry.labels[MAIN_MENU_VIEW@])],
        }),
{
}

/// A failure of a handler is not lost: its command delivers the error as
/// a message, and handling that message opens the error modal with it.
pub proof fn lemma_failure_is_reported<V>(before: AjourModel<V>, error: GuiError)
    ensures
        resolved(Err(error)) == Command::Perform(Message::Error(error)),
        handled(before, Message::Error(error)) == (AjourModel { error: Some(error), ..before }),
{
}

/// The step back on the password screen returns the wizard to its first
/// step from every state of the application, and changes nothing else.
pub proof fn lemma_back_resets_wizard<V>(before: AjourModel<V>)
    ensures
        handled(
            before,
            Message::Interaction(
                Interaction::SetupWalletViewInteraction(LocalViewInteraction::Back),
            ),
        ) == (AjourModel { setup_mode: setup::Mode::Init, ..before }),
{
}

/// Selecting a mode shows it, and the root container then holds the menu
/// and the content of that mode.
pub proof fn lemma_mode_selected<V>(before: AjourModel<V>, mode: Mode)
    ensures
        handled(before, Message::Interaction(Interaction::ModeSelected(mode))) == (AjourModel {
            mode,
            ..before
        }),
{
}

/// The content of the password field, as typed into the text input, comes
/// back masked: the message that the input of a field sends for a text
/// leaves that field showing one placeholder for each character of the
/// text, and the other field and the rest of the state as they were.
pub proof fn lemma_typed_password_is_masked<V>(before: AjourModel<V>, text: String)
    ensures
        handled(
            before,
            Message::Interaction(InputTarget::SetupWalletPassword.spec_on_change(text)),
        ) == (AjourModel {
            passwords: PasswordView {
                input_value: wallet::masked(text@.len()),
                ..before.passwords
            },
            ..before
        }),
        handled(
            before,
            Message::Interaction(InputTarget::SetupWalletPasswordRepeat.spec_on_change(text)),
        ) == (AjourModel {
            passwords: PasswordView {
                repeat_input_value: wallet::masked(text@.len()),
                ..before.passwords
            },
            ..before
        }),
{
}

/// The index of the first theme at or after `from` that is called `name`.
pub open spec fn first_named<T>(themes: Seq<(String, T)>, name: Seq<char>, from: int) -> Option<
    int,
>
    decreases themes.len() - from,
{
    if from < 0 || from >= themes.len() {
        None
    } else if themes[from].0@ == name {
        Some(from)
    } else {
        first_named(themes, name, from + 1)
    }
}

/// The index that `first_named` gives is that of a theme called `name`, and
/// no theme between `from` and it has that name; where it gives none, no
/// theme from `from` on has that name.
pub proof fn lemma_first_named<T>(themes: Seq<(String, T)>, name: Seq<char>, from: int)
    requires
        0 <= from,
    ensures
        match first_named(themes, name, from) {
            Some(found) => {
                &&& from <= found < themes.len()
                &&& themes[found].0@ == name
                &&& forall|i: int| from <= i < found ==> themes[i].0@ != name
            },
            None => forall|i: int| from <= i < themes.len() ==> themes[i].0@ != name,
        },
    decreases themes.len() - from,
{
    if from < themes.len() && themes[from].0@ != name {
        lemma_first_named(themes, name, from + 1);
    }
}

/// The themes that can be chosen, each with its name, the name of the one
/// that is in use, and the address typed into the import field.
#[derive(Debug)]
pub struct ThemeState<T> {
    pub themes: Vec<(String, T)>,
    pub current_theme_name: String,
    pub input_url: String,
}

impl<T> ThemeState<T> {
    /// The state in which `themes` can be chosen: the theme called "Dark"
    /// is in use and no address has been typed.
    pub fn new(themes: Vec<(String, T)>) -> (state: ThemeState<T>)
        ensures
            state.themes == themes,
            state.current_theme_name@ == "Dark"@,
            state.input_url@ == Seq::<char>::empty(),
    {
        ThemeState { themes, current_theme_name: "Dark".to_owned(), input_url: String::new() }
    }

    /// The theme in use: the first one that has the current name. Where no
    /// theme has that name there is none, and the caller falls back.
    pub fn current_theme(&self) -> (theme: Option<&T>)
        ensures
            match first_named(self.themes@, self.current_theme_name@, 0) {
                Some(found) => theme == Some(&self.themes@[found].1),
                None => theme is None,
            },
    {
        let mut i: usize = 0;
        while i < self.themes.len()
            invariant
                i <= self.themes@.len(),
                first_named(self.themes@, self.current_theme_name@, 0) == first_named(
                    self.themes@,
                    self.current_theme_name@,
                    i as int,
                ),
            decreases self.themes@.len() - i,
        {
            if self.themes[i].0 == self.current_theme_name {
                return Some(&self.themes[i].1);
            }
            i += 1;
        }
        None
    }
}

/// The two labels of the fixed views are different texts.
pub proof fn lemma_view_labels_differ()
    ensures
        MAIN_MENU_VIEW@ != MAIN_SETTINGS_VIEW@,
{
    reveal_strlit("MAIN_MENU_VIEW");
    reveal_strlit("MAIN_SETTINGS_VIEW");
    assert(MAIN_MENU_VIEW@.len() != MAIN_SETTINGS_VIEW@.len());
}

} // verus!
