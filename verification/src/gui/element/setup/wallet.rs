//! The password entry screen of the wallet setup wizard.

use crate::error::GuiError;
use crate::gui::element::setup;
use crate::gui::element::{ButtonContent, InputTarget, TextInputContent};
use crate::gui::{Command, Interaction};
use vstd::prelude::*;
use vstd::string::*;

verus! {

/// The character shown in place of every character of a password.
pub const MASK: char = '*';

/// The masked form of a text of `n` characters: `n` placeholder characters.
pub open spec fn masked(n: nat) -> Seq<char> {
    Seq::new(n, |i: int| MASK)
}

/// Whether a text consists of placeholder characters only.
pub open spec fn is_masked(text: Seq<char>) -> bool {
    forall|i: int| 0 <= i < text.len() ==> text[i] == MASK
}

/// Replaces every character of `input` by the placeholder character.
pub fn asterisk(input: &str) -> (masked_input: String)
    ensures
        masked_input@ == masked(input@.len()),
        masked_input@.len() == input@.len(),
        is_masked(masked_input@),
{
    let mut out = String::new();
    for c in it: input.chars()
        invariant
            out@ == masked(it.index() as nat),
    {
        proof {
            reveal_strlit("*");
            assert("*"@ =~= seq![MASK]);
        }
        out.append("*");
        assert(out@ =~= masked((it.index() + 1) as nat));
    }
    out
}

/// The two password fields as they are displayed.
pub struct PasswordView {
    pub input_value: Seq<char>,
    pub repeat_input_value: Seq<char>,
}

/// The texts of the two password fields. Neither ever holds anything but
/// placeholder characters: what was typed is not kept.
#[derive(Debug)]
pub struct PasswordState {
    input_value: String,
    repeat_input_value: String,
}

impl View for PasswordState {
    type V = PasswordView;

    closed spec fn view(&self) -> PasswordView {
        PasswordView {
            input_value: self.input_value@,
            repeat_input_value: self.repeat_input_value@,
        }
    }
}

impl PasswordState {
    #[verifier::type_invariant]
    spec fn only_placeholders(self) -> bool {
        &&& is_masked(self.input_value@)
        &&& is_masked(self.repeat_input_value@)
    }

    /// The text shown in the password field.
    pub fn input_value(&self) -> (value: &String)
        ensures
            value@ == self@.input_value,
            is_masked(value@),
    {
        proof {
            use_type_invariant(self);
        }
        &self.input_value
    }

    /// The text shown in the field that repeats the password.
    pub fn repeat_input_value(&self) -> (value: &String)
        ensures
            value@ == self@.repeat_input_value,
            is_masked(value@),
    {
        proof {
            use_type_invariant(self);
        }
        &self.repeat_input_value
    }
}

impl Clone for PasswordState {
    fn clone(&self) -> (copy: PasswordState)
        ensures
            copy@ == self@,
    {
        proof {
            use_type_invariant(self);
        }
        PasswordState {
            input_value: self.input_value.clone(),
            repeat_input_value: self.repeat_input_value.clone(),
        }
    }
}

impl Default for PasswordState {
    fn default() -> (state: PasswordState)
        ensures
            state@.input_value == Seq::<char>::empty(),
            state@.repeat_input_value == Seq::<char>::empty(),
    {
        PasswordState { input_value: String::new(), repeat_input_value: String::new() }
    }
}

/// The state of the password entry screen.
#[derive(Debug)]
pub struct StateContainer {
    pub password_state: PasswordState,
}

impl View for StateContainer {
    type V = PasswordView;

    open spec fn view(&self) -> PasswordView {
        self.password_state@
    }
}

impl Default for StateContainer {
    fn default() -> (state: StateContainer)
        ensures
            state@.input_value == Seq::<char>::empty(),
            state@.repeat_input_value == Seq::<char>::empty(),
    {
        StateContainer { password_state: PasswordState::default() }
    }
}

/// What the user did on the password entry screen.
#[derive(Debug, Clone, PartialEq, Eq)]
pub enum LocalViewInteraction {
    Back,
    PasswordInput(String),
    PasswordRepeatInput(String),
}

/// The password fields and the wizard's step after `message` was handled.
/// `Back` returns the wizard to its first step; an edit of a field replaces
/// what the field shows by the mask of the whole new text.
pub open spec fn handled(
    state: PasswordView,
    mode: setup::Mode,
    message: LocalViewInteraction,
) -> (PasswordView, setup::Mode) {
    match message {
        LocalViewInteraction::Back => (state, setup::Mode::Init),
        LocalViewInteraction::PasswordInput(password) => (
            PasswordView { input_value: masked(password@.len()), ..state },
            mode,
        ),
        LocalViewInteraction::PasswordRepeatInput(password) => (
            PasswordView { repeat_input_value: masked(password@.len()), ..state },
            mode,
        ),
    }
}

/// The mask of a text of `n` characters has `n` characters, and each of
/// them is the placeholder.
pub proof fn lemma_masked(n: nat)
    ensures
        masked(n).len() == n,
        is_masked(masked(n)),
        forall|i: int| 0 <= i < n ==> masked(n)[i] == MASK,
{
}

/// After an edit a field shows the mask of the whole text that was typed,
/// as many placeholders as the text has characters, whatever the field
/// showed before and whatever was handled before the edit.
pub proof fn lemma_edit_remasks(
    state: PasswordView,
    mode: setup::Mode,
    earlier: LocalViewInteraction,
    text: String,
)
    ensures
        ({
            let before = handled(state, mode, earlier);
            let after = handled(before.0, before.1, LocalViewInteraction::PasswordInput(text));
            &&& after.0.input_value == masked(text@.len())
            &&& after.0.input_value.len() == text@.len()
            &&& after.0.repeat_input_value == before.0.repeat_input_value
            &&& after.1 == before.1
        }),
        ({
            let before = handled(state, mode, earlier);
            let after = handled(
                before.0,
                before.1,
                LocalViewInteraction::PasswordRepeatInput(text),
            );
            &&& after.0.repeat_input_value == masked(text@.len())
            &&& after.0.repeat_input_value.len() == text@.len()
            &&& after.0.input_value == before.0.input_value
            &&& after.1 == before.1
        }),
{
}

/// Fields that show placeholders only still do so after any message.
pub proof fn lemma_handled_stays_masked(
    state: PasswordView,
    mode: setup::Mode,
    message: LocalViewInteraction,
)
    requires
        is_masked(state.input_value),
        is_masked(state.repeat_input_value),
    ensures
        is_masked(handled(state, mode, message).0.input_value),
        is_masked(handled(state, mode, message).0.repeat_input_value),
{
}

/// `Back` returns the wizard to its first step from every step, and leaves
/// the password fields as they are.
pub proof fn lemma_back_returns_to_init(state: PasswordView, mode: setup::Mode)
    ensures
        handled(state, mode, LocalViewInteraction::Back) == (state, setup::Mode::Init),
{
}

/// Applies what the user did on the password entry screen to the screen's
/// state and to the wizard that owns the screen. It never fails and asks
/// for nothing to be done afterwards.
pub fn handle_message(
    state: &mut StateContainer,
    setup_state: &mut setup::StateContainer,
    message: LocalViewInteraction,
    error: &mut Option<GuiError>,
) -> (result: Result<Command, GuiError>)
    ensures
        (final(state)@, final(setup_state).mode) == handled(
            old(state)@,
            old(setup_state).mode,
            message,
        ),
        message is Back ==> final(setup_state).mode == setup::Mode::Init,
        is_masked(final(state)@.input_value),
        is_masked(final(state)@.repeat_input_value),
        *final(error) == *old(error),
        result == Ok::<Command, GuiError>(Command::Nothing),
{
    proof {
        use_type_invariant(&state.password_state);
    }
    match message {
        LocalViewInteraction::Back => {
            setup_state.mode = setup::Mode::Init;
        },
        LocalViewInteraction::PasswordInput(password) => {
            state.password_state.input_value = asterisk(password.as_str());
        },
        LocalViewInteraction::PasswordRepeatInput(repeat_password) => {
            state.password_state.repeat_input_value = asterisk(repeat_password.as_str());
        },
    }
    Ok(Command::Nothing)
}

/// What the password entry screen shows.
#[derive(Debug, Clone, PartialEq)]
pub struct SetupWalletContent {
    pub title: &'static str,
    pub back_button: ButtonContent,
    pub description: &'static str,
    pub password_input: TextInputContent,
    pub repeat_password_input: TextInputContent,
}

/// The content of the password entry screen for the given state: the title
/// and the button that leads back, the request to enter a password, and the
/// two password fields, which display the masked texts of the state.
pub fn data_container(state: &StateContainer) -> (content: SetupWalletContent)
    ensures
        content.title@ == "setup-grin-wallet-title"@,
        content.back_button.label@ == "back"@,
        content.back_button.on_press == Interaction::SetupWalletViewInteraction(
            LocalViewInteraction::Back,
        ),
        content.description@ == "setup-grin-wallet-enter-password"@,
        content.password_input.placeholder@ == "password"@,
        content.password_input.value@ == state@.input_value,
        content.password_input.on_change == InputTarget::SetupWalletPassword,
        content.repeat_password_input.placeholder@ == "password-repeat"@,
        content.repeat_password_input.value@ == state@.repeat_input_value,
        content.repeat_password_input.on_change == InputTarget::SetupWalletPasswordRepeat,
        is_masked(content.password_input.value@),
        is_masked(content.repeat_password_input.value@),
{
    let back_button = ButtonContent {
        label: "back",
        on_press: Interaction::SetupWalletViewInteraction(LocalViewInteraction::Back),
    };
    let password_input = TextInputContent {
        placeholder: "password",
        value: state.password_state.input_value().clone(),
        on_change: InputTarget::SetupWalletPassword,
    };
    let repeat_password_input = TextInputContent {
        placeholder: "password-repeat",
        value: state.password_state.repeat_input_value().clone(),
        on_change: InputTarget::SetupWalletPasswordRepeat,
    };
    SetupWalletContent {
        title: "setup-grin-wallet-title",
        back_button,
        description: "setup-grin-wallet-enter-password",
        password_input,
        repeat_password_input,
    }
}

} // verus!
