//! The screens and dialogs of the application, described by what they show
//! and by what each control reports when it is used. Texts are named by
//! their localization keys; sizes, colours and layout belong to the
//! renderer.

use crate::gui::Interaction;
use vstd::prelude::*;

pub mod modal;
pub mod setup;

verus! {

/// A push button: the key of its label and what a press of it reports.
#[derive(Debug, Clone, PartialEq)]
pub struct ButtonContent {
    pub label: &'static str,
    pub on_press: Interaction,
}

/// The field that a text input edits.
#[derive(Debug, Clone, Copy, PartialEq, Eq, Structural)]
pub enum InputTarget {
    SetupWalletPassword,
    SetupWalletPasswordRepeat,
}

impl InputTarget {
    /// The interaction that reports `text` as the new content of the field.
    pub open spec fn spec_on_change(self, text: String) -> Interaction {
        match self {
            InputTarget::SetupWalletPassword => Interaction::SetupWalletViewPasswordInput(text),
            InputTarget::SetupWalletPasswordRepeat => {
                Interaction::SetupWalletViewPasswordRepeatInput(text)
            },
        }
    }

    /// The interaction that reports `text` as the new content of the field.
    pub fn on_change(&self, text: String) -> (interaction: Interaction)
        ensures
            interaction == self.spec_on_change(text),
    {
        match self {
            InputTarget::SetupWalletPassword => Interaction::SetupWalletViewPasswordInput(text),
            InputTarget::SetupWalletPasswordRepeat => {
                Interaction::SetupWalletViewPasswordRepeatInput(text)
            },
        }
    }
}

/// A single-line text input: the key of its placeholder, the text it
/// displays, and the field that typing into it edits.
#[derive(Debug, Clone, PartialEq)]
pub struct TextInputContent {
    pub placeholder: &'static str,
    pub value: String,
    pub on_change: InputTarget,
}

} // verus!
