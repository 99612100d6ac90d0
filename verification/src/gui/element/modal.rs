//! The confirmation dialogs: the card that asks whether to exit, and the
//! card that reports an error. A card is built anew for every rendering.

use crate::gui::element::ButtonContent;
use crate::gui::Interaction;
use vstd::prelude::*;

verus! {

/// The text in the body of a card.
#[derive(Debug, Clone, PartialEq)]
pub enum CardText {
    /// A text of the application, named by its localization key.
    Localized(&'static str),
    /// A text shown as it is.
    Plain(String),
}

/// A modal card: the key of its heading, its body, the buttons in its foot
/// from first to last, and what closing the card reports.
#[derive(Debug, Clone, PartialEq)]
pub struct CardContent {
    pub head: &'static str,
    pub body: CardText,
    pub buttons: Vec<ButtonContent>,
    pub on_close: Interaction,
}

/// The interaction that dismisses the open modal.
pub open spec fn close_modal() -> Interaction {
    Interaction::CloseErrorModal
}

/// Whether `card` asks the user to confirm leaving the application: "yes"
/// sends `Exit`, "no" sends `ExitCancel`, and closing the card dismisses it.
pub open spec fn is_exit_card(card: CardContent) -> bool {
    &&& card.head@ == "exit-confirm-title"@
    &&& card.body matches CardText::Localized(key) && key@ == "exit-confirm-msg"@
    &&& card.buttons@.len() == 2
    &&& card.buttons@[0].label@ == "yes"@
    &&& card.buttons@[0].on_press == Interaction::Exit
    &&& card.buttons@[1].label@ == "no"@
    &&& card.buttons@[1].on_press == Interaction::ExitCancel
    &&& card.on_close == close_modal()
}

/// Whether `card` reports the error described by `cause`: the description
/// is its body, the first button acknowledges the error and dismisses the
/// card, the second copies the description to the clipboard, and closing
/// the card dismisses it as the first button does.
pub open spec fn is_error_card(card: CardContent, cause: Seq<char>) -> bool {
    &&& card.head@ == "error-detail"@
    &&& card.body matches CardText::Plain(text) && text@ == cause
    &&& card.buttons@.len() == 2
    &&& card.buttons@[0].label@ == "ok-caps"@
    &&& card.buttons@[0].on_press == close_modal()
    &&& card.buttons@[1].label@ == "copy-to-clipboard"@
    &&& card.buttons@[1].on_press matches Interaction::WriteToClipboard(text) && text@ == cause
    &&& card.on_close == close_modal()
}

/// The card that asks whether to leave the application.
pub fn exit_card() -> (card: CardContent)
    ensures
        is_exit_card(card),
{
    let mut buttons: Vec<ButtonContent> = Vec::new();
    buttons.push(ButtonContent { label: "yes", on_press: Interaction::Exit });
    buttons.push(ButtonContent { label: "no", on_press: Interaction::ExitCancel });
    CardContent {
        head: "exit-confirm-title",
        body: CardText::Localized("exit-confirm-msg"),
        buttons,
        on_close: Interaction::CloseErrorModal,
    }
}

/// The card that reports an error to the user.
pub fn error_card(error_cause: String) -> (card: CardContent)
    ensures
        is_error_card(card, error_cause@),
{
    let mut buttons: Vec<ButtonContent> = Vec::new();
    buttons.push(ButtonContent { label: "ok-caps", on_press: Interaction::CloseErrorModal });
    buttons.push(
        ButtonContent {
            label: "copy-to-clipboard",
            on_press: Interaction::WriteToClipboard(error_cause.clone()),
        },
    );
    CardContent {
        head: "error-detail",
        body: CardText::Plain(error_cause),
        buttons,
        on_close: Interaction::CloseErrorModal,
    }
}

/// Every way of dismissing the error card reports one and the same
/// interaction, the one that closes the modal: pressing the acknowledging
/// button and using the card's close control cannot be told apart by the
/// update loop.
pub proof fn lemma_error_card_single_dismissal(card: CardContent, cause: Seq<char>)
    requires
        is_error_card(card, cause),
    ensures
        card.buttons@[0].on_press == card.on_close,
        card.on_close == Interaction::CloseErrorModal,
{
}

/// Closing the exit card without choosing reports the interaction that
/// closes the modal, the same that dismisses the error card.
pub proof fn lemma_cards_share_dismissal(exit: CardContent, error: CardContent, cause: Seq<char>)
    requires
        is_exit_card(exit),
        is_error_card(error, cause),
    ensures
        exit.on_close == error.on_close,
        exit.on_close == Interaction::CloseErrorModal,
{
}

} // verus!
