//! The state and message core of the wallet GUI: the view registry, the
//! application modes, message routing, and the contents of the modal and
//! wallet setup screens. Drawing the widgets is left to the application.

pub mod error;
pub mod gui;
