//! The core of a modal, line-oriented text editor: the document model, the
//! viewport, the command and key registries and the mode dispatch engine.
//!
//! Nothing here touches a terminal or a file system. Every operation is a
//! function from the current state and an input to the next state and a list
//! of effects for the embedding program to carry out.

pub mod editor;
pub mod key;
pub mod registry;
pub mod screen;
pub mod session;
pub mod text;
pub mod text_buf;
