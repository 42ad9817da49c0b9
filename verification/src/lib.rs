//! The core of a terminal todo list: the list and its cursor, the line editor
//! of the insert and edit modes, the key dispatch of the main loop, the frames
//! that are drawn, and the text format in which the list is stored.
//!
//! Nothing here touches the terminal or the disk. Keys are handed in as
//! [`interface::Key`] values, what is to be drawn is handed out as
//! [`interface::DrawOp`] values, and the stored list is a text.
pub mod codec;
pub mod text;
pub mod interface;
pub mod store;
pub mod session;
