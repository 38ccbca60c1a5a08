pub mod buffer;
pub mod command;
pub mod editor;
pub mod terminal;
pub mod view;
