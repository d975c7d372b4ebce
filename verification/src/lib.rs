//! The verified core of the AlfAlfa desktop shell: where its files live under
//! `~/.alfalfa`, how a project's journal is laid out, the seed content it
//! writes, and the decisions taken around the user's login shell.

pub mod path;
pub mod text;
pub mod constants;
pub mod layout;
pub mod config;
pub mod journal;
pub mod shell;
pub mod window;
pub mod laws;
pub mod plan;
