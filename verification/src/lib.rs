//! A command protocol adapter between a line-oriented control channel and a
//! game-playing engine: text in, one response line out.

pub mod api;
pub mod boarddrawer;
pub mod bothandler;
pub mod commands;
pub mod parsing;
pub mod text;
