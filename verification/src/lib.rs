use vstd::prelude::*;

pub mod actions;
pub mod ai_ask;
pub mod ai_reply;
pub mod archive;
pub mod chat;
pub mod clipboard;
pub mod ai_parse;
pub mod command_run;
pub mod commands;
pub mod compare;
pub mod count;
pub mod dialogs;
pub mod dispatch;
pub mod drop;
pub mod edit;
pub mod font;
pub mod grid;
pub mod history;
pub mod ime;
pub mod lang;
pub mod key_probe;
pub mod keymap;
pub mod layout;
pub mod marks;
pub mod normal_keys;
pub mod ops;
pub mod pane_keys;
pub mod paste;
pub mod popup_keys;
pub mod prompt;
pub mod review;
pub mod shell;
pub mod shell_keys;
pub mod setup;
pub mod shortcut_keys;
pub mod shortcuts;
pub mod state;
pub mod tabs;
pub mod sweep;
pub mod text;
pub mod transfer;
pub mod transfer_start;
pub mod undo;
pub mod vcs;
pub mod viewer_open;
pub mod visual;

verus! {

} // verus!
