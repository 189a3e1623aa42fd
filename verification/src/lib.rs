//! Session layer of a PackFile editor: the command protocol spoken with the
//! document worker, the registry of open editor views, the per-path cache of
//! table view state, and the decisions that tie them together.

pub mod advance;
pub mod archive_path;
pub mod create;
pub mod error;
pub mod filter;
pub mod game;
pub mod menus;
pub mod mymod;
pub mod name_order;
pub mod open;
pub mod packed_file_view;
pub mod packedfile_text;
pub mod packfile_actions;
pub mod protocol;
pub mod records;
pub mod save;
pub mod session;
pub mod table_state;
pub mod table_states;
pub mod text;
pub mod ui;
pub mod view_registry;
