//! Mod management for one installed game: who a mod is and which version of
//! it is meant, where resolved mods have to be placed under the game's
//! directory, and how they are installed there and removed again.
//!
//! Nothing in this crate touches the filesystem. Installing, copying a
//! directory tree and uninstalling are each a value that says which
//! filesystem operation comes next; the caller performs it and hands the
//! outcome back. Every function is proved against its contract, and the
//! contracts are stated over plain values: texts, lists and flags.
//!
//! - [`mod_info`]: the identity of mods, and when one specification
//!   satisfies a dependency on another.
//! - [`compare`]: equality and order of the identity types.
//! - [`installation`]: the directories under the game's base directory.
//! - [`integrate`]: installing a list of resolved mods, one after the other.
//! - [`copy`] and [`tree`]: copying a directory tree, and what that does to a
//!   tree of any shape.
//! - [`uninstall`]: removing everything that was installed.
//! - [`error`]: the failures of the tool and their messages.
//! - [`text`], [`order`], [`path`]: texts, their order, and paths.

pub mod compare;
pub mod copy;
pub mod error;
pub mod installation;
pub mod integrate;
pub mod mod_info;
pub mod order;
pub mod path;
pub mod text;
pub mod tree;
pub mod uninstall;

pub use installation::DBSZInstallation;
