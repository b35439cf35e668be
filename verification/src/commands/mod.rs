//! The subcommands that manage favourites, list content and check providers.
pub mod favorites;
pub mod list;
pub mod providers;
