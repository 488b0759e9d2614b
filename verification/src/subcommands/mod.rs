//! What the program does for each of its commands.

pub mod login_subcommand;
pub mod logout_subcommand;
pub mod main_subcommand;

pub use login_subcommand::LoginSubcommand;
pub use logout_subcommand::LogoutSubcommand;
pub use main_subcommand::MainSubcommand;
