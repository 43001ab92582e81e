//! A simulated terminal session: an append-only line history, a timed boot
//! transcript, and a command interpreter with fuzzy "did you mean" suggestions.

pub mod boot;
pub mod catalog;
pub mod commands;
pub mod distance;
pub mod interpreter;
pub mod line;
pub mod session;
pub mod text;

pub use boot::{get_boot_sequence, BootEntry};
pub use catalog::{
    about_block, get_contact_output, help_block, hire_block, listing_block, neofetch_logo, one_line,
    get_projects_output, readme_block, get_skills_output, Catalog,
};
pub use commands::{closest_command, guessable_commands, lookup, Command};
pub use distance::{chars_of, levenshtein};
pub use interpreter::{interpret, probe_line, respond, Reply};
pub use line::{LineContent, LineIds, OutputPart, TerminalLine};
pub use session::{Session, SubmitOutcome};
pub use text::{normalize, push_decimal, same_text};
