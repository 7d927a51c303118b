use vstd::prelude::*;

verus! {

/// Configures the authentication token.
pub struct ConfigCommand {
    pub command: ConfigSubCommand,
}

pub enum ConfigSubCommand {
    /// Sets the API key.
    Login { api_key: String },
}

/// Manages time entries.
pub struct TaskCommand {
    pub command: AddSubCommand,
}

pub enum AddSubCommand {
    /// Creates a new time entry.
    Add,
    /// Deletes a time entry.
    Delete,
    /// Lists all registered time entries.
    List,
    /// Creates a new time entry from a saved template.
    Saved,
}

/// Lists all tags available to the user.
pub struct TagsCommand;

/// Lists all projects available to the user.
pub struct ProjectsCommand;

/// The command surface: each subcommand maps to one workflow.
pub enum App {
    Config(ConfigCommand),
    Task(TaskCommand),
    Tags(TagsCommand),
    Projects(ProjectsCommand),
}

} // verus!
