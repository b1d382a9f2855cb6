//! The documentation tables the CLI ships: one row type per table, the
//! audience each row is meant for, and the builders of the static tables.
//! Writing the tables out as CSV is the caller's concern.

use vstd::prelude::*;
use vstd::string::StringExecFns;

use crate::text::str_eq;

verus! {

/// The audience a documentation row is meant for.
#[derive(Clone, Copy, PartialEq, Eq, Structural, Debug)]
pub enum UserRole {
    All,
    Developer,
    Admin,
}

impl UserRole {
    /// The lower-case name of the role.
    pub fn name(&self) -> (r: String)
        ensures
            r@ == match *self {
                UserRole::All => "all"@,
                UserRole::Developer => "developer"@,
                UserRole::Admin => "admin"@,
            },
    {
        match self {
            UserRole::All => String::from_str("all"),
            UserRole::Developer => String::from_str("developer"),
            UserRole::Admin => String::from_str("admin"),
        }
    }
}

/// A user-guide row.
pub struct UserGuideDoc {
    pub id: String,
    pub title: String,
    pub content: String,
    pub category: String,
    pub role: String,
    pub order: i32,
}

impl UserGuideDoc {
    /// User guides address every audience.
    pub fn role(&self) -> (r: UserRole)
        ensures
            r == UserRole::All,
    {
        UserRole::All
    }
}

/// A setup-guide row.
pub struct SetupGuideDoc {
    pub id: String,
    pub title: String,
    pub steps: String,
    pub prerequisites: String,
    pub category: String,
    pub role: String,
    pub order: i32,
}

impl SetupGuideDoc {
    /// Setup guides address every audience.
    pub fn role(&self) -> (r: UserRole)
        ensures
            r == UserRole::All,
    {
        UserRole::All
    }
}

/// A CLI-command row.
pub struct CommandDoc {
    pub id: String,
    pub name: String,
    pub description: String,
    pub usage_example: String,
    pub category: String,
    pub role: String,
    pub is_required: bool,
}

impl CommandDoc {
    /// Commands in the `Advanced` category address developers; the rest,
    /// every audience.
    pub fn role(&self) -> (r: UserRole)
        ensures
            r == if self.category@ == "Advanced"@ {
                UserRole::Developer
            } else {
                UserRole::All
            },
    {
        if str_eq(self.category.as_str(), "Advanced") {
            UserRole::Developer
        } else {
            UserRole::All
        }
    }
}

/// A command-parameter row.
pub struct ParameterDoc {
    pub id: String,
    pub command_id: String,
    pub name: String,
    pub description: String,
    pub data_type: String,
    pub default_value: Option<String>,
    pub role: String,
    pub is_required: bool,
}

impl ParameterDoc {
    /// Parameters address every audience.
    pub fn role(&self) -> (r: UserRole)
        ensures
            r == UserRole::All,
    {
        UserRole::All
    }
}

/// A configuration-setting row.
pub struct ConfigDoc {
    pub id: String,
    pub name: String,
    pub description: String,
    pub data_type: String,
    pub default_value: Option<String>,
    pub category: String,
    pub role: String,
}

impl ConfigDoc {
    /// Settings in the `Advanced` or `Development` categories address
    /// developers; the rest, every audience.
    pub fn role(&self) -> (r: UserRole)
        ensures
            r == if self.category@ == "Advanced"@ || self.category@ == "Development"@ {
                UserRole::Developer
            } else {
                UserRole::All
            },
    {
        if str_eq(self.category.as_str(), "Advanced") || str_eq(
            self.category.as_str(),
            "Development",
        ) {
            UserRole::Developer
        } else {
            UserRole::All
        }
    }
}

/// A technical-documentation row.
pub struct TechnicalDoc {
    pub id: String,
    pub title: String,
    pub content: String,
    pub category: String,
    pub role: String,
    pub related_files: String,
}

impl TechnicalDoc {
    /// Technical documentation addresses developers.
    pub fn role(&self) -> (r: UserRole)
        ensures
            r == UserRole::Developer,
    {
        UserRole::Developer
    }
}

/// A report-template row.
pub struct ReportDoc {
    pub id: String,
    pub name: String,
    pub description: String,
    pub format: String,
    pub fields: String,
    pub role: String,
    pub category: String,
}

impl ReportDoc {
    /// Report templates address every audience.
    pub fn role(&self) -> (r: UserRole)
        ensures
            r == UserRole::All,
    {
        UserRole::All
    }
}

/// A troubleshooting row.
pub struct TroubleshootingDoc {
    pub id: String,
    pub issue: String,
    pub solution: String,
    pub category: String,
    pub role: String,
    pub related_errors: String,
}

impl TroubleshootingDoc {
    /// Troubleshooting guides address every audience.
    pub fn role(&self) -> (r: UserRole)
        ensures
            r == UserRole::All,
    {
        UserRole::All
    }
}

/// A role-permission row.
pub struct RolePermission {
    pub role: String,
    pub resource: String,
    pub permissions: String,
    pub description: String,
}

/// Builds the static documentation tables and remembers where their CSV
/// files belong.
pub struct DocGenerator {
    pub output_dir: String,
}

impl DocGenerator {
    /// Creates a generator writing under `output_dir`.
    pub fn new(output_dir: String) -> (g: Self)
        ensures
            g.output_dir == output_dir,
    {
        DocGenerator { output_dir }
    }

    /// The user-guide table.
    pub fn user_guides() -> (r: Vec<UserGuideDoc>)
        ensures
            r@.len() == 2,
            r@[0].id@ == "ug_basic"@,
            r@[0].category@ == "Getting Started"@,
            r@[0].order == 1,
            r@[1].id@ == "ug_sync"@,
            r@[1].category@ == "Core Features"@,
            r@[1].order == 2,
    {
        let mut r: Vec<UserGuideDoc> = Vec::new();
        r.push(
            UserGuideDoc {
                id: String::from_str("ug_basic"),
                title: String::from_str("Basic Usage"),
                content: String::from_str("Learn how to use basic CLI commands..."),
                category: String::from_str("Getting Started"),
                role: String::from_str("all"),
                order: 1,
            },
        );
        r.push(
            UserGuideDoc {
                id: String::from_str("ug_sync"),
                title: String::from_str("File Synchronization"),
                content: String::from_str("How to sync files between systems..."),
                category: String::from_str("Core Features"),
                role: String::from_str("all"),
                order: 2,
            },
        );
        r
    }

    /// The setup-guide table.
    pub fn setup_guides() -> (r: Vec<SetupGuideDoc>)
        ensures
            r@.len() == 1,
            r@[0].id@ == "setup_basic"@,
            r@[0].category@ == "Installation"@,
            r@[0].order == 1,
    {
        let mut r: Vec<SetupGuideDoc> = Vec::new();
        r.push(
            SetupGuideDoc {
                id: String::from_str("setup_basic"),
                title: String::from_str("Basic Setup"),
                steps: String::from_str("1. Install CLI\n2. Configure paths..."),
                prerequisites: String::from_str("Rust installed"),
                category: String::from_str("Installation"),
                role: String::from_str("all"),
                order: 1,
            },
        );
        r
    }

    /// The technical-documentation table.
    pub fn technical_docs() -> (r: Vec<TechnicalDoc>)
        ensures
            r@.len() == 1,
            r@[0].id@ == "tech_arch"@,
            r@[0].category@ == "Architecture"@,
    {
        let mut r: Vec<TechnicalDoc> = Vec::new();
        r.push(
            TechnicalDoc {
                id: String::from_str("tech_arch"),
                title: String::from_str("Architecture Overview"),
                content: String::from_str("System architecture and components..."),
                category: String::from_str("Architecture"),
                role: String::from_str("developer"),
                related_files: String::from_str("main.rs,sync.rs"),
            },
        );
        r
    }

    /// The report-template table.
    pub fn reports() -> (r: Vec<ReportDoc>)
        ensures
            r@.len() == 1,
            r@[0].id@ == "report_sync"@,
            r@[0].category@ == "Operations"@,
    {
        let mut r: Vec<ReportDoc> = Vec::new();
        r.push(
            ReportDoc {
                id: String::from_str("report_sync"),
                name: String::from_str("Sync Report"),
                description: String::from_str("Details of file synchronization"),
                format: String::from_str("CSV"),
                fields: String::from_str("filename,status,timestamp"),
                role: String::from_str("all"),
                category: String::from_str("Operations"),
            },
        );
        r
    }

    /// The troubleshooting table.
    pub fn troubleshooting() -> (r: Vec<TroubleshootingDoc>)
        ensures
            r@.len() == 1,
            r@[0].id@ == "trouble_conn"@,
            r@[0].category@ == "Network"@,
    {
        let mut r: Vec<TroubleshootingDoc> = Vec::new();
        r.push(
            TroubleshootingDoc {
                id: String::from_str("trouble_conn"),
                issue: String::from_str("Connection Failed"),
                solution: String::from_str("Check network settings..."),
                category: String::from_str("Network"),
                role: String::from_str("all"),
                related_errors: String::from_str("E001,E002"),
            },
        );
        r
    }

    /// The role-permission table.
    pub fn role_permissions() -> (r: Vec<RolePermission>)
        ensures
            r@.len() == 2,
            r@[0].role@ == "all"@,
            r@[0].resource@ == "user_guides"@,
            r@[1].role@ == "developer"@,
            r@[1].resource@ == "technical_docs"@,
    {
        let mut r: Vec<RolePermission> = Vec::new();
        r.push(
            RolePermission {
                role: String::from_str("all"),
                resource: String::from_str("user_guides"),
                permissions: String::from_str("read"),
                description: String::from_str("Access to user documentation"),
            },
        );
        r.push(
            RolePermission {
                role: String::from_str("developer"),
                resource: String::from_str("technical_docs"),
                permissions: String::from_str("read"),
                description: String::from_str("Access to technical documentation"),
            },
        );
        r
    }

    /// The CLI-command table.
    pub fn commands() -> (r: Vec<CommandDoc>)
        ensures
            r@.len() == 2,
            r@[0].id@ == "cmd_sync"@,
            r@[0].category@ == "Core"@,
            !r@[0].is_required,
            r@[1].id@ == "cmd_config"@,
            r@[1].category@ == "Configuration"@,
            !r@[1].is_required,
    {
        let mut r: Vec<CommandDoc> = Vec::new();
        r.push(
            CommandDoc {
                id: String::from_str("cmd_sync"),
                name: String::from_str("sync"),
                description: String::from_str("Synchronize files based on JSON configuration"),
                usage_example: String::from_str("cli-file-sync sync --assets-source <URL>"),
                category: String::from_str("Core"),
                role: String::from_str("all"),
                is_required: false,
            },
        );
        r.push(
            CommandDoc {
                id: String::from_str("cmd_config"),
                name: String::from_str("config"),
                description: String::from_str("Configure CLI settings"),
                usage_example: String::from_str("cli-file-sync config --base-url <URL>"),
                category: String::from_str("Configuration"),
                role: String::from_str("all"),
                is_required: false,
            },
        );
        r
    }

    /// The command-parameter table.
    pub fn parameters() -> (r: Vec<ParameterDoc>)
        ensures
            r@.len() == 2,
            r@[0].id@ == "param_assets_source"@,
            r@[0].is_required,
            r@[1].id@ == "param_max_concurrent"@,
            !r@[1].is_required,
    {
        let mut r: Vec<ParameterDoc> = Vec::new();
        r.push(
            ParameterDoc {
                id: String::from_str("param_assets_source"),
                command_id: String::from_str("cmd_sync"),
                name: String::from_str("assets-source"),
                description: String::from_str("Source URL or path for assets JSON"),
                data_type: String::from_str("string"),
                default_value: None,
                role: String::from_str("all"),
                is_required: true,
            },
        );
        r.push(
            ParameterDoc {
                id: String::from_str("param_max_concurrent"),
                command_id: String::from_str("cmd_sync"),
                name: String::from_str("max-concurrent"),
                description: String::from_str("Maximum number of concurrent downloads"),
                data_type: String::from_str("integer"),
                default_value: Some(String::from_str("5")),
                role: String::from_str("all"),
                is_required: false,
            },
        );
        r
    }

    /// The configuration-setting table.
    pub fn configs() -> (r: Vec<ConfigDoc>)
        ensures
            r@.len() == 2,
            r@[0].id@ == "cfg_base_url"@,
            r@[0].category@ == "Network"@,
            r@[1].id@ == "cfg_max_concurrent"@,
            r@[1].category@ == "Download"@,
    {
        let mut r: Vec<ConfigDoc> = Vec::new();
        r.push(
            ConfigDoc {
                id: String::from_str("cfg_base_url"),
                name: String::from_str("base_url"),
                description: String::from_str("Base URL for resolving relative paths"),
                data_type: String::from_str("string"),
                default_value: None,
                category: String::from_str("Network"),
                role: String::from_str("all"),
            },
        );
        r.push(
            ConfigDoc {
                id: String::from_str("cfg_max_concurrent"),
                name: String::from_str("max_concurrent"),
                description: String::from_str("Maximum concurrent downloads"),
                data_type: String::from_str("integer"),
                default_value: Some(String::from_str("5")),
                category: String::from_str("Download"),
                role: String::from_str("all"),
            },
        );
        r
    }
}

} // verus!
