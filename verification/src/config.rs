//! The persisted data model: the application configuration document and its
//! entries, together with their mathematical views and the default document.

use vstd::prelude::*;

verus! {

/// One shell command of a script: an identifier, a display name and the
/// command string itself.
#[derive(Debug)]
pub struct CommandConfig {
    pub id: String,
    pub name: String,
    pub command: String,
}

/// A persisted script: a named group of commands bound to a working
/// directory. `command` is the legacy single-command field, read for
/// compatibility and never written back out.
#[derive(Debug)]
pub struct ScriptConfig {
    pub id: String,
    pub name: String,
    pub icon: Option<String>,
    pub working_dir: String,
    pub commands: Vec<CommandConfig>,
    pub command: Option<String>,
    pub description: Option<String>,
    pub created_at: i64,
    pub updated_at: i64,
}

/// A persisted reusable text fragment with usage tracking.
#[derive(Debug)]
pub struct SnippetConfig {
    pub id: String,
    pub title: String,
    pub content: String,
    pub category: Option<String>,
    pub description: Option<String>,
    pub created_at: i64,
    pub updated_at: i64,
    pub usage_count: i32,
}

/// The root of the persisted document.
#[derive(Debug)]
pub struct AppConfig {
    pub theme: String,
    pub scripts: Vec<ScriptConfig>,
    pub snippets: Vec<SnippetConfig>,
    pub version: String,
}

/// Mathematical view of a [`CommandConfig`].
#[verifier::ext_equal]
pub struct CommandConfigV {
    pub id: Seq<char>,
    pub name: Seq<char>,
    pub command: Seq<char>,
}

/// Mathematical view of a [`ScriptConfig`].
#[verifier::ext_equal]
pub struct ScriptConfigV {
    pub id: Seq<char>,
    pub name: Seq<char>,
    pub icon: Option<Seq<char>>,
    pub working_dir: Seq<char>,
    pub commands: Seq<CommandConfigV>,
    pub command: Option<Seq<char>>,
    pub description: Option<Seq<char>>,
    pub created_at: int,
    pub updated_at: int,
}

/// Mathematical view of a [`SnippetConfig`].
#[verifier::ext_equal]
pub struct SnippetConfigV {
    pub id: Seq<char>,
    pub title: Seq<char>,
    pub content: Seq<char>,
    pub category: Option<Seq<char>>,
    pub description: Option<Seq<char>>,
    pub created_at: int,
    pub updated_at: int,
    pub usage_count: int,
}

/// Mathematical view of an [`AppConfig`].
#[verifier::ext_equal]
pub struct AppConfigV {
    pub theme: Seq<char>,
    pub scripts: Seq<ScriptConfigV>,
    pub snippets: Seq<SnippetConfigV>,
    pub version: Seq<char>,
}

pub open spec fn view_opt_string(o: Option<String>) -> Option<Seq<char>> {
    match o {
        Option::Some(s) => Option::Some(s@),
        Option::None => Option::None,
    }
}

impl View for CommandConfig {
    type V = CommandConfigV;

    open spec fn view(&self) -> CommandConfigV {
        CommandConfigV { id: self.id@, name: self.name@, command: self.command@ }
    }
}

impl View for ScriptConfig {
    type V = ScriptConfigV;

    open spec fn view(&self) -> ScriptConfigV {
        ScriptConfigV {
            id: self.id@,
            name: self.name@,
            icon: view_opt_string(self.icon),
            working_dir: self.working_dir@,
            commands: self.commands@.map_values(|c: CommandConfig| c@),
            command: view_opt_string(self.command),
            description: view_opt_string(self.description),
            created_at: self.created_at as int,
            updated_at: self.updated_at as int,
        }
    }
}

impl View for SnippetConfig {
    type V = SnippetConfigV;

    open spec fn view(&self) -> SnippetConfigV {
        SnippetConfigV {
            id: self.id@,
            title: self.title@,
            content: self.content@,
            category: view_opt_string(self.category),
            description: view_opt_string(self.description),
            created_at: self.created_at as int,
            updated_at: self.updated_at as int,
            usage_count: self.usage_count as int,
        }
    }
}

impl View for AppConfig {
    type V = AppConfigV;

    open spec fn view(&self) -> AppConfigV {
        AppConfigV {
            theme: self.theme@,
            scripts: self.scripts@.map_values(|s: ScriptConfig| s@),
            snippets: self.snippets@.map_values(|s: SnippetConfig| s@),
            version: self.version@,
        }
    }
}

/// The document that stands in when no configuration file exists yet.
pub open spec fn spec_default_config() -> AppConfigV {
    AppConfigV {
        theme: "dark"@,
        scripts: Seq::empty(),
        snippets: Seq::empty(),
        version: "1.0.0"@,
    }
}

/// Builds the default configuration: dark theme, no scripts, no snippets,
/// version tag "1.0.0".
pub fn default_config() -> (c: AppConfig)
    ensures
        c@ == spec_default_config(),
{
    let c = AppConfig {
        theme: String::from_str("dark"),
        scripts: Vec::new(),
        snippets: Vec::new(),
        version: String::from_str("1.0.0"),
    };
    proof {
        assert(c@ =~= spec_default_config());
    }
    c
}

} // verus!
