//! Loading and saving the configuration document, given its file content
//! as a plain value. The caller resolves the path, reads and writes the
//! file; this module owns the default-value policy, parsing, schema
//! checking, migration and rendering.

use vstd::prelude::*;
use crate::config::{AppConfig, spec_default_config, default_config};
use crate::extract::{config_from_json, spec_config_of_json};
use crate::jsonparse::{jview, parse_json, spec_parse_json};
use crate::jsontext::{config_to_json, json_of_config};
use crate::migrate::{migrate_config, spec_migrate_config, lemma_migrate_config_idempotent};

verus! {

/// Why a configuration document could not be loaded.
#[derive(Debug, PartialEq, Eq, Structural)]
pub enum LoadError {
    /// The text is not well-formed JSON; the position is where parsing
    /// stopped.
    Syntax(usize),
    /// The text is well-formed JSON that does not match the document
    /// schema.
    Schema,
}

/// Loads a configuration from the content of its file, or from nothing.
///
/// A missing file (`None`) yields the default document and never an error.
/// Present content is fixed by the text alone: a parse failure is a syntax
/// error at the failing position, a well-formed document that misses the
/// schema is a schema error — malformed content is never silently replaced
/// by the default — and a conforming document is returned with every
/// script entry migrated, so no loaded script carries a legacy command
/// value.
pub fn load_config_from(content: Option<&str>) -> (r: Result<AppConfig, LoadError>)
    ensures
        (content is None ==> (r matches Ok(c) && c@ == spec_default_config())),
        (content matches Some(t) ==> (match spec_parse_json(t@) {
            Result::Err(p) => r matches Err(e) && (e matches LoadError::Syntax(q) && q as int
                == p),
            Result::Ok(jv) => (match spec_config_of_json(jv) {
                Option::None => r matches Err(e) && e is Schema,
                Option::Some(parsed) => r matches Ok(c) && c@ == spec_migrate_config(parsed),
            }),
        })),
        (r matches Ok(c) ==> forall|k: int|
            0 <= k < c@.scripts.len() ==> (#[trigger] c@.scripts[k].command) is None),
        (r is Err ==> content is Some),
{
    match content {
        Option::None => {
            let c = default_config();
            proof {
                assert(forall|k: int|
                    0 <= k < c@.scripts.len() ==> (#[trigger] c@.scripts[k].command) is None);
            }
            Result::Ok(c)
        },
        Option::Some(text) => {
            match parse_json(text) {
                Result::Err(p) => Result::Err(LoadError::Syntax(p)),
                Result::Ok(j) => {
                    match config_from_json(&j) {
                        Option::None => Result::Err(LoadError::Schema),
                        Option::Some(mut c) => {
                            let ghost parsed = c@;
                            migrate_config(&mut c);
                            proof {
                                assert(spec_config_of_json(jview(j)) == Option::Some(parsed));
                                assert(c@ == spec_migrate_config(parsed));
                            }
                            Result::Ok(c)
                        },
                    }
                },
            }
        },
    }
}

/// Renders a configuration for persisting: the exact pretty JSON text that
/// [`json_of_config`] describes.
pub fn save_config_string(config: &AppConfig) -> (r: String)
    ensures
        r@ == json_of_config(config@),
{
    config_to_json(config)
}

/// A document that went through migration renders stably: migrating it
/// again changes nothing, so the text saved after a further
/// parse-and-migrate of the same document is byte-identical.
pub proof fn lemma_resave_stable(parsed: crate::config::AppConfigV)
    ensures
        json_of_config(spec_migrate_config(spec_migrate_config(parsed)))
            == json_of_config(spec_migrate_config(parsed)),
{
    lemma_migrate_config_idempotent(parsed);
}

} // verus!
