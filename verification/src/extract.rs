//! Interpretation of a parsed JSON tree as a configuration document. The
//! mapping is specified exactly: which trees yield a document and which are
//! schema mismatches is pinned down by [`spec_config_of_json`].
//!
//! Rules, matching the persisted schema: required fields must appear
//! exactly once with the right type; optional string fields may be absent
//! or null; the `commands` and `snippets` lists default to empty when
//! absent; unknown keys are ignored; a duplicated known key is a mismatch.

use vstd::prelude::*;
use crate::config::{AppConfig, AppConfigV, CommandConfig, CommandConfigV, ScriptConfig,
    ScriptConfigV, SnippetConfig, SnippetConfigV};
use crate::jsonparse::{arr_view, entries_view, jview, lemma_arr_view, lemma_entries_view, Json, JsonV};
use crate::strutil::str_eq;

verus! {

/// The first value bound to `k` among the entries from index `i` on.
pub open spec fn lookup_from(es: Seq<(Seq<char>, JsonV)>, k: Seq<char>, i: int) -> Option<JsonV>
    decreases es.len() - i,
{
    if i < 0 || i >= es.len() {
        Option::None
    } else if es[i].0 == k {
        Option::Some(es[i].1)
    } else {
        lookup_from(es, k, i + 1)
    }
}

/// How many entries from index `i` on bind `k`.
pub open spec fn key_count_from(es: Seq<(Seq<char>, JsonV)>, k: Seq<char>, i: int) -> nat
    decreases es.len() - i,
{
    if i < 0 || i >= es.len() {
        0
    } else {
        (if es[i].0 == k { 1nat } else { 0nat }) + key_count_from(es, k, i + 1)
    }
}

/// A required string field: present exactly once, with a string value.
pub open spec fn req_str_field(es: Seq<(Seq<char>, JsonV)>, k: Seq<char>) -> Option<Seq<char>> {
    if key_count_from(es, k, 0) != 1 {
        Option::None
    } else {
        match lookup_from(es, k, 0) {
            Option::Some(JsonV::Str(s)) => Option::Some(s),
            _ => Option::None,
        }
    }
}

/// An optional string field: absent or null both mean no value; anything
/// but a string otherwise is a mismatch. The outer `None` is the mismatch.
pub open spec fn opt_str_field(es: Seq<(Seq<char>, JsonV)>, k: Seq<char>) -> Option<
    Option<Seq<char>>,
> {
    if key_count_from(es, k, 0) == 0 {
        Option::Some(Option::None)
    } else if key_count_from(es, k, 0) != 1 {
        Option::None
    } else {
        match lookup_from(es, k, 0) {
            Option::Some(JsonV::Str(s)) => Option::Some(Option::Some(s)),
            Option::Some(JsonV::Null) => Option::Some(Option::None),
            _ => Option::None,
        }
    }
}

/// A required integer field: present exactly once, with an integer value.
pub open spec fn req_int_field(es: Seq<(Seq<char>, JsonV)>, k: Seq<char>) -> Option<int> {
    if key_count_from(es, k, 0) != 1 {
        Option::None
    } else {
        match lookup_from(es, k, 0) {
            Option::Some(JsonV::Int(v)) => Option::Some(v),
            _ => Option::None,
        }
    }
}

/// One command entry from a JSON tree.
pub open spec fn spec_command_of_json(j: JsonV) -> Option<CommandConfigV> {
    match j {
        JsonV::Obj(es) => {
            match (req_str_field(es, "id"@), req_str_field(es, "name"@), req_str_field(
                es,
                "command"@,
            )) {
                (Option::Some(id), Option::Some(name), Option::Some(command)) => Option::Some(
                    CommandConfigV { id, name, command },
                ),
                _ => Option::None,
            }
        },
        _ => Option::None,
    }
}

/// The command entries of an array's elements from index `i` on.
pub open spec fn spec_commands_of_jsons(elems: Seq<JsonV>, i: int) -> Option<Seq<CommandConfigV>>
    decreases elems.len() - i,
{
    if i < 0 || i >= elems.len() {
        Option::Some(Seq::empty())
    } else {
        match (spec_command_of_json(elems[i]), spec_commands_of_jsons(elems, i + 1)) {
            (Option::Some(c), Option::Some(rest)) => Option::Some(seq![c] + rest),
            _ => Option::None,
        }
    }
}

/// The command-list field of a script: absent means empty, otherwise an
/// array of command objects.
pub open spec fn commands_field(es: Seq<(Seq<char>, JsonV)>, k: Seq<char>) -> Option<
    Seq<CommandConfigV>,
> {
    if key_count_from(es, k, 0) == 0 {
        Option::Some(Seq::empty())
    } else if key_count_from(es, k, 0) != 1 {
        Option::None
    } else {
        match lookup_from(es, k, 0) {
            Option::Some(JsonV::Arr(elems)) => spec_commands_of_jsons(elems, 0),
            _ => Option::None,
        }
    }
}

/// One script entry from a JSON tree. The legacy `command` field is read
/// here when present; migration clears it later.
pub open spec fn spec_script_of_json(j: JsonV) -> Option<ScriptConfigV> {
    match j {
        JsonV::Obj(es) => {
            match (
                req_str_field(es, "id"@),
                req_str_field(es, "name"@),
                opt_str_field(es, "icon"@),
                req_str_field(es, "workingDir"@),
                commands_field(es, "commands"@),
                opt_str_field(es, "command"@),
                opt_str_field(es, "description"@),
                req_int_field(es, "createdAt"@),
                req_int_field(es, "updatedAt"@),
            ) {
                (
                    Option::Some(id),
                    Option::Some(name),
                    Option::Some(icon),
                    Option::Some(working_dir),
                    Option::Some(commands),
                    Option::Some(command),
                    Option::Some(description),
                    Option::Some(created_at),
                    Option::Some(updated_at),
                ) => Option::Some(
                    ScriptConfigV {
                        id,
                        name,
                        icon,
                        working_dir,
                        commands,
                        command,
                        description,
                        created_at,
                        updated_at,
                    },
                ),
                _ => Option::None,
            }
        },
        _ => Option::None,
    }
}

/// The script entries of an array's elements from index `i` on.
pub open spec fn spec_scripts_of_jsons(elems: Seq<JsonV>, i: int) -> Option<Seq<ScriptConfigV>>
    decreases elems.len() - i,
{
    if i < 0 || i >= elems.len() {
        Option::Some(Seq::empty())
    } else {
        match (spec_script_of_json(elems[i]), spec_scripts_of_jsons(elems, i + 1)) {
            (Option::Some(s), Option::Some(rest)) => Option::Some(seq![s] + rest),
            _ => Option::None,
        }
    }
}

/// One snippet entry from a JSON tree. The usage counter must fit the
/// 32-bit counter field.
pub open spec fn spec_snippet_of_json(j: JsonV) -> Option<SnippetConfigV> {
    match j {
        JsonV::Obj(es) => {
            match (
                req_str_field(es, "id"@),
                req_str_field(es, "title"@),
                req_str_field(es, "content"@),
                opt_str_field(es, "category"@),
                opt_str_field(es, "description"@),
                req_int_field(es, "createdAt"@),
                req_int_field(es, "updatedAt"@),
                req_int_field(es, "usageCount"@),
            ) {
                (
                    Option::Some(id),
                    Option::Some(title),
                    Option::Some(content),
                    Option::Some(category),
                    Option::Some(description),
                    Option::Some(created_at),
                    Option::Some(updated_at),
                    Option::Some(usage_count),
                ) => if -2147483648 <= usage_count <= 2147483647 {
                    Option::Some(
                        SnippetConfigV {
                            id,
                            title,
                            content,
                            category,
                            description,
                            created_at,
                            updated_at,
                            usage_count,
                        },
                    )
                } else {
                    Option::None
                },
                _ => Option::None,
            }
        },
        _ => Option::None,
    }
}

/// The snippet entries of an array's elements from index `i` on.
pub open spec fn spec_snippets_of_jsons(elems: Seq<JsonV>, i: int) -> Option<Seq<SnippetConfigV>>
    decreases elems.len() - i,
{
    if i < 0 || i >= elems.len() {
        Option::Some(Seq::empty())
    } else {
        match (spec_snippet_of_json(elems[i]), spec_snippets_of_jsons(elems, i + 1)) {
            (Option::Some(s), Option::Some(rest)) => Option::Some(seq![s] + rest),
            _ => Option::None,
        }
    }
}

/// The required script array of the root object.
pub open spec fn scripts_field(es: Seq<(Seq<char>, JsonV)>, k: Seq<char>) -> Option<
    Seq<ScriptConfigV>,
> {
    if key_count_from(es, k, 0) != 1 {
        Option::None
    } else {
        match lookup_from(es, k, 0) {
            Option::Some(JsonV::Arr(elems)) => spec_scripts_of_jsons(elems, 0),
            _ => Option::None,
        }
    }
}

/// The snippet array of the root object: absent means empty.
pub open spec fn snippets_field(es: Seq<(Seq<char>, JsonV)>, k: Seq<char>) -> Option<
    Seq<SnippetConfigV>,
> {
    if key_count_from(es, k, 0) == 0 {
        Option::Some(Seq::empty())
    } else if key_count_from(es, k, 0) != 1 {
        Option::None
    } else {
        match lookup_from(es, k, 0) {
            Option::Some(JsonV::Arr(elems)) => spec_snippets_of_jsons(elems, 0),
            _ => Option::None,
        }
    }
}

/// The whole document from a JSON tree: `theme`, `scripts` and `version`
/// are required, `snippets` defaults to empty.
pub open spec fn spec_config_of_json(j: JsonV) -> Option<AppConfigV> {
    match j {
        JsonV::Obj(es) => {
            match (
                req_str_field(es, "theme"@),
                scripts_field(es, "scripts"@),
                snippets_field(es, "snippets"@),
                req_str_field(es, "version"@),
            ) {
                (
                    Option::Some(theme),
                    Option::Some(scripts),
                    Option::Some(snippets),
                    Option::Some(version),
                ) => Option::Some(AppConfigV { theme, scripts, snippets, version }),
                _ => Option::None,
            }
        },
        _ => Option::None,
    }
}

/// Scans the entries from `i` on: the first value bound to `key` and the
/// number of bindings.
fn find_from<'a>(es: &'a Vec<(String, Json)>, key: &str, i: usize) -> (r: (
    Option<&'a Json>,
    usize,
))
    requires
        i <= es.len(),
    ensures
        (r.0 matches Some(v) ==> lookup_from(entries_view(es@), key@, i as int) == Option::Some(
            jview(*v),
        )),
        (r.0 is None) == (lookup_from(entries_view(es@), key@, i as int) is None),
        r.1 == key_count_from(entries_view(es@), key@, i as int),
        r.1 <= es@.len() - i,
    decreases es.len() - i,
{
    proof {
        lemma_entries_view(es@);
    }
    if i >= es.len() {
        (Option::None, 0)
    } else {
        let (rest, cnt) = find_from(es, key, i + 1);
        if str_eq(es[i].0.as_str(), key) {
            (Option::Some(&es[i].1), cnt + 1)
        } else {
            (rest, cnt)
        }
    }
}

/// Reads a required string field as [`req_str_field`] describes it.
fn get_req_str(es: &Vec<(String, Json)>, key: &str) -> (r: Option<String>)
    ensures
        (match req_str_field(entries_view(es@), key@) {
            Option::Some(s) => r matches Some(v) && v@ == s,
            Option::None => r is None,
        }),
{
    let (f, cnt) = find_from(es, key, 0);
    if cnt != 1 {
        return Option::None;
    }
    match f {
        Option::Some(Json::Str(s)) => Option::Some(s.clone()),
        _ => Option::None,
    }
}

/// Reads an optional string field as [`opt_str_field`] describes it.
fn get_opt_str(es: &Vec<(String, Json)>, key: &str) -> (r: Option<Option<String>>)
    ensures
        (match opt_str_field(entries_view(es@), key@) {
            Option::Some(Option::Some(s)) => r matches Some(v) && (v matches Some(w) && w@ == s),
            Option::Some(Option::None) => r matches Some(v) && v is None,
            Option::None => r is None,
        }),
{
    let (f, cnt) = find_from(es, key, 0);
    if cnt == 0 {
        return Option::Some(Option::None);
    }
    if cnt != 1 {
        return Option::None;
    }
    match f {
        Option::Some(Json::Str(s)) => Option::Some(Option::Some(s.clone())),
        Option::Some(Json::Null) => Option::Some(Option::None),
        _ => Option::None,
    }
}

/// Reads a required integer field as [`req_int_field`] describes it.
fn get_req_int(es: &Vec<(String, Json)>, key: &str) -> (r: Option<i64>)
    ensures
        (match req_int_field(entries_view(es@), key@) {
            Option::Some(v) => r matches Some(w) && w as int == v,
            Option::None => r is None,
        }),
{
    let (f, cnt) = find_from(es, key, 0);
    if cnt != 1 {
        return Option::None;
    }
    match f {
        Option::Some(Json::Int(v)) => Option::Some(*v),
        _ => Option::None,
    }
}

/// Interprets one command entry, as [`spec_command_of_json`] describes it.
fn command_from_json(j: &Json) -> (r: Option<CommandConfig>)
    ensures
        (match spec_command_of_json(jview(*j)) {
            Option::Some(c) => r matches Some(v) && v@ == c,
            Option::None => r is None,
        }),
{
    match j {
        Json::Obj(es) => {
            let id = match get_req_str(es, "id") {
                Option::Some(s) => s,
                Option::None => { return Option::None; },
            };
            let name = match get_req_str(es, "name") {
                Option::Some(s) => s,
                Option::None => { return Option::None; },
            };
            let command = match get_req_str(es, "command") {
                Option::Some(s) => s,
                Option::None => { return Option::None; },
            };
            Option::Some(CommandConfig { id, name, command })
        },
        _ => Option::None,
    }
}

/// Interprets the elements of a command array from index `i` on.
fn commands_from_jsons(elems: &Vec<Json>, i: usize) -> (r: Option<Vec<CommandConfig>>)
    requires
        i <= elems.len(),
    ensures
        (match spec_commands_of_jsons(arr_view(elems@), i as int) {
            Option::Some(cs) => r matches Some(v) && v@.map_values(|c: CommandConfig| c@) == cs,
            Option::None => r is None,
        }),
    decreases elems.len() - i,
{
    proof {
        lemma_arr_view(elems@);
    }
    if i >= elems.len() {
        let empty: Vec<CommandConfig> = Vec::new();
        proof {
            assert(empty@.map_values(|c: CommandConfig| c@) =~= Seq::<CommandConfigV>::empty());
        }
        Option::Some(empty)
    } else {
        let c = match command_from_json(&elems[i]) {
            Option::Some(c) => c,
            Option::None => { return Option::None; },
        };
        let mut rest = match commands_from_jsons(elems, i + 1) {
            Option::Some(v) => v,
            Option::None => { return Option::None; },
        };
        rest.insert(0, c);
        proof {
            let f = |c: CommandConfig| c@;
            assert(rest@.map_values(f) =~= seq![c@] + rest@.skip(1).map_values(f));
        }
        Option::Some(rest)
    }
}

/// Interprets one script entry, as [`spec_script_of_json`] describes it.
fn script_from_json(j: &Json) -> (r: Option<ScriptConfig>)
    ensures
        (match spec_script_of_json(jview(*j)) {
            Option::Some(s) => r matches Some(v) && v@ == s,
            Option::None => r is None,
        }),
{
    match j {
        Json::Obj(es) => {
            let id = match get_req_str(es, "id") {
                Option::Some(s) => s,
                Option::None => { return Option::None; },
            };
            let name = match get_req_str(es, "name") {
                Option::Some(s) => s,
                Option::None => { return Option::None; },
            };
            let icon = match get_opt_str(es, "icon") {
                Option::Some(o) => o,
                Option::None => { return Option::None; },
            };
            let working_dir = match get_req_str(es, "workingDir") {
                Option::Some(s) => s,
                Option::None => { return Option::None; },
            };
            let (cf, ccnt) = find_from(es, "commands", 0);
            let commands: Vec<CommandConfig> = if ccnt == 0 {
                Vec::new()
            } else if ccnt != 1 {
                return Option::None;
            } else {
                match cf {
                    Option::Some(Json::Arr(elems)) => {
                        match commands_from_jsons(elems, 0) {
                            Option::Some(v) => v,
                            Option::None => { return Option::None; },
                        }
                    },
                    _ => { return Option::None; },
                }
            };
            let command = match get_opt_str(es, "command") {
                Option::Some(o) => o,
                Option::None => { return Option::None; },
            };
            let description = match get_opt_str(es, "description") {
                Option::Some(o) => o,
                Option::None => { return Option::None; },
            };
            let created_at = match get_req_int(es, "createdAt") {
                Option::Some(v) => v,
                Option::None => { return Option::None; },
            };
            let updated_at = match get_req_int(es, "updatedAt") {
                Option::Some(v) => v,
                Option::None => { return Option::None; },
            };
            let s = ScriptConfig {
                id,
                name,
                icon,
                working_dir,
                commands,
                command,
                description,
                created_at,
                updated_at,
            };
            proof {
                assert(s@ =~= spec_script_of_json(jview(*j)).unwrap());
            }
            Option::Some(s)
        },
        _ => Option::None,
    }
}

/// Interprets the elements of a script array from index `i` on.
fn scripts_from_jsons(elems: &Vec<Json>, i: usize) -> (r: Option<Vec<ScriptConfig>>)
    requires
        i <= elems.len(),
    ensures
        (match spec_scripts_of_jsons(arr_view(elems@), i as int) {
            Option::Some(ss) => r matches Some(v) && v@.map_values(|s: ScriptConfig| s@) == ss,
            Option::None => r is None,
        }),
    decreases elems.len() - i,
{
    proof {
        lemma_arr_view(elems@);
    }
    if i >= elems.len() {
        let empty: Vec<ScriptConfig> = Vec::new();
        proof {
            assert(empty@.map_values(|s: ScriptConfig| s@) =~= Seq::<ScriptConfigV>::empty());
        }
        Option::Some(empty)
    } else {
        let s = match script_from_json(&elems[i]) {
            Option::Some(s) => s,
            Option::None => { return Option::None; },
        };
        let mut rest = match scripts_from_jsons(elems, i + 1) {
            Option::Some(v) => v,
            Option::None => { return Option::None; },
        };
        rest.insert(0, s);
        proof {
            let f = |s: ScriptConfig| s@;
            assert(rest@.map_values(f) =~= seq![s@] + rest@.skip(1).map_values(f));
        }
        Option::Some(rest)
    }
}

/// Interprets one snippet entry, as [`spec_snippet_of_json`] describes it.
fn snippet_from_json(j: &Json) -> (r: Option<SnippetConfig>)
    ensures
        (match spec_snippet_of_json(jview(*j)) {
            Option::Some(s) => r matches Some(v) && v@ == s,
            Option::None => r is None,
        }),
{
    match j {
        Json::Obj(es) => {
            let id = match get_req_str(es, "id") {
                Option::Some(s) => s,
                Option::None => { return Option::None; },
            };
            let title = match get_req_str(es, "title") {
                Option::Some(s) => s,
                Option::None => { return Option::None; },
            };
            let content = match get_req_str(es, "content") {
                Option::Some(s) => s,
                Option::None => { return Option::None; },
            };
            let category = match get_opt_str(es, "category") {
                Option::Some(o) => o,
                Option::None => { return Option::None; },
            };
            let description = match get_opt_str(es, "description") {
                Option::Some(o) => o,
                Option::None => { return Option::None; },
            };
            let created_at = match get_req_int(es, "createdAt") {
                Option::Some(v) => v,
                Option::None => { return Option::None; },
            };
            let updated_at = match get_req_int(es, "updatedAt") {
                Option::Some(v) => v,
                Option::None => { return Option::None; },
            };
            let usage_wide = match get_req_int(es, "usageCount") {
                Option::Some(v) => v,
                Option::None => { return Option::None; },
            };
            if usage_wide < -2147483648i64 || usage_wide > 2147483647i64 {
                return Option::None;
            }
            let s = SnippetConfig {
                id,
                title,
                content,
                category,
                description,
                created_at,
                updated_at,
                usage_count: usage_wide as i32,
            };
            proof {
                assert(s@ =~= spec_snippet_of_json(jview(*j)).unwrap());
            }
            Option::Some(s)
        },
        _ => Option::None,
    }
}

/// Interprets the elements of a snippet array from index `i` on.
fn snippets_from_jsons(elems: &Vec<Json>, i: usize) -> (r: Option<Vec<SnippetConfig>>)
    requires
        i <= elems.len(),
    ensures
        (match spec_snippets_of_jsons(arr_view(elems@), i as int) {
            Option::Some(ss) => r matches Some(v) && v@.map_values(|s: SnippetConfig| s@) == ss,
            Option::None => r is None,
        }),
    decreases elems.len() - i,
{
    proof {
        lemma_arr_view(elems@);
    }
    if i >= elems.len() {
        let empty: Vec<SnippetConfig> = Vec::new();
        proof {
            assert(empty@.map_values(|s: SnippetConfig| s@) =~= Seq::<SnippetConfigV>::empty());
        }
        Option::Some(empty)
    } else {
        let s = match snippet_from_json(&elems[i]) {
            Option::Some(s) => s,
            Option::None => { return Option::None; },
        };
        let mut rest = match snippets_from_jsons(elems, i + 1) {
            Option::Some(v) => v,
            Option::None => { return Option::None; },
        };
        rest.insert(0, s);
        proof {
            let f = |s: SnippetConfig| s@;
            assert(rest@.map_values(f) =~= seq![s@] + rest@.skip(1).map_values(f));
        }
        Option::Some(rest)
    }
}

/// Interprets a parsed document as a configuration, exactly as
/// [`spec_config_of_json`] describes it: `Some` on a schema-conforming
/// tree, `None` on a mismatch.
pub fn config_from_json(j: &Json) -> (r: Option<AppConfig>)
    ensures
        (match spec_config_of_json(jview(*j)) {
            Option::Some(c) => r matches Some(v) && v@ == c,
            Option::None => r is None,
        }),
{
    match j {
        Json::Obj(es) => {
            let theme = match get_req_str(es, "theme") {
                Option::Some(s) => s,
                Option::None => { return Option::None; },
            };
            let (sf, scnt) = find_from(es, "scripts", 0);
            if scnt != 1 {
                return Option::None;
            }
            let scripts: Vec<ScriptConfig> = match sf {
                Option::Some(Json::Arr(elems)) => {
                    match scripts_from_jsons(elems, 0) {
                        Option::Some(v) => v,
                        Option::None => { return Option::None; },
                    }
                },
                _ => { return Option::None; },
            };
            let (nf, ncnt) = find_from(es, "snippets", 0);
            let snippets: Vec<SnippetConfig> = if ncnt == 0 {
                Vec::new()
            } else if ncnt != 1 {
                return Option::None;
            } else {
                match nf {
                    Option::Some(Json::Arr(elems)) => {
                        match snippets_from_jsons(elems, 0) {
                            Option::Some(v) => v,
                            Option::None => { return Option::None; },
                        }
                    },
                    _ => { return Option::None; },
                }
            };
            let version = match get_req_str(es, "version") {
                Option::Some(s) => s,
                Option::None => { return Option::None; },
            };
            let c = AppConfig { theme, scripts, snippets, version };
            proof {
                assert(c@ =~= spec_config_of_json(jview(*j)).unwrap());
            }
            Option::Some(c)
        },
        _ => Option::None,
    }
}

} // verus!
