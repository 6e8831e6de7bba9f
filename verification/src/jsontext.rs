//! Pretty serialization of the configuration document. The rendering is
//! specified exactly, character for character: two-space indentation, keys
//! in declaration order, strings escaped, the legacy command field never
//! written.

use vstd::prelude::*;
use crate::config::{AppConfig, AppConfigV, CommandConfig, CommandConfigV, ScriptConfig,
    ScriptConfigV, SnippetConfig, SnippetConfigV};
use crate::numfmt::{dec_of_int, push_dec_i64};
use crate::strutil::{chars_vec, push_char};

verus! {

/// The lower-case hexadecimal digit character for a value below sixteen.
pub open spec fn hex_digit(d: nat) -> char
    recommends
        d < 16,
{
    if d == 0 { '0' }
    else if d == 1 { '1' }
    else if d == 2 { '2' }
    else if d == 3 { '3' }
    else if d == 4 { '4' }
    else if d == 5 { '5' }
    else if d == 6 { '6' }
    else if d == 7 { '7' }
    else if d == 8 { '8' }
    else if d == 9 { '9' }
    else if d == 10 { 'a' }
    else if d == 11 { 'b' }
    else if d == 12 { 'c' }
    else if d == 13 { 'd' }
    else if d == 14 { 'e' }
    else { 'f' }
}

/// The escape sequence a character contributes inside a JSON string:
/// quote and backslash are escaped, the named control characters use their
/// short escapes, the remaining control characters use a `\u00..` escape,
/// and every other character stands for itself.
pub open spec fn esc_char(c: char) -> Seq<char> {
    if c == '"' { "\\\""@ }
    else if c == '\\' { "\\\\"@ }
    else if c == '\u{08}' { "\\b"@ }
    else if c == '\u{0C}' { "\\f"@ }
    else if c == '\n' { "\\n"@ }
    else if c == '\r' { "\\r"@ }
    else if c == '\t' { "\\t"@ }
    else if (c as u32) < 0x20 {
        "\\u00"@ + seq![hex_digit((c as u32) as nat / 16), hex_digit((c as u32) as nat % 16)]
    } else {
        seq![c]
    }
}

/// The escaped rendering of the characters of `s` from index `i` on.
pub open spec fn esc_from(s: Seq<char>, i: int) -> Seq<char>
    decreases s.len() - i,
{
    if i < 0 || i >= s.len() {
        Seq::empty()
    } else {
        esc_char(s[i]) + esc_from(s, i + 1)
    }
}

/// The rendering of a JSON string: the escaped content between quotes.
pub open spec fn json_string(s: Seq<char>) -> Seq<char> {
    "\""@ + esc_from(s, 0) + "\""@
}

/// The rendering of an optional string field: a JSON string or `null`.
pub open spec fn json_opt_string(o: Option<Seq<char>>) -> Seq<char> {
    match o {
        Option::Some(s) => json_string(s),
        Option::None => "null"@,
    }
}

/// Two spaces per indentation level.
pub open spec fn ind(n: nat) -> Seq<char>
    decreases n,
{
    if n == 0 {
        Seq::empty()
    } else {
        ind((n - 1) as nat) + "  "@
    }
}

/// An object's opening brace and first key-value pair, the pair indented to
/// level `n`. `key` includes its quotes and the separating colon.
pub open spec fn obj_open(n: nat, key: Seq<char>, val: Seq<char>) -> Seq<char> {
    "{\n"@ + ind(n) + key + val
}

/// A further key-value pair of an object, preceded by the separating comma
/// and newline, indented to level `n`.
pub open spec fn fld(n: nat, key: Seq<char>, val: Seq<char>) -> Seq<char> {
    ",\n"@ + ind(n) + key + val
}

/// An object's closing brace on its own line at indentation level `n`.
pub open spec fn obj_close(n: nat) -> Seq<char> {
    "\n"@ + ind(n) + "}"@
}

/// The rendering of one command entry as an object at indentation level `n`.
#[verifier::opaque]
pub open spec fn json_of_command(c: CommandConfigV, n: nat) -> Seq<char> {
    obj_open(n + 1, "\"id\": "@, json_string(c.id))
    + fld(n + 1, "\"name\": "@, json_string(c.name))
    + fld(n + 1, "\"command\": "@, json_string(c.command))
    + obj_close(n)
}

/// The renderings of the command entries from index `i` on, each on its own
/// line one level deeper than the surrounding array.
pub open spec fn command_items(cs: Seq<CommandConfigV>, i: int, n: nat) -> Seq<char>
    decreases cs.len() - i,
{
    if i < 0 || i >= cs.len() {
        Seq::empty()
    } else {
        (if i == 0 { "\n"@ } else { ",\n"@ }) + ind(n + 1) + json_of_command(cs[i], n + 1)
            + command_items(cs, i + 1, n)
    }
}

/// The rendering of a command array at indentation level `n`.
pub open spec fn json_of_commands(cs: Seq<CommandConfigV>, n: nat) -> Seq<char> {
    if cs.len() == 0 {
        "[]"@
    } else {
        "["@ + command_items(cs, 0, n) + "\n"@ + ind(n) + "]"@
    }
}

/// The rendering of one script entry as an object at indentation level `n`.
/// The legacy command field has no key here: it is never serialized.
#[verifier::opaque]
pub open spec fn json_of_script(s: ScriptConfigV, n: nat) -> Seq<char> {
    obj_open(n + 1, "\"id\": "@, json_string(s.id))
    + fld(n + 1, "\"name\": "@, json_string(s.name))
    + fld(n + 1, "\"icon\": "@, json_opt_string(s.icon))
    + fld(n + 1, "\"workingDir\": "@, json_string(s.working_dir))
    + fld(n + 1, "\"commands\": "@, json_of_commands(s.commands, n + 1))
    + fld(n + 1, "\"description\": "@, json_opt_string(s.description))
    + fld(n + 1, "\"createdAt\": "@, dec_of_int(s.created_at))
    + fld(n + 1, "\"updatedAt\": "@, dec_of_int(s.updated_at))
    + obj_close(n)
}

/// The renderings of the script entries from index `i` on.
pub open spec fn script_items(ss: Seq<ScriptConfigV>, i: int, n: nat) -> Seq<char>
    decreases ss.len() - i,
{
    if i < 0 || i >= ss.len() {
        Seq::empty()
    } else {
        (if i == 0 { "\n"@ } else { ",\n"@ }) + ind(n + 1) + json_of_script(ss[i], n + 1)
            + script_items(ss, i + 1, n)
    }
}

/// The rendering of the script array at indentation level `n`.
pub open spec fn json_of_scripts(ss: Seq<ScriptConfigV>, n: nat) -> Seq<char> {
    if ss.len() == 0 {
        "[]"@
    } else {
        "["@ + script_items(ss, 0, n) + "\n"@ + ind(n) + "]"@
    }
}

/// The rendering of one snippet entry as an object at indentation level `n`.
#[verifier::opaque]
pub open spec fn json_of_snippet(s: SnippetConfigV, n: nat) -> Seq<char> {
    obj_open(n + 1, "\"id\": "@, json_string(s.id))
    + fld(n + 1, "\"title\": "@, json_string(s.title))
    + fld(n + 1, "\"content\": "@, json_string(s.content))
    + fld(n + 1, "\"category\": "@, json_opt_string(s.category))
    + fld(n + 1, "\"description\": "@, json_opt_string(s.description))
    + fld(n + 1, "\"createdAt\": "@, dec_of_int(s.created_at))
    + fld(n + 1, "\"updatedAt\": "@, dec_of_int(s.updated_at))
    + fld(n + 1, "\"usageCount\": "@, dec_of_int(s.usage_count))
    + obj_close(n)
}

/// The renderings of the snippet entries from index `i` on.
pub open spec fn snippet_items(ss: Seq<SnippetConfigV>, i: int, n: nat) -> Seq<char>
    decreases ss.len() - i,
{
    if i < 0 || i >= ss.len() {
        Seq::empty()
    } else {
        (if i == 0 { "\n"@ } else { ",\n"@ }) + ind(n + 1) + json_of_snippet(ss[i], n + 1)
            + snippet_items(ss, i + 1, n)
    }
}

/// The rendering of the snippet array at indentation level `n`.
pub open spec fn json_of_snippets(ss: Seq<SnippetConfigV>, n: nat) -> Seq<char> {
    if ss.len() == 0 {
        "[]"@
    } else {
        "["@ + snippet_items(ss, 0, n) + "\n"@ + ind(n) + "]"@
    }
}

/// The rendering of the whole document: the root object with its four keys
/// in order, no trailing newline.
#[verifier::opaque]
pub open spec fn json_of_config(c: AppConfigV) -> Seq<char> {
    obj_open(1, "\"theme\": "@, json_string(c.theme))
    + fld(1, "\"scripts\": "@, json_of_scripts(c.scripts, 1))
    + fld(1, "\"snippets\": "@, json_of_snippets(c.snippets, 1))
    + fld(1, "\"version\": "@, json_string(c.version))
    + obj_close(0)
}

fn hex_char(d: u32) -> (c: char)
    requires
        d < 16,
    ensures
        c == hex_digit(d as nat),
{
    if d == 0 { '0' }
    else if d == 1 { '1' }
    else if d == 2 { '2' }
    else if d == 3 { '3' }
    else if d == 4 { '4' }
    else if d == 5 { '5' }
    else if d == 6 { '6' }
    else if d == 7 { '7' }
    else if d == 8 { '8' }
    else if d == 9 { '9' }
    else if d == 10 { 'a' }
    else if d == 11 { 'b' }
    else if d == 12 { 'c' }
    else if d == 13 { 'd' }
    else if d == 14 { 'e' }
    else { 'f' }
}

fn push_esc_char(c: char, out: &mut String)
    ensures
        final(out)@ == old(out)@ + esc_char(c),
{
    if c == '"' { out.append("\\\""); }
    else if c == '\\' { out.append("\\\\"); }
    else if c == '\u{08}' { out.append("\\b"); }
    else if c == '\u{0C}' { out.append("\\f"); }
    else if c == '\n' { out.append("\\n"); }
    else if c == '\r' { out.append("\\r"); }
    else if c == '\t' { out.append("\\t"); }
    else if (c as u32) < 0x20 {
        out.append("\\u00");
        let v = c as u32;
        push_char(out, hex_char(v / 16));
        push_char(out, hex_char(v % 16));
        proof {
            assert(final(out)@ =~= old(out)@ + esc_char(c));
        }
    } else {
        push_char(out, c);
    }
}

fn push_escaped_from(cs: &Vec<char>, i: usize, out: &mut String)
    requires
        i <= cs.len(),
    ensures
        final(out)@ == old(out)@ + esc_from(cs@, i as int),
    decreases cs.len() - i,
{
    if i < cs.len() {
        push_esc_char(cs[i], out);
        push_escaped_from(cs, i + 1, out);
        proof {
            assert(final(out)@ =~= old(out)@ + esc_from(cs@, i as int));
        }
    } else {
        proof {
            assert(old(out)@ + esc_from(cs@, i as int) =~= old(out)@);
        }
    }
}

/// Appends the JSON string rendering of `s`, quotes and escapes included.
fn push_json_string(s: &str, out: &mut String)
    ensures
        final(out)@ == old(out)@ + json_string(s@),
{
    out.append("\"");
    let cs = chars_vec(s);
    push_escaped_from(&cs, 0, out);
    out.append("\"");
    proof {
        assert(final(out)@ =~= old(out)@ + json_string(s@));
    }
}

fn push_json_opt_string(o: &Option<String>, out: &mut String)
    ensures
        final(out)@ == old(out)@ + json_opt_string(crate::config::view_opt_string(*o)),
{
    match o {
        Option::Some(s) => { push_json_string(s.as_str(), out); },
        Option::None => { out.append("null"); },
    }
}

fn push_ind(n: usize, out: &mut String)
    requires
        n <= 16,
    ensures
        final(out)@ == old(out)@ + ind(n as nat),
    decreases n,
{
    if n > 0 {
        push_ind(n - 1, out);
        out.append("  ");
    } else {
        proof {
            assert(old(out)@ + ind(0) =~= old(out)@);
        }
    }
}

fn push_obj_open(key: &str, n: usize, out: &mut String)
    requires
        n <= 15,
    ensures
        final(out)@ == old(out)@ + "{\n"@ + ind(n as nat) + key@,
{
    out.append("{\n");
    push_ind(n, out);
    out.append(key);
}

fn push_fld_key(key: &str, n: usize, out: &mut String)
    requires
        n <= 15,
    ensures
        final(out)@ == old(out)@ + ",\n"@ + ind(n as nat) + key@,
{
    out.append(",\n");
    push_ind(n, out);
    out.append(key);
}

fn push_obj_close(n: usize, out: &mut String)
    requires
        n <= 15,
    ensures
        final(out)@ == old(out)@ + obj_close(n as nat),
{
    out.append("\n");
    push_ind(n, out);
    out.append("}");
    proof {
        assert(final(out)@ =~= old(out)@ + obj_close(n as nat));
    }
}

fn push_open_str(key: &str, val: &str, n: usize, out: &mut String)
    requires
        n <= 15,
    ensures
        final(out)@ == old(out)@ + obj_open(n as nat, key@, json_string(val@)),
{
    push_obj_open(key, n, out);
    push_json_string(val, out);
    proof {
        assert(final(out)@ =~= old(out)@ + obj_open(n as nat, key@, json_string(val@)));
    }
}

fn push_fld_str(key: &str, val: &str, n: usize, out: &mut String)
    requires
        n <= 15,
    ensures
        final(out)@ == old(out)@ + fld(n as nat, key@, json_string(val@)),
{
    push_fld_key(key, n, out);
    push_json_string(val, out);
    proof {
        assert(final(out)@ =~= old(out)@ + fld(n as nat, key@, json_string(val@)));
    }
}

fn push_fld_opt(key: &str, val: &Option<String>, n: usize, out: &mut String)
    requires
        n <= 15,
    ensures
        final(out)@ == old(out)@
            + fld(n as nat, key@, json_opt_string(crate::config::view_opt_string(*val))),
{
    push_fld_key(key, n, out);
    push_json_opt_string(val, out);
    proof {
        assert(final(out)@ =~= old(out)@
            + fld(n as nat, key@, json_opt_string(crate::config::view_opt_string(*val))));
    }
}

fn push_fld_int(key: &str, val: i64, n: usize, out: &mut String)
    requires
        n <= 15,
    ensures
        final(out)@ == old(out)@ + fld(n as nat, key@, dec_of_int(val as int)),
{
    push_fld_key(key, n, out);
    push_dec_i64(val, out);
    proof {
        assert(final(out)@ =~= old(out)@ + fld(n as nat, key@, dec_of_int(val as int)));
    }
}

fn push_command_json(c: &CommandConfig, n: usize, out: &mut String)
    requires
        n <= 8,
    ensures
        final(out)@ == old(out)@ + json_of_command(c@, n as nat),
{
    push_open_str("\"id\": ", c.id.as_str(), n + 1, out);
    push_fld_str("\"name\": ", c.name.as_str(), n + 1, out);
    push_fld_str("\"command\": ", c.command.as_str(), n + 1, out);
    push_obj_close(n, out);
    proof {
        reveal(json_of_command);
        assert(final(out)@ =~= old(out)@ + json_of_command(c@, n as nat));
    }
}

fn push_command_items(cs: &Vec<CommandConfig>, i: usize, n: usize, out: &mut String)
    requires
        i <= cs.len(),
        n <= 7,
    ensures
        final(out)@ == old(out)@
            + command_items(cs@.map_values(|c: CommandConfig| c@), i as int, n as nat),
    decreases cs.len() - i,
{
    if i < cs.len() {
        if i == 0 {
            out.append("\n");
        } else {
            out.append(",\n");
        }
        push_ind(n + 1, out);
        push_command_json(&cs[i], n + 1, out);
        push_command_items(cs, i + 1, n, out);
        proof {
            assert(cs@.map_values(|c: CommandConfig| c@)[i as int] == cs@[i as int]@);
            assert(final(out)@ =~= old(out)@
                + command_items(cs@.map_values(|c: CommandConfig| c@), i as int, n as nat));
        }
    } else {
        proof {
            assert(final(out)@ =~= old(out)@
                + command_items(cs@.map_values(|c: CommandConfig| c@), i as int, n as nat));
        }
    }
}

fn push_commands_json(cs: &Vec<CommandConfig>, n: usize, out: &mut String)
    requires
        n <= 7,
    ensures
        final(out)@ == old(out)@
            + json_of_commands(cs@.map_values(|c: CommandConfig| c@), n as nat),
{
    if cs.len() == 0 {
        out.append("[]");
    } else {
        out.append("[");
        push_command_items(cs, 0, n, out);
        out.append("\n");
        push_ind(n, out);
        out.append("]");
        proof {
            assert(final(out)@ =~= old(out)@
                + json_of_commands(cs@.map_values(|c: CommandConfig| c@), n as nat));
        }
    }
}

fn push_fld_cmds(key: &str, cs: &Vec<CommandConfig>, n: usize, out: &mut String)
    requires
        n <= 7,
    ensures
        final(out)@ == old(out)@
            + fld(n as nat, key@, json_of_commands(cs@.map_values(|c: CommandConfig| c@), n as nat)),
{
    push_fld_key(key, n, out);
    push_commands_json(cs, n, out);
    proof {
        assert(final(out)@ =~= old(out)@
            + fld(n as nat, key@, json_of_commands(cs@.map_values(|c: CommandConfig| c@), n as nat)));
    }
}

fn push_script_json(s: &ScriptConfig, n: usize, out: &mut String)
    requires
        n <= 6,
    ensures
        final(out)@ == old(out)@ + json_of_script(s@, n as nat),
{
    push_open_str("\"id\": ", s.id.as_str(), n + 1, out);
    push_fld_str("\"name\": ", s.name.as_str(), n + 1, out);
    push_fld_opt("\"icon\": ", &s.icon, n + 1, out);
    push_fld_str("\"workingDir\": ", s.working_dir.as_str(), n + 1, out);
    push_fld_cmds("\"commands\": ", &s.commands, n + 1, out);
    push_fld_opt("\"description\": ", &s.description, n + 1, out);
    push_fld_int("\"createdAt\": ", s.created_at, n + 1, out);
    push_fld_int("\"updatedAt\": ", s.updated_at, n + 1, out);
    push_obj_close(n, out);
    proof {
        reveal(json_of_script);
        assert(final(out)@ =~= old(out)@ + json_of_script(s@, n as nat));
    }
}

fn push_script_items(ss: &Vec<ScriptConfig>, i: usize, n: usize, out: &mut String)
    requires
        i <= ss.len(),
        n <= 5,
    ensures
        final(out)@ == old(out)@
            + script_items(ss@.map_values(|s: ScriptConfig| s@), i as int, n as nat),
    decreases ss.len() - i,
{
    if i < ss.len() {
        if i == 0 {
            out.append("\n");
        } else {
            out.append(",\n");
        }
        push_ind(n + 1, out);
        push_script_json(&ss[i], n + 1, out);
        push_script_items(ss, i + 1, n, out);
        proof {
            assert(ss@.map_values(|s: ScriptConfig| s@)[i as int] == ss@[i as int]@);
            assert(final(out)@ =~= old(out)@
                + script_items(ss@.map_values(|s: ScriptConfig| s@), i as int, n as nat));
        }
    } else {
        proof {
            assert(final(out)@ =~= old(out)@
                + script_items(ss@.map_values(|s: ScriptConfig| s@), i as int, n as nat));
        }
    }
}

fn push_scripts_json(ss: &Vec<ScriptConfig>, n: usize, out: &mut String)
    requires
        n <= 5,
    ensures
        final(out)@ == old(out)@
            + json_of_scripts(ss@.map_values(|s: ScriptConfig| s@), n as nat),
{
    if ss.len() == 0 {
        out.append("[]");
    } else {
        out.append("[");
        push_script_items(ss, 0, n, out);
        out.append("\n");
        push_ind(n, out);
        out.append("]");
        proof {
            assert(final(out)@ =~= old(out)@
                + json_of_scripts(ss@.map_values(|s: ScriptConfig| s@), n as nat));
        }
    }
}

fn push_snippet_json(s: &SnippetConfig, n: usize, out: &mut String)
    requires
        n <= 6,
    ensures
        final(out)@ == old(out)@ + json_of_snippet(s@, n as nat),
{
    push_open_str("\"id\": ", s.id.as_str(), n + 1, out);
    push_fld_str("\"title\": ", s.title.as_str(), n + 1, out);
    push_fld_str("\"content\": ", s.content.as_str(), n + 1, out);
    push_fld_opt("\"category\": ", &s.category, n + 1, out);
    push_fld_opt("\"description\": ", &s.description, n + 1, out);
    push_fld_int("\"createdAt\": ", s.created_at, n + 1, out);
    push_fld_int("\"updatedAt\": ", s.updated_at, n + 1, out);
    push_fld_int("\"usageCount\": ", s.usage_count as i64, n + 1, out);
    push_obj_close(n, out);
    proof {
        reveal(json_of_snippet);
        assert(final(out)@ =~= old(out)@ + json_of_snippet(s@, n as nat));
    }
}

fn push_snippet_items(ss: &Vec<SnippetConfig>, i: usize, n: usize, out: &mut String)
    requires
        i <= ss.len(),
        n <= 5,
    ensures
        final(out)@ == old(out)@
            + snippet_items(ss@.map_values(|s: SnippetConfig| s@), i as int, n as nat),
    decreases ss.len() - i,
{
    if i < ss.len() {
        if i == 0 {
            out.append("\n");
        } else {
            out.append(",\n");
        }
        push_ind(n + 1, out);
        push_snippet_json(&ss[i], n + 1, out);
        push_snippet_items(ss, i + 1, n, out);
        proof {
            assert(ss@.map_values(|s: SnippetConfig| s@)[i as int] == ss@[i as int]@);
            assert(final(out)@ =~= old(out)@
                + snippet_items(ss@.map_values(|s: SnippetConfig| s@), i as int, n as nat));
        }
    } else {
        proof {
            assert(final(out)@ =~= old(out)@
                + snippet_items(ss@.map_values(|s: SnippetConfig| s@), i as int, n as nat));
        }
    }
}

fn push_snippets_json(ss: &Vec<SnippetConfig>, n: usize, out: &mut String)
    requires
        n <= 5,
    ensures
        final(out)@ == old(out)@
            + json_of_snippets(ss@.map_values(|s: SnippetConfig| s@), n as nat),
{
    if ss.len() == 0 {
        out.append("[]");
    } else {
        out.append("[");
        push_snippet_items(ss, 0, n, out);
        out.append("\n");
        push_ind(n, out);
        out.append("]");
        proof {
            assert(final(out)@ =~= old(out)@
                + json_of_snippets(ss@.map_values(|s: SnippetConfig| s@), n as nat));
        }
    }
}

/// Renders the whole document as pretty-printed JSON, exactly as
/// [`json_of_config`] describes it.
fn push_fld_scripts(key: &str, ss: &Vec<ScriptConfig>, n: usize, out: &mut String)
    requires
        n <= 5,
    ensures
        final(out)@ == old(out)@
            + fld(n as nat, key@, json_of_scripts(ss@.map_values(|s: ScriptConfig| s@), n as nat)),
{
    push_fld_key(key, n, out);
    push_scripts_json(ss, n, out);
    proof {
        assert(final(out)@ =~= old(out)@
            + fld(n as nat, key@, json_of_scripts(ss@.map_values(|s: ScriptConfig| s@), n as nat)));
    }
}

fn push_fld_snippets(key: &str, ss: &Vec<SnippetConfig>, n: usize, out: &mut String)
    requires
        n <= 5,
    ensures
        final(out)@ == old(out)@
            + fld(n as nat, key@, json_of_snippets(ss@.map_values(|s: SnippetConfig| s@), n as nat)),
{
    push_fld_key(key, n, out);
    push_snippets_json(ss, n, out);
    proof {
        assert(final(out)@ =~= old(out)@
            + fld(n as nat, key@, json_of_snippets(ss@.map_values(|s: SnippetConfig| s@), n as nat)));
    }
}

/// Renders the whole document as pretty-printed JSON, exactly as
/// [`json_of_config`] describes it.
pub fn config_to_json(c: &AppConfig) -> (r: String)
    ensures
        r@ == json_of_config(c@),
{
    let mut out = String::new();
    push_open_str("\"theme\": ", c.theme.as_str(), 1, &mut out);
    push_fld_scripts("\"scripts\": ", &c.scripts, 1, &mut out);
    push_fld_snippets("\"snippets\": ", &c.snippets, 1, &mut out);
    push_fld_str("\"version\": ", c.version.as_str(), 1, &mut out);
    push_obj_close(0, &mut out);
    proof {
        reveal(json_of_config);
        assert(out@ =~= json_of_config(c@));
    }
    out
}

} // verus!
