//! One-time schema migration of script entries: the legacy single-command
//! field becomes the first entry of the command list, and the legacy field
//! is always cleared before the document is persisted again.

use vstd::prelude::*;
use crate::config::{AppConfig, AppConfigV, CommandConfig, CommandConfigV, ScriptConfig, ScriptConfigV};
use crate::numfmt::{dec_of_int, push_dec_i64};

verus! {

/// The command entry synthesized for a legacy script: its id is derived
/// deterministically from the script's creation timestamp, its display name
/// is the fixed default label, and its command string is the legacy value.
pub open spec fn synthesized_command(s: ScriptConfigV) -> CommandConfigV
    recommends
        s.command is Some,
{
    CommandConfigV {
        id: "cmd-"@ + dec_of_int(s.created_at),
        name: "默认"@,
        command: s.command.unwrap(),
    }
}

/// Migration of one script entry: when the command list is empty and a
/// legacy command is present, the synthesized command becomes the sole list
/// entry; in every case the legacy field is cleared.
pub open spec fn spec_migrate(s: ScriptConfigV) -> ScriptConfigV {
    if s.commands.len() == 0 && s.command is Some {
        ScriptConfigV { commands: seq![synthesized_command(s)], command: Option::None, ..s }
    } else {
        ScriptConfigV { command: Option::None, ..s }
    }
}

/// Migration of a whole document: every script entry is migrated, all other
/// fields are untouched.
pub open spec fn spec_migrate_config(c: AppConfigV) -> AppConfigV {
    AppConfigV { scripts: c.scripts.map_values(|s: ScriptConfigV| spec_migrate(s)), ..c }
}

/// Upgrades one script entry in place from the legacy single-command form
/// to the command-list form.
pub fn migrate_script_config(script: &mut ScriptConfig)
    ensures
        final(script)@ == spec_migrate(old(script)@),
{
    if script.commands.len() == 0 {
        match &script.command {
            Option::Some(cmd) => {
                let mut id = String::from_str("cmd-");
                push_dec_i64(script.created_at, &mut id);
                let synthesized = CommandConfig {
                    id,
                    name: String::from_str("默认"),
                    command: cmd.clone(),
                };
                script.commands.push(synthesized);
            },
            Option::None => {},
        }
    }
    script.command = Option::None;
    proof {
        assert(final(script)@.commands =~= spec_migrate(old(script)@).commands);
        assert(final(script)@ =~= spec_migrate(old(script)@));
    }
}

/// Upgrades every script entry of a document in place.
pub fn migrate_config(config: &mut AppConfig)
    ensures
        final(config)@ == spec_migrate_config(old(config)@),
{
    let n = config.scripts.len();
    let mut i: usize = 0;
    while i < n
        invariant
            i <= n,
            n == config.scripts.len(),
            config.scripts@.len() == old(config).scripts@.len(),
            forall|j: int| 0 <= j < i ==> config.scripts@[j]@ == spec_migrate(old(config).scripts@[j]@),
            forall|j: int| i <= j < n ==> config.scripts@[j] == old(config).scripts@[j],
            config.theme == old(config).theme,
            config.snippets == old(config).snippets,
            config.version == old(config).version,
        decreases n - i,
    {
        migrate_script_config(&mut config.scripts[i]);
        i = i + 1;
    }
    proof {
        assert(final(config)@.scripts =~= spec_migrate_config(old(config)@).scripts);
        assert(final(config)@ =~= spec_migrate_config(old(config)@));
    }
}

/// Migration is idempotent on its output: migrating an already migrated
/// entry changes nothing, because the legacy field is cleared and a
/// synthesized command, if one was added, makes the command list non-empty.
pub proof fn lemma_migrate_idempotent(s: ScriptConfigV)
    ensures
        spec_migrate(spec_migrate(s)) == spec_migrate(s),
{
    assert(spec_migrate(spec_migrate(s)) =~= spec_migrate(s));
}

/// Migrating the same unmigrated entry any number of independent times
/// yields the same single synthesized command, never two: the output's
/// command list is exactly the one synthesized entry, a function of the
/// input alone.
pub proof fn lemma_migrate_unmigrated(s: ScriptConfigV)
    requires
        s.commands.len() == 0,
        s.command is Some,
    ensures
        spec_migrate(s).commands == seq![synthesized_command(s)],
        spec_migrate(s).commands.len() == 1,
        (spec_migrate(s).command is None),
{
}

/// An entry whose command list is already non-empty migrates by clearing
/// the legacy field only: the command list is untouched, even when a stale
/// legacy value is present.
pub proof fn lemma_migrate_keeps_nonempty_commands(s: ScriptConfigV)
    requires
        s.commands.len() > 0,
    ensures
        spec_migrate(s).commands == s.commands,
        (spec_migrate(s).command is None),
        spec_migrate(s) == (ScriptConfigV { command: Option::None, ..s }),
{
}

/// The data-model invariant after migration: whenever a legacy command
/// existed, the command list is non-empty, and the legacy field is always
/// cleared.
pub proof fn lemma_migrate_invariant(s: ScriptConfigV)
    ensures
        (s.command is Some ==> spec_migrate(s).commands.len() >= 1),
        (spec_migrate(s).command is None),
{
}

/// Document-level idempotence on output: migrating a migrated document
/// changes nothing.
pub proof fn lemma_migrate_config_idempotent(c: AppConfigV)
    ensures
        spec_migrate_config(spec_migrate_config(c)) == spec_migrate_config(c),
{
    let once = spec_migrate_config(c);
    assert forall|j: int| 0 <= j < once.scripts.len() implies
        spec_migrate_config(once).scripts[j] == once.scripts[j] by {
        lemma_migrate_idempotent(c.scripts[j]);
    }
    assert(spec_migrate_config(once).scripts =~= once.scripts);
    assert(spec_migrate_config(once) =~= once);
}

} // verus!
