//! A model of the compositor's per-output configuration and of what applying
//! a command sequence does to it: each command overwrites its own output's
//! setting and touches nothing else.

use vstd::prelude::*;
use crate::catalog::IdentifierView;
use crate::classify::DockScenario;
use crate::layout::OutputSetting;
use crate::layout::PlacementCommandView;
use crate::layout::generate_spec;

verus! {

/// The configuration after applying the commands in order to `st`: each
/// command sets its target output, later commands win.
pub open spec fn apply_commands(
    st: Map<IdentifierView, OutputSetting>,
    cmds: Seq<PlacementCommandView>,
) -> Map<IdentifierView, OutputSetting>
    decreases cmds.len(),
{
    if cmds.len() == 0 {
        st
    } else {
        apply_commands(st.insert(cmds[0].target, cmds[0].setting), cmds.drop_first())
    }
}

/// The setting the last command targeting `t` carries, if any.
pub open spec fn last_setting(cmds: Seq<PlacementCommandView>, t: IdentifierView) -> Option<
    OutputSetting,
>
    decreases cmds.len(),
{
    if cmds.len() == 0 {
        None
    } else {
        match last_setting(cmds.drop_first(), t) {
            Some(v) => Some(v),
            None => if cmds[0].target == t {
                Some(cmds[0].setting)
            } else {
                None
            },
        }
    }
}

/// Applying a command sequence sets each targeted output to the last setting
/// aimed at it and leaves every other output untouched.
pub proof fn lemma_apply_characterization(
    st: Map<IdentifierView, OutputSetting>,
    cmds: Seq<PlacementCommandView>,
)
    ensures
        forall|t: IdentifierView| #[trigger]
            apply_commands(st, cmds).contains_key(t) <==> (st.contains_key(t) || last_setting(
                cmds,
                t,
            ) is Some),
        forall|t: IdentifierView|
            apply_commands(st, cmds).contains_key(t) ==> #[trigger] apply_commands(st, cmds)[t]
                == (match last_setting(cmds, t) {
                Some(v) => v,
                None => st[t],
            }),
    decreases cmds.len(),
{
    if cmds.len() > 0 {
        lemma_apply_characterization(st.insert(cmds[0].target, cmds[0].setting), cmds.drop_first());
    }
}

/// Applying the same command sequence twice in a row leaves exactly the
/// configuration that applying it once leaves.
pub proof fn lemma_apply_idempotent(
    st: Map<IdentifierView, OutputSetting>,
    cmds: Seq<PlacementCommandView>,
)
    ensures
        apply_commands(apply_commands(st, cmds), cmds) == apply_commands(st, cmds),
{
    let once = apply_commands(st, cmds);
    lemma_apply_characterization(st, cmds);
    lemma_apply_characterization(once, cmds);
    assert(apply_commands(once, cmds) =~= once);
}

/// Applying a scenario's generated commands twice in a row leaves exactly
/// the configuration that applying them once leaves, whatever configuration
/// the compositor started from.
pub proof fn lemma_generate_idempotent(
    st: Map<IdentifierView, OutputSetting>,
    scenario: DockScenario,
)
    ensures
        apply_commands(apply_commands(st, generate_spec(scenario)), generate_spec(scenario))
            == apply_commands(st, generate_spec(scenario)),
{
    lemma_apply_idempotent(st, generate_spec(scenario));
}

} // verus!
