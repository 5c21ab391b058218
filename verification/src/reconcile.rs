//! The reconciliation core: from the live monitor list and the lid state to
//! the full ordered list of placement strings for the compositor.
//!
//! Fetching the live inputs and sending the commands are I/O and stay with
//! the caller; every call here re-derives the entire desired layout from
//! scratch, holding no state between calls.

use vstd::prelude::*;
use crate::classify::ClassificationError;
use crate::classify::DockScenario;
use crate::classify::LiveMonitor;
use crate::classify::classify;
use crate::classify::dock_classification;
use crate::classify::views_of;
use crate::layout::command_text;
use crate::layout::command_texts;
use crate::layout::generate;
use crate::layout::render;
use crate::layout::views_of_commands;
use crate::lid::LidState;

verus! {

/// The views of a list of strings, in order.
pub open spec fn views_of_strings(ss: Seq<String>) -> Seq<Seq<char>> {
    Seq::new(ss.len(), |i: int| ss[i]@)
}

/// Derive the placement strings for the current live state. Succeeds exactly
/// on recognized topologies, with the commands of the classified scenario in
/// generation order; an unrecognized topology is reported with the live list
/// and no command is produced.
pub fn plan(monitors: Vec<LiveMonitor>, lid: LidState) -> (r: Result<
    Vec<String>,
    ClassificationError,
>)
    ensures
        match r {
            Ok(cmds) => dock_classification(views_of(monitors@)) matches Some(dock)
                && views_of_strings(cmds@) == command_texts(DockScenario { dock, lid }),
            Err(e) => dock_classification(views_of(monitors@)) is None && (e matches ClassificationError::UnrecognizedTopology(ms) && ms@ == monitors@),
        },
{
    let scenario = match classify(monitors, lid) {
        Ok(s) => s,
        Err(e) => {
            return Err(e);
        },
    };
    let cmds = generate(scenario);
    let mut out: Vec<String> = Vec::new();
    let mut i: usize = 0;
    while i < cmds.len()
        invariant
            i <= cmds@.len(),
            out@.len() == i,
            views_of_commands(cmds@) == crate::layout::generate_spec(scenario),
            forall|j: int| 0 <= j < i ==> out@[j]@ == command_text(#[trigger] cmds@[j]@),
        decreases cmds@.len() - i,
    {
        out.push(render(&cmds[i]));
        i += 1;
    }
    proof {
        assert(views_of_strings(out@) =~= command_texts(scenario));
    }
    Ok(out)
}

} // verus!
