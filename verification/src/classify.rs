//! Topology classification: which dock (if any) the laptop is connected to,
//! derived from the live monitor list and the lid state.

use vstd::prelude::*;
use crate::catalog::IdentifierView;
use crate::catalog::KnownMonitor;
use crate::catalog::KnownMonitorView;
use crate::catalog::MonitorIdentifier;
use crate::catalog::apartment_monitor;
use crate::catalog::apartment_spec;
use crate::catalog::home_monitor;
use crate::catalog::home_spec;
use crate::catalog::laptop_display;
use crate::catalog::laptop_spec;
use crate::lid::LidState;

verus! {

/// A monitor currently reported attached by the compositor.
#[derive(Debug)]
pub struct LiveMonitor {
    pub id: u32,
    pub name: String,
    pub description: String,
}

/// Spec-level shadow of `LiveMonitor`.
pub struct LiveMonitorView {
    pub id: u32,
    pub name: Seq<char>,
    pub description: Seq<char>,
}

impl View for LiveMonitor {
    type V = LiveMonitorView;

    open spec fn view(&self) -> LiveMonitorView {
        LiveMonitorView { id: self.id, name: self.name@, description: self.description@ }
    }
}

/// The views of a list of live monitors, in order.
pub open spec fn views_of(ms: Seq<LiveMonitor>) -> Seq<LiveMonitorView> {
    Seq::new(ms.len(), |i: int| ms[i]@)
}

/// The docks the laptop may be connected to.
#[derive(Debug, Clone, Copy, PartialEq, Eq, Structural)]
pub enum Dock {
    Apartment,
    Home,
}

/// The classification result: which dock (if any), plus the lid state it was
/// classified with.
#[derive(Debug, Clone, Copy, PartialEq, Eq)]
pub struct DockScenario {
    pub dock: Option<Dock>,
    pub lid: LidState,
}

/// A live monitor matches a known monitor through the known identifier's own
/// tag only: description against description, port name against name, or
/// numeric id against id.
pub open spec fn matches_known(m: LiveMonitorView, k: KnownMonitorView) -> bool {
    match k.identifier {
        IdentifierView::Description(d) => m.description == d,
        IdentifierView::Port(p) => m.name == p,
        IdentifierView::Id(n) => m.id == n,
    }
}

/// Some monitor in the live list matches the known monitor `k`.
pub open spec fn attached(ms: Seq<LiveMonitorView>, k: KnownMonitorView) -> bool {
    exists|i: int| 0 <= i < ms.len() && #[trigger] matches_known(ms[i], k)
}

/// The classification decision table, in priority order. `Some(dock)` is a
/// recognized topology (`dock` itself is `None` for laptop-only); `None`
/// means the topology is unrecognized.
pub open spec fn dock_classification(ms: Seq<LiveMonitorView>) -> Option<Option<Dock>> {
    if attached(ms, home_spec()) && attached(ms, apartment_spec()) {
        Some(Some(Dock::Home))
    } else if attached(ms, apartment_spec()) {
        Some(Some(Dock::Apartment))
    } else if attached(ms, laptop_spec()) && ms.len() == 1 {
        Some(None)
    } else {
        None
    }
}

/// Why classification failed.
#[derive(Debug)]
pub enum ClassificationError {
    /// The attached monitors do not map to any known scenario; carries the
    /// full live list for diagnostics.
    UnrecognizedTopology(Vec<LiveMonitor>),
}

/// Whether one live monitor matches one known monitor.
fn live_matches(m: &LiveMonitor, k: &KnownMonitor) -> (r: bool)
    ensures
        r == matches_known(m@, k@),
{
    match &k.identifier {
        MonitorIdentifier::Description(d) => m.description == *d,
        MonitorIdentifier::Port(p) => m.name == *p,
        MonitorIdentifier::Id(n) => m.id == *n,
    }
}

/// Whether any live monitor matches the known monitor `k`.
fn any_match(ms: &Vec<LiveMonitor>, k: &KnownMonitor) -> (r: bool)
    ensures
        r == attached(views_of(ms@), k@),
{
    let mut i: usize = 0;
    while i < ms.len()
        invariant
            i <= ms@.len(),
            forall|j: int| 0 <= j < i ==> !#[trigger] matches_known(views_of(ms@)[j], k@),
        decreases ms@.len() - i,
    {
        if live_matches(&ms[i], k) {
            proof {
                assert(matches_known(views_of(ms@)[i as int], k@));
            }
            return true;
        }
        i += 1;
    }
    false
}

/// Classify the attached monitors plus the lid state into a dock scenario.
///
/// Returns `HomeDock` when both external monitors are recognized,
/// `ApartmentDock` when the apartment monitor is recognized without the home
/// monitor, and no dock when exactly one monitor is attached and it is the
/// laptop panel. Every other topology is rejected as unrecognized, carrying
/// the live list back for diagnostics.
pub fn classify(monitors: Vec<LiveMonitor>, lid: LidState) -> (r: Result<
    DockScenario,
    ClassificationError,
>)
    ensures
        match r {
            Ok(s) => dock_classification(views_of(monitors@)) == Some(s.dock) && s.lid == lid,
            Err(e) => dock_classification(views_of(monitors@)) is None && (e matches ClassificationError::UnrecognizedTopology(ms) && ms@ == monitors@),
        },
{
    let home = home_monitor();
    let apartment = apartment_monitor();
    let laptop = laptop_display();
    let home_here = any_match(&monitors, &home);
    let apartment_here = any_match(&monitors, &apartment);
    if home_here && apartment_here {
        Ok(DockScenario { dock: Some(Dock::Home), lid })
    } else if apartment_here {
        Ok(DockScenario { dock: Some(Dock::Apartment), lid })
    } else if any_match(&monitors, &laptop) && monitors.len() == 1 {
        Ok(DockScenario { dock: None, lid })
    } else {
        Err(ClassificationError::UnrecognizedTopology(monitors))
    }
}

/// A known monitor is recognized in a list exactly when it is recognized in
/// any rearrangement of that list.
proof fn lemma_attached_order_independent(
    ms1: Seq<LiveMonitorView>,
    ms2: Seq<LiveMonitorView>,
    k: KnownMonitorView,
)
    requires
        ms1.to_multiset() == ms2.to_multiset(),
    ensures
        attached(ms1, k) == attached(ms2, k),
{
    broadcast use vstd::seq_lib::group_to_multiset_ensures;

    if attached(ms1, k) {
        let i = choose|i: int| 0 <= i < ms1.len() && #[trigger] matches_known(ms1[i], k);
        assert(ms1.contains(ms1[i]));
        assert(ms1.to_multiset().count(ms1[i]) > 0);
        assert(ms2.to_multiset().count(ms1[i]) > 0);
        assert(ms2.contains(ms1[i]));
        let j = choose|j: int| 0 <= j < ms2.len() && ms2[j] == ms1[i];
        assert(matches_known(ms2[j], k));
    }
    if attached(ms2, k) {
        let i = choose|i: int| 0 <= i < ms2.len() && #[trigger] matches_known(ms2[i], k);
        assert(ms2.contains(ms2[i]));
        assert(ms2.to_multiset().count(ms2[i]) > 0);
        assert(ms1.to_multiset().count(ms2[i]) > 0);
        assert(ms1.contains(ms2[i]));
        let j = choose|j: int| 0 <= j < ms1.len() && ms1[j] == ms2[i];
        assert(matches_known(ms1[j], k));
    }
}

/// Classification is a function of the multiset of attached monitors alone:
/// rearranging the live list never changes the result.
pub proof fn lemma_classification_order_independent(
    ms1: Seq<LiveMonitorView>,
    ms2: Seq<LiveMonitorView>,
)
    requires
        ms1.to_multiset() == ms2.to_multiset(),
    ensures
        dock_classification(ms1) == dock_classification(ms2),
{
    lemma_attached_order_independent(ms1, ms2, home_spec());
    lemma_attached_order_independent(ms1, ms2, apartment_spec());
    lemma_attached_order_independent(ms1, ms2, laptop_spec());
    vstd::seq_lib::to_multiset_len(ms1);
    vstd::seq_lib::to_multiset_len(ms2);
    assert(ms1.len() == ms2.len());
}

/// Any live-monitor list with recognized entries for both external monitors
/// classifies as the home dock, whatever the order of attachment.
pub proof fn lemma_both_externals_home(ms: Seq<LiveMonitorView>)
    requires
        attached(ms, home_spec()),
        attached(ms, apartment_spec()),
    ensures
        dock_classification(ms) == Some(Some(Dock::Home)),
{
}

/// A single attached monitor recognized as the laptop panel alone is the
/// no-dock, laptop-only scenario.
pub proof fn lemma_laptop_only_no_dock(ms: Seq<LiveMonitorView>)
    requires
        ms.len() == 1,
        attached(ms, laptop_spec()),
        !attached(ms, apartment_spec()),
    ensures
        dock_classification(ms) == Some(None::<Dock>),
{
}

/// The laptop panel together with a second monitor that is recognized as
/// neither external monitor is an unrecognized topology, never laptop-only.
pub proof fn lemma_extra_monitor_rejected(ms: Seq<LiveMonitorView>)
    requires
        ms.len() == 2,
        !attached(ms, home_spec()),
        !attached(ms, apartment_spec()),
    ensures
        dock_classification(ms) is None,
{
}

} // verus!
