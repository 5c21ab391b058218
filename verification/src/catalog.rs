//! The fixed catalog of known displays: the laptop panel and the two
//! external dock monitors, with their identities and native resolutions.

use vstd::prelude::*;
use vstd::string::StringExecFns;
use crate::text::decimal;
use crate::text::push_decimal;

verus! {

/// How a known display is identified when matched against live monitors and
/// when addressed in a placement command. A known monitor is only ever
/// compared through its own tag: description against description, port
/// against port, numeric id against numeric id.
#[derive(Debug)]
pub enum MonitorIdentifier {
    /// The stable display description string.
    Description(String),
    /// The port name, e.g. "eDP-1".
    Port(String),
    /// The numeric id the compositor assigns incrementally per dock position.
    Id(u32),
}

/// Spec-level shadow of `MonitorIdentifier`, with strings as char sequences.
pub enum IdentifierView {
    Description(Seq<char>),
    Port(Seq<char>),
    Id(u32),
}

impl View for MonitorIdentifier {
    type V = IdentifierView;

    open spec fn view(&self) -> IdentifierView {
        match self {
            MonitorIdentifier::Description(d) => IdentifierView::Description(d@),
            MonitorIdentifier::Port(p) => IdentifierView::Port(p@),
            MonitorIdentifier::Id(n) => IdentifierView::Id(*n),
        }
    }
}

/// The output selector understood by the compositor, per identifier tag:
/// `desc:<description>`, the bare port name, or `id:<n>`.
pub open spec fn selector_text(id: IdentifierView) -> Seq<char> {
    match id {
        IdentifierView::Description(d) => "desc:"@ + d,
        IdentifierView::Port(p) => p,
        IdentifierView::Id(n) => "id:"@ + decimal(n as nat),
    }
}

impl MonitorIdentifier {
    /// Render this identifier as the compositor's output selector.
    pub fn to_hyprland_id(&self) -> (s: String)
        ensures
            s@ == selector_text(self@),
    {
        match self {
            MonitorIdentifier::Description(d) => {
                let mut s = String::from_str("desc:");
                s.append(d.as_str());
                s
            },
            MonitorIdentifier::Port(p) => p.clone(),
            MonitorIdentifier::Id(n) => {
                let mut s = String::from_str("id:");
                push_decimal(&mut s, *n);
                s
            },
        }
    }
}

/// A display this system is configured to recognize, with its native
/// resolution.
#[derive(Debug)]
pub struct KnownMonitor {
    pub identifier: MonitorIdentifier,
    pub width: u32,
    pub height: u32,
}

/// Spec-level shadow of `KnownMonitor`.
pub struct KnownMonitorView {
    pub identifier: IdentifierView,
    pub width: u32,
    pub height: u32,
}

impl View for KnownMonitor {
    type V = KnownMonitorView;

    open spec fn view(&self) -> KnownMonitorView {
        KnownMonitorView { identifier: self.identifier@, width: self.width, height: self.height }
    }
}

/// The laptop's built-in panel, identified by its port.
pub open spec fn laptop_spec() -> KnownMonitorView {
    KnownMonitorView { identifier: IdentifierView::Port("eDP-1"@), width: 1920, height: 1200 }
}

/// The home-dock monitor, identified by the id the compositor assigns it.
pub open spec fn home_spec() -> KnownMonitorView {
    KnownMonitorView { identifier: IdentifierView::Id(1), width: 2560, height: 1440 }
}

/// The apartment-dock monitor; same panel model as the home monitor, but the
/// compositor assigns it a different id on that dock.
pub open spec fn apartment_spec() -> KnownMonitorView {
    KnownMonitorView { identifier: IdentifierView::Id(2), width: 2560, height: 1440 }
}

/// The laptop's built-in panel.
pub fn laptop_display() -> (m: KnownMonitor)
    ensures
        m@ == laptop_spec(),
{
    KnownMonitor {
        identifier: MonitorIdentifier::Port(String::from_str("eDP-1")),
        width: 1920,
        height: 1200,
    }
}

/// The home-dock monitor.
pub fn home_monitor() -> (m: KnownMonitor)
    ensures
        m@ == home_spec(),
{
    KnownMonitor { identifier: MonitorIdentifier::Id(1), width: 2560, height: 1440 }
}

/// The apartment-dock monitor.
pub fn apartment_monitor() -> (m: KnownMonitor)
    ensures
        m@ == apartment_spec(),
{
    KnownMonitor { identifier: MonitorIdentifier::Id(2), width: 2560, height: 1440 }
}

/// The fixed ordered catalog: laptop panel, home monitor, apartment monitor.
pub fn known_monitors() -> (v: Vec<KnownMonitor>)
    ensures
        v@.len() == 3,
        v@[0]@ == laptop_spec(),
        v@[1]@ == home_spec(),
        v@[2]@ == apartment_spec(),
{
    let mut v: Vec<KnownMonitor> = Vec::new();
    v.push(laptop_display());
    v.push(home_monitor());
    v.push(apartment_monitor());
    v
}

} // verus!
