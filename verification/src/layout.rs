//! Layout generation: the per-output placement commands for each dock
//! scenario, their rendering as compositor keyword strings, and a model of
//! how applying them changes the compositor's configuration.

use vstd::prelude::*;
use vstd::string::StringExecFns;
use crate::catalog::IdentifierView;
use crate::catalog::MonitorIdentifier;
use crate::catalog::apartment_monitor;
use crate::catalog::apartment_spec;
use crate::catalog::home_monitor;
use crate::catalog::home_spec;
use crate::catalog::laptop_display;
use crate::catalog::laptop_spec;
use crate::catalog::selector_text;
use crate::classify::Dock;
use crate::classify::DockScenario;
use crate::lid::LidState;
use crate::text::decimal;
use crate::text::push_decimal;

verus! {

/// The laptop panel's configured scale factor. The offset formulas divide by
/// it, so a non-unit scale changes the generated offsets without any other
/// change.
pub const LAPTOP_SCALE: u32 = 1;

/// An output's mode in a placement command.
#[derive(Debug, Clone, Copy, PartialEq, Eq, Structural)]
pub enum Mode {
    /// Let the compositor pick the output's preferred resolution.
    Preferred,
    /// An explicit width and height.
    Resolution(u32, u32),
}

/// An output's position in a placement command.
#[derive(Debug, Clone, Copy, PartialEq, Eq, Structural)]
pub enum Position {
    /// Let the compositor place the output.
    Auto,
    /// An explicit top-left corner.
    At(u32, u32),
}

/// What a placement command does to its output.
#[derive(Debug, Clone, Copy, PartialEq, Eq, Structural)]
pub enum OutputSetting {
    /// Enable the output with the given mode, position and scale.
    Enabled { mode: Mode, position: Position, scale: u32 },
    /// Disable the output.
    Disabled,
}

/// One per-output instruction for the compositor.
#[derive(Debug)]
pub struct PlacementCommand {
    pub target: MonitorIdentifier,
    pub setting: OutputSetting,
}

/// Spec-level shadow of `PlacementCommand`.
pub struct PlacementCommandView {
    pub target: IdentifierView,
    pub setting: OutputSetting,
}

impl View for PlacementCommand {
    type V = PlacementCommandView;

    open spec fn view(&self) -> PlacementCommandView {
        PlacementCommandView { target: self.target@, setting: self.setting }
    }
}

/// The views of a list of placement commands, in order.
pub open spec fn views_of_commands(cs: Seq<PlacementCommand>) -> Seq<PlacementCommandView> {
    Seq::new(cs.len(), |i: int| cs[i]@)
}

/// The x-offset of the first external monitor: the laptop's native width
/// scaled by the inverse of its scale factor, floored.
pub open spec fn spec_first_offset() -> u32 {
    (laptop_spec().width / LAPTOP_SCALE) as u32
}

/// The x-offset of the apartment monitor on the home dock: offsets
/// accumulate additively left-to-right past the home monitor.
pub open spec fn spec_second_offset() -> u32 {
    (spec_first_offset() + home_spec().width) as u32
}

/// The laptop panel enabled at its native resolution in the top-left corner.
pub open spec fn spec_laptop_native() -> PlacementCommandView {
    PlacementCommandView {
        target: laptop_spec().identifier,
        setting: OutputSetting::Enabled {
            mode: Mode::Resolution(laptop_spec().width, laptop_spec().height),
            position: Position::At(0, 0),
            scale: LAPTOP_SCALE,
        },
    }
}

/// An external monitor enabled at its preferred resolution at `(x, 0)`,
/// scale 1.
pub open spec fn spec_external_at(target: IdentifierView, x: u32) -> PlacementCommandView {
    PlacementCommandView {
        target,
        setting: OutputSetting::Enabled {
            mode: Mode::Preferred,
            position: Position::At(x, 0),
            scale: 1,
        },
    }
}

/// The scenario-keyed placement table. With the lid closed on a dock, the
/// laptop panel is disabled and external outputs are left untouched; with no
/// dock the laptop panel is explicitly enabled whatever the lid state; on a
/// dock with the lid open, the outputs chain left-to-right from the laptop
/// panel.
pub open spec fn generate_spec(s: DockScenario) -> Seq<PlacementCommandView> {
    if s.dock is Some && s.lid is Closed {
        seq![
            PlacementCommandView {
                target: laptop_spec().identifier,
                setting: OutputSetting::Disabled,
            },
        ]
    } else {
        match s.dock {
            None => seq![
                PlacementCommandView {
                    target: laptop_spec().identifier,
                    setting: OutputSetting::Enabled {
                        mode: Mode::Preferred,
                        position: Position::At(0, 0),
                        scale: LAPTOP_SCALE,
                    },
                },
            ],
            Some(Dock::Apartment) => seq![
                spec_laptop_native(),
                spec_external_at(apartment_spec().identifier, spec_first_offset()),
            ],
            Some(Dock::Home) => seq![
                spec_laptop_native(),
                spec_external_at(home_spec().identifier, spec_first_offset()),
                spec_external_at(apartment_spec().identifier, spec_second_offset()),
            ],
        }
    }
}

/// Generate the ordered placement commands for a dock scenario. Total and
/// deterministic: the result is exactly the table in `generate_spec`.
pub fn generate(scenario: DockScenario) -> (cmds: Vec<PlacementCommand>)
    ensures
        views_of_commands(cmds@) == generate_spec(scenario),
{
    let laptop = laptop_display();
    let mut cmds: Vec<PlacementCommand> = Vec::new();
    match (scenario.dock, scenario.lid) {
        (None, _) => {
            cmds.push(
                PlacementCommand {
                    target: laptop.identifier,
                    setting: OutputSetting::Enabled {
                        mode: Mode::Preferred,
                        position: Position::At(0, 0),
                        scale: LAPTOP_SCALE,
                    },
                },
            );
        },
        (Some(_), LidState::Closed) => {
            cmds.push(
                PlacementCommand { target: laptop.identifier, setting: OutputSetting::Disabled },
            );
        },
        (Some(Dock::Apartment), LidState::Open) => {
            let first_offset = laptop.width / LAPTOP_SCALE;
            cmds.push(
                PlacementCommand {
                    target: laptop.identifier,
                    setting: OutputSetting::Enabled {
                        mode: Mode::Resolution(laptop.width, laptop.height),
                        position: Position::At(0, 0),
                        scale: LAPTOP_SCALE,
                    },
                },
            );
            cmds.push(
                PlacementCommand {
                    target: apartment_monitor().identifier,
                    setting: OutputSetting::Enabled {
                        mode: Mode::Preferred,
                        position: Position::At(first_offset, 0),
                        scale: 1,
                    },
                },
            );
        },
        (Some(Dock::Home), LidState::Open) => {
            let home = home_monitor();
            let first_offset = laptop.width / LAPTOP_SCALE;
            let second_offset = first_offset + home.width;
            cmds.push(
                PlacementCommand {
                    target: laptop.identifier,
                    setting: OutputSetting::Enabled {
                        mode: Mode::Resolution(laptop.width, laptop.height),
                        position: Position::At(0, 0),
                        scale: LAPTOP_SCALE,
                    },
                },
            );
            cmds.push(
                PlacementCommand {
                    target: home.identifier,
                    setting: OutputSetting::Enabled {
                        mode: Mode::Preferred,
                        position: Position::At(first_offset, 0),
                        scale: 1,
                    },
                },
            );
            cmds.push(
                PlacementCommand {
                    target: apartment_monitor().identifier,
                    setting: OutputSetting::Enabled {
                        mode: Mode::Preferred,
                        position: Position::At(second_offset, 0),
                        scale: 1,
                    },
                },
            );
        },
    }
    proof {
        assert(views_of_commands(cmds@) =~= generate_spec(scenario));
    }
    cmds
}

/// The text of an output mode: `preferred` or `<w>x<h>`.
pub open spec fn mode_text(m: Mode) -> Seq<char> {
    match m {
        Mode::Preferred => "preferred"@,
        Mode::Resolution(w, h) => decimal(w as nat) + "x"@ + decimal(h as nat),
    }
}

/// The text of an output position: `auto` or `<x>x<y>`.
pub open spec fn position_text(p: Position) -> Seq<char> {
    match p {
        Position::Auto => "auto"@,
        Position::At(x, y) => decimal(x as nat) + "x"@ + decimal(y as nat),
    }
}

/// The full placement string sent to the compositor for one command:
/// `<selector>,<mode>,<position>,<scale>`, or `<selector>,disabled`.
pub open spec fn command_text(c: PlacementCommandView) -> Seq<char> {
    match c.setting {
        OutputSetting::Disabled => selector_text(c.target) + ",disabled"@,
        OutputSetting::Enabled { mode, position, scale } => selector_text(c.target) + ","@
            + mode_text(mode) + ","@ + position_text(position) + ","@ + decimal(scale as nat),
    }
}

/// Render one placement command as the compositor's placement string.
pub fn render(c: &PlacementCommand) -> (s: String)
    ensures
        s@ == command_text(c@),
{
    let mut s = c.target.to_hyprland_id();
    match &c.setting {
        OutputSetting::Disabled => {
            s.append(",disabled");
        },
        OutputSetting::Enabled { mode, position, scale } => {
            s.append(",");
            match mode {
                Mode::Preferred => {
                    s.append("preferred");
                },
                Mode::Resolution(w, h) => {
                    push_decimal(&mut s, *w);
                    s.append("x");
                    push_decimal(&mut s, *h);
                },
            }
            s.append(",");
            match position {
                Position::Auto => {
                    s.append("auto");
                },
                Position::At(x, y) => {
                    push_decimal(&mut s, *x);
                    s.append("x");
                    push_decimal(&mut s, *y);
                },
            }
            s.append(",");
            push_decimal(&mut s, *scale);
            proof {
                assert(s@ =~= command_text(c@));
            }
        },
    }
    s
}

/// The text of every command for a scenario, in order.
pub open spec fn command_texts(s: DockScenario) -> Seq<Seq<char>> {
    generate_spec(s).map_values(|c: PlacementCommandView| command_text(c))
}

/// Generation is a pure function of the scenario: equal scenarios yield
/// identical command sequences, character for character.
pub proof fn lemma_generate_deterministic(s1: DockScenario, s2: DockScenario)
    requires
        s1 == s2,
    ensures
        command_texts(s1) == command_texts(s2),
{
}

/// With the lid closed on either dock, the one and only command disables
/// the laptop panel; no command touches an external output.
pub proof fn lemma_closed_lid_disables_laptop_only(s: DockScenario)
    requires
        s.lid is Closed,
        s.dock is Some,
    ensures
        generate_spec(s) == seq![
            PlacementCommandView {
                target: laptop_spec().identifier,
                setting: OutputSetting::Disabled,
            },
        ],
{
}

} // verus!
