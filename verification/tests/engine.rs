use hypr_monitors::catalog::{
    apartment_monitor, home_monitor, known_monitors, laptop_display, MonitorIdentifier,
};
use hypr_monitors::classify::{classify, ClassificationError, Dock, DockScenario, LiveMonitor};
use hypr_monitors::layout::{generate, render, Mode, OutputSetting, PlacementCommand, Position};
use hypr_monitors::lid::{parse_lid_state, AcpidEvent, LidState};
use hypr_monitors::reconcile::plan;

fn live(id: u32, name: &str, description: &str) -> LiveMonitor {
    LiveMonitor { id, name: name.to_string(), description: description.to_string() }
}

fn laptop_live() -> LiveMonitor {
    live(0, "eDP-1", "Some Laptop Panel")
}

#[test]
fn classify_home_dock() {
    let monitors = vec![laptop_live(), live(1, "DP-5", "External A"), live(2, "DP-6", "External B")];
    let s = classify(monitors, LidState::Open).unwrap();
    assert_eq!(s, DockScenario { dock: Some(Dock::Home), lid: LidState::Open });
}

#[test]
fn classify_home_dock_any_order() {
    let monitors = vec![live(2, "DP-6", "External B"), laptop_live(), live(1, "DP-5", "External A")];
    let s = classify(monitors, LidState::Closed).unwrap();
    assert_eq!(s, DockScenario { dock: Some(Dock::Home), lid: LidState::Closed });
}

#[test]
fn classify_apartment_dock() {
    let monitors = vec![laptop_live(), live(2, "DP-6", "External B")];
    let s = classify(monitors, LidState::Open).unwrap();
    assert_eq!(s, DockScenario { dock: Some(Dock::Apartment), lid: LidState::Open });
}

#[test]
fn classify_laptop_only() {
    let monitors = vec![laptop_live()];
    let s = classify(monitors, LidState::Open).unwrap();
    assert_eq!(s, DockScenario { dock: None, lid: LidState::Open });
}

#[test]
fn classify_laptop_plus_unknown_fails() {
    let monitors = vec![laptop_live(), live(7, "HDMI-A-1", "Mystery Display")];
    let err = classify(monitors, LidState::Open).unwrap_err();
    let ClassificationError::UnrecognizedTopology(ms) = err;
    assert_eq!(ms.len(), 2);
    assert_eq!(ms[0].name, "eDP-1");
    assert_eq!(ms[1].id, 7);
}

#[test]
fn classify_empty_list_fails() {
    let err = classify(Vec::new(), LidState::Closed).unwrap_err();
    let ClassificationError::UnrecognizedTopology(ms) = err;
    assert!(ms.is_empty());
}

#[test]
fn classify_matches_by_tag_only() {
    // A monitor whose description happens to be "eDP-1" must not match the
    // laptop panel, which is identified by port name.
    let monitors = vec![live(9, "DP-1", "eDP-1")];
    assert!(classify(monitors, LidState::Open).is_err());
}

#[test]
fn generate_is_deterministic() {
    for scenario in [
        DockScenario { dock: None, lid: LidState::Open },
        DockScenario { dock: Some(Dock::Apartment), lid: LidState::Open },
        DockScenario { dock: Some(Dock::Home), lid: LidState::Open },
        DockScenario { dock: Some(Dock::Home), lid: LidState::Closed },
    ] {
        let a: Vec<String> = generate(scenario).iter().map(render).collect();
        let b: Vec<String> = generate(scenario).iter().map(render).collect();
        assert_eq!(a, b);
    }
}

#[test]
fn generate_laptop_only_enables_panel() {
    let cmds = generate(DockScenario { dock: None, lid: LidState::Open });
    assert_eq!(cmds.len(), 1);
    assert_eq!(render(&cmds[0]), "eDP-1,preferred,0x0,1");
}

#[test]
fn generate_laptop_only_enables_panel_even_with_lid_closed() {
    let cmds = generate(DockScenario { dock: None, lid: LidState::Closed });
    assert_eq!(cmds.len(), 1);
    assert_eq!(render(&cmds[0]), "eDP-1,preferred,0x0,1");
}

#[test]
fn apartment_offset_is_laptop_width() {
    let cmds = generate(DockScenario { dock: Some(Dock::Apartment), lid: LidState::Open });
    assert_eq!(cmds.len(), 2);
    assert_eq!(render(&cmds[0]), "eDP-1,1920x1200,0x0,1");
    assert_eq!(render(&cmds[1]), "id:2,preferred,1920x0,1");
}

#[test]
fn home_dock_chains_left_to_right() {
    let cmds = generate(DockScenario { dock: Some(Dock::Home), lid: LidState::Open });
    assert_eq!(cmds.len(), 3);
    assert_eq!(render(&cmds[0]), "eDP-1,1920x1200,0x0,1");
    assert_eq!(render(&cmds[1]), "id:1,preferred,1920x0,1");
    // 1920 + 2560 = 4480
    assert_eq!(render(&cmds[2]), "id:2,preferred,4480x0,1");
}

#[test]
fn closed_lid_only_disables_laptop() {
    for dock in [Dock::Apartment, Dock::Home] {
        let cmds = generate(DockScenario { dock: Some(dock), lid: LidState::Closed });
        assert_eq!(cmds.len(), 1);
        assert_eq!(render(&cmds[0]), "eDP-1,disabled");
    }
}

#[test]
fn applying_commands_twice_is_idempotent() {
    // Model the compositor as a selector -> configuration map; each command
    // overwrites its own output's entry. Applying a generated sequence twice
    // must leave the same state as applying it once.
    fn apply(state: &mut std::collections::HashMap<String, String>, commands: &[String]) {
        for command in commands {
            let (selector, rest) = command.split_once(',').unwrap();
            state.insert(selector.to_string(), rest.to_string());
        }
    }
    for scenario in [
        DockScenario { dock: None, lid: LidState::Open },
        DockScenario { dock: Some(Dock::Apartment), lid: LidState::Open },
        DockScenario { dock: Some(Dock::Home), lid: LidState::Open },
        DockScenario { dock: Some(Dock::Apartment), lid: LidState::Closed },
    ] {
        let commands: Vec<String> = generate(scenario).iter().map(render).collect();
        let mut state = std::collections::HashMap::new();
        state.insert("id:7".to_string(), "preferred,auto,1".to_string());
        apply(&mut state, &commands);
        let once = state.clone();
        apply(&mut state, &commands);
        assert_eq!(state, once);
    }
}

#[test]
fn plan_home_dock_open() {
    let monitors = vec![live(1, "DP-5", "External A"), live(2, "DP-6", "External B")];
    let cmds = plan(monitors, LidState::Open).unwrap();
    assert_eq!(
        cmds,
        vec![
            "eDP-1,1920x1200,0x0,1".to_string(),
            "id:1,preferred,1920x0,1".to_string(),
            "id:2,preferred,4480x0,1".to_string(),
        ]
    );
}

#[test]
fn plan_unrecognized_reports_live_list() {
    let monitors = vec![live(3, "DP-7", "External C")];
    let err = plan(monitors, LidState::Open).unwrap_err();
    let ClassificationError::UnrecognizedTopology(ms) = err;
    assert_eq!(ms.len(), 1);
    assert_eq!(ms[0].name, "DP-7");
}

#[test]
fn render_selectors() {
    let desc = PlacementCommand {
        target: MonitorIdentifier::Description("Viewteck GFT27DB".to_string()),
        setting: OutputSetting::Disabled,
    };
    assert_eq!(render(&desc), "desc:Viewteck GFT27DB,disabled");
    let auto = PlacementCommand {
        target: MonitorIdentifier::Port("eDP-1".to_string()),
        setting: OutputSetting::Enabled {
            mode: Mode::Preferred,
            position: Position::Auto,
            scale: 1,
        },
    };
    assert_eq!(render(&auto), "eDP-1,preferred,auto,1");
}

#[test]
fn render_decimal_edges() {
    let zero = MonitorIdentifier::Id(0);
    assert_eq!(zero.to_hyprland_id(), "id:0");
    let max = MonitorIdentifier::Id(u32::MAX);
    assert_eq!(max.to_hyprland_id(), "id:4294967295");
}

#[test]
fn acpid_lines_parse() {
    assert_eq!(
        AcpidEvent::parse("button/lid LID close"),
        Some(AcpidEvent::LidEvent(LidState::Closed))
    );
    assert_eq!(
        AcpidEvent::parse("button/lid LID open"),
        Some(AcpidEvent::LidEvent(LidState::Open))
    );
}

#[test]
fn malformed_acpid_line_is_ignored() {
    assert_eq!(AcpidEvent::parse("garbage"), None);
    assert_eq!(AcpidEvent::parse(""), None);
    assert_eq!(AcpidEvent::parse("button/lid LID ajar"), None);
}

#[test]
fn lid_state_file_content_parses() {
    assert_eq!(parse_lid_state("state:      open\n"), Some(LidState::Open));
    assert_eq!(parse_lid_state("state:      closed\n"), Some(LidState::Closed));
    assert_eq!(parse_lid_state("state:      ajar\n"), None);
    assert_eq!(parse_lid_state(""), None);
}

#[test]
fn lid_is_open() {
    assert!(LidState::Open.is_open());
    assert!(!LidState::Closed.is_open());
}

#[test]
fn catalog_is_fixed() {
    let all = known_monitors();
    assert_eq!(all.len(), 3);
    let laptop = laptop_display();
    assert_eq!(laptop.identifier.to_hyprland_id(), "eDP-1");
    assert_eq!((laptop.width, laptop.height), (1920, 1200));
    let home = home_monitor();
    assert_eq!(home.identifier.to_hyprland_id(), "id:1");
    assert_eq!((home.width, home.height), (2560, 1440));
    let apartment = apartment_monitor();
    assert_eq!(apartment.identifier.to_hyprland_id(), "id:2");
}
