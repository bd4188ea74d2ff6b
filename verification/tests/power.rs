use better_control::pages::power::{
    create_power_page, get_current_power_profile, make_battery_group, profile_toggled,
    BatteryReading, Command, PowerProfile, ProfileButton,
};
use better_control::pages::rows::Row;

fn reading(state: &str, percentage: &str, full: Option<&str>, empty: Option<&str>) -> BatteryReading {
    BatteryReading {
        state: state.to_string(),
        percentage: percentage.to_string(),
        time_to_full: full.map(|s| s.to_string()),
        time_to_empty: empty.map(|s| s.to_string()),
    }
}

fn row(title: &str, subtitle: &str) -> Row {
    Row { title: title.to_string(), subtitle: subtitle.to_string() }
}

#[test]
fn profile_names_labels_icons() {
    assert_eq!(PowerProfile::PowerSaver.name(), "power-saver");
    assert_eq!(PowerProfile::Balanced.name(), "balanced");
    assert_eq!(PowerProfile::Performance.name(), "performance");
    assert_eq!(PowerProfile::PowerSaver.label(), "Power Saver");
    assert_eq!(PowerProfile::Balanced.label(), "Balanced");
    assert_eq!(PowerProfile::Performance.label(), "Performance");
    assert_eq!(PowerProfile::PowerSaver.icon(), "power-profile-power-saver-symbolic");
    assert_eq!(PowerProfile::Balanced.icon(), "power-profile-balanced-symbolic");
    assert_eq!(PowerProfile::Performance.icon(), "power-profile-performance-symbolic");
}

#[test]
fn profile_is_found_by_its_name() {
    for p in [PowerProfile::PowerSaver, PowerProfile::Balanced, PowerProfile::Performance] {
        assert_eq!(PowerProfile::from_name(p.name()), Some(p));
    }
    assert_eq!(PowerProfile::from_name("turbo"), None);
    assert_eq!(PowerProfile::from_name(""), None);
    assert_eq!(PowerProfile::from_name("Balanced"), None);
    assert_eq!(PowerProfile::from_name("balanced\n"), None);
}

#[test]
fn current_profile_is_the_trimmed_output() {
    assert_eq!(get_current_power_profile(Some("performance\n")), "performance");
    assert_eq!(get_current_power_profile(Some("  power-saver  ")), "power-saver");
    assert_eq!(get_current_power_profile(Some("")), "");
}

#[test]
fn current_profile_falls_back_to_balanced() {
    assert_eq!(get_current_power_profile(None), "balanced");
}

#[test]
fn active_button_sets_its_profile() {
    assert_eq!(
        profile_toggled(PowerProfile::Performance, true),
        Some(Command {
            program: "sudo".to_string(),
            args: vec!["powerprofilesctl".to_string(), "set".to_string(), "performance".to_string()],
        })
    );
    let saver = profile_toggled(PowerProfile::PowerSaver, true).unwrap();
    assert_eq!(saver.args[2], "power-saver");
    let balanced = profile_toggled(PowerProfile::Balanced, true).unwrap();
    assert_eq!(balanced.args[2], "balanced");
}

#[test]
fn released_button_runs_nothing() {
    assert_eq!(profile_toggled(PowerProfile::Performance, false), None);
    assert_eq!(profile_toggled(PowerProfile::Balanced, false), None);
}

#[test]
fn button_of_the_profile_in_force_is_active() {
    let page = create_power_page("balanced", &Vec::new());
    assert_eq!(
        page.buttons,
        vec![
            ProfileButton { profile: PowerProfile::PowerSaver, active: false },
            ProfileButton { profile: PowerProfile::Balanced, active: true },
            ProfileButton { profile: PowerProfile::Performance, active: false },
        ]
    );
    assert!(page.batteries.is_empty());
}

#[test]
fn unknown_profile_leaves_all_buttons_released() {
    let page = create_power_page("", &Vec::new());
    assert_eq!(page.buttons.len(), 3);
    assert!(page.buttons.iter().all(|b| !b.active));
    let page = create_power_page("turbo", &Vec::new());
    assert!(page.buttons.iter().all(|b| !b.active));
}

#[test]
fn battery_group_has_four_rows() {
    let group = make_battery_group(0, &reading("Charging", "85.00", Some("1200"), None));
    assert_eq!(group.title, "Battery #1");
    assert_eq!(
        group.rows,
        vec![
            row("State", "State: Charging"),
            row("Percentage", "Percentage: 85.00%"),
            row("Time to Full", "Time to full: 1200 seconds"),
            row("Time to Empty", "Time to empty: N/A"),
        ]
    );
}

#[test]
fn battery_times_when_discharging() {
    let group = make_battery_group(11, &reading("Discharging", "9.50", None, Some("360.5")));
    assert_eq!(group.title, "Battery #12");
    assert_eq!(group.rows[2], row("Time to Full", "Time to full: N/A"));
    assert_eq!(group.rows[3], row("Time to Empty", "Time to empty: 360.5 seconds"));
}

#[test]
fn unread_battery_keeps_its_number() {
    let batteries = vec![
        Some(reading("Full", "100.00", None, None)),
        None,
        Some(reading("Charging", "40.00", Some("10"), None)),
    ];
    let page = create_power_page("performance", &batteries);
    assert_eq!(page.batteries.len(), 2);
    assert_eq!(page.batteries[0].title, "Battery #1");
    assert_eq!(page.batteries[1].title, "Battery #3");
    assert_eq!(page.batteries[1].rows[0], row("State", "State: Charging"));
    assert!(page.buttons[2].active);
}
