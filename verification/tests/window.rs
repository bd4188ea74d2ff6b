use better_control::navigation::Widget;
use better_control::pages::async_page::{AsyncPage, Content};
use better_control::pages::power::{create_power_page, BatteryReading};
use better_control::shortcuts::{Propagation, CONTROL_MASK};
use better_control::window::build_main_window;

#[test]
fn window_has_six_pages_in_order() {
    let window = build_main_window("balanced", &Vec::new());
    assert_eq!(window.title, "Better Control RS");
    assert_eq!(window.default_width, 900);
    assert_eq!(window.default_height, 600);
    let pages = window.stack.pages();
    let seen: Vec<(&str, &str, Option<&str>)> =
        pages.iter().map(|p| (p.id.as_str(), p.title.as_str(), p.icon.as_deref())).collect();
    assert_eq!(
        seen,
        vec![
            ("audio", "Audio", Some("audio-volume-high-symbolic")),
            ("bluetooth", "Bluetooth", Some("bluetooth-symbolic")),
            ("displays", "Displays", Some("display-symbolic")),
            ("power", "Power", Some("battery-ac-adapter-symbolic")),
            ("system_info", "System Info", Some("dialog-information-symbolic")),
            ("network", "Network", Some("preferences-system-network-symbolic")),
        ]
    );
    assert_eq!(window.stack.selected(), Some("audio"));
}

#[test]
fn window_pages_show_their_widgets() {
    let batteries = vec![Some(BatteryReading {
        state: "Full".to_string(),
        percentage: "100.00".to_string(),
        time_to_full: None,
        time_to_empty: None,
    })];
    let window = build_main_window("performance", &batteries);
    let pages = window.stack.pages();
    assert_eq!(pages[0].widget, Widget::Label("Audio Management Page (empty)".to_string()));
    assert_eq!(pages[1].widget, Widget::Label("Bluetooth Management Page (empty)".to_string()));
    assert_eq!(pages[2].widget, Widget::Label("Display Management Page (empty)".to_string()));
    assert_eq!(pages[3].widget, Widget::Power(create_power_page("performance", &batteries)));
    assert_eq!(pages[4].widget, Widget::Async(AsyncPage::new("System Info")));
    assert_eq!(pages[5].widget, Widget::Label("Network Management Page (empty)".to_string()));
}

#[test]
fn window_shortcuts_reach_every_page() {
    let mut window = build_main_window("balanced", &Vec::new());
    let expected = ["audio", "bluetooth", "displays", "power", "system_info", "network"];
    for (i, id) in expected.iter().enumerate() {
        let key = char::from_digit(i as u32 + 1, 10);
        let r = window.shortcuts.dispatch(&mut window.stack, CONTROL_MASK, key);
        assert_eq!(r, Ok(Propagation::Stop));
        assert_eq!(window.stack.selected(), Some(*id));
    }
    let r = window.shortcuts.dispatch(&mut window.stack, CONTROL_MASK, Some('7'));
    assert_eq!(r, Ok(Propagation::Proceed));
    assert_eq!(window.stack.selected(), Some("network"));
}

#[test]
fn window_system_info_takes_its_lines() {
    let mut window = build_main_window("balanced", &Vec::new());
    let lines = vec!["Hostname: box1".to_string(), "CPU: X (4 cores)".to_string()];
    assert_eq!(window.stack.deliver("system_info", Some(lines)), Ok(true));
    match &window.stack.pages()[4].widget {
        Widget::Async(page) => match page.content() {
            Content::Rows(rows) => {
                assert_eq!(rows.len(), 2);
                assert_eq!((rows[0].title.as_str(), rows[0].subtitle.as_str()), ("Hostname", "box1"));
                assert_eq!((rows[1].title.as_str(), rows[1].subtitle.as_str()), ("CPU", "X (4 cores)"));
            },
            other => panic!("{:?}", other),
        },
        other => panic!("{:?}", other),
    }
    assert_eq!(window.stack.selected(), Some("audio"));
}

#[test]
fn application_has_its_id() {
    assert_eq!(better_control::app::BetterControlApp::new().application_id, "rs.better.control");
}
