//! The main window: its pages in their order, and its shortcuts.

use crate::navigation::{NavigationStack, PageText, StackState, Widget, WidgetText};
use crate::pages::async_page::PageState;
use crate::pages::power::{
    create_power_page, power_page, readings_text, BatteryReading, PowerPageText,
};
use crate::pages::system_info::SystemInfoPage;
use crate::shortcuts::{
    default_bindings, holds, lemma_default_target, page_for_key, target, ShortcutTable,
    ShortcutText, CONTROL_MASK,
};
use vstd::prelude::*;

verus! {

/// The main window of the panel.
#[derive(Debug, PartialEq, Eq)]
pub struct MainWindow {
    pub title: String,
    pub default_width: i32,
    pub default_height: i32,
    pub stack: NavigationStack,
    pub shortcuts: ShortcutTable,
}

/// The main window as text.
pub struct WindowState {
    pub title: Seq<char>,
    pub default_width: i32,
    pub default_height: i32,
    pub stack: StackState,
    pub shortcuts: Seq<ShortcutText>,
}

impl View for MainWindow {
    type V = WindowState;

    open spec fn view(&self) -> WindowState {
        WindowState {
            title: self.title@,
            default_width: self.default_width,
            default_height: self.default_height,
            stack: self.stack@,
            shortcuts: self.shortcuts@,
        }
    }
}

/// The pages of the main window in the order of their registration, the
/// power page showing `power`.
pub open spec fn main_pages(power: PowerPageText) -> Seq<PageText> {
    seq![
        PageText {
            id: "audio"@,
            title: "Audio"@,
            icon: Some("audio-volume-high-symbolic"@),
            widget: WidgetText::Label("Audio Management Page (empty)"@),
        },
        PageText {
            id: "bluetooth"@,
            title: "Bluetooth"@,
            icon: Some("bluetooth-symbolic"@),
            widget: WidgetText::Label("Bluetooth Management Page (empty)"@),
        },
        PageText {
            id: "displays"@,
            title: "Displays"@,
            icon: Some("display-symbolic"@),
            widget: WidgetText::Label("Display Management Page (empty)"@),
        },
        PageText {
            id: "power"@,
            title: "Power"@,
            icon: Some("battery-ac-adapter-symbolic"@),
            widget: WidgetText::Power(power),
        },
        PageText {
            id: "system_info"@,
            title: "System Info"@,
            icon: Some("dialog-information-symbolic"@),
            widget: WidgetText::Async(PageState::loading("System Info"@)),
        },
        PageText {
            id: "network"@,
            title: "Network"@,
            icon: Some("preferences-system-network-symbolic"@),
            widget: WidgetText::Label("Network Management Page (empty)"@),
        },
    ]
}

/// The ids of the main window's pages, in the order of the pages.
pub open spec fn main_ids() -> Seq<Seq<char>> {
    seq!["audio"@, "bluetooth"@, "displays"@, "power"@, "system_info"@, "network"@]
}

/// The stack of the main window as it is built: its six pages, the first
/// one shown.
pub open spec fn main_stack(power: PowerPageText) -> StackState {
    StackState { pages: main_pages(power), selected: Some(0) }
}

/// The main window as it is built: its stack and the panel's shortcuts.
pub open spec fn main_window(power: PowerPageText) -> WindowState {
    WindowState {
        title: "Better Control RS"@,
        default_width: 900,
        default_height: 600,
        stack: main_stack(power),
        shortcuts: default_bindings(),
    }
}

/// The ids of the main window's pages are six different ones.
pub proof fn lemma_main_ids(power: PowerPageText)
    ensures
        main_stack(power).ids() == main_ids(),
        main_stack(power).valid(),
{
    reveal_strlit("audio");
    reveal_strlit("bluetooth");
    reveal_strlit("displays");
    reveal_strlit("power");
    reveal_strlit("system_info");
    reveal_strlit("network");
    assert("bluetooth"@.len() == 9);
    assert("displays"@.len() == 8);
    assert("power"@.len() == 5 && "power"@[0] == 'p');
    assert("system_info"@.len() == 11);
    assert("network"@.len() == 7);
}

/// Every shortcut of the main window is for one of its pages, whatever has
/// been selected or delivered since the window was built: a digit from 1 to
/// 6 pressed with control shows the page of that number, which is then the
/// only one shown; any other press is no shortcut.
pub proof fn lemma_main_shortcuts(stack: StackState, state: u32, key: Option<char>)
    requires
        stack.valid(),
        stack.ids() == main_ids(),
    ensures
        target(default_bindings(), state, key) matches Some(id) ==> {
            &&& holds(state, CONTROL_MASK)
            &&& page_for_key(key) == Some(id)
            &&& stack.registered(id)
            &&& stack.selecting(id).valid()
            &&& stack.selecting(id).ids() == main_ids()
            &&& stack.selecting(id).selected_id() == Some(id)
        },
        target(default_bindings(), state, key) is None <==> !holds(state, CONTROL_MASK)
            || page_for_key(key) is None,
{
    lemma_default_target(state, key);
    if let Some(id) = target(default_bindings(), state, key) {
        stack.lemma_selecting_shows_one(id);
    }
}

/// Builds the main window from the name of the power profile in force and
/// from what was read of each battery.
pub fn build_main_window(current_profile: &str, batteries: &Vec<Option<BatteryReading>>) -> (window:
    MainWindow)
    ensures
        window@ == main_window(power_page(current_profile@, readings_text(batteries@))),
{
    let ghost power_text = power_page(current_profile@, readings_text(batteries@));
    let ghost pages = main_pages(power_text);
    let ghost s0 = StackState::empty();
    let ghost s1 = s0.with_page(pages[0]);
    let ghost s2 = s1.with_page(pages[1]);
    let ghost s3 = s2.with_page(pages[2]);
    let ghost s4 = s3.with_page(pages[3]);
    let ghost s5 = s4.with_page(pages[4]);
    let ghost s6 = s5.with_page(pages[5]);
    proof {
        lemma_main_ids(power_text);
        assert(s6.pages =~= pages);
    }
    let mut stack = NavigationStack::new();
    let _ = stack.register(
        "audio",
        "Audio",
        Some("audio-volume-high-symbolic"),
        Widget::Label("Audio Management Page (empty)".to_owned()),
    );
    let _ = stack.register(
        "bluetooth",
        "Bluetooth",
        Some("bluetooth-symbolic"),
        Widget::Label("Bluetooth Management Page (empty)".to_owned()),
    );
    let _ = stack.register(
        "displays",
        "Displays",
        Some("display-symbolic"),
        Widget::Label("Display Management Page (empty)".to_owned()),
    );
    let power = create_power_page(current_profile, batteries);
    let _ = stack.register(
        "power",
        "Power",
        Some("battery-ac-adapter-symbolic"),
        Widget::Power(power),
    );
    let system_info_page = SystemInfoPage::new();
    let _ = stack.register(
        "system_info",
        "System Info",
        Some("dialog-information-symbolic"),
        Widget::Async(system_info_page.container),
    );
    let _ = stack.register(
        "network",
        "Network",
        Some("preferences-system-network-symbolic"),
        Widget::Label("Network Management Page (empty)".to_owned()),
    );
    MainWindow {
        title: "Better Control RS".to_owned(),
        default_width: 900,
        default_height: 600,
        stack,
        shortcuts: ShortcutTable::new(),
    }
}

} // verus!
