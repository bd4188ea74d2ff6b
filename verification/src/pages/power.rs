//! The power page: the switch between power profiles, the command that a
//! switch sends, and what is shown of each battery.

use crate::pages::rows::{rows_text, Row, RowText};
use crate::text::{decimal, lines_of, option_text, same_text, to_decimal, trim, trimmed};
use vstd::prelude::*;

verus! {

/// A power profile of the machine.
#[derive(Debug, Clone, Copy, PartialEq, Eq, Structural)]
pub enum PowerProfile {
    PowerSaver,
    Balanced,
    Performance,
}

impl PowerProfile {
    /// The name by which the profile daemon knows the profile.
    pub open spec fn name_text(self) -> Seq<char> {
        match self {
            PowerProfile::PowerSaver => "power-saver"@,
            PowerProfile::Balanced => "balanced"@,
            PowerProfile::Performance => "performance"@,
        }
    }

    /// What the profile's button is labelled.
    pub open spec fn label_text(self) -> Seq<char> {
        match self {
            PowerProfile::PowerSaver => "Power Saver"@,
            PowerProfile::Balanced => "Balanced"@,
            PowerProfile::Performance => "Performance"@,
        }
    }

    /// The icon on the profile's button.
    pub open spec fn icon_text(self) -> Seq<char> {
        match self {
            PowerProfile::PowerSaver => "power-profile-power-saver-symbolic"@,
            PowerProfile::Balanced => "power-profile-balanced-symbolic"@,
            PowerProfile::Performance => "power-profile-performance-symbolic"@,
        }
    }

    /// The profile that `name` names.
    pub open spec fn named(name: Seq<char>) -> Option<PowerProfile> {
        if name == PowerProfile::PowerSaver.name_text() {
            Some(PowerProfile::PowerSaver)
        } else if name == PowerProfile::Balanced.name_text() {
            Some(PowerProfile::Balanced)
        } else if name == PowerProfile::Performance.name_text() {
            Some(PowerProfile::Performance)
        } else {
            None
        }
    }

    /// The profiles in the order of their buttons.
    pub open spec fn all() -> Seq<PowerProfile> {
        seq![PowerProfile::PowerSaver, PowerProfile::Balanced, PowerProfile::Performance]
    }

    /// Each profile is found again by its name: no two profiles share one.
    pub proof fn lemma_named_by_name(self)
        ensures
            PowerProfile::named(self.name_text()) == Some(self),
    {
        reveal_strlit("power-saver");
        reveal_strlit("balanced");
        reveal_strlit("performance");
        assert("power-saver"@[1] == 'o');
        assert("performance"@[1] == 'e');
    }

    /// The name by which the profile daemon knows the profile.
    pub fn name(self) -> (r: &'static str)
        ensures
            r@ == self.name_text(),
    {
        match self {
            PowerProfile::PowerSaver => "power-saver",
            PowerProfile::Balanced => "balanced",
            PowerProfile::Performance => "performance",
        }
    }

    /// What the profile's button is labelled.
    pub fn label(self) -> (r: &'static str)
        ensures
            r@ == self.label_text(),
    {
        match self {
            PowerProfile::PowerSaver => "Power Saver",
            PowerProfile::Balanced => "Balanced",
            PowerProfile::Performance => "Performance",
        }
    }

    /// The icon on the profile's button.
    pub fn icon(self) -> (r: &'static str)
        ensures
            r@ == self.icon_text(),
    {
        match self {
            PowerProfile::PowerSaver => "power-profile-power-saver-symbolic",
            PowerProfile::Balanced => "power-profile-balanced-symbolic",
            PowerProfile::Performance => "power-profile-performance-symbolic",
        }
    }

    /// The profile that `name` names, if it names one.
    pub fn from_name(name: &str) -> (r: Option<PowerProfile>)
        ensures
            r == PowerProfile::named(name@),
    {
        if same_text(name, PowerProfile::PowerSaver.name()) {
            Some(PowerProfile::PowerSaver)
        } else if same_text(name, PowerProfile::Balanced.name()) {
            Some(PowerProfile::Balanced)
        } else if same_text(name, PowerProfile::Performance.name()) {
            Some(PowerProfile::Performance)
        } else {
            None
        }
    }
}

/// The profile in force, from what the profile daemon printed when asked
/// (`None` where it could not be asked): the output without the white space
/// around it, and `balanced` where there is no output.
pub open spec fn current_profile_text(output: Option<Seq<char>>) -> Seq<char> {
    match output {
        Some(text) => trimmed(text),
        None => PowerProfile::Balanced.name_text(),
    }
}

/// The profile in force, from what the profile daemon printed when asked.
pub fn get_current_power_profile(output: Option<&str>) -> (name: String)
    ensures
        name@ == current_profile_text(
            match output {
                Some(text) => Some(text@),
                None => None,
            },
        ),
{
    match output {
        Some(text) => trim(text).to_owned(),
        None => PowerProfile::Balanced.name().to_owned(),
    }
}

/// A program to run, with its arguments.
#[derive(Debug, PartialEq, Eq)]
pub struct Command {
    pub program: String,
    pub args: Vec<String>,
}

/// A command as text.
pub struct CommandText {
    pub program: Seq<char>,
    pub args: Seq<Seq<char>>,
}

impl View for Command {
    type V = CommandText;

    open spec fn view(&self) -> CommandText {
        CommandText { program: self.program@, args: lines_of(self.args@) }
    }
}

/// The command that puts `profile` in force: the profile tool, run with
/// raised rights, told to set the profile by its name.
pub open spec fn set_profile_command(profile: PowerProfile) -> CommandText {
    CommandText { program: "sudo"@, args: seq!["powerprofilesctl"@, "set"@, profile.name_text()] }
}

/// What is to be run once the button of `profile` has changed to `active`:
/// the command that sets the profile where the button became active, and
/// nothing where it was released.
pub open spec fn toggle_action(profile: PowerProfile, active: bool) -> Option<CommandText> {
    if active {
        Some(set_profile_command(profile))
    } else {
        None
    }
}

/// What is to be run once the button of `profile` has changed to `active`.
pub fn profile_toggled(profile: PowerProfile, active: bool) -> (command: Option<Command>)
    ensures
        match command {
            Some(c) => Some(c@),
            None => None,
        } == toggle_action(profile, active),
{
    if active {
        let mut args: Vec<String> = Vec::new();
        args.push("powerprofilesctl".to_owned());
        args.push("set".to_owned());
        args.push(profile.name().to_owned());
        let command = Command { program: "sudo".to_owned(), args };
        assert(command@.args =~= set_profile_command(profile).args);
        Some(command)
    } else {
        None
    }
}

/// The button of one profile.
#[derive(Debug, Clone, Copy, PartialEq, Eq, Structural)]
pub struct ProfileButton {
    pub profile: PowerProfile,
    pub active: bool,
}

/// The buttons of the switch while the profile called `current` is in force:
/// one for each profile, in order, and active where its profile is the one
/// in force.
pub open spec fn profile_buttons(current: Seq<char>) -> Seq<ProfileButton> {
    Seq::new(
        3,
        |i: int|
            ProfileButton {
                profile: PowerProfile::all()[i],
                active: PowerProfile::all()[i].name_text() == current,
            },
    )
}

/// At most one button of the switch is active.
pub proof fn lemma_one_active_button(current: Seq<char>, i: int, j: int)
    requires
        0 <= i < 3,
        0 <= j < 3,
        profile_buttons(current)[i].active,
        profile_buttons(current)[j].active,
    ensures
        i == j,
{
    PowerProfile::all()[i].lemma_named_by_name();
    PowerProfile::all()[j].lemma_named_by_name();
}

/// What was read of one battery, each number already written out.
#[derive(Debug, PartialEq, Eq)]
pub struct BatteryReading {
    pub state: String,
    pub percentage: String,
    pub time_to_full: Option<String>,
    pub time_to_empty: Option<String>,
}

/// A battery reading as text.
pub struct ReadingText {
    pub state: Seq<char>,
    pub percentage: Seq<char>,
    pub time_to_full: Option<Seq<char>>,
    pub time_to_empty: Option<Seq<char>>,
}

impl View for BatteryReading {
    type V = ReadingText;

    open spec fn view(&self) -> ReadingText {
        ReadingText {
            state: self.state@,
            percentage: self.percentage@,
            time_to_full: option_text(self.time_to_full),
            time_to_empty: option_text(self.time_to_empty),
        }
    }
}

/// What is shown of one battery: a heading and four rows.
#[derive(Debug, PartialEq, Eq)]
pub struct BatteryGroup {
    pub title: String,
    pub rows: Vec<Row>,
}

/// A battery group as text.
pub struct GroupText {
    pub title: Seq<char>,
    pub rows: Seq<RowText>,
}

impl View for BatteryGroup {
    type V = GroupText;

    open spec fn view(&self) -> GroupText {
        GroupText { title: self.title@, rows: rows_text(self.rows@) }
    }
}

/// A time in seconds after `prefix`, or that there is none.
pub open spec fn time_text(prefix: Seq<char>, seconds: Option<Seq<char>>) -> Seq<char> {
    match seconds {
        Some(value) => prefix + value + " seconds"@,
        None => prefix + "N/A"@,
    }
}

/// The rows of one battery: state, charge, time to full, time to empty.
pub open spec fn battery_rows(reading: ReadingText) -> Seq<RowText> {
    seq![
        RowText { title: "State"@, subtitle: "State: "@ + reading.state },
        RowText { title: "Percentage"@, subtitle: "Percentage: "@ + reading.percentage + "%"@ },
        RowText {
            title: "Time to Full"@,
            subtitle: time_text("Time to full: "@, reading.time_to_full),
        },
        RowText {
            title: "Time to Empty"@,
            subtitle: time_text("Time to empty: "@, reading.time_to_empty),
        },
    ]
}

/// The icon of the row at place `index` of a battery's rows.
pub open spec fn battery_row_icon_text(index: int) -> Seq<char> {
    if index == 0 {
        "battery-symbolic"@
    } else if index == 1 {
        "battery-full-symbolic"@
    } else {
        "chronometer-symbolic"@
    }
}

/// The icon of the row at place `index` of a battery's rows.
pub fn battery_row_icon(index: usize) -> (icon: &'static str)
    ensures
        icon@ == battery_row_icon_text(index as int),
{
    match index {
        0 => "battery-symbolic",
        1 => "battery-full-symbolic",
        _ => "chronometer-symbolic",
    }
}

/// What is shown of the battery found at `index`, counted from 0: batteries
/// are numbered from 1.
pub open spec fn battery_group(index: nat, reading: ReadingText) -> GroupText {
    GroupText { title: "Battery #"@ + decimal(index + 1), rows: battery_rows(reading) }
}

/// The readings of `v` as text.
pub open spec fn readings_text(v: Seq<Option<BatteryReading>>) -> Seq<Option<ReadingText>> {
    Seq::new(
        v.len(),
        |i: int|
            match v[i] {
                Some(reading) => Some(reading@),
                None => None,
            },
    )
}

/// The groups of `v` as text.
pub open spec fn groups_text(v: Seq<BatteryGroup>) -> Seq<GroupText> {
    Seq::new(v.len(), |i: int| v[i]@)
}

/// What is shown of the batteries: a group for each one that could be read,
/// in order. One that could not be read shows nothing and keeps its number.
pub open spec fn battery_groups(readings: Seq<Option<ReadingText>>) -> Seq<GroupText>
    decreases readings.len(),
{
    if readings.len() == 0 {
        Seq::empty()
    } else {
        let before = battery_groups(readings.drop_last());
        match readings.last() {
            Some(reading) => before.push(battery_group((readings.len() - 1) as nat, reading)),
            None => before,
        }
    }
}

/// The text that shows a time after `prefix`.
fn time_row_text(prefix: &str, seconds: &Option<String>) -> (text: String)
    ensures
        text@ == time_text(prefix@, option_text(*seconds)),
{
    let mut text = prefix.to_owned();
    match seconds {
        Some(value) => {
            text.append(value.as_str());
            text.append(" seconds");
        },
        None => {
            text.append("N/A");
        },
    }
    text
}

/// What is shown of the battery found at `index`.
pub fn make_battery_group(index: usize, reading: &BatteryReading) -> (group: BatteryGroup)
    requires
        index < usize::MAX,
    ensures
        group@ == battery_group(index as nat, reading@),
{
    let mut title = "Battery #".to_owned();
    title.append(to_decimal(index + 1).as_str());
    let mut state = "State: ".to_owned();
    state.append(reading.state.as_str());
    let mut percentage = "Percentage: ".to_owned();
    percentage.append(reading.percentage.as_str());
    percentage.append("%");
    let mut rows: Vec<Row> = Vec::new();
    rows.push(Row { title: "State".to_owned(), subtitle: state });
    rows.push(Row { title: "Percentage".to_owned(), subtitle: percentage });
    rows.push(
        Row {
            title: "Time to Full".to_owned(),
            subtitle: time_row_text("Time to full: ", &reading.time_to_full),
        },
    );
    rows.push(
        Row {
            title: "Time to Empty".to_owned(),
            subtitle: time_row_text("Time to empty: ", &reading.time_to_empty),
        },
    );
    let group = BatteryGroup { title, rows };
    assert(group@.rows =~= battery_rows(reading@));
    group
}

/// The power page: the profile switch and the batteries.
#[derive(Debug, PartialEq, Eq)]
pub struct PowerPage {
    pub buttons: Vec<ProfileButton>,
    pub batteries: Vec<BatteryGroup>,
}

/// The power page as text.
pub struct PowerPageText {
    pub buttons: Seq<ProfileButton>,
    pub batteries: Seq<GroupText>,
}

impl View for PowerPage {
    type V = PowerPageText;

    open spec fn view(&self) -> PowerPageText {
        PowerPageText { buttons: self.buttons@, batteries: groups_text(self.batteries@) }
    }
}

/// The power page while the profile called `current` is in force and the
/// batteries read as `readings`.
pub open spec fn power_page(
    current: Seq<char>,
    readings: Seq<Option<ReadingText>>,
) -> PowerPageText {
    PowerPageText { buttons: profile_buttons(current), batteries: battery_groups(readings) }
}

/// Builds the power page from the name of the profile in force and from what
/// was read of each battery (`None` for one that could not be read).
pub fn create_power_page(current_profile: &str, batteries: &Vec<Option<BatteryReading>>) -> (page:
    PowerPage)
    ensures
        page@ == power_page(current_profile@, readings_text(batteries@)),
{
    let mut buttons: Vec<ProfileButton> = Vec::new();
    buttons.push(
        ProfileButton {
            profile: PowerProfile::PowerSaver,
            active: same_text(PowerProfile::PowerSaver.name(), current_profile),
        },
    );
    buttons.push(
        ProfileButton {
            profile: PowerProfile::Balanced,
            active: same_text(PowerProfile::Balanced.name(), current_profile),
        },
    );
    buttons.push(
        ProfileButton {
            profile: PowerProfile::Performance,
            active: same_text(PowerProfile::Performance.name(), current_profile),
        },
    );
    assert(buttons@ =~= profile_buttons(current_profile@));
    let ghost readings = readings_text(batteries@);
    let mut groups: Vec<BatteryGroup> = Vec::new();
    let mut i: usize = 0;
    while i < batteries.len()
        invariant
            i <= batteries.len(),
            readings == readings_text(batteries@),
            groups_text(groups@) == battery_groups(readings.take(i as int)),
        decreases batteries.len() - i,
    {
        match &batteries[i] {
            Some(reading) => {
                let group = make_battery_group(i, reading);
                groups.push(group);
            },
            None => {},
        }
        proof {
            assert(readings.take(i + 1).drop_last() =~= readings.take(i as int));
        }
        i += 1;
    }
    assert(readings.take(i as int) =~= readings);
    PowerPage { buttons, batteries: groups }
}

} // verus!
