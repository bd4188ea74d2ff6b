//! The system information page: the facts it shows, and how each is read
//! out of what the machine reports.

use crate::pages::async_page::{AsyncPage, PageState};
use crate::pages::page_trait::Page;
use crate::text::{
    decimal, find, find_char, find_line, find_text, line_starting_with, lines_of, option_text,
    position, second_field, second_field_bounds, skip_prefixes, strip_prefixes, to_chars,
    to_decimal, trim_bounds, trimmed, trimmed_of, Strip,
};
use vstd::prelude::*;

verus! {

/// The page that shows what is known of the machine. It starts with its
/// placeholder and gets its rows once they have been gathered.
#[derive(Debug, PartialEq, Eq)]
pub struct SystemInfoPage {
    pub container: AsyncPage,
}

impl SystemInfoPage {
    /// The page, showing its placeholder.
    pub fn new() -> (page: SystemInfoPage)
        ensures
            page.container@ == PageState::loading("System Info"@),
    {
        SystemInfoPage { container: AsyncPage::new("System Info") }
    }
}

impl Page for SystemInfoPage {
    type Widget = AsyncPage;

    fn get_widget(&self) -> (widget: &AsyncPage)
        ensures
            *widget == self.container,
    {
        &self.container
    }

    fn refresh(&mut self)
        ensures
            *final(self) == *old(self),
    {
    }
}

/// The icon of the row at place `index` of the page: one for each of the
/// six facts in their order, and a question mark for any row after them.
pub open spec fn row_icon_text(index: int) -> Seq<char> {
    if index == 0 {
        "computer-symbolic"@
    } else if index == 1 {
        "cpu-symbolic"@
    } else if index == 2 {
        "memory-symbolic"@
    } else if index == 3 {
        "applications-engineering-symbolic"@
    } else if index == 4 {
        "drive-harddisk-symbolic"@
    } else if index == 5 {
        "video-display-symbolic"@
    } else {
        "dialog-question-symbolic"@
    }
}

/// The icon of the row at place `index` of the page.
pub fn row_icon(index: usize) -> (icon: &'static str)
    ensures
        icon@ == row_icon_text(index as int),
{
    match index {
        0 => "computer-symbolic",
        1 => "cpu-symbolic",
        2 => "memory-symbolic",
        3 => "applications-engineering-symbolic",
        4 => "drive-harddisk-symbolic",
        5 => "video-display-symbolic",
        _ => "dialog-question-symbolic",
    }
}

/// `text`, or `Unknown` where there is none.
pub open spec fn or_unknown(text: Option<Seq<char>>) -> Seq<char> {
    match text {
        Some(t) => t,
        None => "Unknown"@,
    }
}

/// The line that states the host's name.
pub open spec fn hostname_label_text(hostname: Option<Seq<char>>) -> Seq<char> {
    "Hostname: "@ + or_unknown(hostname)
}

/// The model of the processor, from the kernel's processor table (`None`
/// where it could not be read): in the first line that begins with
/// `model name`, the second of the fields that colons part, without the
/// white space around it. `Unknown` without such a line.
pub open spec fn cpu_model_text(cpuinfo: Option<Seq<char>>) -> Seq<char> {
    match cpuinfo {
        Some(content) => match line_starting_with(content, "model name"@) {
            Some(line) => trimmed(second_field(line, ':')),
            None => "Unknown"@,
        },
        None => "Unknown"@,
    }
}

/// The line that states the processor's model and the number of its cores.
pub open spec fn cpu_label_text(model: Seq<char>, cores: nat) -> Seq<char> {
    "CPU: "@ + model + " ("@ + decimal(cores) + " cores)"@
}

/// The line that states the memory in use and the memory there is, both
/// already written out in GiB.
pub open spec fn memory_label_text(used: Seq<char>, total: Seq<char>) -> Seq<char> {
    "Memory: "@ + used + " GiB / "@ + total + " GiB"@
}

/// The name of the distribution, from the release file of the system
/// (`None` where it could not be read): in the first line that begins with
/// `PRETTY_NAME=`, what follows that key, without the double quotes around
/// it. `Unknown` without such a line.
pub open spec fn distro_name_text(os_release: Option<Seq<char>>) -> Seq<char> {
    match os_release {
        Some(content) => match line_starting_with(content, "PRETTY_NAME="@) {
            Some(line) => trimmed_of(strip_prefixes(line, "PRETTY_NAME="@), Strip::Char('"')),
            None => "Unknown"@,
        },
        None => "Unknown"@,
    }
}

/// The line that states the distribution.
pub open spec fn distro_label_text(name: Seq<char>) -> Seq<char> {
    "Distro: "@ + name
}

/// The line that states the disk space in use and the disk space there is,
/// both already written out in GiB; `None` where the disk could not be
/// asked.
pub open spec fn disk_label_text(usage: Option<(Seq<char>, Seq<char>)>) -> Seq<char> {
    match usage {
        Some((used, total)) => "Disk: "@ + used + " GiB / "@ + total + " GiB"@,
        None => "Disk: Unknown"@,
    }
}

/// What follows the word `controller` in `text`, a colon right after the
/// word included, without the white space around it; all of `text` without
/// the white space around it where the word does not occur.
pub open spec fn after_controller(text: Seq<char>) -> Seq<char> {
    match find(text, "controller:"@) {
        Some(i) => trimmed(text.skip(i + "controller:"@.len())),
        None => match find(text, "controller"@) {
            Some(i) => trimmed(text.skip(i + "controller"@.len())),
            None => trimmed(text),
        },
    }
}

/// The name of the graphics adapter, from the line that the bus listing
/// printed for it (`None` where the listing could not be had): of the line
/// without the white space around it, what follows the first colon and then
/// the word `controller`. A line without colon is taken whole.
pub open spec fn gpu_name_text(listing: Option<Seq<char>>) -> Seq<char> {
    match listing {
        Some(output) => {
            let line = trimmed(output);
            let p = position(line, ':');
            if p < line.len() {
                after_controller(line.skip(p + 1))
            } else {
                line
            }
        },
        None => "Unknown"@,
    }
}

/// The line that states the graphics adapter.
pub open spec fn gpu_label_text(name: Seq<char>) -> Seq<char> {
    "GPU: "@ + name
}

/// The line that states the host's name.
pub fn hostname_label(hostname: Option<&str>) -> (label: String)
    ensures
        label@ == hostname_label_text(
            match hostname {
                Some(name) => Some(name@),
                None => None,
            },
        ),
{
    let mut label = "Hostname: ".to_owned();
    match hostname {
        Some(name) => label.append(name),
        None => label.append("Unknown"),
    }
    label
}

/// The model of the processor, from the kernel's processor table.
pub fn cpu_model(cpuinfo: Option<&str>) -> (model: String)
    ensures
        model@ == cpu_model_text(
            match cpuinfo {
                Some(content) => Some(content@),
                None => None,
            },
        ),
{
    match cpuinfo {
        Some(content) => {
            let chars = to_chars(content);
            let key = to_chars("model name");
            match find_line(&chars, &key) {
                Some((a, b)) => {
                    let (c, d) = second_field_bounds(&chars, a, b, ':');
                    let (e, f) = trim_bounds(&chars, c, d, Strip::WhiteSpace);
                    content.substring_char(e, f).to_owned()
                },
                None => "Unknown".to_owned(),
            }
        },
        None => "Unknown".to_owned(),
    }
}

/// The line that states the processor's model and the number of its cores.
pub fn cpu_label(model: &str, cores: usize) -> (label: String)
    ensures
        label@ == cpu_label_text(model@, cores as nat),
{
    let mut label = "CPU: ".to_owned();
    label.append(model);
    label.append(" (");
    label.append(to_decimal(cores).as_str());
    label.append(" cores)");
    label
}

/// The line that states the memory in use and the memory there is.
pub fn memory_label(used: &str, total: &str) -> (label: String)
    ensures
        label@ == memory_label_text(used@, total@),
{
    let mut label = "Memory: ".to_owned();
    label.append(used);
    label.append(" GiB / ");
    label.append(total);
    label.append(" GiB");
    label
}

/// The name of the distribution, from the release file of the system.
pub fn distro_name(os_release: Option<&str>) -> (name: String)
    ensures
        name@ == distro_name_text(
            match os_release {
                Some(content) => Some(content@),
                None => None,
            },
        ),
{
    match os_release {
        Some(content) => {
            let chars = to_chars(content);
            let key = to_chars("PRETTY_NAME=");
            match find_line(&chars, &key) {
                Some((a, b)) => {
                    let c = skip_prefixes(&chars, a, b, &key);
                    let (e, f) = trim_bounds(&chars, c, b, Strip::Char('"'));
                    content.substring_char(e, f).to_owned()
                },
                None => "Unknown".to_owned(),
            }
        },
        None => "Unknown".to_owned(),
    }
}

/// The line that states the distribution.
pub fn distro_label(name: &str) -> (label: String)
    ensures
        label@ == distro_label_text(name@),
{
    let mut label = "Distro: ".to_owned();
    label.append(name);
    label
}

/// The disk space in use and the disk space there is, in bytes, from the
/// number of blocks of the file system, the number of them that are
/// available, and the size of a block.
pub fn disk_usage(blocks: u64, available: u64, fragment_size: u64) -> (usage: (u64, u64))
    requires
        available <= blocks,
        blocks * fragment_size <= u64::MAX,
    ensures
        usage.0 == (blocks - available) * fragment_size,
        usage.1 == blocks * fragment_size,
{
    proof {
        assert(available * fragment_size <= blocks * fragment_size) by (nonlinear_arith)
            requires
                available <= blocks,
        ;
        assert((blocks - available) * fragment_size == blocks * fragment_size - available
            * fragment_size) by (nonlinear_arith);
    }
    let total = blocks * fragment_size;
    let free = available * fragment_size;
    (total - free, total)
}

/// The line that states the disk space in use and the disk space there is.
pub fn disk_label(usage: Option<(&str, &str)>) -> (label: String)
    ensures
        label@ == disk_label_text(
            match usage {
                Some((used, total)) => Some((used@, total@)),
                None => None,
            },
        ),
{
    match usage {
        Some((used, total)) => {
            let mut label = "Disk: ".to_owned();
            label.append(used);
            label.append(" GiB / ");
            label.append(total);
            label.append(" GiB");
            label
        },
        None => "Disk: Unknown".to_owned(),
    }
}

/// The name of the graphics adapter, from the line that the bus listing
/// printed for it.
pub fn gpu_name(listing: Option<&str>) -> (name: String)
    ensures
        name@ == gpu_name_text(
            match listing {
                Some(output) => Some(output@),
                None => None,
            },
        ),
{
    match listing {
        Some(output) => {
            let chars = to_chars(output);
            let n = chars.len();
            assert(chars@.subrange(0, n as int) =~= output@);
            let (a, b) = trim_bounds(&chars, 0, n, Strip::WhiteSpace);
            let ghost line = chars@.subrange(a as int, b as int);
            let p = find_char(&chars, a, b, ':');
            if p < b - a {
                let start = a + p + 1;
                let ghost after = line.skip(p + 1);
                assert(after =~= chars@.subrange(start as int, b as int));
                let long = to_chars("controller:");
                let short = to_chars("controller");
                let from = match find_text(&chars, start, b, &long) {
                    Some(i) => start + i + long.len(),
                    None => match find_text(&chars, start, b, &short) {
                        Some(i) => start + i + short.len(),
                        None => start,
                    },
                };
                assert(after.skip(from - start) =~= chars@.subrange(from as int, b as int));
                let (e, f) = trim_bounds(&chars, from, b, Strip::WhiteSpace);
                output.substring_char(e, f).to_owned()
            } else {
                output.substring_char(a, b).to_owned()
            }
        },
        None => "Unknown".to_owned(),
    }
}

/// The line that states the graphics adapter.
pub fn gpu_label(name: &str) -> (label: String)
    ensures
        label@ == gpu_label_text(name@),
{
    let mut label = "GPU: ".to_owned();
    label.append(name);
    label
}

/// What was read of the machine, each number already written out.
#[derive(Debug, PartialEq, Eq)]
pub struct SystemReadings {
    /// The host's name, where it is known.
    pub hostname: Option<String>,
    /// The kernel's processor table, where it could be read.
    pub cpuinfo: Option<String>,
    /// The number of processor cores.
    pub cores: usize,
    /// The memory in use, in GiB.
    pub memory_used: String,
    /// The memory there is, in GiB.
    pub memory_total: String,
    /// The release file of the system, where it could be read.
    pub os_release: Option<String>,
    /// The disk space in use and the disk space there is, in GiB, where the
    /// disk could be asked.
    pub disk: Option<(String, String)>,
    /// What the bus listing printed for the graphics adapter, where it could
    /// be had.
    pub gpu_listing: Option<String>,
}

/// What was read of the machine, as text.
pub struct ReadingsText {
    pub hostname: Option<Seq<char>>,
    pub cpuinfo: Option<Seq<char>>,
    pub cores: nat,
    pub memory_used: Seq<char>,
    pub memory_total: Seq<char>,
    pub os_release: Option<Seq<char>>,
    pub disk: Option<(Seq<char>, Seq<char>)>,
    pub gpu_listing: Option<Seq<char>>,
}

impl View for SystemReadings {
    type V = ReadingsText;

    open spec fn view(&self) -> ReadingsText {
        ReadingsText {
            hostname: option_text(self.hostname),
            cpuinfo: option_text(self.cpuinfo),
            cores: self.cores as nat,
            memory_used: self.memory_used@,
            memory_total: self.memory_total@,
            os_release: option_text(self.os_release),
            disk: match self.disk {
                Some((used, total)) => Some((used@, total@)),
                None => None,
            },
            gpu_listing: option_text(self.gpu_listing),
        }
    }
}

/// The lines of the page: host, processor, memory, distribution, disk and
/// graphics adapter, in this order.
pub open spec fn system_info_text(readings: ReadingsText) -> Seq<Seq<char>> {
    seq![
        hostname_label_text(readings.hostname),
        cpu_label_text(cpu_model_text(readings.cpuinfo), readings.cores),
        memory_label_text(readings.memory_used, readings.memory_total),
        distro_label_text(distro_name_text(readings.os_release)),
        disk_label_text(readings.disk),
        gpu_label_text(gpu_name_text(readings.gpu_listing)),
    ]
}

/// A string as text, where there is one.
fn as_text(s: &Option<String>) -> (r: Option<&str>)
    ensures
        match r {
            Some(text) => Some(text@),
            None => None,
        } == option_text(*s),
{
    match s {
        Some(text) => Some(text.as_str()),
        None => None,
    }
}

/// The lines of the page, from what was read of the machine.
pub fn system_info_lines(readings: &SystemReadings) -> (lines: Vec<String>)
    ensures
        lines_of(lines@) == system_info_text(readings@),
{
    let mut lines: Vec<String> = Vec::new();
    lines.push(hostname_label(as_text(&readings.hostname)));
    let model = cpu_model(as_text(&readings.cpuinfo));
    lines.push(cpu_label(model.as_str(), readings.cores));
    lines.push(memory_label(readings.memory_used.as_str(), readings.memory_total.as_str()));
    let distro = distro_name(as_text(&readings.os_release));
    lines.push(distro_label(distro.as_str()));
    let disk = match &readings.disk {
        Some((used, total)) => Some((used.as_str(), total.as_str())),
        None => None,
    };
    lines.push(disk_label(disk));
    let gpu = gpu_name(as_text(&readings.gpu_listing));
    lines.push(gpu_label(gpu.as_str()));
    lines
}

} // verus!
