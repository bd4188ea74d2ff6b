use better_control::pages::async_page::{AsyncPage, Content};
use better_control::pages::page_trait::Page;
use better_control::pages::rows::{render_line, render_lines, Row};
use better_control::pages::system_info::{row_icon, SystemInfoPage};

fn row(title: &str, subtitle: &str) -> Row {
    Row { title: title.to_string(), subtitle: subtitle.to_string() }
}

#[test]
fn line_is_split_at_first_colon() {
    assert_eq!(render_line("CPU: X (4 cores)"), row("CPU", "X (4 cores)"));
    assert_eq!(render_line("Time: 12:30:05"), row("Time", "12:30:05"));
}

#[test]
fn line_without_colon_is_all_title() {
    assert_eq!(render_line("Unknown"), row("Unknown", ""));
    assert_eq!(render_line("no colon here"), row("no colon here", ""));
}

#[test]
fn parts_lose_the_white_space_around_them() {
    assert_eq!(render_line("  Distro :  Arch Linux \n"), row("Distro", "Arch Linux"));
    assert_eq!(render_line(" plain "), row("plain", ""));
}

#[test]
fn empty_parts_give_empty_text() {
    assert_eq!(render_line(""), row("", ""));
    assert_eq!(render_line(":"), row("", ""));
    assert_eq!(render_line("GPU:"), row("GPU", ""));
    assert_eq!(render_line(": value"), row("", "value"));
}

#[test]
fn lines_become_rows_in_order() {
    let rows = render_lines(&vec!["Hostname: box1".to_string(), "CPU: X (4 cores)".to_string()]);
    assert_eq!(rows, vec![row("Hostname", "box1"), row("CPU", "X (4 cores)")]);
}

#[test]
fn as_many_rows_as_lines() {
    let lines: Vec<String> = (0..25).map(|i| format!("Fact {}: {}", i, i * i)).collect();
    let rows = render_lines(&lines);
    assert_eq!(rows.len(), 25);
    for (i, r) in rows.iter().enumerate() {
        assert_eq!(r.title, format!("Fact {}", i));
        assert_eq!(r.subtitle, format!("{}", i * i));
    }
    assert_eq!(render_lines(&Vec::new()), Vec::<Row>::new());
}

#[test]
fn rows_are_not_sorted() {
    let rows = render_lines(&vec!["b: 2".to_string(), "a: 1".to_string(), "b: 2".to_string()]);
    assert_eq!(rows, vec![row("b", "2"), row("a", "1"), row("b", "2")]);
}

#[test]
fn page_shows_placeholder_first() {
    let page = AsyncPage::new("System Info");
    assert_eq!(page.title(), "System Info");
    assert!(page.is_loading());
    assert!(!page.is_completed());
    assert_eq!(page.content(), &Content::Placeholder("Loading System Info...".to_string()));
}

#[test]
fn page_shows_rows_once_lines_came() {
    let mut page = AsyncPage::new("System Info");
    let changed =
        page.deliver(Some(vec!["Hostname: box1".to_string(), "CPU: X (4 cores)".to_string()]));
    assert!(changed);
    assert!(!page.is_loading());
    assert!(page.is_completed());
    assert_eq!(
        page.content(),
        &Content::Rows(vec![row("Hostname", "box1"), row("CPU", "X (4 cores)")])
    );
}

#[test]
fn page_keeps_placeholder_without_lines() {
    let mut page = AsyncPage::new("Disks");
    let changed = page.deliver(None);
    assert!(!changed);
    assert!(page.is_loading());
    assert!(page.is_completed());
    assert_eq!(page.content(), &Content::Placeholder("Loading Disks...".to_string()));
}

#[test]
fn page_takes_only_the_first_envelope() {
    let mut page = AsyncPage::new("A");
    assert!(page.deliver(Some(vec!["x: 1".to_string()])));
    assert!(!page.deliver(Some(vec!["y: 2".to_string()])));
    assert!(!page.deliver(None));
    assert_eq!(page.content(), &Content::Rows(vec![row("x", "1")]));

    let mut abandoned = AsyncPage::new("B");
    assert!(!abandoned.deliver(None));
    assert!(!abandoned.deliver(Some(vec!["late: 1".to_string()])));
    assert!(abandoned.is_loading());
}

#[test]
fn page_with_no_lines_shows_no_rows() {
    let mut page = AsyncPage::new("Empty");
    assert!(page.deliver(Some(Vec::new())));
    assert!(!page.is_loading());
    assert_eq!(page.content(), &Content::Rows(Vec::new()));
}

#[test]
fn system_info_page_starts_loading() {
    let mut page = SystemInfoPage::new();
    assert_eq!(page.container.title(), "System Info");
    assert_eq!(
        page.get_widget().content(),
        &Content::Placeholder("Loading System Info...".to_string())
    );
    page.refresh();
    assert!(page.container.is_loading());
    assert_eq!(page, SystemInfoPage::new());
}

#[test]
fn system_info_icons_by_place() {
    assert_eq!(row_icon(0), "computer-symbolic");
    assert_eq!(row_icon(1), "cpu-symbolic");
    assert_eq!(row_icon(2), "memory-symbolic");
    assert_eq!(row_icon(3), "applications-engineering-symbolic");
    assert_eq!(row_icon(4), "drive-harddisk-symbolic");
    assert_eq!(row_icon(5), "video-display-symbolic");
    assert_eq!(row_icon(6), "dialog-question-symbolic");
    assert_eq!(row_icon(usize::MAX), "dialog-question-symbolic");
}
