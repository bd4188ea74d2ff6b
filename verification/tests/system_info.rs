use better_control::pages::rows::{render_lines, Row};
use better_control::pages::system_info::{
    cpu_label, cpu_model, disk_label, disk_usage, distro_label, distro_name, gpu_label, gpu_name,
    hostname_label, memory_label, system_info_lines, SystemReadings,
};

fn std_cpu_model(content: &str) -> String {
    content
        .lines()
        .find(|line| line.starts_with("model name"))
        .map(|line| line.split(':').nth(1).unwrap_or("").trim().to_string())
        .unwrap_or_else(|| "Unknown".to_string())
}

fn std_distro_name(content: &str) -> String {
    content
        .lines()
        .find(|line| line.starts_with("PRETTY_NAME="))
        .map(|line| line.trim_start_matches("PRETTY_NAME=").trim_matches('"').to_string())
        .unwrap_or_else(|| "Unknown".to_string())
}

fn std_gpu_name(out: &str) -> String {
    let line = out.trim();
    if let Some(idx) = line.find(':') {
        let after_colon = &line[idx + 1..];
        if let Some(name_start) = after_colon.find("controller:") {
            after_colon[name_start + "controller:".len()..].trim().to_string()
        } else if let Some(name_start) = after_colon.find("controller") {
            after_colon[name_start + "controller".len()..].trim().to_string()
        } else {
            after_colon.trim().to_string()
        }
    } else {
        line.to_string()
    }
}

const CPUINFO: &str = "processor\t: 0\nvendor_id\t: GenuineIntel\ncpu family\t: 6\nmodel\t\t: 142\nmodel name\t: Intel(R) Core(TM) i7-8550U CPU @ 1.80GHz\nstepping\t: 10\n\nprocessor\t: 1\nmodel name\t: Other Model\n";

const OS_RELEASE: &str = "NAME=\"Arch Linux\"\nPRETTY_NAME=\"Arch Linux\"\nID=arch\nBUILD_ID=rolling\n";

#[test]
fn cpu_model_is_read_from_first_model_line() {
    assert_eq!(cpu_model(Some(CPUINFO)), "Intel(R) Core(TM) i7-8550U CPU @ 1.80GHz");
}

#[test]
fn cpu_model_is_unknown_without_table_or_line() {
    assert_eq!(cpu_model(None), "Unknown");
    assert_eq!(cpu_model(Some("")), "Unknown");
    assert_eq!(cpu_model(Some("processor\t: 0\nmodel\t: 142\n")), "Unknown");
    assert_eq!(cpu_model(Some(" model name: indented\n")), "Unknown");
}

#[test]
fn cpu_model_takes_the_second_field_only() {
    assert_eq!(cpu_model(Some("model name : A : B : C")), "A");
    assert_eq!(cpu_model(Some("model name")), "");
    assert_eq!(cpu_model(Some("model name:")), "");
    assert_eq!(cpu_model(Some("model name::x")), "");
    assert_eq!(cpu_model(Some("model name\t: ARMv7\r\nnext: 1\r\n")), "ARMv7");
}

#[test]
fn cpu_model_agrees_with_std() {
    let samples = [
        CPUINFO,
        "",
        "\n",
        "\n\nmodel name: x",
        "model name",
        "model name:",
        "model name : a:b",
        "x\r\nmodel name : y\r\n",
        "x\rmodel name : y\n",
        "model nam\nmodel name: 日本 語 \n",
        "model name: tail\r",
        "a\n\r\nmodel name: z",
        "model namemodel name: q: r",
    ];
    for s in samples {
        assert_eq!(cpu_model(Some(s)), std_cpu_model(s), "{:?}", s);
    }
}

#[test]
fn distro_name_is_read_without_quotes() {
    assert_eq!(distro_name(Some(OS_RELEASE)), "Arch Linux");
    assert_eq!(distro_name(Some("PRETTY_NAME=Fedora Linux 40\n")), "Fedora Linux 40");
}

#[test]
fn distro_name_is_unknown_without_file_or_line() {
    assert_eq!(distro_name(None), "Unknown");
    assert_eq!(distro_name(Some("")), "Unknown");
    assert_eq!(distro_name(Some("NAME=x\nID=y\n")), "Unknown");
}

#[test]
fn distro_name_agrees_with_std() {
    let samples = [
        OS_RELEASE,
        "",
        "PRETTY_NAME=",
        "PRETTY_NAME=\"\"",
        "PRETTY_NAME=\"",
        "PRETTY_NAME=PRETTY_NAME=\"\"x\"\"\n",
        "PRETTY_NAME=\"Debian GNU/Linux 12 (bookworm)\"\r\nNAME=x\r\n",
        "PRETTY_NAME=\"a\"\r",
        "NAME=a\nPRETTY_NAME='single'\n",
        "XPRETTY_NAME=\"no\"\nPRETTY_NAME=\"yes\"",
        "PRETTY_NAME=\"in\"ner\"\"",
        "PRETTY_NAME=PRETTY_NAME",
    ];
    for s in samples {
        assert_eq!(distro_name(Some(s)), std_distro_name(s), "{:?}", s);
    }
}

#[test]
fn gpu_name_follows_the_word_controller() {
    assert_eq!(
        gpu_name(Some(
            "00:02.0 VGA compatible controller: Intel Corporation UHD Graphics 620 (rev 07)\n"
        )),
        "Intel Corporation UHD Graphics 620 (rev 07)"
    );
    assert_eq!(gpu_name(Some("01:00.0 3D controller NVIDIA GP108M\n")), "NVIDIA GP108M");
}

#[test]
fn gpu_name_without_controller_or_colon() {
    assert_eq!(gpu_name(Some("GPU: Unknown\n")), "Unknown");
    assert_eq!(gpu_name(Some("  no colon  ")), "no colon");
    assert_eq!(gpu_name(Some("")), "");
    assert_eq!(gpu_name(None), "Unknown");
}

#[test]
fn gpu_name_agrees_with_std() {
    let samples = [
        "00:02.0 VGA compatible controller: Intel Corporation UHD Graphics 620 (rev 07)\n",
        "01:00.0 3D controller NVIDIA GP108M\n",
        "GPU: Unknown\n",
        "",
        " ",
        ":",
        "a:",
        "controller: before colon",
        "x: controller",
        "x: controller:",
        "x: controllercontroller: y",
        "x: a controller b controller: c ",
        "x:y:z",
        "  00:02.0 Display controller: 日本 語  \r\n",
        "x: controlle",
    ];
    for s in samples {
        assert_eq!(gpu_name(Some(s)), std_gpu_name(s), "{:?}", s);
    }
}

#[test]
fn labels_state_their_facts() {
    assert_eq!(hostname_label(Some("box1")), "Hostname: box1");
    assert_eq!(hostname_label(None), "Hostname: Unknown");
    assert_eq!(cpu_label("X", 4), "CPU: X (4 cores)");
    assert_eq!(cpu_label("Unknown", 0), "CPU: Unknown (0 cores)");
    assert_eq!(cpu_label("Big", 128), "CPU: Big (128 cores)");
    assert_eq!(memory_label("3.25", "15.52"), "Memory: 3.25 GiB / 15.52 GiB");
    assert_eq!(distro_label("Arch Linux"), "Distro: Arch Linux");
    assert_eq!(disk_label(Some(("120.00", "476.94"))), "Disk: 120.00 GiB / 476.94 GiB");
    assert_eq!(disk_label(None), "Disk: Unknown");
    assert_eq!(gpu_label("Intel"), "GPU: Intel");
    assert_eq!(gpu_label(""), "GPU: ");
}

#[test]
fn disk_usage_in_bytes() {
    assert_eq!(disk_usage(1000, 250, 4096), (750 * 4096, 1000 * 4096));
    assert_eq!(disk_usage(0, 0, 4096), (0, 0));
    assert_eq!(disk_usage(10, 10, 512), (0, 5120));
    assert_eq!(disk_usage(u64::MAX, 1, 1), (u64::MAX - 1, u64::MAX));
}

#[test]
fn six_lines_in_order() {
    let readings = SystemReadings {
        hostname: Some("box1".to_string()),
        cpuinfo: Some(CPUINFO.to_string()),
        cores: 8,
        memory_used: "3.25".to_string(),
        memory_total: "15.52".to_string(),
        os_release: Some(OS_RELEASE.to_string()),
        disk: Some(("120.00".to_string(), "476.94".to_string())),
        gpu_listing: Some("00:02.0 VGA compatible controller: Intel UHD\n".to_string()),
    };
    let lines = system_info_lines(&readings);
    assert_eq!(
        lines,
        vec![
            "Hostname: box1",
            "CPU: Intel(R) Core(TM) i7-8550U CPU @ 1.80GHz (8 cores)",
            "Memory: 3.25 GiB / 15.52 GiB",
            "Distro: Arch Linux",
            "Disk: 120.00 GiB / 476.94 GiB",
            "GPU: Intel UHD",
        ]
    );
    let rows = render_lines(&lines);
    assert_eq!(rows.len(), 6);
    assert_eq!(
        rows[1],
        Row {
            title: "CPU".to_string(),
            subtitle: "Intel(R) Core(TM) i7-8550U CPU @ 1.80GHz (8 cores)".to_string()
        }
    );
}

#[test]
fn lines_when_nothing_could_be_read() {
    let readings = SystemReadings {
        hostname: None,
        cpuinfo: None,
        cores: 0,
        memory_used: "0.00".to_string(),
        memory_total: "0.00".to_string(),
        os_release: None,
        disk: None,
        gpu_listing: None,
    };
    assert_eq!(
        system_info_lines(&readings),
        vec![
            "Hostname: Unknown",
            "CPU: Unknown (0 cores)",
            "Memory: 0.00 GiB / 0.00 GiB",
            "Distro: Unknown",
            "Disk: Unknown",
            "GPU: Unknown",
        ]
    );
}
