use riff::system_info::credits_text;
use riff::system_info::{credit_lines, is_issue_link, pretty_name, SystemInfo};

fn info() -> SystemInfo {
    SystemInfo::new(
        "0.9.1".to_string(),
        Some("NAME=Fedora\nPRETTY_NAME=\"Fedora Linux 40\"\nID=fedora\n"),
        "linux",
        "x86_64".to_string(),
        "GNOME".to_string(),
        "wayland".to_string(),
        true,
    )
}

#[test]
fn pretty_name_is_read_from_os_release() {
    assert_eq!(
        pretty_name("NAME=Arch\nPRETTY_NAME=\"Arch Linux\"\n"),
        Some("Arch Linux".to_string())
    );
    assert_eq!(pretty_name("PRETTY_NAME=Plain\r\n"), Some("Plain".to_string()));
    assert_eq!(pretty_name("NAME=Arch\n"), None);
    assert_eq!(pretty_name(""), None);
}

#[test]
fn system_info_fields() {
    let i = info();
    assert_eq!(i.distro, "Fedora Linux 40");
    assert_eq!(i.install_method, "Flatpak");
    assert_eq!(i.arch, "x86_64");
    let fallback = SystemInfo::new(
        "1".to_string(),
        None,
        "linux",
        "aarch64".to_string(),
        String::new(),
        String::new(),
        false,
    );
    assert_eq!(fallback.distro, "linux aarch64");
    assert_eq!(fallback.install_method, "Native");
}

#[test]
fn issue_body_holds_the_details() {
    let body = info().issue_body();
    assert!(body.starts_with("**Describe the bug**\n"));
    assert!(body.contains("- Distribution: Fedora Linux 40\n"));
    assert!(body.contains("- Installation method: Flatpak\n"));
    assert!(body.contains("- Riff Version: 0.9.1\n"));
    assert!(body.contains("- Arch: x86_64\n"));
    assert!(body.contains("- Desktop: GNOME\n"));
    assert!(body.contains("- Display server: wayland\n"));
    assert!(body.ends_with("Add any other context about the problem here."));
}

#[test]
fn issue_url_percent_encodes_the_body() {
    let url = info().issue_url();
    let prefix = "https://github.com/Diegovsky/riff/issues/new?labels=bug&body=";
    assert!(url.starts_with(prefix));
    let encoded = &url[prefix.len()..];
    assert!(encoded.starts_with("%2A%2ADescribe%20the%20bug%2A%2A%0AA%20clear"));
    assert!(encoded.contains("Distribution%3A%20Fedora%20Linux%2040%0A"));
    assert!(encoded.chars().all(|c| c.is_ascii_alphanumeric() || c == '%'));
    let body = info().issue_body();
    let expected: String = body
        .bytes()
        .map(|b| {
            if b.is_ascii_alphanumeric() {
                (b as char).to_string()
            } else {
                format!("%{:02X}", b)
            }
        })
        .collect();
    assert_eq!(encoded, expected);
}

#[test]
fn issue_links_are_recognised() {
    assert!(is_issue_link("https://github.com/Diegovsky/riff/issues"));
    assert!(is_issue_link("https://github.com/Diegovsky/riff/issues/new"));
    assert!(!is_issue_link("https://github.com/Diegovsky/riff"));
    assert!(!is_issue_link(""));
}

#[test]
fn credits_are_one_name_per_line() {
    assert_eq!(credit_lines("Alice\nBob\n\n"), vec!["Alice".to_string(), "Bob".to_string()]);
    assert_eq!(credit_lines("Solo"), vec!["Solo".to_string()]);
    assert_eq!(credit_lines("a\n\nb"), vec!["a".to_string(), String::new(), "b".to_string()]);
    assert_eq!(credit_lines(""), vec![String::new()]);
    assert_eq!(credit_lines("\n\n"), vec![String::new()]);
}

#[test]
fn translators_block_loses_trailing_breaks() {
    assert_eq!(credits_text("Ann\nBo\n\n"), "Ann\nBo");
    assert_eq!(credits_text("\n"), "");
    assert_eq!(credits_text("x"), "x");
}
