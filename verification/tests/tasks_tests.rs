use kid_internet_lock::firewall::{text_contains, FirewallManager, FIREWALL_RULE_NAME};
use kid_internet_lock::tasks::{autostart_task_xml, guard_task_xml, text_escape, user_principal, xml_escape};

#[test]
fn xml_escaping() {
    assert_eq!(xml_escape("a&b<c>\"d'"), "a&amp;b&lt;c&gt;&quot;d'");
    assert_eq!(xml_escape("&amp;"), "&amp;amp;");
    assert_eq!(xml_escape(""), "");
    assert_eq!(text_escape("a&b<c>\"d"), "a&amp;b&lt;c&gt;\"d");
}

#[test]
fn task_user_principal() {
    assert_eq!(user_principal(Some("DOM"), Some("kid")), Some("DOM\\kid".to_string()));
    assert_eq!(user_principal(Some(""), Some("kid")), Some("kid".to_string()));
    assert_eq!(user_principal(None, Some("kid")), Some("kid".to_string()));
    assert_eq!(user_principal(Some("DOM"), Some("")), None);
    assert_eq!(user_principal(Some("DOM"), None), None);
    assert_eq!(user_principal(None, None), None);
}

#[test]
fn autostart_task_definition() {
    let xml = autostart_task_xml("C:\\a&b\\app.exe", "");
    assert!(xml.starts_with("<?xml version=\"1.0\" encoding=\"UTF-16\"?>\n<Task version=\"1.2\""));
    assert!(xml.contains("<Command>\"C:\\a&amp;b\\app.exe\"</Command>\n<Arguments>--silent</Arguments>"));
    assert!(xml.contains("<RunLevel>HighestAvailable</RunLevel>"));
    assert!(!xml.contains("<UserId>"));
    assert!(xml.ends_with("</Task>\n"));
    let with_user = autostart_task_xml("C:\\app.exe", "DOM\\<kid>");
    assert_eq!(with_user.matches("      <UserId>DOM\\&lt;kid&gt;</UserId>\n").count(), 2);
}

#[test]
fn guard_task_definition() {
    let boundaries = vec!["2026-01-01T00:00:00".to_string(), "2026-01-01T00:00:30".to_string()];
    let xml = guard_task_xml("C:\\\"app\".exe", "DOM\\kid&co", &boundaries);
    assert!(xml.contains("<UserId>DOM\\kid&amp;co</UserId>"));
    assert!(xml.contains("<Command>\"C:\\\"app\".exe\"</Command>"));
    assert_eq!(xml.matches("<TimeTrigger>").count(), 2);
    let first = xml.find("<StartBoundary>2026-01-01T00:00:00</StartBoundary>").unwrap();
    let second = xml.find("<StartBoundary>2026-01-01T00:00:30</StartBoundary>").unwrap();
    assert!(first < second);
    assert!(xml.contains("<Interval>PT1M</Interval>"));
    let none = guard_task_xml("a.exe", "u", &Vec::new());
    assert!(none.contains("<Triggers>\n  </Triggers>"));
}

#[test]
fn firewall_rule_texts() {
    assert_eq!(FirewallManager::rule_name_arg(), format!("name={}", FIREWALL_RULE_NAME));
    assert!(FirewallManager::rule_listed("Rule Name:  KidInternetLock_Outbound_Block\r\n"));
    assert!(!FirewallManager::rule_listed("No rules match the specified criteria."));
    assert!(!FirewallManager::rule_listed("KidInternetLock_Outbound"));
    assert!(text_contains("abc", ""));
    assert!(text_contains("abcabd", "abd"));
    assert!(!text_contains("ab", "abc"));
}

#[test]
fn firewall_failure_messages() {
    assert_eq!(FirewallManager::failure_detail("  denied \r\n", "ignored"), "denied");
    assert_eq!(FirewallManager::failure_detail("", "  out  "), "out");
    assert_eq!(
        FirewallManager::enable_failed_message("", " The requested operation requires elevation. "),
        "Failed to enable Windows Firewall: The requested operation requires elevation."
    );
    assert_eq!(
        FirewallManager::block_failed_message("err\n", ""),
        "Firewall block rule failed: err"
    );
}
