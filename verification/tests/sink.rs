use arch_updates_rs::event::SinkMessage;
use arch_updates_rs::severity::Severity;
use arch_updates_rs::sink::{initial_icon, present, TrayIcon};

fn resolved(severity: Severity, identifiers: &[&str]) -> SinkMessage {
    SinkMessage::Resolved {
        severity,
        count: identifiers.len(),
        identifiers: identifiers.iter().map(|name| name.to_string()).collect(),
    }
}

#[test]
fn tray_starts_without_updates() {
    assert_eq!(initial_icon(), TrayIcon::NoUpdates);
}

#[test]
fn checking_and_updating_change_the_picture_only() {
    let checking = present(SinkMessage::CheckingStarted);
    assert_eq!(checking.icon, TrayIcon::Checking);
    assert_eq!(checking.menu, None);
    let updating = present(SinkMessage::UpdatingStarted);
    assert_eq!(updating.icon, TrayIcon::Updating);
    assert_eq!(updating.menu, None);
}

#[test]
fn each_severity_has_its_picture() {
    assert_eq!(present(resolved(Severity::NoUpdates, &[])).icon, TrayIcon::NoUpdates);
    assert_eq!(present(resolved(Severity::Normal, &["a"])).icon, TrayIcon::Updates);
    assert_eq!(present(resolved(Severity::Warning, &["a"])).icon, TrayIcon::UpdatesWarning);
    assert_eq!(present(resolved(Severity::Critical, &["a"])).icon, TrayIcon::UpdatesCritical);
}

#[test]
fn resolved_list_becomes_the_menu() {
    let shown = present(resolved(Severity::Normal, &["linux 6.1 -> 6.2", "vim 9.0 -> 9.1"]));
    assert_eq!(
        shown.menu,
        Some(vec!["linux 6.1 -> 6.2".to_string(), "vim 9.0 -> 9.1".to_string()])
    );
    assert_eq!(present(resolved(Severity::NoUpdates, &[])).menu, Some(Vec::new()));
}
