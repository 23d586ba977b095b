use peleka::diagnostics::{Diagnostics, Warning, WarningKind};

#[test]
fn diagnostics_starts_empty() {
    let diag = Diagnostics::default();
    assert!(!diag.has_warnings());
    assert!(diag.warnings().is_empty());
}

#[test]
fn diagnostics_collects_warnings() {
    let mut diag = Diagnostics::default();

    diag.warn(Warning::lock_release("failed to remove lock file"));
    diag.warn(Warning::ssh_disconnect("connection reset"));

    assert!(diag.has_warnings());
    assert_eq!(diag.warnings().len(), 2);
}

#[test]
fn warning_constructors_set_correct_kind() {
    let lock_warning = Warning::lock_release("test");
    assert_eq!(lock_warning.kind, WarningKind::LockRelease);

    let ssh_warning = Warning::ssh_disconnect("test");
    assert_eq!(ssh_warning.kind, WarningKind::SshDisconnect);
}

#[test]
fn warnings_keep_their_order_and_text() {
    let mut diag = Diagnostics::default();
    diag.warn(Warning::ssh_disconnect("first"));
    diag.warn(Warning::lock_release("second"));
    let w = diag.warnings();
    assert_eq!(w[0].message, "first");
    assert_eq!(w[0].kind, WarningKind::SshDisconnect);
    assert_eq!(w[1].message, "second");
    assert_eq!(w[1].kind, WarningKind::LockRelease);
}
