use notify_icon::record::NIF_ICON;
use notify_icon::record::NIF_MESSAGE;
use notify_icon::record::NIF_SHOWTIP;
use notify_icon::record::NIF_TIP;
use notify_icon::DispatchError;
use notify_icon::NotifyIcon;
use notify_icon::Operation;
use notify_icon::ShellReply;

#[test]
fn operation_codes_match_the_wire_protocol() {
    assert_eq!(Operation::Add.code(), 0);
    assert_eq!(Operation::Modify.code(), 1);
    assert_eq!(Operation::Delete.code(), 2);
    assert_eq!(Operation::SetFocus.code(), 3);
    assert_eq!(Operation::SetVersion.code(), 4);
}

#[test]
fn accepted_reply_is_success() {
    let r = NotifyIcon::new().window_handle(1).icon(2);
    let reply = ShellReply { accepted: true, error_code: 0 };
    assert_eq!(r.notify(Operation::Add, reply), Ok(()));
}

#[test]
fn rejected_reply_surfaces_the_error_code() {
    let r = NotifyIcon::new();
    let reply = ShellReply { accepted: false, error_code: 87 };
    assert_eq!(r.notify(Operation::Modify, reply), Err(DispatchError { code: 87 }));
}

#[test]
fn add_with_window_and_icon_has_exactly_those_bits() {
    let r = NotifyIcon::new().window_handle(0x1000).icon(0x2000);
    assert_eq!(r.validity_flags(), NIF_MESSAGE | NIF_ICON);
    let reply = ShellReply { accepted: true, error_code: 0 };
    assert_eq!(r.notify_add(reply), Ok(()));
}

#[test]
fn modify_with_only_tooltip_bits_keeps_other_fields_stored() {
    let r = NotifyIcon::new().tip("status");
    assert_eq!(r.validity_flags(), NIF_TIP | NIF_SHOWTIP);
    assert_eq!(r.icon_handle(), 0);
    let reply = ShellReply { accepted: true, error_code: 0 };
    assert_eq!(r.notify_modify(reply), Ok(()));
}

#[test]
fn delete_of_unknown_slot_returns_the_reported_code() {
    let r = NotifyIcon::new().guid(0xDEAD_BEEF);
    // The shell reports "element not found" for a slot that was never added.
    let reply = ShellReply { accepted: false, error_code: 1168 };
    let out = r.notify_delete(reply);
    assert_eq!(out, Err(DispatchError { code: 1168 }));
}

#[test]
fn set_focus_and_set_version_surface_replies_unchanged() {
    let r = NotifyIcon::new().version(4);
    let ok = ShellReply { accepted: true, error_code: 0 };
    let bad = ShellReply { accepted: false, error_code: 5 };
    assert_eq!(r.notify_set_focus(ok), Ok(()));
    assert_eq!(r.notify_set_version(bad), Err(DispatchError { code: 5 }));
}
