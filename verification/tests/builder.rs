use notify_icon::record::NIF_GUID;
use notify_icon::record::NIF_ICON;
use notify_icon::record::NIF_MESSAGE;
use notify_icon::record::NIF_SHOWTIP;
use notify_icon::record::NIF_TIP;
use notify_icon::record::RECORD_SIZE;
use notify_icon::record::TIP_CAPACITY;
use notify_icon::NotifyIcon;

#[test]
fn new_record_is_zeroed_except_size() {
    let r = NotifyIcon::new();
    assert_eq!(r.size(), RECORD_SIZE);
    assert_eq!(r.window_handle_value(), 0);
    assert_eq!(r.item_id(), 0);
    assert_eq!(r.guid_value(), 0);
    assert_eq!(r.validity_flags(), 0);
    assert_eq!(r.callback_message_id(), 0);
    assert_eq!(r.icon_handle(), 0);
    assert_eq!(r.balloon_icon_handle(), 0);
    assert_eq!(r.timeout_or_version(), 0);
    assert_eq!(r.tooltip_units().len(), TIP_CAPACITY);
    assert!(r.tooltip_units().iter().all(|&u| u == 0));
}

#[test]
fn default_matches_new() {
    let d = NotifyIcon::default();
    assert_eq!(d.size(), RECORD_SIZE);
    assert_eq!(d.validity_flags(), 0);
    assert_eq!(d.tooltip_units().len(), TIP_CAPACITY);
}

#[test]
fn window_handle_sets_field_and_message_bit() {
    let r = NotifyIcon::new().window_handle(42);
    assert_eq!(r.window_handle_value(), 42);
    assert_eq!(r.validity_flags(), NIF_MESSAGE);
}

#[test]
fn icon_sets_field_and_icon_bit() {
    let r = NotifyIcon::new().icon(7);
    assert_eq!(r.icon_handle(), 7);
    assert_eq!(r.validity_flags(), NIF_ICON);
}

#[test]
fn balloon_icon_shares_icon_bit() {
    let r = NotifyIcon::new().balloon_icon(9);
    assert_eq!(r.balloon_icon_handle(), 9);
    assert_eq!(r.icon_handle(), 0);
    assert_eq!(r.validity_flags(), NIF_ICON);
}

#[test]
fn callback_message_sets_field_and_message_bit() {
    let r = NotifyIcon::new().callback_message(0x400 + 1);
    assert_eq!(r.callback_message_id(), 0x401);
    assert_eq!(r.validity_flags(), NIF_MESSAGE);
}

#[test]
fn guid_sets_field_and_guid_bit() {
    let r = NotifyIcon::new().guid(0x12345678_1234_1234_1234_123456789ABC);
    assert_eq!(r.guid_value(), 0x12345678_1234_1234_1234_123456789ABC);
    assert_eq!(r.validity_flags(), NIF_GUID);
}

#[test]
fn flag_ors_bits_directly() {
    let r = NotifyIcon::new().flag(0x8).flag(0x10);
    assert_eq!(r.validity_flags(), 0x18);
}

#[test]
fn flag_is_idempotent() {
    let once = NotifyIcon::new().flag(0x8);
    let twice = NotifyIcon::new().flag(0x8).flag(0x8);
    assert_eq!(once.validity_flags(), twice.validity_flags());
    assert_eq!(twice.validity_flags(), 0x8);
}

#[test]
fn flags_are_order_independent() {
    let ab = NotifyIcon::new().icon(5).window_handle(11);
    let ba = NotifyIcon::new().window_handle(11).icon(5);
    assert_eq!(ab.validity_flags(), ba.validity_flags());
    assert_eq!(ab.validity_flags(), NIF_MESSAGE | NIF_ICON);
}

#[test]
fn timeout_and_version_share_one_slot_later_wins() {
    let r = NotifyIcon::new().version(3).timeout(5000);
    assert_eq!(r.timeout_or_version(), 5000);
    let r = NotifyIcon::new().timeout(5000).version(3);
    assert_eq!(r.timeout_or_version(), 3);
}

#[test]
fn timeout_passes_value_through_unclamped() {
    let r = NotifyIcon::new().timeout(1);
    assert_eq!(r.timeout_or_version(), 1);
    assert_eq!(r.validity_flags(), 0);
}

#[test]
fn version_sets_no_validity_bit() {
    let r = NotifyIcon::new().version(4);
    assert_eq!(r.timeout_or_version(), 4);
    assert_eq!(r.validity_flags(), 0);
}

#[test]
fn tip_that_fits_is_encoding_then_zero_padding() {
    let r = NotifyIcon::new().tip("hi");
    let buf = r.tooltip_units();
    assert_eq!(buf.len(), TIP_CAPACITY);
    assert_eq!(buf[0], 'h' as u16);
    assert_eq!(buf[1], 'i' as u16);
    for i in 2..TIP_CAPACITY {
        assert_eq!(buf[i], 0);
    }
    assert_eq!(r.validity_flags(), NIF_TIP | NIF_SHOWTIP);
}

#[test]
fn tip_encodes_surrogate_pairs() {
    let r = NotifyIcon::new().tip("\u{1F600}");
    let buf = r.tooltip_units();
    assert_eq!(buf[0], 0xD83D);
    assert_eq!(buf[1], 0xDE00);
    assert_eq!(buf[2], 0);
}

#[test]
fn tip_of_exactly_capacity_minus_one_fits() {
    let text = "a".repeat(TIP_CAPACITY - 1);
    let r = NotifyIcon::new().tip(&text);
    let buf = r.tooltip_units();
    assert_eq!(buf.len(), TIP_CAPACITY);
    for i in 0..TIP_CAPACITY - 1 {
        assert_eq!(buf[i], 'a' as u16);
    }
    assert_eq!(buf[TIP_CAPACITY - 1], 0);
}

#[test]
fn oversized_tip_is_truncated_with_forced_terminator() {
    let text = "x".repeat(200);
    let r = NotifyIcon::new().tip(&text);
    let buf = r.tooltip_units();
    assert_eq!(buf.len(), 128);
    for i in 0..127 {
        assert_eq!(buf[i], 'x' as u16);
    }
    assert_eq!(buf[127], 0);
}

#[test]
fn later_shorter_tip_leaves_no_residue() {
    let r = NotifyIcon::new().tip(&"y".repeat(60)).tip("z");
    let buf = r.tooltip_units();
    assert_eq!(buf[0], 'z' as u16);
    for i in 1..TIP_CAPACITY {
        assert_eq!(buf[i], 0);
    }
}

#[test]
fn size_is_never_touched_by_configuration() {
    let r = NotifyIcon::new()
        .window_handle(1)
        .tip("t")
        .icon(2)
        .balloon_icon(3)
        .callback_message(4)
        .guid(5)
        .timeout(6)
        .version(7)
        .flag(0x40);
    assert_eq!(r.size(), RECORD_SIZE);
}
