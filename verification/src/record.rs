//! The notification-area icon record and its value-semantics builder.
//!
//! A [`NotifyIcon`] mirrors the shell's fixed-layout wire record. Every
//! configuration call consumes the current record value and returns the
//! updated one, and every call that populates an optional field sets that
//! field's validity bit in the same call, so the bitmask never claims a field
//! that was not populated through the builder.
//!
//! The mathematical model of a record is [`RecordView`]: each wire field as a
//! plain value, with the tooltip buffer as a sequence of UTF-16 code units.

use vstd::prelude::*;

use crate::utf16::utf16_encode;

verus! {

/// Capacity of the tooltip buffer, in UTF-16 code units, terminator included.
pub const TIP_CAPACITY: usize = 128;

/// Byte size of the record's modern 64-bit wire layout. The shell uses this
/// field to negotiate the structure version; it is fixed when the record is
/// created and never altered afterward.
pub const RECORD_SIZE: u32 = 976;

/// Validity bit: the window handle and callback message fields are meaningful.
pub const NIF_MESSAGE: u32 = 0x1;

/// Validity bit: the icon field (or, by operation context, the balloon icon
/// field) is meaningful.
pub const NIF_ICON: u32 = 0x2;

/// Validity bit: the tooltip field is meaningful.
pub const NIF_TIP: u32 = 0x4;

/// Validity bit: the GUID identifies the tray slot instead of the numeric id.
pub const NIF_GUID: u32 = 0x20;

/// Validity bit: the standard tooltip should be shown.
pub const NIF_SHOWTIP: u32 = 0x80;

/// The mathematical model of an icon record: every wire field as a plain
/// value.
#[verifier::ext_equal]
pub ghost struct RecordView {
    /// Record size in bytes, fixed at construction.
    pub size: u32,
    /// Window that receives interaction callbacks.
    pub window_handle: usize,
    /// Numeric identity of the tray slot.
    pub item_id: u32,
    /// GUID identity of the tray slot.
    pub guid: u128,
    /// Bitmask of the validity bits set so far.
    pub validity_flags: u32,
    /// Message identifier delivered to the window on interaction.
    pub callback_message_id: u32,
    /// Borrowed icon resource shown in the tray.
    pub icon_handle: usize,
    /// Borrowed icon resource shown in balloon notifications.
    pub balloon_icon_handle: usize,
    /// Fixed-capacity, null-terminated UTF-16 tooltip buffer.
    pub tooltip: Seq<u16>,
    /// Single storage slot shared by the legacy millisecond timeout and the
    /// interface-version selector; the later write wins.
    pub timeout_or_version: u32,
}

/// The tooltip buffer that storing `text` produces: the UTF-16 encoding of
/// `text` padded with zeros when it fits the capacity terminator included,
/// otherwise its first `TIP_CAPACITY - 1` code units followed by a forced
/// terminator.
pub open spec fn encoded_tooltip(text: Seq<char>) -> Seq<u16> {
    let enc = utf16_encode(text);
    if enc.len() < TIP_CAPACITY {
        enc + Seq::new((TIP_CAPACITY - enc.len()) as nat, |i: int| 0u16)
    } else {
        enc.take(TIP_CAPACITY - 1).push(0u16)
    }
}

impl RecordView {
    /// Structural well-formedness: the size field holds the wire layout's
    /// size, and the tooltip buffer fills its capacity and is
    /// null-terminated.
    pub open spec fn wf(self) -> bool {
        &&& self.size == RECORD_SIZE
        &&& self.tooltip.len() == TIP_CAPACITY
        &&& self.tooltip[TIP_CAPACITY - 1] == 0
    }

    /// A freshly created record: zero in every field but the size.
    pub open spec fn initial() -> RecordView {
        RecordView {
            size: RECORD_SIZE,
            window_handle: 0,
            item_id: 0,
            guid: 0,
            validity_flags: 0,
            callback_message_id: 0,
            icon_handle: 0,
            balloon_icon_handle: 0,
            tooltip: Seq::new(TIP_CAPACITY as nat, |i: int| 0u16),
            timeout_or_version: 0,
        }
    }

    /// ORs one validity bit pattern into the mask; every other field keeps
    /// its value.
    pub open spec fn with_flag(self, flag: u32) -> RecordView {
        RecordView { validity_flags: self.validity_flags | flag, ..self }
    }

    /// Stores the callback window and marks the message-routing fields valid.
    pub open spec fn with_window_handle(self, handle: usize) -> RecordView {
        RecordView { window_handle: handle, ..self }.with_flag(NIF_MESSAGE)
    }

    /// Stores the encoded tooltip and marks the tooltip valid and shown.
    pub open spec fn with_tooltip(self, text: Seq<char>) -> RecordView {
        RecordView { tooltip: encoded_tooltip(text), ..self }.with_flag(NIF_TIP | NIF_SHOWTIP)
    }

    /// Stores the tray icon and marks the icon field valid.
    pub open spec fn with_icon(self, icon: usize) -> RecordView {
        RecordView { icon_handle: icon, ..self }.with_flag(NIF_ICON)
    }

    /// Stores the balloon icon; the icon validity bit is shared with
    /// [`RecordView::with_icon`], the operation context telling the shell
    /// which field is meant.
    pub open spec fn with_balloon_icon(self, icon: usize) -> RecordView {
        RecordView { balloon_icon_handle: icon, ..self }.with_flag(NIF_ICON)
    }

    /// Stores the callback message id and marks the message-routing fields
    /// valid.
    pub open spec fn with_callback_message(self, callback_msg: u32) -> RecordView {
        RecordView { callback_message_id: callback_msg, ..self }.with_flag(NIF_MESSAGE)
    }

    /// Stores the GUID identity and marks it valid.
    pub open spec fn with_guid(self, guid: u128) -> RecordView {
        RecordView { guid: guid, ..self }.with_flag(NIF_GUID)
    }

    /// Writes the shared slot as a millisecond timeout; no validity bit
    /// exists for the legacy field, so the mask is untouched.
    pub open spec fn with_timeout(self, timeout: u32) -> RecordView {
        RecordView { timeout_or_version: timeout, ..self }
    }

    /// Writes the shared slot as an interface-version selector, overwriting
    /// any timeout stored there; the mask is untouched.
    pub open spec fn with_version(self, version: u32) -> RecordView {
        RecordView { timeout_or_version: version, ..self }
    }
}

/// A notification-area icon record under construction: the builder over the
/// shell's fixed-layout wire record.
pub struct NotifyIcon {
    size: u32,
    window_handle: usize,
    item_id: u32,
    guid: u128,
    validity_flags: u32,
    callback_message_id: u32,
    icon_handle: usize,
    balloon_icon_handle: usize,
    tooltip: Vec<u16>,
    timeout_or_version: u32,
}

impl View for NotifyIcon {
    type V = RecordView;

    closed spec fn view(&self) -> RecordView {
        RecordView {
            size: self.size,
            window_handle: self.window_handle,
            item_id: self.item_id,
            guid: self.guid,
            validity_flags: self.validity_flags,
            callback_message_id: self.callback_message_id,
            icon_handle: self.icon_handle,
            balloon_icon_handle: self.balloon_icon_handle,
            tooltip: self.tooltip@,
            timeout_or_version: self.timeout_or_version,
        }
    }
}

impl Default for NotifyIcon {
    /// Creates a record with the size field set to the wire layout's size and
    /// every other field zeroed.
    fn default() -> (r: Self)
        ensures
            r@ == RecordView::initial(),
            r@.wf(),
    {
        Self::new()
    }
}

impl NotifyIcon {
    /// Creates a new record with default values: zero-initialized except for
    /// the size field.
    pub fn new() -> (r: NotifyIcon)
        ensures
            r@ == RecordView::initial(),
            r@.wf(),
    {
        let mut tooltip: Vec<u16> = Vec::new();
        while tooltip.len() < TIP_CAPACITY
            invariant
                tooltip@.len() <= TIP_CAPACITY,
                forall|i: int| 0 <= i < tooltip@.len() ==> tooltip@[i] == 0u16,
            decreases TIP_CAPACITY - tooltip@.len(),
        {
            tooltip.push(0);
        }
        let r = NotifyIcon {
            size: RECORD_SIZE,
            window_handle: 0,
            item_id: 0,
            guid: 0,
            validity_flags: 0,
            callback_message_id: 0,
            icon_handle: 0,
            balloon_icon_handle: 0,
            tooltip,
            timeout_or_version: 0,
        };
        proof {
            assert(r@.tooltip =~= RecordView::initial().tooltip);
            assert(r@ =~= RecordView::initial());
        }
        r
    }

    /// ORs `flag` into the validity mask directly: the low-level escape hatch
    /// for validity bits the other calls do not derive.
    pub fn flag(self, flag: u32) -> (r: Self)
        ensures
            r@ == self@.with_flag(flag),
    {
        let mut r = self;
        r.validity_flags = r.validity_flags | flag;
        r
    }

    /// Sets the window that will receive interaction callbacks and marks the
    /// message-routing fields valid.
    pub fn window_handle(self, handle: usize) -> (r: Self)
        ensures
            r@ == self@.with_window_handle(handle),
    {
        let mut r = self;
        r.window_handle = handle;
        r.flag(NIF_MESSAGE)
    }

    /// Sets the tray icon and marks the icon field valid.
    pub fn icon(self, icon: usize) -> (r: Self)
        ensures
            r@ == self@.with_icon(icon),
    {
        let mut r = self;
        r.icon_handle = icon;
        r.flag(NIF_ICON)
    }

    /// Sets the balloon icon; the validity bit is the shared icon bit, the
    /// operation context telling the shell which field is meant.
    pub fn balloon_icon(self, icon: usize) -> (r: Self)
        ensures
            r@ == self@.with_balloon_icon(icon),
    {
        let mut r = self;
        r.balloon_icon_handle = icon;
        r.flag(NIF_ICON)
    }

    /// Sets the message identifier the shell sends to the window on
    /// interaction and marks the message-routing fields valid.
    pub fn callback_message(self, callback_msg: u32) -> (r: Self)
        ensures
            r@ == self@.with_callback_message(callback_msg),
    {
        let mut r = self;
        r.callback_message_id = callback_msg;
        r.flag(NIF_MESSAGE)
    }

    /// Sets the GUID identity of the tray slot and marks it valid. Keeping
    /// the GUID consistent with the numeric-id identity scheme is the
    /// caller's contract; the builder does not forbid setting both.
    pub fn guid(self, guid: u128) -> (r: Self)
        ensures
            r@ == self@.with_guid(guid),
    {
        let mut r = self;
        r.guid = guid;
        r.flag(NIF_GUID)
    }

    /// Writes the shared slot as a balloon timeout in milliseconds. The value
    /// is passed through unclamped; the shell enforces its own bounds. No
    /// validity bit exists for this legacy field.
    pub fn timeout(self, timeout: u32) -> (r: Self)
        ensures
            r@ == self@.with_timeout(timeout),
    {
        let mut r = self;
        r.timeout_or_version = timeout;
        r
    }

    /// Writes the shared slot as an interface-version selector, overwriting
    /// any timeout stored there (and vice versa): the two meanings alias one
    /// storage location in the wire format.
    pub fn version(self, version: u32) -> (r: Self)
        ensures
            r@ == self@.with_version(version),
    {
        let mut r = self;
        r.timeout_or_version = version;
        r
    }

    /// Encodes `s` into the fixed-capacity UTF-16 tooltip buffer — truncating
    /// silently to `TIP_CAPACITY - 1` code units with a forced terminator
    /// when it does not fit — and marks the tooltip valid and shown.
    pub fn tip(self, s: &str) -> (r: Self)
        ensures
            r@ == self@.with_tooltip(s@),
    {
        let enc = crate::utf16::encode_utf16_units(s);
        let limit = if enc.len() < TIP_CAPACITY {
            enc.len()
        } else {
            TIP_CAPACITY - 1
        };
        let mut buf: Vec<u16> = Vec::new();
        let mut i: usize = 0;
        while i < limit
            invariant
                limit <= enc@.len(),
                i <= limit,
                buf@ == enc@.take(i as int),
            decreases limit - i,
        {
            proof {
                assert(enc@.take(i + 1) =~= enc@.take(i as int).push(enc@[i as int]));
            }
            buf.push(enc[i]);
            i = i + 1;
        }
        while buf.len() < TIP_CAPACITY
            invariant
                limit <= buf@.len() <= TIP_CAPACITY,
                limit <= enc@.len(),
                buf@ == enc@.take(limit as int)
                    + Seq::new((buf@.len() - limit) as nat, |j: int| 0u16),
            decreases TIP_CAPACITY - buf@.len(),
        {
            proof {
                assert(buf@.push(0u16) =~= enc@.take(limit as int)
                    + Seq::new((buf@.len() + 1 - limit) as nat, |j: int| 0u16));
            }
            buf.push(0);
        }
        proof {
            if enc@.len() < TIP_CAPACITY {
                assert(enc@.take(limit as int) =~= enc@);
            }
            assert(buf@ =~= encoded_tooltip(s@));
        }
        let mut r = self;
        r.tooltip = buf;
        r.flag(NIF_TIP | NIF_SHOWTIP)
    }

    /// Record size in bytes, as stored in the wire record's first field.
    pub fn size(&self) -> (r: u32)
        ensures
            r == self@.size,
    {
        self.size
    }

    /// The window currently set to receive interaction callbacks.
    pub fn window_handle_value(&self) -> (r: usize)
        ensures
            r == self@.window_handle,
    {
        self.window_handle
    }

    /// The numeric identity of the tray slot this record addresses.
    pub fn item_id(&self) -> (r: u32)
        ensures
            r == self@.item_id,
    {
        self.item_id
    }

    /// The GUID identity of the tray slot this record addresses.
    pub fn guid_value(&self) -> (r: u128)
        ensures
            r == self@.guid,
    {
        self.guid
    }

    /// The validity bitmask accumulated so far.
    pub fn validity_flags(&self) -> (r: u32)
        ensures
            r == self@.validity_flags,
    {
        self.validity_flags
    }

    /// The message identifier the shell will send on interaction.
    pub fn callback_message_id(&self) -> (r: u32)
        ensures
            r == self@.callback_message_id,
    {
        self.callback_message_id
    }

    /// The tray icon resource currently stored.
    pub fn icon_handle(&self) -> (r: usize)
        ensures
            r == self@.icon_handle,
    {
        self.icon_handle
    }

    /// The balloon icon resource currently stored.
    pub fn balloon_icon_handle(&self) -> (r: usize)
        ensures
            r == self@.balloon_icon_handle,
    {
        self.balloon_icon_handle
    }

    /// The tooltip buffer: UTF-16 code units filling the full capacity.
    pub fn tooltip_units(&self) -> (r: &Vec<u16>)
        ensures
            r@ == self@.tooltip,
    {
        &self.tooltip
    }

    /// The raw value of the shared timeout/version slot; which meaning is in
    /// force is whichever of the two accessors wrote it last.
    pub fn timeout_or_version(&self) -> (r: u32)
        ensures
            r == self@.timeout_or_version,
    {
        self.timeout_or_version
    }
}

/// One configuration call of the builder, as a value: the ghost model over
/// which laws about whole call sequences are stated.
pub ghost enum ConfigCall {
    /// A direct OR of validity bits through the escape hatch.
    Flag(u32),
    /// Setting the callback window.
    WindowHandle(usize),
    /// Storing tooltip text.
    Tooltip(Seq<char>),
    /// Setting the tray icon.
    Icon(usize),
    /// Setting the balloon icon.
    BalloonIcon(usize),
    /// Setting the callback message id.
    CallbackMessage(u32),
    /// Setting the GUID identity.
    Guid(u128),
    /// Writing the shared slot as a timeout.
    Timeout(u32),
    /// Writing the shared slot as a version selector.
    Version(u32),
}

/// The validity bits one configuration call is specified to contribute.
pub open spec fn call_contribution(c: ConfigCall) -> u32 {
    match c {
        ConfigCall::Flag(bits) => bits,
        ConfigCall::WindowHandle(_) => NIF_MESSAGE,
        ConfigCall::Tooltip(_) => NIF_TIP | NIF_SHOWTIP,
        ConfigCall::Icon(_) => NIF_ICON,
        ConfigCall::BalloonIcon(_) => NIF_ICON,
        ConfigCall::CallbackMessage(_) => NIF_MESSAGE,
        ConfigCall::Guid(_) => NIF_GUID,
        ConfigCall::Timeout(_) => 0u32,
        ConfigCall::Version(_) => 0u32,
    }
}

/// The record one configuration call leaves behind.
pub open spec fn apply_call(v: RecordView, c: ConfigCall) -> RecordView {
    match c {
        ConfigCall::Flag(bits) => v.with_flag(bits),
        ConfigCall::WindowHandle(handle) => v.with_window_handle(handle),
        ConfigCall::Tooltip(text) => v.with_tooltip(text),
        ConfigCall::Icon(icon) => v.with_icon(icon),
        ConfigCall::BalloonIcon(icon) => v.with_balloon_icon(icon),
        ConfigCall::CallbackMessage(msg) => v.with_callback_message(msg),
        ConfigCall::Guid(guid) => v.with_guid(guid),
        ConfigCall::Timeout(timeout) => v.with_timeout(timeout),
        ConfigCall::Version(version) => v.with_version(version),
    }
}

/// The record a whole sequence of configuration calls leaves behind, applied
/// in order.
pub open spec fn apply_calls(v: RecordView, cs: Seq<ConfigCall>) -> RecordView
    decreases cs.len(),
{
    if cs.len() == 0 {
        v
    } else {
        apply_calls(apply_call(v, cs[0]), cs.drop_first())
    }
}

/// The bitwise OR of all contributions in a sequence.
pub open spec fn or_all(contribs: Seq<u32>) -> u32
    decreases contribs.len(),
{
    if contribs.len() == 0 {
        0u32
    } else {
        contribs[0] | or_all(contribs.drop_first())
    }
}

/// Every configuration call ORs exactly its specified contribution into the
/// validity mask.
pub proof fn lemma_call_contributes_its_flags(v: RecordView, c: ConfigCall)
    ensures
        apply_call(v, c).validity_flags == v.validity_flags | call_contribution(c),
{
    let m = v.validity_flags;
    assert(m | 0u32 == m) by (bit_vector);
}

/// For every configuration-call sequence, the resulting validity mask equals
/// the initial mask ORed with the OR of the flags each call is specified to
/// contribute; beyond that OR — which is commutative — the order of the calls
/// contributes nothing to the mask.
pub proof fn lemma_mask_is_or_of_contributions(v: RecordView, cs: Seq<ConfigCall>)
    ensures
        apply_calls(v, cs).validity_flags == v.validity_flags | or_all(
            cs.map_values(|c: ConfigCall| call_contribution(c)),
        ),
    decreases cs.len(),
{
    let contribs = cs.map_values(|c: ConfigCall| call_contribution(c));
    let m = v.validity_flags;
    if cs.len() == 0 {
        assert(m | 0u32 == m) by (bit_vector);
    } else {
        lemma_call_contributes_its_flags(v, cs[0]);
        lemma_mask_is_or_of_contributions(apply_call(v, cs[0]), cs.drop_first());
        assert(cs.drop_first().map_values(|c: ConfigCall| call_contribution(c))
            =~= contribs.drop_first());
        let a = call_contribution(cs[0]);
        let rest = or_all(contribs.drop_first());
        assert((m | a) | rest == m | (a | rest)) by (bit_vector);
    }
}

/// Every configuration-call sequence preserves the record's well-formedness.
pub proof fn lemma_calls_preserve_wf(v: RecordView, cs: Seq<ConfigCall>)
    requires
        v.wf(),
    ensures
        apply_calls(v, cs).wf(),
    decreases cs.len(),
{
    if cs.len() > 0 {
        if let ConfigCall::Tooltip(text) = cs[0] {
            lemma_encoded_tooltip_wf(text);
        }
        lemma_calls_preserve_wf(apply_call(v, cs[0]), cs.drop_first());
    }
}

/// Two validity-bit contributions land in the mask in either order: the
/// records differ in nothing, and the mask is the OR of both contributions.
pub proof fn lemma_flag_order_independent(v: RecordView, a: u32, b: u32)
    ensures
        v.with_flag(a).with_flag(b) == v.with_flag(b).with_flag(a),
        v.with_flag(a).with_flag(b).validity_flags == v.validity_flags | (a | b),
{
    let f = v.validity_flags;
    assert((f | a) | b == (f | b) | a) by (bit_vector);
    assert((f | a) | b == f | (a | b)) by (bit_vector);
    assert(v.with_flag(a).with_flag(b) =~= v.with_flag(b).with_flag(a));
}

/// Order independence at the level of whole configuration calls: configuring
/// the icon then the window handle yields the same validity mask as the
/// reverse order.
pub proof fn lemma_icon_window_order_flags(v: RecordView, icon: usize, handle: usize)
    ensures
        v.with_icon(icon).with_window_handle(handle).validity_flags == v.with_window_handle(
            handle,
        ).with_icon(icon).validity_flags,
{
    let f = v.validity_flags;
    assert((f | 0x2u32) | 0x1u32 == (f | 0x1u32) | 0x2u32) by (bit_vector);
}

/// Setting the same validity bit pattern twice yields the very record that
/// setting it once does: the flag escape hatch is idempotent.
pub proof fn lemma_with_flag_idempotent(v: RecordView, flag: u32)
    ensures
        v.with_flag(flag).with_flag(flag) == v.with_flag(flag),
{
    let f = v.validity_flags;
    assert((f | flag) | flag == f | flag) by (bit_vector);
    assert(v.with_flag(flag).with_flag(flag) =~= v.with_flag(flag));
}

/// The shared timeout/version slot keeps only the later of two writes:
/// writing a version then a timeout leaves exactly the record the timeout
/// write alone would leave, and vice versa — no merging takes place.
pub proof fn lemma_shared_slot_last_write_wins(v: RecordView, timeout: u32, version: u32)
    ensures
        v.with_version(version).with_timeout(timeout) == v.with_timeout(timeout),
        v.with_timeout(timeout).with_version(version) == v.with_version(version),
{
    assert(v.with_version(version).with_timeout(timeout) =~= v.with_timeout(timeout));
    assert(v.with_timeout(timeout).with_version(version) =~= v.with_version(version));
}

/// The tooltip buffer that any text encodes to fills the capacity exactly and
/// ends in the terminator.
pub proof fn lemma_encoded_tooltip_wf(text: Seq<char>)
    ensures
        encoded_tooltip(text).len() == TIP_CAPACITY,
        encoded_tooltip(text)[TIP_CAPACITY - 1] == 0,
{
}

/// Every configuration call preserves the record's well-formedness.
pub proof fn lemma_builder_preserves_wf(
    v: RecordView,
    bits: u32,
    handle: usize,
    text: Seq<char>,
    icon: usize,
    msg: u32,
    guid: u128,
    slot: u32,
)
    requires
        v.wf(),
    ensures
        v.with_flag(bits).wf(),
        v.with_window_handle(handle).wf(),
        v.with_tooltip(text).wf(),
        v.with_icon(icon).wf(),
        v.with_balloon_icon(icon).wf(),
        v.with_callback_message(msg).wf(),
        v.with_guid(guid).wf(),
        v.with_timeout(slot).wf(),
        v.with_version(slot).wf(),
{
    lemma_encoded_tooltip_wf(text);
}

} // verus!
