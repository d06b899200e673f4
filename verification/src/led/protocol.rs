//! HID output-report encoding for Logitech wheel RPM shift-light LEDs.
//!
//! The LED command (`lg4ff_set_leds()` in the `hid-lg4ff` Linux driver) is
//! report id `0xf8`, sub-command `0x12`, then one byte whose low five bits
//! say which of the five LEDs are lit (bit 0 = leftmost). The driver
//! registers it for G27, G29 and G923 in native/PC mode (`0xc266`); the G923
//! Xbox-mode id (`0xc26e`) is treated as already native, which is an
//! inference rather than something the driver confirms.
//!
//! A G923 in PlayStation mode (`0xc267`) first needs a one-shot mode switch
//! (report id `0x30`, see [`known_mode_switches`]) after which it
//! re-enumerates under its native product id. G920 and Driving Force GT
//! have no confirmed LED command and are only listed so that a clearer
//! diagnostic can be given (see [`known_unsupported_wheels`]).
use vstd::prelude::*;

use crate::led::curve::{count_ones, lemma_count_ones_low_mask, low_mask};

verus! {

pub const LOGITECH_VENDOR_ID: u16 = 0x046d;

pub const G27_PRODUCT_ID: u16 = 0xc29b;

pub const G29_PRODUCT_ID: u16 = 0xc24f;

pub const G920_PRODUCT_ID: u16 = 0xc262;

/// G923 in native/PC mode -- what the LED command actually targets.
pub const G923_PRODUCT_ID: u16 = 0xc266;

/// G923 in PlayStation-compatible mode -- needs a mode switch first.
pub const G923_PS_PRODUCT_ID: u16 = 0xc267;

/// G923 in Xbox-compatible mode -- treated as already native.
pub const G923_XBOX_PRODUCT_ID: u16 = 0xc26e;

pub const DFGT_PRODUCT_ID: u16 = 0xc29a;

/// HID usage page of the joystick/force-feedback collection ("Generic
/// Desktop").
pub const GENERIC_DESKTOP_USAGE_PAGE: u16 = 0x0001;

/// HID usage "Joystick" within the Generic Desktop page.
pub const JOYSTICK_USAGE: u16 = 0x0004;

/// Mask of the five shift-light LEDs within the LED byte.
pub const LED_MASK: u8 = 0x1f;

/// How one family of wheels is driven: which USB ids it applies to, which
/// HID interface accepts the report, and the report bytes for a given LED
/// bit mask.
pub trait WheelLedProtocol: Send + Sync {
    /// The id that [`WheelLedProtocol::id`] returns.
    spec fn spec_id(&self) -> Seq<char>;

    /// Whether the protocol applies to a USB vendor/product id pair.
    spec fn spec_matches(&self, vendor_id: u16, product_id: u16) -> bool;

    /// The HID usage page the report must be written to.
    spec fn spec_usage_page(&self) -> u16;

    /// The HID usage within [`WheelLedProtocol::spec_usage_page`].
    spec fn spec_usage(&self) -> u16;

    /// The raw HID report for a given LED bit mask.
    spec fn spec_encode_leds(&self, led_bits: u8) -> Seq<u8>;

    /// Human readable id, e.g. "classic".
    fn id(&self) -> (id: &'static str)
        ensures
            id@ == self.spec_id(),
    ;

    /// USB vendor/product IDs this protocol applies to.
    fn matches(&self, vendor_id: u16, product_id: u16) -> (r: bool)
        ensures
            r == self.spec_matches(vendor_id, product_id),
    ;

    /// HID usage page this protocol's report must be written to. Wheels
    /// such as the G923 enumerate several HID interfaces under one
    /// vendor/product id; only the joystick/FFB collection accepts these
    /// output reports.
    fn usage_page(&self) -> (page: u16)
        ensures
            page == self.spec_usage_page(),
    ;

    /// HID usage within [`WheelLedProtocol::usage_page`]; `0x04` is
    /// "Joystick".
    fn usage(&self) -> (usage: u16)
        ensures
            usage == self.spec_usage(),
    ;

    /// Build the raw HID report bytes for a given 5-bit LED mask (bit 0 =
    /// leftmost LED).
    fn encode_leds(&self, led_bits: u8) -> (report: Vec<u8>)
        ensures
            report@ == self.spec_encode_leds(led_bits),
    ;
}

/// The report that [`ClassicLedProtocol`] sends for an LED mask.
pub open spec fn classic_report(led_bits: u8) -> Seq<u8> {
    seq![0xf8u8, 0x12u8, led_bits & LED_MASK, 0x00u8, 0x00u8, 0x00u8, 0x00u8]
}

/// Product ids (under [`LOGITECH_VENDOR_ID`]) that take the classic
/// `0xf8 0x12 <bits>` command.
pub open spec fn is_classic_product(product_id: u16) -> bool {
    ||| product_id == G27_PRODUCT_ID
    ||| product_id == G29_PRODUCT_ID
    ||| product_id == G923_PRODUCT_ID
    ||| product_id == G923_XBOX_PRODUCT_ID
}

/// The `0xf8 0x12 <bits>` command: G27, G29, and G923 once in native mode
/// (directly, or after a mode switch has put it there).
pub struct ClassicLedProtocol;

impl WheelLedProtocol for ClassicLedProtocol {
    open spec fn spec_id(&self) -> Seq<char> {
        "classic"@
    }

    open spec fn spec_matches(&self, vendor_id: u16, product_id: u16) -> bool {
        vendor_id == LOGITECH_VENDOR_ID && is_classic_product(product_id)
    }

    open spec fn spec_usage_page(&self) -> u16 {
        GENERIC_DESKTOP_USAGE_PAGE
    }

    open spec fn spec_usage(&self) -> u16 {
        JOYSTICK_USAGE
    }

    open spec fn spec_encode_leds(&self, led_bits: u8) -> Seq<u8> {
        classic_report(led_bits)
    }

    fn id(&self) -> (id: &'static str) {
        "classic"
    }

    fn matches(&self, vendor_id: u16, product_id: u16) -> (r: bool) {
        vendor_id == LOGITECH_VENDOR_ID && (product_id == G27_PRODUCT_ID || product_id
            == G29_PRODUCT_ID || product_id == G923_PRODUCT_ID || product_id
            == G923_XBOX_PRODUCT_ID)
    }

    fn usage_page(&self) -> (page: u16) {
        GENERIC_DESKTOP_USAGE_PAGE
    }

    fn usage(&self) -> (usage: u16) {
        JOYSTICK_USAGE
    }

    fn encode_leds(&self, led_bits: u8) -> (report: Vec<u8>) {
        vec![0xf8, 0x12, led_bits & LED_MASK, 0x00, 0x00, 0x00, 0x00]
    }
}

/// The ids of the protocols that [`all_known_protocols`] returns, in order.
pub open spec fn known_protocol_ids() -> Seq<Seq<char>> {
    seq!["classic"@]
}

/// Every protocol this crate can drive, in the order they are tried.
pub fn all_known_protocols() -> (protocols: Vec<Box<dyn WheelLedProtocol>>)
    ensures
        protocols.len() == known_protocol_ids().len(),
        forall|i: int|
            0 <= i < protocols.len() ==> #[trigger] protocols@[i].spec_id()
                == known_protocol_ids()[i],
        forall|i: int, vendor_id: u16, product_id: u16|
            0 <= i < protocols.len() ==> (#[trigger] protocols@[i].spec_matches(vendor_id, product_id)
                <==> vendor_id == LOGITECH_VENDOR_ID && is_classic_product(product_id)),
        forall|i: int|
            0 <= i < protocols.len() ==> #[trigger] protocols@[i].spec_usage_page()
                == GENERIC_DESKTOP_USAGE_PAGE && protocols@[i].spec_usage() == JOYSTICK_USAGE,
        forall|i: int, led_bits: u8|
            0 <= i < protocols.len() ==> #[trigger] protocols@[i].spec_encode_leds(led_bits)
                == classic_report(led_bits),
{
    let classic: Box<dyn WheelLedProtocol> = Box::new(ClassicLedProtocol);
    let protocols = vec![classic];
    protocols
}

/// A one-shot command that switches a wheel out of a compatibility mode
/// and into one [`ClassicLedProtocol`] recognizes. The wheel is expected to
/// disconnect and re-enumerate under `expected_product_id_after_switch`
/// after receiving this.
pub struct ModeSwitch {
    pub id: &'static str,
    pub matches_product_id: u16,
    /// HID usage page/usage of the interface to send `switch_report` to
    /// (only the joystick/FFB collection accepts this write).
    pub usage_page: u16,
    pub usage: u16,
    /// Full bytes to hand to the HID write -- includes the leading
    /// report-id byte, which for this switch is `0x30`, not the usual
    /// `0xf8`.
    pub switch_report: [u8; 8],
    pub expected_product_id_after_switch: u16,
}

/// The bytes of the G923 "switch from PlayStation to native mode, with
/// detach" command.
pub open spec fn g923_ps_switch_report() -> Seq<u8> {
    seq![0x30u8, 0xf8u8, 0x09u8, 0x07u8, 0x01u8, 0x01u8, 0x00u8, 0x00u8]
}

/// The mode switches [`known_mode_switches`] returns.
pub open spec fn is_known_mode_switch(switch: ModeSwitch) -> bool {
    &&& switch.id@ == "g923_ps_to_native"@
    &&& switch.matches_product_id == G923_PS_PRODUCT_ID
    &&& switch.usage_page == GENERIC_DESKTOP_USAGE_PAGE
    &&& switch.usage == JOYSTICK_USAGE
    &&& switch.switch_report@ == g923_ps_switch_report()
    &&& switch.expected_product_id_after_switch == G923_PRODUCT_ID
}

/// Known mode-switch handshakes. Currently just the G923 PlayStation-mode
/// one, the only one `hid-lg4ff.c` documents in enough detail to reproduce.
pub fn known_mode_switches() -> (switches: Vec<ModeSwitch>)
    ensures
        switches.len() == 1,
        is_known_mode_switch(switches[0]),
{
    let g923 = ModeSwitch {
        id: "g923_ps_to_native",
        matches_product_id: G923_PS_PRODUCT_ID,
        usage_page: GENERIC_DESKTOP_USAGE_PAGE,
        usage: JOYSTICK_USAGE,
        switch_report: [0x30, 0xf8, 0x09, 0x07, 0x01, 0x01, 0x00, 0x00],
        expected_product_id_after_switch: G923_PRODUCT_ID,
    };
    assert(g923.switch_report@ =~= g923_ps_switch_report());
    vec![g923]
}

/// The (product id, name) pairs [`known_unsupported_wheels`] returns.
pub open spec fn known_unsupported_wheel_list() -> Seq<(u16, Seq<char>)> {
    seq![(G920_PRODUCT_ID, "G920"@), (DFGT_PRODUCT_ID, "Driving Force GT"@)]
}

/// Logitech wheel product ids recognized by USB id but with no confirmed
/// LED command, paired with the wheel's name -- used only for a clearer
/// diagnostic ("found your wheel, but don't know how to drive its LEDs
/// yet") instead of a generic "no wheel found".
pub fn known_unsupported_wheels() -> (wheels: Vec<(u16, &'static str)>)
    ensures
        wheels.len() == known_unsupported_wheel_list().len(),
        forall|i: int|
            0 <= i < wheels.len() ==> #[trigger] wheels@[i].0 == known_unsupported_wheel_list()[i].0
                && wheels@[i].1@ == known_unsupported_wheel_list()[i].1,
{
    let wheels = vec![(G920_PRODUCT_ID, "G920"), (DFGT_PRODUCT_ID, "Driving Force GT")];
    wheels
}

/// Masking the LED byte: bits above the five LEDs never reach the wheel,
/// so two masks that agree on the five LED bits give the same report, and
/// the LED byte of a report never has a bit above the five LEDs.
pub proof fn lemma_classic_report_ignores_high_bits(a: u8, b: u8)
    requires
        a & LED_MASK == b & LED_MASK,
    ensures
        classic_report(a) == classic_report(b),
        classic_report(a)[2] <= LED_MASK,
{
    assert(a & 0x1f <= 0x1f) by (bit_vector);
}

/// Every known mode switch starts from a product id the classic protocol
/// does not drive, and lands the wheel on a product id, and HID interface,
/// that it does drive.
pub proof fn lemma_mode_switch_leads_to_driven_wheel(switch: ModeSwitch, proto: ClassicLedProtocol)
    requires
        is_known_mode_switch(switch),
    ensures
        !proto.spec_matches(LOGITECH_VENDOR_ID, switch.matches_product_id),
        proto.spec_matches(LOGITECH_VENDOR_ID, switch.expected_product_id_after_switch),
        proto.spec_usage_page() == switch.usage_page,
        proto.spec_usage() == switch.usage,
{
}

/// No wheel listed as unsupported is driven by the classic protocol, and no
/// mode switch starts from one.
pub proof fn lemma_unsupported_wheels_not_driven(i: int, proto: ClassicLedProtocol)
    requires
        0 <= i < known_unsupported_wheel_list().len(),
    ensures
        !proto.spec_matches(LOGITECH_VENDOR_ID, known_unsupported_wheel_list()[i].0),
        known_unsupported_wheel_list()[i].0 != G923_PS_PRODUCT_ID,
{
}


/// What the classic report carries: report id `0xf8`, sub-command `0x12`,
/// then the requested LED mask with only the bits above the five LEDs
/// cleared, then four zero bytes. A mask that fits the five LEDs reaches the
/// wheel unchanged -- so the first `n` LEDs lit by the bar are exactly the
/// LEDs the report lights -- and two different such masks never give the
/// same report.
pub proof fn lemma_classic_report_carries_led_mask(proto: ClassicLedProtocol, a: u8, b: u8)
    ensures
        proto.spec_encode_leds(a).len() == 7,
        proto.spec_encode_leds(a)[0] == 0xf8u8,
        proto.spec_encode_leds(a)[1] == 0x12u8,
        proto.spec_encode_leds(a)[2] == a & 0x1fu8,
        forall|k: int| 3 <= k < 7 ==> proto.spec_encode_leds(a)[k] == 0u8,
        a <= 0x1f ==> proto.spec_encode_leds(a)[2] == a,
        a <= 0x1f && b <= 0x1f && a != b ==> proto.spec_encode_leds(a) != proto.spec_encode_leds(b),
        a <= 5 ==> proto.spec_encode_leds(low_mask(a))[2] == low_mask(a) && count_ones(
            proto.spec_encode_leds(low_mask(a))[2],
        ) == a,
{
    assert(a <= 0x1f ==> a & 0x1f == a) by (bit_vector);
    assert(b <= 0x1f ==> b & 0x1f == b) by (bit_vector);
    if a <= 5 {
        assert(a <= 5 ==> low_mask(a) <= 0x1f && low_mask(a) & 0x1f == low_mask(a)) by (bit_vector);
        lemma_count_ones_low_mask(a);
    }
    if a <= 0x1f && b <= 0x1f && a != b {
        assert(proto.spec_encode_leds(a)[2] != proto.spec_encode_leds(b)[2]);
    }
}

} // verus!
