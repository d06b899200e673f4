//! The decisions behind driving a wheel over HID, apart from the HID I/O
//! itself: how a command frame is laid out for a HID write, which of the
//! enumerated HID interfaces to open and with which protocol, and the state
//! machine of the writer loop (blinking, giving up on a lost wheel).
//!
//! Enumerated interfaces are described by [`HidInterface`], which holds the
//! four ids the choice depends on, in the order the HID library lists them.
use vstd::prelude::*;
use vstd::string::*;

use crate::led::curve::LedBarState;
use crate::led::protocol::{
    known_unsupported_wheel_list, known_unsupported_wheels, ModeSwitch, WheelLedProtocol,
    LOGITECH_VENDOR_ID,
};

verus! {

/// The bytes to hand to a HID write for a wheel command frame such as
/// `[0xf8, 0x12, led_bits, ...]`.
///
/// The joystick/FFB collection these commands target declares its output
/// report with no report-id field, and hidapi wants `0x00` in the first
/// byte for such devices. The frame's own leading byte (`0xf8`, the report
/// id the driver documents) must therefore not go there: it would be
/// consumed as that placeholder and every real byte would shift left by
/// one, turning "set LEDs" into an unrelated write on the wheel's raw
/// force-feedback channel.
pub fn hid_write_buffer(frame: &[u8]) -> (buffer: Vec<u8>)
    requires
        frame.len() < usize::MAX,
    ensures
        buffer@ == seq![0x00u8] + frame@,
{
    let mut buffer: Vec<u8> = Vec::with_capacity(frame.len() + 1);
    buffer.push(0x00);
    let mut i: usize = 0;
    while i < frame.len()
        invariant
            i <= frame.len(),
            buffer@ == seq![0x00u8] + frame@.subrange(0, i as int),
        decreases frame.len() - i,
    {
        buffer.push(frame[i]);
        i = i + 1;
        assert(buffer@ =~= seq![0x00u8] + frame@.subrange(0, i as int));
    }
    assert(frame@.subrange(0, frame.len() as int) =~= frame@);
    buffer
}

/// One HID interface as enumerated by the HID library: a wheel shows up as
/// several interfaces under one vendor/product id, told apart by usage
/// page and usage.
#[derive(Debug, Clone, Copy, PartialEq, Eq, Structural)]
pub struct HidInterface {
    pub vendor_id: u16,
    pub product_id: u16,
    pub usage_page: u16,
    pub usage: u16,
}

/// Whether `proto` can drive the LEDs through `interface`: it recognizes
/// the vendor/product id and the interface is the one its reports go to.
pub open spec fn drives(proto: &Box<dyn WheelLedProtocol>, interface: HidInterface) -> bool {
    &&& proto.spec_matches(interface.vendor_id, interface.product_id)
    &&& interface.usage_page == proto.spec_usage_page()
    &&& interface.usage == proto.spec_usage()
}

/// Lexicographic order on (interface index, protocol index) pairs.
pub open spec fn pair_before(a: (usize, usize), b: (usize, usize)) -> bool {
    a.0 < b.0 || (a.0 == b.0 && a.1 < b.1)
}

/// Whether `pairs` lists, in lexicographic order and each once, exactly the
/// (interface, protocol) index pairs where the protocol drives the
/// interface.
pub open spec fn lists_direct_matches(
    pairs: Seq<(usize, usize)>,
    interfaces: Seq<HidInterface>,
    protocols: Seq<Box<dyn WheelLedProtocol>>,
) -> bool {
    &&& forall|k: int|
        0 <= k < pairs.len() ==> {
            let (d, p) = #[trigger] pairs[k];
            &&& d < interfaces.len()
            &&& p < protocols.len()
            &&& drives(&protocols[p as int], interfaces[d as int])
        }
    &&& forall|k1: int, k2: int|
        0 <= k1 < k2 < pairs.len() ==> pair_before(#[trigger] pairs[k1], #[trigger] pairs[k2])
    &&& forall|d: usize, p: usize|
        d < interfaces.len() && p < protocols.len() && #[trigger] drives(
            &protocols[p as int],
            interfaces[d as int],
        ) ==> exists|k: int| 0 <= k < pairs.len() && #[trigger] pairs[k] == (d, p)
}

/// Every (interface, protocol) pair under which a wheel is already
/// presenting itself in a mode a protocol drives, in the order they should
/// be tried: interfaces in enumeration order, and for each interface the
/// protocols in registration order. The caller opens the first one that
/// opens.
pub fn direct_match_candidates(
    interfaces: &[HidInterface],
    protocols: &[Box<dyn WheelLedProtocol>],
) -> (pairs: Vec<(usize, usize)>)
    ensures
        lists_direct_matches(pairs@, interfaces@, protocols@),
{
    let mut pairs: Vec<(usize, usize)> = Vec::new();
    let mut d: usize = 0;
    while d < interfaces.len()
        invariant
            d <= interfaces.len(),
            forall|k: int|
                0 <= k < pairs.len() ==> {
                    let (d2, p2) = #[trigger] pairs@[k];
                    &&& d2 < d
                    &&& p2 < protocols.len()
                    &&& drives(&protocols@[p2 as int], interfaces@[d2 as int])
                },
            forall|k1: int, k2: int|
                0 <= k1 < k2 < pairs.len() ==> pair_before(
                    #[trigger] pairs@[k1],
                    #[trigger] pairs@[k2],
                ),
            forall|d2: usize, p2: usize|
                d2 < d && p2 < protocols.len() && #[trigger] drives(
                    &protocols@[p2 as int],
                    interfaces@[d2 as int],
                ) ==> exists|k: int| 0 <= k < pairs.len() && #[trigger] pairs@[k] == (d2, p2),
        decreases interfaces.len() - d,
    {
        let interface = interfaces[d];
        let mut p: usize = 0;
        while p < protocols.len()
            invariant
                d < interfaces.len(),
                interface == interfaces@[d as int],
                p <= protocols.len(),
                forall|k: int|
                    0 <= k < pairs.len() ==> {
                        let (d2, p2) = #[trigger] pairs@[k];
                        &&& (d2 < d || (d2 == d && p2 < p))
                        &&& p2 < protocols.len()
                        &&& drives(&protocols@[p2 as int], interfaces@[d2 as int])
                    },
                forall|k1: int, k2: int|
                    0 <= k1 < k2 < pairs.len() ==> pair_before(
                        #[trigger] pairs@[k1],
                        #[trigger] pairs@[k2],
                    ),
                forall|d2: usize, p2: usize|
                    (d2 < d || (d2 == d && p2 < p)) && p2 < protocols.len() && #[trigger] drives(
                        &protocols@[p2 as int],
                        interfaces@[d2 as int],
                    ) ==> exists|k: int| 0 <= k < pairs.len() && #[trigger] pairs@[k] == (d2, p2),
            decreases protocols.len() - p,
        {
            let proto = &protocols[p];
            if proto.matches(interface.vendor_id, interface.product_id) && interface.usage_page
                == proto.usage_page() && interface.usage == proto.usage() {
                let ghost old_pairs = pairs@;
                pairs.push((d, p));
                assert forall|d2: usize, p2: usize|
                    (d2 < d || (d2 == d && p2 < p + 1)) && p2 < protocols.len()
                        && #[trigger] drives(
                        &protocols@[p2 as int],
                        interfaces@[d2 as int],
                    ) implies exists|k: int| 0 <= k < pairs.len() && #[trigger] pairs@[k] == (d2, p2) by {
                    if d2 == d && p2 == p {
                        assert(pairs@[old_pairs.len() as int] == (d2, p2));
                    } else {
                        let k = choose|k: int| 0 <= k < old_pairs.len() && #[trigger] old_pairs[k] == (d2, p2);
                        assert(pairs@[k] == (d2, p2));
                    }
                }
            }
            p = p + 1;
        }
        d = d + 1;
    }
    pairs
}

/// The first index whose interface is exactly `wanted`, if any.
pub open spec fn is_first_index_of(
    interfaces: Seq<HidInterface>,
    wanted: HidInterface,
    index: Option<usize>,
) -> bool {
    match index {
        Some(i) => {
            &&& i < interfaces.len()
            &&& interfaces[i as int] == wanted
            &&& forall|j: int| 0 <= j < i ==> interfaces[j] != wanted
        },
        None => forall|j: int| 0 <= j < interfaces.len() ==> interfaces[j] != wanted,
    }
}

/// The first enumerated interface (in enumeration order) that is exactly
/// `wanted`: same vendor id, product id, usage page and usage.
pub fn find_interface(interfaces: &[HidInterface], wanted: HidInterface) -> (index: Option<usize>)
    ensures
        is_first_index_of(interfaces@, wanted, index),
{
    let mut i: usize = 0;
    while i < interfaces.len()
        invariant
            i <= interfaces.len(),
            forall|j: int| 0 <= j < i ==> interfaces@[j] != wanted,
        decreases interfaces.len() - i,
    {
        let candidate = interfaces[i];
        if candidate.vendor_id == wanted.vendor_id && candidate.product_id == wanted.product_id
            && candidate.usage_page == wanted.usage_page && candidate.usage == wanted.usage {
            return Some(i);
        }
        i = i + 1;
    }
    None
}

impl ModeSwitch {
    /// The HID interface a wheel presents while still in the compatibility
    /// mode this switch gets it out of: where the switch report goes.
    pub fn source_interface(&self) -> (interface: HidInterface)
        ensures
            interface == (HidInterface {
                vendor_id: LOGITECH_VENDOR_ID,
                product_id: self.matches_product_id,
                usage_page: self.usage_page,
                usage: self.usage,
            }),
    {
        HidInterface {
            vendor_id: LOGITECH_VENDOR_ID,
            product_id: self.matches_product_id,
            usage_page: self.usage_page,
            usage: self.usage,
        }
    }

    /// The HID interface the wheel is expected to re-enumerate as once the
    /// switch has taken effect.
    pub fn target_interface(&self) -> (interface: HidInterface)
        ensures
            interface == (HidInterface {
                vendor_id: LOGITECH_VENDOR_ID,
                product_id: self.expected_product_id_after_switch,
                usage_page: self.usage_page,
                usage: self.usage,
            }),
    {
        HidInterface {
            vendor_id: LOGITECH_VENDOR_ID,
            product_id: self.expected_product_id_after_switch,
            usage_page: self.usage_page,
            usage: self.usage,
        }
    }
}

/// The first protocol (in registration order) that drives `interface`.
pub fn protocol_for_interface(
    interface: HidInterface,
    protocols: &[Box<dyn WheelLedProtocol>],
) -> (index: Option<usize>)
    ensures
        match index {
            Some(p) => {
                &&& p < protocols.len()
                &&& drives(&protocols@[p as int], interface)
                &&& forall|q: int| 0 <= q < p ==> !drives(&protocols@[q], interface)
            },
            None => forall|q: int| 0 <= q < protocols.len() ==> !drives(&protocols@[q], interface),
        },
{
    let mut p: usize = 0;
    while p < protocols.len()
        invariant
            p <= protocols.len(),
            forall|q: int| 0 <= q < p ==> !drives(&protocols@[q], interface),
        decreases protocols.len() - p,
    {
        let proto = &protocols[p];
        if proto.matches(interface.vendor_id, interface.product_id) && interface.usage_page
            == proto.usage_page() && interface.usage == proto.usage() {
            return Some(p);
        }
        p = p + 1;
    }
    None
}

/// Whether `product_id` is listed among the known unsupported wheels.
pub open spec fn is_unsupported_product(product_id: u16) -> bool {
    exists|k: int|
        0 <= k < known_unsupported_wheel_list().len() && #[trigger] known_unsupported_wheel_list()[k].0
            == product_id
}

/// Whether an interface belongs to a recognized Logitech wheel whose LEDs
/// no protocol drives.
pub open spec fn is_unsupported_wheel(interface: HidInterface) -> bool {
    interface.vendor_id == LOGITECH_VENDOR_ID && is_unsupported_product(interface.product_id)
}

/// The first enumerated interface that belongs to a recognized-but-
/// unsupported Logitech wheel, as (product id, wheel name) -- for the
/// "found your wheel, but its LED protocol isn't implemented" diagnostic.
pub fn find_unsupported_wheel(interfaces: &[HidInterface]) -> (found: Option<(u16, &'static str)>)
    ensures
        match found {
            Some((product_id, name)) => exists|i: int|
                0 <= i < interfaces.len() && is_unsupported_wheel(#[trigger] interfaces[i])
                    && interfaces[i].product_id == product_id && (forall|j: int|
                    0 <= j < i ==> !is_unsupported_wheel(#[trigger] interfaces[j]))
                    && known_unsupported_wheel_list().contains((product_id, name@)),
            None => forall|j: int|
                0 <= j < interfaces.len() ==> !is_unsupported_wheel(#[trigger] interfaces[j]),
        },
{
    let wheels = known_unsupported_wheels();
    let mut i: usize = 0;
    while i < interfaces.len()
        invariant
            i <= interfaces.len(),
            wheels.len() == known_unsupported_wheel_list().len(),
            forall|k: int|
                0 <= k < wheels.len() ==> #[trigger] wheels@[k].0
                    == known_unsupported_wheel_list()[k].0 && wheels@[k].1@
                    == known_unsupported_wheel_list()[k].1,
            forall|j: int| 0 <= j < i ==> !is_unsupported_wheel(#[trigger] interfaces@[j]),
        decreases interfaces.len() - i,
    {
        let interface = interfaces[i];
        if interface.vendor_id == LOGITECH_VENDOR_ID {
            let mut k: usize = 0;
            while k < wheels.len()
                invariant
                    i < interfaces.len(),
                    interface == interfaces@[i as int],
                    interface.vendor_id == LOGITECH_VENDOR_ID,
                    k <= wheels.len(),
                    wheels.len() == known_unsupported_wheel_list().len(),
                    forall|m: int|
                        0 <= m < wheels.len() ==> #[trigger] wheels@[m].0
                            == known_unsupported_wheel_list()[m].0 && wheels@[m].1@
                            == known_unsupported_wheel_list()[m].1,
                    forall|m: int|
                        0 <= m < k ==> #[trigger] known_unsupported_wheel_list()[m].0
                            != interface.product_id,
                    forall|j: int| 0 <= j < i ==> !is_unsupported_wheel(#[trigger] interfaces@[j]),
                decreases wheels.len() - k,
            {
                let (product_id, name) = wheels[k];
                if product_id == interface.product_id {
                    assert(known_unsupported_wheel_list()[k as int] == (product_id, name@));
                    return Some((product_id, name));
                }
                k = k + 1;
            }
        }
        i = i + 1;
    }
    None
}

/// The first protocol (in registration order) whose id is `id`. Finding a
/// protocol by id is how a held protocol is cloned: the known protocols
/// hold no state, so a fresh instance with the same id is equivalent.
pub fn position_of_id(protocols: &[Box<dyn WheelLedProtocol>], id: &str) -> (index: Option<usize>)
    ensures
        match index {
            Some(p) => {
                &&& p < protocols.len()
                &&& protocols@[p as int].spec_id() == id@
                &&& forall|q: int| 0 <= q < p ==> protocols@[q].spec_id() != id@
            },
            None => forall|q: int| 0 <= q < protocols.len() ==> protocols@[q].spec_id() != id@,
        },
{
    let wanted = String::from_str(id);
    let mut p: usize = 0;
    while p < protocols.len()
        invariant
            p <= protocols.len(),
            wanted@ == id@,
            forall|q: int| 0 <= q < p ==> protocols@[q].spec_id() != id@,
        decreases protocols.len() - p,
    {
        let candidate = String::from_str(protocols[p].id());
        if candidate == wanted {
            return Some(p);
        }
        p = p + 1;
    }
    None
}

/// After this many consecutive failed writes the wheel is taken to have
/// been unplugged or powered off, and the caller rescans for it.
pub const WRITE_FAILURE_LIMIT: u32 = 5;

/// What the writer loop's wait for the next desired LED state produced.
#[derive(Debug, Clone, Copy)]
pub enum WriterEvent {
    /// A new desired state arrived.
    NewState(LedBarState),
    /// No new state within the wait; keep animating the current one.
    Timeout,
    /// The sending side is gone: the service is shutting down.
    Disconnected,
}

/// What the writer loop should do next.
#[derive(Debug, Clone, Copy)]
pub enum WriterAction {
    /// Write the report for `bits`; when `restart_blink_timer` is set the
    /// blink phase just flipped and the caller restarts its blink timer.
    Write { bits: u8, restart_blink_timer: bool },
    /// Turn every LED off and stop: the service is shutting down.
    ClearAndStop,
}

/// State of the loop that owns an opened wheel: the desired bar state, the
/// phase of the redline blink, and how many writes in a row have failed.
#[derive(Debug, Clone, Copy)]
pub struct LedWriter {
    pub current: LedBarState,
    pub blink_on: bool,
    pub consecutive_write_failures: u32,
}

impl LedWriter {
    /// A writer for a freshly opened wheel: all dark, nothing failed yet.
    pub fn new() -> (writer: LedWriter)
        ensures
            writer.current == (LedBarState { bits: 0, blink: false }),
            !writer.blink_on,
            writer.consecutive_write_failures == 0,
    {
        LedWriter {
            current: LedBarState::default(),
            blink_on: false,
            consecutive_write_failures: 0,
        }
    }

    /// Whether the wheel has been given up on.
    pub open spec fn wheel_lost(&self) -> bool {
        self.consecutive_write_failures >= WRITE_FAILURE_LIMIT
    }

    /// Handles the outcome of one wait for a new desired state.
    /// `blink_interval_elapsed` says whether more than the blink half-period
    /// has passed since the blink timer was last restarted. While the
    /// desired state blinks, the LEDs alternate between its bits and dark,
    /// flipping each time the interval has elapsed; otherwise they show its
    /// bits steadily.
    pub fn on_event(&mut self, event: WriterEvent, blink_interval_elapsed: bool) -> (action:
        WriterAction)
        ensures
            match event {
                WriterEvent::Disconnected => {
                    &&& action == WriterAction::ClearAndStop
                    &&& *final(self) == *old(self)
                },
                _ => {
                    let current = match event {
                        WriterEvent::NewState(state) => state,
                        _ => old(self).current,
                    };
                    &&& final(self).current == current
                    &&& final(self).consecutive_write_failures == old(
                        self,
                    ).consecutive_write_failures
                    &&& if current.blink {
                        &&& final(self).blink_on == (old(self).blink_on != blink_interval_elapsed)
                        &&& action == WriterAction::Write {
                            bits: if final(self).blink_on {
                                current.bits
                            } else {
                                0
                            },
                            restart_blink_timer: blink_interval_elapsed,
                        }
                    } else {
                        &&& final(self).blink_on == old(self).blink_on
                        &&& action == WriterAction::Write {
                            bits: current.bits,
                            restart_blink_timer: false,
                        }
                    }
                },
            },
    {
        match event {
            WriterEvent::Disconnected => {
                return WriterAction::ClearAndStop;
            },
            WriterEvent::NewState(state) => {
                self.current = state;
            },
            WriterEvent::Timeout => {},
        }
        if self.current.blink {
            if blink_interval_elapsed {
                self.blink_on = !self.blink_on;
            }
            let bits = if self.blink_on {
                self.current.bits
            } else {
                0
            };
            WriterAction::Write { bits, restart_blink_timer: blink_interval_elapsed }
        } else {
            WriterAction::Write { bits: self.current.bits, restart_blink_timer: false }
        }
    }

    /// Records whether the last write reached the wheel. Returns `true`
    /// once [`WRITE_FAILURE_LIMIT`] writes in a row have failed: the wheel
    /// appears to have disconnected and should be rescanned for.
    pub fn on_write_result(&mut self, write_ok: bool) -> (wheel_lost: bool)
        requires
            !old(self).wheel_lost(),
        ensures
            final(self).current == old(self).current,
            final(self).blink_on == old(self).blink_on,
            final(self).consecutive_write_failures == if write_ok {
                0
            } else {
                (old(self).consecutive_write_failures + 1) as u32
            },
            wheel_lost == final(self).wheel_lost(),
    {
        if write_ok {
            self.consecutive_write_failures = 0;
        } else {
            self.consecutive_write_failures = self.consecutive_write_failures + 1;
        }
        self.consecutive_write_failures >= WRITE_FAILURE_LIMIT
    }
}

/// Length of the run of failures at the end of a sequence of write
/// outcomes (`true` = the write succeeded).
pub open spec fn trailing_failures(outcomes: Seq<bool>) -> nat
    decreases outcomes.len(),
{
    if outcomes.len() == 0 || outcomes.last() {
        0
    } else {
        trailing_failures(outcomes.drop_last()) + 1
    }
}

/// The failure count after feeding `outcomes` to a writer that started at
/// `start` failures, one [`LedWriter::on_write_result`] at a time.
pub open spec fn failures_after(start: u32, outcomes: Seq<bool>) -> int
    decreases outcomes.len(),
{
    if outcomes.len() == 0 {
        start as int
    } else if outcomes.last() {
        0
    } else {
        failures_after(start, outcomes.drop_last()) + 1
    }
}

/// Starting from a freshly opened wheel, the writer's failure count is the
/// number of failed writes since the last successful one; so it gives up on
/// the wheel exactly when the last [`WRITE_FAILURE_LIMIT`] writes all
/// failed, and one successful write in between starts the count over.
pub proof fn lemma_gives_up_after_consecutive_failures(outcomes: Seq<bool>)
    ensures
        failures_after(0, outcomes) == trailing_failures(outcomes),
        failures_after(0, outcomes) >= WRITE_FAILURE_LIMIT <==> trailing_failures(outcomes)
            >= WRITE_FAILURE_LIMIT,
    decreases outcomes.len(),
{
    if outcomes.len() > 0 {
        lemma_gives_up_after_consecutive_failures(outcomes.drop_last());
    }
}

} // verus!
