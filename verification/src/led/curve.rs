//! The state of a five-LED shift-light bar: which LEDs are lit and whether
//! they flash. Independent of any wheel's HID protocol.
use vstd::prelude::*;

verus! {

/// Which of the five LEDs are lit (bit 0 = leftmost) and whether the bar
/// should flash.
#[derive(Debug, Clone, Copy, PartialEq, Eq, Structural)]
pub struct LedBarState {
    pub bits: u8,
    pub blink: bool,
}

impl Default for LedBarState {
    /// All LEDs dark, no flashing.
    fn default() -> (state: Self)
        ensures
            state.bits == 0,
            !state.blink,
    {
        LedBarState { bits: 0, blink: false }
    }
}

/// The bit mask with the lowest `count` bits set.
pub open spec fn low_mask(count: u8) -> u8 {
    (((1u16 << count) - 1) as u16) as u8
}

/// Number of set bits.
pub open spec fn count_ones(bits: u8) -> nat
    decreases bits,
{
    if bits == 0 {
        0
    } else {
        proof {
            assert(bits != 0 ==> bits >> 1u8 < bits) by (bit_vector);
        }
        (bits & 1u8) as nat + count_ones(bits >> 1u8)
    }
}

impl LedBarState {
    /// The first `count` LEDs, counted from the leftmost, lit and steady --
    /// how the bar shows progress from the shift point toward redline,
    /// lighting one more LED at a time.
    pub fn lit(count: u8) -> (state: LedBarState)
        requires
            count <= 8,
        ensures
            state.bits == low_mask(count),
            count_ones(state.bits) == count,
            !state.blink,
    {
        let mut bits: u8 = 0;
        let mut i: u8 = 0;
        assert(low_mask(0) == 0) by (bit_vector);
        while i < count
            invariant
                i <= count <= 8,
                bits == low_mask(i),
            decreases count - i,
        {
            assert(i < 8 && bits == low_mask(i) ==> bits | (1u8 << i) == low_mask(
                (i + 1) as u8,
            )) by (bit_vector);
            bits = bits | (1u8 << i);
            i = i + 1;
        }
        proof {
            lemma_count_ones_low_mask(count);
        }
        LedBarState { bits, blink: false }
    }
}

/// The mask of the lowest `count` bits has exactly `count` bits set.
pub proof fn lemma_count_ones_low_mask(count: u8)
    requires
        count <= 8,
    ensures
        count_ones(low_mask(count)) == count,
    decreases count,
{
    if count == 0 {
        assert(low_mask(0) == 0) by (bit_vector);
    } else {
        let k = (count - 1) as u8;
        lemma_count_ones_low_mask(k);
        assert(1 <= count <= 8 && k == count - 1 ==> low_mask(count) != 0 && low_mask(count) & 1u8
            == 1u8 && low_mask(count) >> 1u8 == low_mask(k)) by (bit_vector);
    }
}

/// Lighting more LEDs never turns one off: the LEDs lit for `fewer` are a
/// subset of those lit for `more`, so the count of lit LEDs rises with it.
pub proof fn lemma_lit_is_monotone(fewer: u8, more: u8)
    requires
        fewer <= more <= 8,
    ensures
        low_mask(fewer) & low_mask(more) == low_mask(fewer),
        count_ones(low_mask(fewer)) <= count_ones(low_mask(more)),
{
    assert(fewer <= more <= 8 ==> low_mask(fewer) & low_mask(more) == low_mask(fewer))
        by (bit_vector);
    lemma_count_ones_low_mask(fewer);
    lemma_count_ones_low_mask(more);
}

} // verus!
