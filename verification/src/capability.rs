//! Capability negotiation: the closed set of device capabilities and the
//! decoding of a client's 64-bit capability mask.
//!
//! Each known capability owns one bit position in the mask, per the emulated
//! input protocol's authoritative assignment (relative pointer at bit 0, then
//! absolute pointer, keyboard, touch, scroll, button). Unknown bits are
//! ignored, never an error, so newer clients keep working.

use vstd::prelude::*;

verus! {

/// One emulated-input capability a virtual device may carry.
#[derive(Clone, Copy, PartialEq, Eq, Structural, Debug)]
pub enum DeviceCapability {
    Pointer,
    PointerAbsolute,
    Keyboard,
    Touch,
    Scroll,
    Button,
}

/// The bit position a capability owns in the 64-bit mask.
pub open spec fn cap_bit_position(cap: DeviceCapability) -> u64 {
    match cap {
        DeviceCapability::Pointer => 0,
        DeviceCapability::PointerAbsolute => 1,
        DeviceCapability::Keyboard => 2,
        DeviceCapability::Touch => 3,
        DeviceCapability::Scroll => 4,
        DeviceCapability::Button => 5,
    }
}

/// The mask bit a capability owns.
pub open spec fn cap_bit(cap: DeviceCapability) -> u64 {
    1u64 << cap_bit_position(cap)
}

/// Whether `mask` carries the bit of `cap`.
pub open spec fn mask_has(mask: u64, cap: DeviceCapability) -> bool {
    mask & cap_bit(cap) != 0
}

/// All known capabilities, in the fixed decode order.
pub open spec fn all_capabilities() -> Seq<DeviceCapability> {
    seq![
        DeviceCapability::Pointer,
        DeviceCapability::PointerAbsolute,
        DeviceCapability::Keyboard,
        DeviceCapability::Touch,
        DeviceCapability::Scroll,
        DeviceCapability::Button,
    ]
}

/// The capabilities encoded in `mask`, in the fixed decode order.
pub open spec fn caps_of_mask(mask: u64) -> Seq<DeviceCapability> {
    all_capabilities().filter(|c: DeviceCapability| mask_has(mask, c))
}

/// Decode a client's capability mask into the list of known capabilities it
/// carries, in the fixed decode order; unknown bits are ignored.
pub fn capabilities_from_mask(mask: u64) -> (caps: Vec<DeviceCapability>)
    ensures
        caps@ == caps_of_mask(mask),
{
    let mut caps: Vec<DeviceCapability> = Vec::new();
    if mask & 0x01 != 0 {
        caps.push(DeviceCapability::Pointer);
    }
    if mask & 0x02 != 0 {
        caps.push(DeviceCapability::PointerAbsolute);
    }
    if mask & 0x04 != 0 {
        caps.push(DeviceCapability::Keyboard);
    }
    if mask & 0x08 != 0 {
        caps.push(DeviceCapability::Touch);
    }
    if mask & 0x10 != 0 {
        caps.push(DeviceCapability::Scroll);
    }
    if mask & 0x20 != 0 {
        caps.push(DeviceCapability::Button);
    }
    proof {
        lemma_cap_bits();
        reveal_with_fuel(Seq::<_>::filter, 8);
        assert(caps@ =~= caps_of_mask(mask));
    }
    caps
}

/// The concrete mask bit of each capability.
pub proof fn lemma_cap_bits()
    ensures
        cap_bit(DeviceCapability::Pointer) == 0x01,
        cap_bit(DeviceCapability::PointerAbsolute) == 0x02,
        cap_bit(DeviceCapability::Keyboard) == 0x04,
        cap_bit(DeviceCapability::Touch) == 0x08,
        cap_bit(DeviceCapability::Scroll) == 0x10,
        cap_bit(DeviceCapability::Button) == 0x20,
{
    assert(1u64 << 0 == 0x01) by (bit_vector);
    assert(1u64 << 1 == 0x02) by (bit_vector);
    assert(1u64 << 2 == 0x04) by (bit_vector);
    assert(1u64 << 3 == 0x08) by (bit_vector);
    assert(1u64 << 4 == 0x10) by (bit_vector);
    assert(1u64 << 5 == 0x20) by (bit_vector);
}

/// The capability set announced to every client on connect: a seat with all
/// six known capabilities.
pub fn advertised_capabilities() -> (caps: Vec<DeviceCapability>)
    ensures
        caps@ == all_capabilities(),
{
    let mut caps: Vec<DeviceCapability> = Vec::new();
    caps.push(DeviceCapability::Pointer);
    caps.push(DeviceCapability::PointerAbsolute);
    caps.push(DeviceCapability::Keyboard);
    caps.push(DeviceCapability::Touch);
    caps.push(DeviceCapability::Scroll);
    caps.push(DeviceCapability::Button);
    proof {
        assert(caps@ =~= all_capabilities());
    }
    caps
}

/// A decoded capability list never holds a capability whose bit is absent
/// from the mask, and holds every capability whose bit is present: membership
/// in `caps_of_mask(mask)` coincides with the mask bit, for every mask.
pub proof fn lemma_caps_of_mask_contains(mask: u64, cap: DeviceCapability)
    ensures
        caps_of_mask(mask).contains(cap) == mask_has(mask, cap),
{
    let pred = |c: DeviceCapability| mask_has(mask, c);
    if mask_has(mask, cap) {
        let idx: int = match cap {
            DeviceCapability::Pointer => 0,
            DeviceCapability::PointerAbsolute => 1,
            DeviceCapability::Keyboard => 2,
            DeviceCapability::Touch => 3,
            DeviceCapability::Scroll => 4,
            DeviceCapability::Button => 5,
        };
        assert(all_capabilities()[idx] == cap);
        all_capabilities().lemma_filter_contains(pred, idx);
    } else {
        if caps_of_mask(mask).contains(cap) {
            let i = choose|i: int|
                0 <= i < caps_of_mask(mask).len() && caps_of_mask(mask)[i] == cap;
            all_capabilities().lemma_filter_pred(pred, i);
        }
    }
}

} // verus!
