//! The flags of an agent, as bits of one number.

use vstd::prelude::*;

verus! {

/// The agent takes part in the registry.
pub const FLAG_ACTIVE: u32 = 1;

/// The memory fields are frozen for good.
pub const FLAG_LOCKED: u32 = 2;

/// A staking pool may be created for the agent.
pub const FLAG_HAS_STAKING: u32 = 4;

/// Whether `flags` holds `flag`.
pub open spec fn has_flag(flags: u32, flag: u32) -> bool {
    flags & flag != 0
}

/// Whether `flags` holds `flag`.
pub fn flag_is_set(flags: u32, flag: u32) -> (set: bool)
    ensures
        set == has_flag(flags, flag),
{
    flags & flag != 0
}

/// `flags` with `flag` added.
pub open spec fn flags_with(flags: u32, flag: u32) -> u32 {
    flags | flag
}

/// `flags` with `flag` taken away.
pub open spec fn flags_without(flags: u32, flag: u32) -> u32 {
    flags & !flag
}

/// Adds `flag` to `flags`.
pub fn with_flag(flags: u32, flag: u32) -> (out: u32)
    ensures
        out == flags_with(flags, flag),
{
    flags | flag
}

/// Takes `flag` away from `flags`.
pub fn without_flag(flags: u32, flag: u32) -> (out: u32)
    ensures
        out == flags_without(flags, flag),
{
    flags & !flag
}

/// The three flags are three different bits.
pub proof fn lemma_flags_disjoint()
    ensures
        FLAG_ACTIVE & FLAG_LOCKED == 0,
        FLAG_ACTIVE & FLAG_HAS_STAKING == 0,
        FLAG_LOCKED & FLAG_ACTIVE == 0,
        FLAG_LOCKED & FLAG_HAS_STAKING == 0,
        FLAG_HAS_STAKING & FLAG_ACTIVE == 0,
        FLAG_HAS_STAKING & FLAG_LOCKED == 0,
{
    assert(1u32 & 2u32 == 0 && 1u32 & 4u32 == 0 && 2u32 & 1u32 == 0 && 2u32 & 4u32 == 0 && 4u32
        & 1u32 == 0 && 4u32 & 2u32 == 0) by (bit_vector);
}

/// Adding a flag sets it and leaves every flag on other bits as it was.
pub proof fn lemma_flag_added(flags: u32, flag: u32, other: u32)
    requires
        flag != 0,
        flag & other == 0,
    ensures
        has_flag(flags_with(flags, flag), flag),
        has_flag(flags_with(flags, flag), other) == has_flag(flags, other),
{
    lemma_or_bits(flags, flag, other);
}

proof fn lemma_or_bits(flags: u32, flag: u32, other: u32)
    by (bit_vector)
    requires
        flag != 0,
        flag & other == 0,
    ensures
        (flags | flag) & flag != 0,
        (flags | flag) & other == flags & other,
{
}

proof fn lemma_and_not_bits(flags: u32, flag: u32, other: u32)
    by (bit_vector)
    requires
        flag & other == 0,
    ensures
        (flags & !flag) & flag == 0,
        (flags & !flag) & other == flags & other,
{
}

/// Removing a flag clears it and leaves every flag on other bits as it was.
pub proof fn lemma_flag_removed(flags: u32, flag: u32, other: u32)
    requires
        flag & other == 0,
    ensures
        !has_flag(flags_without(flags, flag), flag),
        has_flag(flags_without(flags, flag), other) == has_flag(flags, other),
{
    lemma_and_not_bits(flags, flag, other);
}

/// What a new agent starts with: active, not locked, staking as asked.
pub proof fn lemma_initial_flags()
    ensures
        has_flag(FLAG_ACTIVE, FLAG_ACTIVE),
        !has_flag(FLAG_ACTIVE, FLAG_LOCKED),
        !has_flag(FLAG_ACTIVE, FLAG_HAS_STAKING),
        has_flag(flags_with(FLAG_ACTIVE, FLAG_HAS_STAKING), FLAG_ACTIVE),
        !has_flag(flags_with(FLAG_ACTIVE, FLAG_HAS_STAKING), FLAG_LOCKED),
        has_flag(flags_with(FLAG_ACTIVE, FLAG_HAS_STAKING), FLAG_HAS_STAKING),
{
    assert(1u32 & 1u32 != 0 && 1u32 & 2u32 == 0 && 1u32 & 4u32 == 0 && (1u32 | 4u32) & 1u32 != 0
        && (1u32 | 4u32) & 2u32 == 0 && (1u32 | 4u32) & 4u32 != 0) by (bit_vector);
}

} // verus!
