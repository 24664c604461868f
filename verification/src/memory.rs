//! Choosing the memory that a shared image lives in, among the types a device offers.

use vstd::prelude::*;

verus! {

/// The most types of memory a device has.
pub const MAX_MEMORY_TYPES: usize = 32;

/// Memory on the device.
pub open spec fn device_local_spec() -> u32 {
    1
}

/// Memory on the device that the host can map and sees as it is.
pub open spec fn mappable_spec() -> u32 {
    7
}

/// Whether flags hold all of the wanted ones.
pub open spec fn holds_all(flags: u32, wanted: u32) -> bool {
    flags & wanted == wanted
}

/// Calls `ash::vk::MemoryPropertyFlags::contains`: whether the wanted flags are among
/// the given ones, both as raw bits.
#[verifier::external_body]
fn contains(flags: u32, wanted: u32) -> (contained: bool)
    ensures
        contained == holds_all(flags, wanted),
{
    ash::vk::MemoryPropertyFlags::from_raw(flags).contains(
        ash::vk::MemoryPropertyFlags::from_raw(wanted),
    )
}

/// Gives the raw bits of `ash::vk::MemoryPropertyFlags::DEVICE_LOCAL`: the lowest bit.
#[verifier::external_body]
fn device_local() -> (flags: u32)
    ensures
        flags == device_local_spec(),
{
    ash::vk::MemoryPropertyFlags::DEVICE_LOCAL.as_raw()
}

/// Gives the raw bits of `ash::vk::MemoryPropertyFlags::DEVICE_LOCAL`, `HOST_VISIBLE`
/// and `HOST_COHERENT` together: the three lowest bits.
#[verifier::external_body]
fn mappable() -> (flags: u32)
    ensures
        flags == mappable_spec(),
{
    (ash::vk::MemoryPropertyFlags::DEVICE_LOCAL | ash::vk::MemoryPropertyFlags::HOST_VISIBLE
        | ash::vk::MemoryPropertyFlags::HOST_COHERENT).as_raw()
}

/// Whether bit `index` allows a type.
pub open spec fn allows(type_bits: u32, index: u32) -> bool {
    type_bits & (1u32 << index) != 0
}

/// Whether the type at `index` is allowed and has the wanted flags.
pub open spec fn suits(types: Seq<u32>, type_bits: u32, wanted: u32, index: int) -> bool {
    allows(type_bits, index as u32) && holds_all(types[index], wanted)
}

/// The first type that suits.
pub open spec fn is_first(
    types: Seq<u32>,
    type_bits: u32,
    wanted: u32,
    found: Option<u32>,
) -> bool {
    match found {
        Some(index) => {
            &&& index < types.len()
            &&& suits(types, type_bits, wanted, index as int)
            &&& forall|i: int| 0 <= i < index ==> !suits(types, type_bits, wanted, i)
        },
        None => forall|i: int| 0 <= i < types.len() ==> !suits(types, type_bits, wanted, i),
    }
}

/// The first allowed type with the wanted flags.
fn first_type(types: &[u32], type_bits: u32, wanted: u32) -> (found: Option<u32>)
    requires
        types@.len() <= MAX_MEMORY_TYPES,
    ensures
        is_first(types@, type_bits, wanted, found),
{
    let mut i: u32 = 0;
    while (i as usize) < types.len()
        invariant
            i <= types@.len() <= MAX_MEMORY_TYPES,
            forall|j: int| 0 <= j < i ==> !suits(types@, type_bits, wanted, j),
        decreases types@.len() - i,
    {
        if type_bits & (1u32 << i) != 0 && contains(types[i as usize], wanted) {
            return Some(i);
        }
        i += 1;
    }
    None
}

/// The first allowed type on the device, or else the first allowed one.
pub open spec fn is_picked(types: Seq<u32>, type_bits: u32, found: Option<u32>) -> bool {
    match found {
        Some(index) => is_first(types, type_bits, device_local_spec(), Some(index)) || (is_first(
            types,
            type_bits,
            device_local_spec(),
            None,
        ) && is_first(types, type_bits, 0, Some(index))),
        None => is_first(types, type_bits, 0, None),
    }
}

/// The first allowed type that can be mapped, or else the one that is picked without that
/// wish.
pub open spec fn is_picked_for_mapping(
    types: Seq<u32>,
    type_bits: u32,
    found: Option<(u32, bool)>,
) -> bool {
    match found {
        Some((index, true)) => is_first(types, type_bits, mappable_spec(), Some(index)),
        Some((index, false)) => is_first(types, type_bits, mappable_spec(), None) && is_picked(
            types,
            type_bits,
            Some(index),
        ),
        None => is_first(types, type_bits, 0, None),
    }
}

/// The type of memory for a shared image, among the given ones and those that
/// `type_bits` allows: the first on the device, or else the first.
pub fn pick_memory_type(types: &[u32], type_bits: u32) -> (found: Option<u32>)
    requires
        types@.len() <= MAX_MEMORY_TYPES,
    ensures
        is_picked(types@, type_bits, found),
{
    let found: Option<u32> = first_type(types, type_bits, device_local());
    if found.is_some() {
        return found;
    }
    first_type(types, type_bits, 0)
}

/// The type of memory for an image that is to be mapped if it can be, and whether it
/// can: the first that can, or else as [`pick_memory_type`] chooses.
pub fn pick_mappable_memory_type(types: &[u32], type_bits: u32) -> (found: Option<(u32, bool)>)
    requires
        types@.len() <= MAX_MEMORY_TYPES,
    ensures
        is_picked_for_mapping(types@, type_bits, found),
{
    if let Some(index) = first_type(types, type_bits, mappable()) {
        return Some((index, true));
    }
    let picked: Option<u32> = pick_memory_type(types, type_bits);
    match picked {
        Some(index) => Some((index, false)),
        None => None,
    }
}

/// Memory is found exactly where some type is allowed: a type that has wanted flags
/// is one that suits without any.
pub proof fn anything_suits_without_wishes(types: Seq<u32>, type_bits: u32, wanted: u32)
    ensures
        is_first(types, type_bits, 0, None) <==> forall|i: int|
            0 <= i < types.len() ==> !allows(type_bits, #[trigger] (i as u32)),
        is_first(types, type_bits, 0, None) ==> is_first(types, type_bits, wanted, None),
{
    assert forall|flags: u32| #[trigger] holds_all(flags, 0) by {
        assert(flags & 0 == 0) by (bit_vector);
    }
    assert forall|i: int| 0 <= i < types.len() implies suits(types, type_bits, 0, i) == allows(
        type_bits,
        #[trigger] (i as u32),
    ) by {
        assert(holds_all(types[i], 0));
    }
    if is_first(types, type_bits, 0, None) {
        assert forall|i: int| 0 <= i < types.len() implies !suits(types, type_bits, wanted, i) by {
            assert(!suits(types, type_bits, 0, i));
            assert(holds_all(types[i], 0));
        }
    }
}

/// Whether the bit with a number is set.
pub open spec fn has_bit(bits: u32, number: u32) -> bool {
    (bits >> number) % 2 == 1
}

/// A type is allowed exactly where the bit with its index is set.
pub proof fn a_bit_allows_its_type(type_bits: u32, index: u32)
    requires
        index < 32,
    ensures
        allows(type_bits, index) <==> has_bit(type_bits, index),
{
    assert((type_bits & (1u32 << index) != 0) == ((type_bits >> index) % 2 == 1)) by (bit_vector)
        requires
            index < 32,
    ;
}

/// Flags hold the wanted ones exactly where every wanted bit is among theirs.
pub proof fn flags_hold_every_wanted_one(flags: u32, wanted: u32, number: u32)
    requires
        number < 32,
    ensures
        holds_all(flags, wanted) && has_bit(wanted, number) ==> has_bit(flags, number),
        holds_all(flags, 0),
        holds_all(flags, flags),
        wanted == (1u32 << number) ==> (holds_all(flags, wanted) <==> has_bit(flags, number)),
{
    assert((flags & wanted == wanted && (wanted >> number) % 2 == 1) ==> (flags >> number) % 2 == 1)
        by (bit_vector)
        requires
            number < 32,
    ;
    assert(flags & 0 == 0) by (bit_vector);
    assert(flags & flags == flags) by (bit_vector);
    assert(wanted == (1u32 << number) ==> ((flags & wanted == wanted) == ((flags >> number) % 2
        == 1))) by (bit_vector)
        requires
            number < 32,
    ;
}

/// The lowest flag is memory on the device; with the next two it can be mapped and is seen
/// as it is.
pub proof fn the_flags_of_memory(flags: u32)
    ensures
        holds_all(flags, device_local_spec()) <==> has_bit(flags, 0),
        holds_all(flags, mappable_spec()) <==> has_bit(flags, 0) && has_bit(flags, 1) && has_bit(
            flags,
            2,
        ),
{
    assert((flags & 1 == 1) == ((flags >> 0) % 2 == 1)) by (bit_vector);
    assert((flags & 7 == 7) == ((flags >> 0) % 2 == 1 && (flags >> 1) % 2 == 1 && (flags >> 2) % 2
        == 1)) by (bit_vector);
}

/// The first type that suits is one that does, and none before it does; there is one
/// exactly where any suits.
pub proof fn the_first_is_before_every_other(
    types: Seq<u32>,
    type_bits: u32,
    wanted: u32,
    found: Option<u32>,
    other: u32,
)
    requires
        types.len() <= 32,
        is_first(types, type_bits, wanted, found),
        other < types.len(),
        has_bit(type_bits, other),
        types[other as int] & wanted == wanted,
    ensures
        found matches Some(index) && index <= other && index < types.len() && has_bit(
            type_bits,
            index,
        ) && types[index as int] & wanted == wanted,
{
    a_bit_allows_its_type(type_bits, other);
    assert(suits(types, type_bits, wanted, other as int));
    if let Some(index) = found {
        a_bit_allows_its_type(type_bits, index);
    }
}

/// Memory on the device is preferred: wherever an allowed type is on the device, the type
/// that is picked is, and no allowed one on the device comes before it. Of others the first
/// allowed one is picked.
pub proof fn memory_on_the_device_is_preferred(
    types: Seq<u32>,
    type_bits: u32,
    found: Option<u32>,
    other: u32,
)
    requires
        types.len() <= 32,
        is_picked(types, type_bits, found),
        other < types.len(),
        has_bit(type_bits, other),
    ensures
        found matches Some(index) && {
            &&& index < types.len()
            &&& has_bit(type_bits, index)
            &&& has_bit(types[other as int], 0) ==> has_bit(types[index as int], 0) && index
                <= other
            &&& !has_bit(types[index as int], 0) ==> index <= other
        },
{
    a_bit_allows_its_type(type_bits, other);
    the_flags_of_memory(types[other as int]);
    flags_hold_every_wanted_one(types[other as int], 0, 0);
    assert(suits(types, type_bits, 0, other as int));
    if has_bit(types[other as int], 0) {
        assert(suits(types, type_bits, device_local_spec(), other as int));
    }
    if let Some(index) = found {
        a_bit_allows_its_type(type_bits, index);
        the_flags_of_memory(types[index as int]);
    }
}

/// Memory that can be mapped is preferred to all other: wherever an allowed type can be,
/// the one that is picked can, and no allowed one that can be mapped comes before it. It is
/// said to be mappable exactly where it is.
pub proof fn mappable_memory_is_preferred(
    types: Seq<u32>,
    type_bits: u32,
    found: Option<(u32, bool)>,
    other: u32,
)
    requires
        types.len() <= 32,
        is_picked_for_mapping(types, type_bits, found),
        other < types.len(),
        has_bit(type_bits, other),
    ensures
        found matches Some((index, mapped)) && {
            let can = |flags: u32| has_bit(flags, 0) && has_bit(flags, 1) && has_bit(flags, 2);
            &&& index < types.len()
            &&& has_bit(type_bits, index)
            &&& mapped <==> can(types[index as int])
            &&& can(types[other as int]) ==> mapped && index <= other
            &&& !mapped ==> is_picked(types, type_bits, Some(index))
        },
{
    a_bit_allows_its_type(type_bits, other);
    the_flags_of_memory(types[other as int]);
    flags_hold_every_wanted_one(types[other as int], 0, 0);
    assert(suits(types, type_bits, 0, other as int));
    assert(suits(types, type_bits, mappable_spec(), other as int) <==> holds_all(
        types[other as int],
        mappable_spec(),
    ));
    if let Some((index, mapped)) = found {
        a_bit_allows_its_type(type_bits, index);
        the_flags_of_memory(types[index as int]);
        assert(suits(types, type_bits, mappable_spec(), index as int) <==> allows(
            type_bits,
            index,
        ) && holds_all(types[index as int], mappable_spec()));
    }
}

} // verus!
