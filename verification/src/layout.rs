//! The bit layout of an id: 41 bits of timestamp, 10 bits of machine id and
//! 12 bits of sequence, from the most significant end, under one reserved bit.

use vstd::prelude::*;

verus! {

/// Width of the sequence field.
pub const SEQUENCE_BITS: u64 = 12;

/// Width of the machine id field.
pub const MACHINE_ID_BITS: u64 = 10;

/// Largest sequence number within one millisecond.
pub const MAX_SEQUENCE: u64 = 0xFFF;

/// Largest machine id.
pub const MAX_MACHINE_ID: u64 = 0x3FF;

/// Position of the machine id field.
pub const MACHINE_ID_SHIFT: u64 = 12;

/// Position of the timestamp field.
pub const TIMESTAMP_SHIFT: u64 = 22;

/// The first timestamp that the bits above `TIMESTAMP_SHIFT` cannot hold.
pub const TIMESTAMP_LIMIT: u64 = 0x400_0000_0000;

/// The id made of a timestamp, a machine id and a sequence number.
pub open spec fn compose_spec(timestamp: u64, machine_id: u64, sequence: u64) -> u64 {
    (timestamp << 22) | (machine_id << 12) | sequence
}

/// The three fields of an id: timestamp, machine id, sequence number.
pub open spec fn parse_spec(id: u64) -> (u64, u64, u64) {
    (id >> 22, (id >> 12) & 0x3FF, id & 0xFFF)
}

/// Puts the three fields together.
pub fn compose(timestamp: u64, machine_id: u64, sequence: u64) -> (id: u64)
    ensures
        id == compose_spec(timestamp, machine_id, sequence),
{
    (timestamp << TIMESTAMP_SHIFT) | (machine_id << MACHINE_ID_SHIFT) | sequence
}

/// Takes an id apart. Total: every 64-bit value has three fields.
pub fn parse(id: u64) -> (parts: (u64, u64, u64))
    ensures
        parts == parse_spec(id),
{
    let timestamp = id >> TIMESTAMP_SHIFT;
    let machine_id = (id >> MACHINE_ID_SHIFT) & MAX_MACHINE_ID;
    let sequence = id & MAX_SEQUENCE;
    (timestamp, machine_id, sequence)
}

/// Whether the three values fit their fields, so that composing loses nothing.
pub open spec fn fits(timestamp: u64, machine_id: u64, sequence: u64) -> bool {
    timestamp < TIMESTAMP_LIMIT && machine_id <= MAX_MACHINE_ID && sequence <= MAX_SEQUENCE
}

/// Whether the pair (`t1`, `s1`) comes before (`t2`, `s2`): an earlier
/// millisecond, or the same millisecond and a smaller sequence number.
pub open spec fn precedes(t1: u64, s1: u64, t2: u64, s2: u64) -> bool {
    t1 < t2 || (t1 == t2 && s1 < s2)
}

/// Taking an id apart gives back the machine id and the sequence number it
/// was made of, and its timestamp cut to the bits that the field holds;
/// where the timestamp fits, that is the timestamp itself.
pub proof fn lemma_parse_of_compose(timestamp: u64, machine_id: u64, sequence: u64)
    requires
        machine_id <= MAX_MACHINE_ID,
        sequence <= MAX_SEQUENCE,
    ensures
        parse_spec(compose_spec(timestamp, machine_id, sequence)).0 == timestamp % TIMESTAMP_LIMIT,
        parse_spec(compose_spec(timestamp, machine_id, sequence)).1 == machine_id,
        parse_spec(compose_spec(timestamp, machine_id, sequence)).2 == sequence,
        timestamp < TIMESTAMP_LIMIT ==> parse_spec(
            compose_spec(timestamp, machine_id, sequence),
        ) == (timestamp, machine_id, sequence),
{
    assert((((timestamp << 22) | (machine_id << 12) | sequence) >> 22) == timestamp
        % 0x400_0000_0000) by (bit_vector)
        requires
            machine_id <= 0x3FF,
            sequence <= 0xFFF,
    ;
    assert(((((timestamp << 22) | (machine_id << 12) | sequence) >> 12) & 0x3FF) == machine_id)
        by (bit_vector)
        requires
            machine_id <= 0x3FF,
            sequence <= 0xFFF,
    ;
    assert((((timestamp << 22) | (machine_id << 12) | sequence) & 0xFFF) == sequence)
        by (bit_vector)
        requires
            machine_id <= 0x3FF,
            sequence <= 0xFFF,
    ;
}

/// Every 64-bit value is the id made of its own three fields.
pub proof fn lemma_compose_of_parse(id: u64)
    ensures
        compose_spec(parse_spec(id).0, parse_spec(id).1, parse_spec(id).2) == id,
        fits(parse_spec(id).0, parse_spec(id).1, parse_spec(id).2),
{
    assert((((id >> 22) << 22) | (((id >> 12) & 0x3FF) << 12) | (id & 0xFFF)) == id)
        by (bit_vector);
    assert((id >> 22) < 0x400_0000_0000 && ((id >> 12) & 0x3FF) <= 0x3FF && (id & 0xFFF) <= 0xFFF)
        by (bit_vector);
}

/// Where the fields fit, the id is the number whose digits in mixed radix
/// are the three fields.
pub proof fn lemma_compose_value(timestamp: u64, machine_id: u64, sequence: u64)
    requires
        fits(timestamp, machine_id, sequence),
    ensures
        compose_spec(timestamp, machine_id, sequence) == timestamp * 0x40_0000 + machine_id * 0x1000
            + sequence,
{
    assert(((timestamp << 22) | (machine_id << 12) | sequence) == timestamp * 0x40_0000
        + machine_id * 0x1000 + sequence) by (bit_vector)
        requires
            timestamp < 0x400_0000_0000,
            machine_id <= 0x3FF,
            sequence <= 0xFFF,
    ;
}

/// Ids of one machine are ordered as their (timestamp, sequence) pairs are.
pub proof fn lemma_compose_order(t1: u64, s1: u64, t2: u64, s2: u64, machine_id: u64)
    requires
        fits(t1, machine_id, s1),
        fits(t2, machine_id, s2),
    ensures
        compose_spec(t1, machine_id, s1) < compose_spec(t2, machine_id, s2) <==> precedes(
            t1,
            s1,
            t2,
            s2,
        ),
        compose_spec(t1, machine_id, s1) == compose_spec(t2, machine_id, s2) <==> (t1 == t2 && s1
            == s2),
{
    lemma_compose_value(t1, machine_id, s1);
    lemma_compose_value(t2, machine_id, s2);
}

/// An id whose timestamp stays under 2^41 has its top bit clear.
pub proof fn lemma_reserved_bit_clear(timestamp: u64, machine_id: u64, sequence: u64)
    requires
        timestamp < 0x200_0000_0000,
        machine_id <= MAX_MACHINE_ID,
        sequence <= MAX_SEQUENCE,
    ensures
        compose_spec(timestamp, machine_id, sequence) < 0x8000_0000_0000_0000,
{
    lemma_compose_value(timestamp, machine_id, sequence);
}

} // verus!
