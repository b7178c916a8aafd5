//! Identifiers of mapped windows.

use crate::decimal::{
    decimal, decimal_is_injective, decimal_length, decimal_reads_back, is_digit, number,
    power_of_ten, to_decimal,
};
use vstd::prelude::*;

verus! {

/// Gives out identifiers, each once.
#[derive(Debug)]
pub struct IdCounter {
    value: u64,
}

impl IdCounter {
    /// The identifier that comes next.
    pub closed spec fn upcoming(self) -> u64 {
        self.value
    }

    /// Starts counting at one.
    pub fn new() -> (counter: IdCounter)
        ensures
            counter.upcoming() == 1,
    {
        IdCounter { value: 1 }
    }

    /// Gives out the next identifier; after the largest one the count starts again at zero.
    pub fn next(&mut self) -> (id: u64)
        ensures
            id == old(self).upcoming(),
            final(self).upcoming() == if id == u64::MAX {
                0
            } else {
                (id + 1) as u64
            },
    {
        let id: u64 = self.value;
        self.value = self.value.wrapping_add(1);
        id
    }
}

/// Identifier of a mapped window.
#[derive(Debug, Clone, Copy, PartialEq, Eq, Hash, Structural)]
pub struct MappedId(u64);

impl MappedId {
    /// The number of the identifier.
    pub closed spec fn number(self) -> u64 {
        self.0
    }

    /// Takes the next identifier.
    pub fn next(counter: &mut IdCounter) -> (id: MappedId)
        ensures
            id.number() == old(counter).upcoming(),
            final(counter).upcoming() == if old(counter).upcoming() == u64::MAX {
                0
            } else {
                (old(counter).upcoming() + 1) as u64
            },
    {
        MappedId(counter.next())
    }

    /// The number of the identifier.
    pub fn get(self) -> (number: u64)
        ensures
            number == self.number(),
    {
        self.0
    }

    /// Converts the identifier to a string that can be used as an identifier in
    /// ext_foreign_toplevel_handle_v1::identifier
    ///
    /// > An identifier is a string that contains up to 32 printable ASCII bytes.
    /// > An identifier must not be an empty string.
    ///
    /// Since the number is exposed to IPC, the conversion is stable and reversible: it is the
    /// decimal notation. That way, clients can associate a foreign toplevel handle with an IPC
    /// window id.
    ///
    /// This namespace can be extended with any non-numeric prefix to disambiguate.
    pub fn to_protocol_identifier(self) -> (identifier: String)
        ensures
            identifier@ == decimal(self.number() as nat),
            1 <= identifier@.len() <= 20,
            forall|i: int|
                0 <= i < identifier@.len() ==> is_digit(#[trigger] identifier@[i]),
    {
        proof {
            decimal_reads_back(self.number() as nat);
            reveal_with_fuel(power_of_ten, 21);
            decimal_length(self.number() as nat, 20);
        }
        to_decimal(self.0)
    }
}

/// The number of an identifier determines it.
pub proof fn identifier_is_its_number(a: MappedId, b: MappedId)
    ensures
        a.number() == b.number() ==> a == b,
{
}

/// Protocol identifiers can be turned back into the number, so different windows have different
/// protocol identifiers.
pub proof fn protocol_identifier_is_reversible(a: MappedId, b: MappedId)
    ensures
        number(decimal(a.number() as nat)) == a.number(),
        decimal(a.number() as nat) == decimal(b.number() as nat) ==> a == b,
{
    decimal_reads_back(a.number() as nat);
    decimal_is_injective(a.number() as nat, b.number() as nat);
}

/// The counter after giving out `taken` identifiers.
pub open spec fn counter_after(start: u64, taken: nat) -> u64
    decreases taken,
{
    if taken == 0 {
        start
    } else {
        let before = counter_after(start, (taken - 1) as nat);
        if before == u64::MAX {
            0
        } else {
            (before + 1) as u64
        }
    }
}

/// A counter gives out no identifier twice until it has given out all of them.
pub proof fn identifiers_are_unique(start: u64, first: nat, second: nat)
    requires
        first < second,
        second - first <= u64::MAX,
    ensures
        counter_after(start, first) != counter_after(start, second),
{
    counter_counts(start, first);
    counter_counts(start, second);
}

proof fn counter_counts(start: u64, taken: nat)
    ensures
        counter_after(start, taken) == (start + taken) % 0x1_0000_0000_0000_0000,
    decreases taken,
{
    if taken > 0 {
        counter_counts(start, (taken - 1) as nat);
    }
}

} // verus!
