//! One reconciliation pass over the relay bank.
//!
//! Each relay's reading is handled on its own: a payload that decodes drives
//! the relay's line, while a failed read or an undecodable payload leaves the
//! line as it was and the pass goes on to the next relay.
use vstd::prelude::*;
use crate::bank::{level_of, Level, RelayBank};
use crate::decode::{decode_desired, decoded};

verus! {

/// The level that a reading asks for, if any: `None` for a failed read
/// (`None` reading) or an undecodable payload.
pub open spec fn reading_level(reading: Option<Seq<char>>) -> Option<Level> {
    match reading {
        Some(p) => match decoded(p) {
            Some(on) => Some(level_of(on)),
            None => None,
        },
        None => None,
    }
}

/// The level a line holds after a reading, given the level it held before.
pub open spec fn level_after(before: Level, reading: Option<Seq<char>>) -> Level {
    match reading_level(reading) {
        Some(l) => l,
        None => before,
    }
}

/// The view of an optional owned payload.
pub open spec fn reading_view(reading: Option<String>) -> Option<Seq<char>> {
    match reading {
        Some(s) => Some(s@),
        None => None,
    }
}

/// Applies one relay's reading: `reading` is the payload fetched for relay
/// `index`, or `None` where the read failed. Returns the level that the line
/// must be driven to, or `None` where it stays as it is.
pub fn apply_reading(bank: &mut RelayBank, index: usize, reading: Option<&str>) -> (r: Option<
    Level,
>)
    requires
        index < old(bank)@.len(),
    ensures
        r == reading_level(
            match reading {
                Some(p) => Some(p@),
                None => None,
            },
        ),
        r is Some ==> final(bank)@ == old(bank)@.update(index as int, r->0),
        r is None ==> final(bank)@ == old(bank)@,
{
    match reading {
        Some(payload) => match decode_desired(payload) {
            Some(on) => Some(bank.set_desired(index, on)),
            None => None,
        },
        None => None,
    }
}

/// Runs one pass: relay `i` gets `readings[i]`, in order from the first relay
/// to the last. Returns, per relay, the level its line must be driven to, or
/// `None` where it stays as it is.
pub fn reconcile(bank: &mut RelayBank, readings: &Vec<Option<String>>) -> (r: Vec<Option<Level>>)
    requires
        readings@.len() == old(bank)@.len(),
    ensures
        final(bank)@.len() == old(bank)@.len(),
        r@.len() == readings@.len(),
        forall|i: int|
            0 <= i < readings@.len() ==> #[trigger] r@[i] == reading_level(
                reading_view(readings@[i]),
            ),
        forall|i: int|
            0 <= i < readings@.len() ==> #[trigger] final(bank)@[i] == level_after(
                old(bank)@[i],
                reading_view(readings@[i]),
            ),
{
    let ghost before = bank@;
    let mut out: Vec<Option<Level>> = Vec::new();
    let mut i: usize = 0;
    while i < readings.len()
        invariant
            i <= readings@.len(),
            readings@.len() == before.len(),
            bank@.len() == before.len(),
            out@.len() == i,
            forall|j: int|
                0 <= j < i ==> #[trigger] out@[j] == reading_level(reading_view(readings@[j])),
            forall|j: int|
                0 <= j < i ==> #[trigger] bank@[j] == level_after(
                    before[j],
                    reading_view(readings@[j]),
                ),
            forall|j: int| i <= j < before.len() ==> #[trigger] bank@[j] == before[j],
        decreases readings@.len() - i,
    {
        let reading: Option<&str> = match &readings[i] {
            Some(s) => Some(s.as_str()),
            None => None,
        };
        let step = apply_reading(bank, i, reading);
        out.push(step);
        i = i + 1;
    }
    out
}

/// A reading that does not decode (a failed read, empty text, text that is
/// not JSON, a JSON value that is not an integer) leaves the line unchanged.
pub proof fn lemma_undecodable_keeps_level(before: Level, reading: Option<Seq<char>>)
    requires
        reading is None || decoded(reading->0) is None,
    ensures
        level_after(before, reading) == before,
{
}

/// A failure on one relay's read does not hold back the others: in a pass
/// where relay `k`'s read failed, every other relay still gets exactly the
/// level that its own reading asks for.
pub proof fn lemma_failure_is_isolated(
    before: Seq<Level>,
    after: Seq<Level>,
    readings: Seq<Option<Seq<char>>>,
    k: int,
)
    requires
        0 <= k < readings.len(),
        readings[k] is None,
        before.len() == readings.len(),
        after.len() == readings.len(),
        forall|i: int|
            0 <= i < readings.len() ==> #[trigger] after[i] == level_after(before[i], readings[i]),
    ensures
        after[k] == before[k],
        forall|i: int|
            0 <= i < readings.len() && i != k ==> #[trigger] after[i] == level_after(
                before[i],
                readings[i],
            ),
{
}

} // verus!
