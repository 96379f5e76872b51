//! The commands of the startup sequence and of each polling cycle.
//!
//! The caller carries out each command in order: it drives output lines,
//! writes and reads remote records, works the network link and sleeps.
//! What a read returns goes to `cycle::apply_reading`.
use vstd::prelude::*;
use vstd::string::*;
use crate::bank::Level;
use crate::paths::{relay_path, relay_path_of, status_path, status_path_of};

verus! {

/// One step for the caller to carry out.
#[derive(Debug)]
pub enum Command {
    /// Drive relay `relay`'s output line to `level`.
    Drive { relay: usize, level: Level },
    /// Replace the remote record at `path` by the JSON text `body`.
    Write { path: String, body: String },
    /// Fetch the remote record at `path`, the desired state of relay `relay`.
    Read { relay: usize, path: String },
    /// Drop the network association.
    Disconnect,
    /// Ask for a network association.
    Connect,
    /// Pause for this many milliseconds.
    Sleep { ms: u64 },
}

/// How long the pauses of a cycle are.
pub struct Cadence {
    /// The pause after a reconnect request.
    pub reconnect_pause_ms: u64,
    /// The pause at the end of each cycle.
    pub poll_interval_ms: u64,
}

/// The body of the status record: the JSON string `"online"`.
pub open spec fn online_body() -> Seq<char> {
    "\"online\""@
}

/// The body of a relay record at initialisation: the JSON number 0.
pub open spec fn zero_body() -> Seq<char> {
    "0"@
}

/// `c` drives relay `relay`'s line to `level`.
pub open spec fn is_drive(c: Command, relay: int, level: Level) -> bool {
    match c {
        Command::Drive { relay: r, level: l } => r == relay && l == level,
        _ => false,
    }
}

/// `c` writes `body` at `path`.
pub open spec fn is_write(c: Command, path: Seq<char>, body: Seq<char>) -> bool {
    match c {
        Command::Write { path: p, body: b } => p@ == path && b@ == body,
        _ => false,
    }
}

/// `c` reads relay `relay`'s record at `path`.
pub open spec fn is_read(c: Command, relay: int, path: Seq<char>) -> bool {
    match c {
        Command::Read { relay: r, path: p } => r == relay && p@ == path,
        _ => false,
    }
}

/// `c` reads some record.
pub open spec fn reads_any(c: Command) -> bool {
    c is Read
}

/// From position `start` on, `p` writes 0 to every relay's record in relay order.
pub open spec fn zeroes_from(p: Seq<Command>, start: int, id: Seq<char>, names: Seq<String>) -> bool {
    forall|i: int|
        0 <= i < names.len() ==> #[trigger] is_write(p[start + i], relay_path_of(id, names[i]@), zero_body())
}

/// The startup sequence for device `id` with relays `names`: every line
/// driven HIGH in relay order, then the status written, then every relay's
/// record written to 0.
pub open spec fn startup_shape(p: Seq<Command>, id: Seq<char>, names: Seq<String>) -> bool {
    let n = names.len();
    &&& p.len() == 2 * n + 1
    &&& forall|i: int| 0 <= i < n ==> #[trigger] is_drive(p[i], i, Level::High)
    &&& is_write(p[n as int], status_path_of(id), online_body())
    &&& zeroes_from(p, n + 1 as int, id, names)
}

/// From position `start` on, `p` reads every relay's record in relay order.
pub open spec fn reads_from(p: Seq<Command>, start: int, id: Seq<char>, names: Seq<String>) -> bool {
    forall|i: int|
        0 <= i < names.len() ==> #[trigger] is_read(p[start + i], i, relay_path_of(id, names[i]@))
}

/// One polling cycle for device `id` with relays `names`: where the link was
/// found down, a disconnect, a connect and the reconnect pause first; then a
/// read of every relay's record in relay order; then the cycle pause.
pub open spec fn cycle_shape(
    p: Seq<Command>,
    id: Seq<char>,
    names: Seq<String>,
    connected: bool,
    cadence: Cadence,
) -> bool {
    let n = names.len();
    let off: int = if connected { 0 } else { 3 };
    &&& p.len() == off + n + 1
    &&& !connected ==> p[0] == Command::Disconnect && p[1] == Command::Connect && p[2]
        == (Command::Sleep { ms: cadence.reconnect_pause_ms })
    &&& reads_from(p, off, id, names)
    &&& p[off + n] == (Command::Sleep { ms: cadence.poll_interval_ms })
}

/// The startup commands for device `device_id` whose relays are `relay_names`.
pub fn startup_plan(device_id: &str, relay_names: &Vec<String>) -> (r: Vec<Command>)
    requires
        2 * relay_names@.len() + 1 <= usize::MAX,
    ensures
        startup_shape(r@, device_id@, relay_names@),
{
    let n = relay_names.len();
    let mut plan: Vec<Command> = Vec::new();
    let mut i: usize = 0;
    while i < n
        invariant
            i <= n,
            n == relay_names@.len(),
            plan@.len() == i,
            forall|j: int| 0 <= j < i ==> #[trigger] is_drive(plan@[j], j, Level::High),
        decreases n - i,
    {
        plan.push(Command::Drive { relay: i, level: Level::High });
        i = i + 1;
    }
    let body = "\"online\"";
    plan.push(Command::Write { path: status_path(device_id), body: String::from_str(body) });
    let mut k: usize = 0;
    while k < n
        invariant
            k <= n,
            n == relay_names@.len(),
            plan@.len() == n + 1 + k,
            forall|j: int| 0 <= j < n ==> #[trigger] is_drive(plan@[j], j, Level::High),
            is_write(plan@[n as int], status_path_of(device_id@), online_body()),
            forall|j: int|
                0 <= j < k ==> #[trigger] is_write(
                    plan@[n + 1 + j],
                    relay_path_of(device_id@, relay_names@[j]@),
                    zero_body(),
                ),
        decreases n - k,
    {
        let path = relay_path(device_id, relay_names[k].as_str());
        plan.push(Command::Write { path, body: String::from_str("0") });
        k = k + 1;
    }
    plan
}

/// The commands of one polling cycle, given whether the link was found up.
pub fn cycle_plan(
    device_id: &str,
    relay_names: &Vec<String>,
    connected: bool,
    cadence: &Cadence,
) -> (r: Vec<Command>)
    requires
        relay_names@.len() + 4 <= usize::MAX,
    ensures
        cycle_shape(r@, device_id@, relay_names@, connected, *cadence),
{
    let n = relay_names.len();
    let mut plan: Vec<Command> = Vec::new();
    if !connected {
        plan.push(Command::Disconnect);
        plan.push(Command::Connect);
        plan.push(Command::Sleep { ms: cadence.reconnect_pause_ms });
    }
    let ghost off: int = if connected { 0 } else { 3 };
    let mut i: usize = 0;
    while i < n
        invariant
            i <= n,
            n == relay_names@.len(),
            off == (if connected { 0int } else { 3int }),
            plan@.len() == off + i,
            !connected ==> plan@[0] == Command::Disconnect && plan@[1] == Command::Connect
                && plan@[2] == (Command::Sleep { ms: cadence.reconnect_pause_ms }),
            forall|j: int|
                0 <= j < i ==> #[trigger] is_read(
                    plan@[off + j],
                    j,
                    relay_path_of(device_id@, relay_names@[j]@),
                ),
        decreases n - i,
    {
        let path = relay_path(device_id, relay_names[i].as_str());
        plan.push(Command::Read { relay: i, path });
        i = i + 1;
    }
    plan.push(Command::Sleep { ms: cadence.poll_interval_ms });
    plan
}

/// Startup drives every relay's line HIGH before any remote record is read:
/// in the startup commands followed by whatever comes after them, each
/// relay's drive-HIGH command stands before every read, whatever the store holds.
pub proof fn lemma_startup_drives_before_reads(
    p: Seq<Command>,
    rest: Seq<Command>,
    id: Seq<char>,
    names: Seq<String>,
)
    requires
        startup_shape(p, id, names),
    ensures
        forall|k: int| 0 <= k < p.len() ==> !reads_any(#[trigger] p[k]),
        forall|i: int, k: int|
            0 <= i < names.len() && 0 <= k < p.len() + rest.len() && reads_any(
                #[trigger] (p + rest)[k],
            ) ==> i < k && is_drive(#[trigger] (p + rest)[i], i, Level::High),
{
    let n = names.len() as int;
    assert forall|k: int| 0 <= k < p.len() implies !reads_any(#[trigger] p[k]) by {
        if k < n {
            assert(is_drive(p[k], k, Level::High));
        }
        if k > n {
            let j = k - (n + 1);
            assert(is_write(p[(n + 1) + j], relay_path_of(id, names[j]@), zero_body()));
        }
    }
    assert forall|i: int, k: int|
        0 <= i < names.len() && 0 <= k < p.len() + rest.len() && reads_any(
            #[trigger] (p + rest)[k],
        ) implies i < k && is_drive(#[trigger] (p + rest)[i], i, Level::High) by {
        if k < p.len() {
            assert((p + rest)[k] == p[k]);
            assert(!reads_any(p[k]));
        }
        assert((p + rest)[i] == p[i]);
    }
}

/// Losing the link does not end the polling: a cycle that found the link down
/// asks for a reconnect first and then reads every relay's record, at the same
/// paths and in the same order as a cycle that found it up, and ends with the
/// same pause before the next cycle.
pub proof fn lemma_link_loss_keeps_polling(
    down: Seq<Command>,
    up: Seq<Command>,
    id: Seq<char>,
    names: Seq<String>,
    cadence: Cadence,
)
    requires
        cycle_shape(down, id, names, false, cadence),
        cycle_shape(up, id, names, true, cadence),
    ensures
        down.len() == up.len() + 3,
        down[0] == Command::Disconnect,
        down[1] == Command::Connect,
        forall|i: int|
            0 <= i < names.len() ==> is_read(#[trigger] down[3 + i], i, relay_path_of(id, names[i]@))
                && is_read(up[i], i, relay_path_of(id, names[i]@)),
        down.last() == up.last(),
{
    assert forall|i: int| 0 <= i < names.len() implies is_read(
        #[trigger] down[3 + i],
        i,
        relay_path_of(id, names[i]@),
    ) && is_read(up[i], i, relay_path_of(id, names[i]@)) by {
        assert(is_read(up[0 + i], i, relay_path_of(id, names[i]@)));
    }
}

} // verus!
