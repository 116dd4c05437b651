//! Choosing the port to listen on.
//!
//! A port given on the command line is taken as it is. Without one, the ports
//! from `FIRST_PORT` up to, but not including, `END_PORT` are tried in order,
//! and the first one that can be bound wins.

use vstd::prelude::*;

use crate::config::Address;
use crate::config::Opt;

verus! {

/// The first port that is tried when none was asked for.
pub const FIRST_PORT: u16 = 8080;

/// The end of the range that is tried; this port itself is never tried.
pub const END_PORT: u16 = 65535;

/// What the resolver wants done next.
#[derive(Clone, Copy, Debug, PartialEq, Eq, Structural)]
pub enum Step {
    /// Try to bind this port, release it at once, and report how it went.
    Probe(u16),
    /// The search is over: serve on this port.
    Use(u16),
    /// Every port of the range was tried and none could be bound.
    Fail,
}

/// Whether `port` is one of the ports that a search may try.
pub open spec fn in_probe_range(port: u16) -> bool {
    FIRST_PORT <= port < END_PORT
}

/// The step a search starts with.
pub open spec fn spec_first_step(port: Option<u16>) -> Step {
    match port {
        Some(p) => Step::Use(p),
        None => Step::Probe(FIRST_PORT),
    }
}

/// The step that follows a probe of `port` which bound (`bound`) or did not.
pub open spec fn spec_next_step(port: u16, bound: bool) -> Step {
    if bound {
        Step::Use(port)
    } else if port + 1 < END_PORT {
        Step::Probe((port + 1) as u16)
    } else {
        Step::Fail
    }
}

/// Starts a search: an explicit port is used without a single probe.
pub fn first_step(port: Option<u16>) -> (step: Step)
    ensures
        step == spec_first_step(port),
{
    match port {
        Some(p) => Step::Use(p),
        None => Step::Probe(FIRST_PORT),
    }
}

/// Continues a search after `port` was probed.
pub fn next_step(port: u16, bound: bool) -> (step: Step)
    ensures
        step == spec_next_step(port, bound),
{
    if bound {
        Step::Use(port)
    } else if port < END_PORT - 1 {
        Step::Probe(port + 1)
    } else {
        Step::Fail
    }
}

/// Where a search ends that stands at `step` and takes step after step, if
/// `free` holds the ports that can be bound: the port to serve on, or `None`
/// if the search fails.
pub open spec fn outcome(step: Step, free: Set<u16>) -> Option<u16>
    decreases
        (match step {
            Step::Probe(p) => END_PORT - p + 1,
            _ => 0,
        }),
{
    match step {
        Step::Use(p) => Some(p),
        Step::Fail => None,
        Step::Probe(p) => outcome(spec_next_step(p, free.contains(p)), free),
    }
}

/// The ports that a search probes from `step` on, in the order of the probes.
pub open spec fn probes(step: Step, free: Set<u16>) -> Seq<u16>
    decreases
        (match step {
            Step::Probe(p) => END_PORT - p + 1,
            _ => 0,
        }),
{
    match step {
        Step::Use(_) => Seq::empty(),
        Step::Fail => Seq::empty(),
        Step::Probe(p) => seq![p] + probes(spec_next_step(p, free.contains(p)), free),
    }
}

/// `port` can be bound and no port of the range below it can.
pub open spec fn is_lowest_free(free: Set<u16>, port: u16) -> bool {
    &&& in_probe_range(port)
    &&& free.contains(port)
    &&& forall|q: u16| FIRST_PORT <= q < port ==> !free.contains(q)
}

/// No port of the range can be bound.
pub open spec fn none_free(free: Set<u16>) -> bool {
    forall|q: u16| in_probe_range(q) ==> !free.contains(q)
}

/// What a search hands back: `port` is what comes of the request `asked` on
/// `address`, going by what `probe` answered. A port that was asked for is
/// the result; else the result is a port of the range for which `probe` said
/// yes after it had said no for every port of the range below, or `None`
/// after `probe` had said no for the whole range.
pub open spec fn is_resolved<F: Fn(Address, u16) -> bool>(
    probe: F,
    address: Address,
    asked: Option<u16>,
    port: Option<u16>,
) -> bool {
    match asked {
        Some(_) => port == asked,
        None => match port {
            Some(p) => {
                &&& in_probe_range(p)
                &&& call_ensures(probe, (address, p), true)
                &&& forall|q: u16|
                    FIRST_PORT <= q < p ==> call_ensures(probe, (address, q), false)
            },
            None => forall|q: u16| in_probe_range(q) ==> call_ensures(probe, (address, q), false),
        },
    }
}

/// Whether `probe` answers for `address` as `free` has it: yes for the ports
/// of the range that `free` holds, and no for the others.
pub open spec fn answers_as<F: Fn(Address, u16) -> bool>(
    probe: F,
    address: Address,
    free: Set<u16>,
) -> bool {
    forall|p: u16, bound: bool|
        in_probe_range(p) && #[trigger] call_ensures(probe, (address, p), bound) ==> bound
            == free.contains(p)
}

/// The port to serve on, or `None` where the search found none.
///
/// `probe` is asked whether a port can be bound on the address. It is called
/// for one port after the other, from `FIRST_PORT` on, until it says yes, and
/// not at all where `opt.port` is given.
pub fn get_port<F: Fn(Address, u16) -> bool>(opt: &Opt, probe: F) -> (port: Option<u16>)
    requires
        opt.port is None ==> forall|p: u16|
            in_probe_range(p) ==> call_requires(probe, (opt.address, p)),
    ensures
        is_resolved(probe, opt.address, opt.port, port),
{
    let mut step = first_step(opt.port);
    loop
        invariant
            opt.port is None ==> forall|p: u16|
                in_probe_range(p) ==> call_requires(probe, (opt.address, p)),
            opt.port is Some ==> step == Step::Use(opt.port->0),
            opt.port is None ==> match step {
                Step::Probe(p) => {
                    &&& in_probe_range(p)
                    &&& forall|q: u16|
                        FIRST_PORT <= q < p ==> call_ensures(probe, (opt.address, q), false)
                },
                Step::Use(p) => {
                    &&& in_probe_range(p)
                    &&& call_ensures(probe, (opt.address, p), true)
                    &&& forall|q: u16|
                        FIRST_PORT <= q < p ==> call_ensures(probe, (opt.address, q), false)
                },
                Step::Fail => forall|q: u16|
                    in_probe_range(q) ==> call_ensures(probe, (opt.address, q), false),
            },
        decreases
            (match step {
                Step::Probe(p) => END_PORT - p + 1,
                _ => 0,
            }),
    {
        match step {
            Step::Use(p) => {
                return Some(p);
            },
            Step::Fail => {
                return None;
            },
            Step::Probe(p) => {
                let bound = probe(opt.address, p);
                step = next_step(p, bound);
            },
        }
    }
}

/// A port that was asked for is the port that is used, whatever can be bound,
/// and the search probes nothing on the way.
pub proof fn lemma_explicit_port_is_used(port: u16, free: Set<u16>)
    ensures
        outcome(spec_first_step(Some(port)), free) == Some(port),
        probes(spec_first_step(Some(port)), free) == Seq::<u16>::empty(),
{
}

/// A search from `start` on ends at the lowest free port at or above `start`,
/// or finds none where none is free there.
proof fn lemma_outcome_from(start: u16, free: Set<u16>)
    requires
        in_probe_range(start),
    ensures
        match outcome(Step::Probe(start), free) {
            Some(p) => {
                &&& start <= p < END_PORT
                &&& free.contains(p)
                &&& forall|q: u16| start <= q < p ==> !free.contains(q)
            },
            None => forall|q: u16| start <= q < END_PORT ==> !free.contains(q),
        },
    decreases END_PORT - start,
{
    reveal_with_fuel(outcome, 2);
    if !free.contains(start) && start + 1 < END_PORT {
        lemma_outcome_from((start + 1) as u16, free);
    }
}

/// Without a port on the command line the search ends at the lowest port of
/// the range that can be bound, and fails exactly where none can.
pub proof fn lemma_search_finds_lowest_free(free: Set<u16>)
    ensures
        match outcome(spec_first_step(None), free) {
            Some(p) => is_lowest_free(free, p),
            None => none_free(free),
        },
        forall|p: u16|
            is_lowest_free(free, p) ==> outcome(spec_first_step(None), free) == Some(p),
{
    lemma_outcome_from(FIRST_PORT, free);
    assert forall|p: u16| is_lowest_free(free, p) implies outcome(
        spec_first_step(None),
        free,
    ) == Some(p) by {
        match outcome(spec_first_step(None), free) {
            Some(r) => {
                if r < p {
                    assert(!free.contains(r));
                } else if p < r {
                    assert(!free.contains(p));
                }
            },
            None => {
                assert(!free.contains(p));
            },
        }
    }
}

/// What a search hands back is where the step-by-step search ends, where
/// the probe answers as a set of free ports has it.
pub proof fn lemma_resolved_is_outcome<F: Fn(Address, u16) -> bool>(
    probe: F,
    address: Address,
    asked: Option<u16>,
    port: Option<u16>,
    free: Set<u16>,
)
    requires
        is_resolved(probe, address, asked, port),
        answers_as(probe, address, free),
    ensures
        port == outcome(spec_first_step(asked), free),
{
    lemma_search_finds_lowest_free(free);
    match asked {
        Some(_) => {},
        None => match port {
            Some(p) => {
                assert(call_ensures(probe, (address, p), true));
                assert forall|q: u16| FIRST_PORT <= q < p implies !free.contains(q) by {
                    assert(call_ensures(probe, (address, q), false));
                }
            },
            None => {
                if let Some(r) = outcome(spec_first_step(None), free) {
                    assert(call_ensures(probe, (address, r), false));
                }
            },
        },
    }
}

/// The ports from `start` up to and including `last`, in rising order.
pub open spec fn ports_through(start: u16, last: u16) -> Seq<u16> {
    Seq::new((last - start + 1) as nat, |i: int| (start + i) as u16)
}

proof fn lemma_probes_from(start: u16, free: Set<u16>)
    requires
        in_probe_range(start),
    ensures
        probes(Step::Probe(start), free) == match outcome(Step::Probe(start), free) {
            Some(p) => ports_through(start, p),
            None => ports_through(start, (END_PORT - 1) as u16),
        },
    decreases END_PORT - start,
{
    reveal_with_fuel(outcome, 2);
    reveal_with_fuel(probes, 2);
    let got = probes(Step::Probe(start), free);
    lemma_outcome_from(start, free);
    if free.contains(start) || start + 1 >= END_PORT {
        let last: u16 = start;
        assert(got =~= ports_through(start, last));
    } else {
        let next = (start + 1) as u16;
        lemma_probes_from(next, free);
        lemma_outcome_from(next, free);
        let last: u16 = match outcome(Step::Probe(start), free) {
            Some(p) => p,
            None => (END_PORT - 1) as u16,
        };
        assert(probes(Step::Probe(next), free) == ports_through(next, last));
        assert(got =~= ports_through(start, last));
    }
}

/// Without a port on the command line the search probes the ports one by one
/// from `FIRST_PORT` on and stops with the port it settles on; a failed search
/// has probed the whole range.
pub proof fn lemma_search_probes_in_order(free: Set<u16>)
    ensures
        probes(spec_first_step(None), free) == match outcome(spec_first_step(None), free) {
            Some(p) => ports_through(FIRST_PORT, p),
            None => ports_through(FIRST_PORT, (END_PORT - 1) as u16),
        },
{
    lemma_probes_from(FIRST_PORT, free);
}

} // verus!
