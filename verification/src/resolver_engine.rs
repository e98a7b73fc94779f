//! Orchestration of one run: gate the input, deduplicate resolved
//! addresses so the engine runs at most once per address, join the scan
//! outcomes, and project them back onto every hostname.
//!
//! The runner outside the library performs the lookups and the engine
//! invocations; every decision between those steps is made and proved
//! here.

use vstd::prelude::*;

use crate::errors::PipelineError;
use crate::nmap::{Port, ScanEvent, handle_scan_event, is_open_port, scan_event_ports};
use crate::structs::ResolvData;

verus! {

/// Rejects a run with nothing to resolve: an empty target set is the one
/// input error, and with it no resolution or scan work may start.
pub fn check_targets(targets: &Vec<String>) -> (r: Result<(), PipelineError>)
    ensures
        (targets@.len() == 0) <==> (r is Err),
        r is Err ==> r->Err_0 == PipelineError::InputError,
{
    if targets.len() == 0 {
        Err(PipelineError::InputError)
    } else {
        Ok(())
    }
}

/// Number of workers for a run: the configured count, clamped down to
/// the number of targets when the input is small, so tiny inputs do not
/// oversubscribe the pool.
pub fn clamp_threads(threads: usize, n_targets: usize) -> (r: usize)
    ensures
        n_targets < 50 ==> r == n_targets,
        n_targets >= 50 ==> r == threads,
{
    if n_targets < 50 {
        n_targets
    } else {
        threads
    }
}

/// The fully-qualified form of a hostname, as the lookup wants it:
/// trailing-dot-terminated.
pub fn fqdn_of(target: &String) -> (r: String)
    ensures
        r@ == target@ + "."@,
{
    let mut out = target.clone();
    out.append(".");
    out
}

/// Whether some element of `ips` has exactly the characters of `a`.
pub open spec fn appears_in(ips: Seq<String>, a: Seq<char>) -> bool {
    exists|j: int| 0 <= j < ips.len() && (#[trigger] ips[j])@ == a
}

/// Whether at least one hostname resolved to the address `a`.
pub open spec fn some_resolution_has(resolved: Seq<(String, ResolvData)>, a: Seq<char>) -> bool {
    exists|k: int| 0 <= k < resolved.len() && (#[trigger] resolved[k]).1.ip@ == a
}

/// Appending an element keeps every address that already appeared, and
/// makes the appended element's characters appear.
proof fn lemma_appears_in_push(ips: Seq<String>, x: String, a: Seq<char>)
    ensures
        appears_in(ips, a) ==> appears_in(ips.push(x), a),
        x@ == a ==> appears_in(ips.push(x), a),
{
    if appears_in(ips, a) {
        let j = choose|j: int| 0 <= j < ips.len() && (#[trigger] ips[j])@ == a;
        assert(ips.push(x)[j]@ == a);
    }
    if x@ == a {
        assert(ips.push(x)[ips.len() as int]@ == a);
    }
}

/// Whether some element of `v` has the same characters as `s`.
fn contains_string(v: &Vec<String>, s: &String) -> (r: bool)
    ensures
        r == appears_in(v@, s@),
{
    let mut j: usize = 0;
    while j < v.len()
        invariant
            0 <= j <= v@.len(),
            forall|k: int| 0 <= k < j ==> (#[trigger] v@[k])@ != s@,
        decreases v@.len() - j,
    {
        if v[j].eq(s) {
            assert(appears_in(v@, s@));
            return true;
        }
        j += 1;
    }
    false
}

/// Projects the resolution map onto the set of distinct non-empty
/// addresses, in first-seen order. Every address that at least one
/// hostname resolved to appears exactly once, so one scan per address
/// covers them all; empty addresses (failed resolutions) are discarded.
pub fn dedupe_addresses(resolved: &Vec<(String, ResolvData)>) -> (ips: Vec<String>)
    ensures
        ips@.len() <= resolved@.len(),
        forall|i: int, j: int| 0 <= i < j < ips@.len() ==> (#[trigger] ips@[i])@ != (
        #[trigger] ips@[j])@,
        forall|i: int| 0 <= i < ips@.len() ==> (#[trigger] ips@[i])@.len() > 0,
        forall|i: int|
            0 <= i < ips@.len() ==> some_resolution_has(resolved@, (#[trigger] ips@[i])@),
        forall|k: int|
            0 <= k < resolved@.len() && (#[trigger] resolved@[k]).1.ip@.len() > 0 ==> appears_in(
                ips@,
                resolved@[k].1.ip@,
            ),
{
    let mut ips: Vec<String> = Vec::new();
    let mut k: usize = 0;
    while k < resolved.len()
        invariant
            0 <= k <= resolved@.len(),
            ips@.len() <= k,
            forall|i: int, j: int| 0 <= i < j < ips@.len() ==> (#[trigger] ips@[i])@ != (
            #[trigger] ips@[j])@,
            forall|i: int| 0 <= i < ips@.len() ==> (#[trigger] ips@[i])@.len() > 0,
            forall|i: int|
                0 <= i < ips@.len() ==> some_resolution_has(resolved@, (#[trigger] ips@[i])@),
            forall|m: int|
                0 <= m < k && (#[trigger] resolved@[m]).1.ip@.len() > 0 ==> appears_in(
                    ips@,
                    resolved@[m].1.ip@,
                ),
        decreases resolved@.len() - k,
    {
        let ghost prev = ips@;
        let ip = &resolved[k].1.ip;
        let nonempty = !ip.as_str().is_empty();
        let dup = if nonempty {
            contains_string(&ips, ip)
        } else {
            false
        };
        if nonempty && !dup {
            ips.push(ip.clone());
        }
        proof {
            if nonempty && !dup {
                let pushed = ips@[ips@.len() - 1];
                assert(ips@ == prev.push(pushed));
                assert(pushed@ == resolved@[k as int].1.ip@);
                assert forall|m: int|
                    0 <= m < k + 1 && (#[trigger] resolved@[m]).1.ip@.len() > 0 implies appears_in(
                    ips@,
                    resolved@[m].1.ip@,
                ) by {
                    lemma_appears_in_push(prev, pushed, resolved@[m].1.ip@);
                }
                assert forall|i: int| 0 <= i < ips@.len() implies some_resolution_has(
                    resolved@,
                    (#[trigger] ips@[i])@,
                ) by {
                    if i < prev.len() {
                        assert(ips@[i] == prev[i]);
                    } else {
                        assert(resolved@[k as int].1.ip@ == ips@[i]@);
                    }
                }
            } else {
                assert forall|m: int|
                    0 <= m < k + 1 && (#[trigger] resolved@[m]).1.ip@.len() > 0 implies appears_in(
                    ips@,
                    resolved@[m].1.ip@,
                ) by {
                    if m == k {
                        assert(dup);
                    }
                }
            }
        }
        k += 1;
    }
    ips
}

/// The ports the scan table holds for an address: those of its first
/// entry with that address, or none when no scan reached it.
pub open spec fn lookup_ports(scans: Seq<(String, Vec<Port>)>, ip: Seq<char>) -> Seq<Port>
    decreases scans.len(),
{
    if scans.len() == 0 {
        Seq::empty()
    } else if scans[0].0@ == ip {
        scans[0].1@
    } else {
        lookup_ports(scans.skip(1), ip)
    }
}

/// The ports the scan table holds for `ip`.
fn find_scan_ports(scans: &Vec<(String, Vec<Port>)>, ip: &String) -> (ports: Vec<Port>)
    ensures
        ports@ == lookup_ports(scans@, ip@),
{
    proof {
        assert(scans@.skip(0) =~= scans@);
    }
    let mut j: usize = 0;
    while j < scans.len()
        invariant
            0 <= j <= scans@.len(),
            lookup_ports(scans@, ip@) == lookup_ports(scans@.skip(j as int), ip@),
        decreases scans@.len() - j,
    {
        if scans[j].0.eq(ip) {
            let found = scans[j].1.clone();
            proof {
                assert(scans@.skip(j as int)[0] == scans@[j as int]);
                assert(found@ =~= scans@[j as int].1@);
            }
            return found;
        }
        proof {
            assert(scans@.skip(j as int)[0] == scans@[j as int]);
            assert(scans@.skip(j as int).skip(1) =~= scans@.skip(j + 1));
        }
        j += 1;
    }
    proof {
        assert(scans@.skip(scans@.len() as int) =~= Seq::<(String, Vec<Port>)>::empty());
    }
    Vec::new()
}

/// What the final record of one hostname must hold, given its resolution
/// and the shared scan table: the same hostname, the same address, and
/// the table's ports for that address — or no ports at all when the
/// hostname resolved to nothing.
pub open spec fn final_record_ok(
    entry: (String, ResolvData),
    scans: Seq<(String, Vec<Port>)>,
    out: (String, ResolvData),
) -> bool {
    &&& out.0@ == entry.0@
    &&& out.1.ip@ == entry.1.ip@
    &&& out.1.ports_data@ == (if entry.1.ip@.len() == 0 {
        Seq::<Port>::empty()
    } else {
        lookup_ports(scans, entry.1.ip@)
    })
}

/// Expands the address-keyed scan table back to hostname-keyed final
/// records: one record per input hostname, resolved or not, each carrying
/// the scan outcome of its own address.
pub fn project_results(
    resolved: &Vec<(String, ResolvData)>,
    scans: &Vec<(String, Vec<Port>)>,
) -> (out: Vec<(String, ResolvData)>)
    ensures
        out@.len() == resolved@.len(),
        forall|i: int|
            0 <= i < out@.len() ==> #[trigger] final_record_ok(resolved@[i], scans@, out@[i]),
{
    let mut out: Vec<(String, ResolvData)> = Vec::new();
    let mut i: usize = 0;
    while i < resolved.len()
        invariant
            0 <= i <= resolved@.len(),
            out@.len() == i,
            forall|m: int|
                0 <= m < i ==> #[trigger] final_record_ok(resolved@[m], scans@, out@[m]),
        decreases resolved@.len() - i,
    {
        let hostname = resolved[i].0.clone();
        let ip = resolved[i].1.ip.clone();
        let ports: Vec<Port> = if ip.as_str().is_empty() {
            Vec::new()
        } else {
            find_scan_ports(scans, &ip)
        };
        out.push((hostname, ResolvData { ip, ports_data: ports }));
        i += 1;
    }
    out
}

/// Joins the deduplicated addresses with what their scans produced: one
/// table entry per address, each holding only that scan's open ports. A
/// missing engine ends the run instead.
pub fn process_scan_events(ips: &Vec<String>, events: &Vec<ScanEvent>) -> (r: Result<
    Vec<(String, Vec<Port>)>,
    PipelineError,
>)
    requires
        ips@.len() == events@.len(),
    ensures
        r is Err ==> r->Err_0 == PipelineError::EngineUnavailable && exists|k: int|
            0 <= k < events@.len() && #[trigger] events@[k] is EngineUnavailable,
        r is Ok ==> {
            &&& forall|k: int| 0 <= k < events@.len() ==> !(#[trigger] events@[k] is EngineUnavailable)
            &&& r->Ok_0@.len() == ips@.len()
            &&& forall|i: int| 0 <= i < ips@.len() ==> (#[trigger] r->Ok_0@[i]).0@ == ips@[i]@
            &&& forall|i: int|
                0 <= i < ips@.len() ==> (#[trigger] r->Ok_0@[i]).1@ == scan_event_ports(
                    events@[i],
                )
        },
{
    let mut table: Vec<(String, Vec<Port>)> = Vec::new();
    let mut i: usize = 0;
    while i < ips.len()
        invariant
            ips@.len() == events@.len(),
            0 <= i <= ips@.len(),
            table@.len() == i,
            forall|k: int| 0 <= k < i ==> !(#[trigger] events@[k] is EngineUnavailable),
            forall|m: int| 0 <= m < i ==> (#[trigger] table@[m]).0@ == ips@[m]@,
            forall|m: int|
                0 <= m < i ==> (#[trigger] table@[m]).1@ == scan_event_ports(events@[m]),
        decreases ips@.len() - i,
    {
        match handle_scan_event(&events[i]) {
            Ok(ports) => {
                table.push((ips[i].clone(), ports));
            },
            Err(e) => {
                return Err(e);
            },
        }
        i += 1;
    }
    Ok(table)
}

/// How many entries of `ips` have exactly the characters of `a`.
pub open spec fn count_matches(ips: Seq<String>, a: Seq<char>) -> nat
    decreases ips.len(),
{
    if ips.len() == 0 {
        0
    } else {
        (if ips[0]@ == a {
            1nat
        } else {
            0nat
        }) + count_matches(ips.skip(1), a)
    }
}

proof fn lemma_count_matches_zero(ips: Seq<String>, a: Seq<char>)
    requires
        forall|i: int| 0 <= i < ips.len() ==> (#[trigger] ips[i])@ != a,
    ensures
        count_matches(ips, a) == 0,
    decreases ips.len(),
{
    if ips.len() > 0 {
        assert(ips[0]@ != a);
        assert forall|i: int| 0 <= i < ips.skip(1).len() implies (#[trigger] ips.skip(1)[i])@
            != a by {
            assert(ips.skip(1)[i] == ips[i + 1]);
        }
        lemma_count_matches_zero(ips.skip(1), a);
    }
}

proof fn lemma_count_matches_unique(ips: Seq<String>, a: Seq<char>, w: int)
    requires
        forall|i: int, j: int| 0 <= i < j < ips.len() ==> (#[trigger] ips[i])@ != (
        #[trigger] ips[j])@,
        0 <= w < ips.len(),
        ips[w]@ == a,
    ensures
        count_matches(ips, a) == 1,
    decreases ips.len(),
{
    let rest = ips.skip(1);
    assert(forall|i: int| 0 <= i < rest.len() ==> #[trigger] rest[i] == ips[i + 1]);
    if w == 0 {
        assert forall|i: int| 0 <= i < rest.len() implies (#[trigger] rest[i])@ != a by {
            assert(ips[0]@ != ips[i + 1]@);
        }
        lemma_count_matches_zero(rest, a);
    } else {
        assert(ips[0]@ != ips[w]@);
        lemma_count_matches_unique(rest, a, w - 1);
    }
}

/// Dedup invariant: however many hostnames resolved to one non-empty
/// address, the deduplicated address list carries it exactly once, so
/// the engine is invoked exactly once for it, never once per hostname.
pub proof fn lemma_scan_once_per_address(
    resolved: Seq<(String, ResolvData)>,
    ips: Seq<String>,
    k: int,
)
    requires
        forall|i: int, j: int| 0 <= i < j < ips.len() ==> (#[trigger] ips[i])@ != (
        #[trigger] ips[j])@,
        forall|m: int|
            0 <= m < resolved.len() && (#[trigger] resolved[m]).1.ip@.len() > 0 ==> appears_in(
                ips,
                resolved[m].1.ip@,
            ),
        0 <= k < resolved.len(),
        resolved[k].1.ip@.len() > 0,
    ensures
        count_matches(ips, resolved[k].1.ip@) == 1,
{
    assert(appears_in(ips, resolved[k].1.ip@));
    let w = choose|j: int| 0 <= j < ips.len() && (#[trigger] ips[j])@ == resolved[k].1.ip@;
    lemma_count_matches_unique(ips, resolved[k].1.ip@, w);
}

/// Partial failure containment: a final record is fixed by its own
/// hostname's resolution and the shared scan table alone, so a
/// resolution failure of one hostname cannot change the record of
/// another.
pub proof fn lemma_partial_failure_containment(
    e1: (String, ResolvData),
    e2: (String, ResolvData),
    scans: Seq<(String, Vec<Port>)>,
    o1: (String, ResolvData),
    o2: (String, ResolvData),
)
    requires
        final_record_ok(e1, scans, o1),
        final_record_ok(e2, scans, o2),
        e1.0@ == e2.0@,
        e1.1.ip@ == e2.1.ip@,
    ensures
        o1.0@ == o2.0@,
        o1.1.ip@ == o2.1.ip@,
        o1.1.ports_data@ == o2.1.ports_data@,
{
}

/// The scan table's answer for an address is either empty or the port
/// list of one of its entries.
proof fn lemma_lookup_ports_cases(scans: Seq<(String, Vec<Port>)>, ip: Seq<char>)
    ensures
        lookup_ports(scans, ip).len() == 0 || exists|k: int|
            0 <= k < scans.len() && lookup_ports(scans, ip) == (#[trigger] scans[k]).1@,
    decreases scans.len(),
{
    if scans.len() > 0 {
        if scans[0].0@ == ip {
            assert(lookup_ports(scans, ip) == scans[0].1@);
        } else {
            let rest = scans.skip(1);
            lemma_lookup_ports_cases(rest, ip);
            if lookup_ports(rest, ip).len() != 0 {
                let k = choose|k: int|
                    0 <= k < rest.len() && lookup_ports(rest, ip) == (#[trigger] rest[k]).1@;
                assert(rest[k] == scans[k + 1]);
                assert(lookup_ports(scans, ip) == scans[k + 1].1@);
            }
        }
    }
}

/// Open-port filter: when every scan table entry holds only open ports,
/// every projected final record holds only open ports; no closed or
/// filtered port can reach a final record.
pub proof fn lemma_final_records_only_open(
    resolved: Seq<(String, ResolvData)>,
    scans: Seq<(String, Vec<Port>)>,
    out: Seq<(String, ResolvData)>,
)
    requires
        forall|k: int, m: int|
            0 <= k < scans.len() && 0 <= m < scans[k].1@.len() ==> is_open_port(
                #[trigger] scans[k].1@[m],
            ),
        out.len() == resolved.len(),
        forall|i: int| 0 <= i < out.len() ==> #[trigger] final_record_ok(resolved[i], scans, out[i]),
    ensures
        forall|i: int, m: int|
            0 <= i < out.len() && 0 <= m < out[i].1.ports_data@.len() ==> is_open_port(
                #[trigger] out[i].1.ports_data@[m],
            ),
{
    assert forall|i: int, m: int|
        0 <= i < out.len() && 0 <= m < out[i].1.ports_data@.len() implies is_open_port(
        out[i].1.ports_data@[m],
    ) by {
        assert(final_record_ok(resolved[i], scans, out[i]));
        if resolved[i].1.ip@.len() > 0 {
            lemma_lookup_ports_cases(scans, resolved[i].1.ip@);
            if lookup_ports(scans, resolved[i].1.ip@).len() != 0 {
                let k = choose|k: int|
                    0 <= k < scans.len() && lookup_ports(scans, resolved[i].1.ip@) == (
                    #[trigger] scans[k]).1@;
                assert(out[i].1.ports_data@[m] == scans[k].1@[m]);
            }
        }
    }
}

} // verus!
