//! What holds of every reconciliation pass, proved over the specifications of
//! `plan_of`, `fetched_plan_of` and `summary_of`.

use vstd::prelude::*;

use crate::addr::{Ipv4Addr, Ipv6Addr};
use crate::reconcile::{
    fetched_plan_of, first_record, ipv4_differs, ipv4_note, ipv6_differs, ipv6_note, notes_of,
    outcome_line, outcome_lines, plan_of, realizes, summary_of, AddressFamily, PlannedUpdate,
    ReconcileError,
};
use crate::record::{is_update_of, DnsContent, DnsRecord};

verus! {

/// When the stored IPv4 and IPv6 addresses equal the resolved ones, the pass
/// plans no update and has no message to send.
pub proof fn law_unchanged_addresses_are_silent(
    name: Seq<char>,
    recs: Seq<DnsRecord>,
    v4: Ipv4Addr,
    v6: Ipv6Addr,
    results: Seq<Result<(), String>>,
)
    requires
        first_record(recs, name, AddressFamily::V4) matches Some(i) && recs[i].content == (
        DnsContent::A { content: v4 }),
        first_record(recs, name, AddressFamily::V6) matches Some(j) && recs[j].content == (
        DnsContent::AAAA { content: v6 }),
    ensures
        plan_of(name, recs, v4, v6) matches Ok(q) && q.len() == 0 && forall|p: Seq<PlannedUpdate>|
            realizes(p, recs, q) ==> summary_of(name, notes_of(p), results) is None,
{
    let q = plan_of(name, recs, v4, v6)->Ok_0;
    assert(q =~= Seq::<(int, DnsContent, Seq<char>)>::empty());
}

/// When only the IPv4 address drifted, the pass updates the IPv4 record alone
/// and its message reports only the new IPv4 address.
pub proof fn law_only_ipv4_drift(
    name: Seq<char>,
    recs: Seq<DnsRecord>,
    v4: Ipv4Addr,
    v6: Ipv6Addr,
    results: Seq<Result<(), String>>,
)
    requires
        first_record(recs, name, AddressFamily::V4) matches Some(i) && ipv4_differs(recs[i], v4),
        first_record(recs, name, AddressFamily::V6) matches Some(j) && recs[j].content == (
        DnsContent::AAAA { content: v6 }),
        results.len() == 1,
    ensures
        plan_of(name, recs, v4, v6) == Ok::<_, ReconcileError>(
            seq![
                (
                    first_record(recs, name, AddressFamily::V4).unwrap(),
                    DnsContent::A { content: v4 },
                    ipv4_note(v4),
                ),
            ],
        ),
        forall|p: Seq<PlannedUpdate>|
            realizes(p, recs, plan_of(name, recs, v4, v6)->Ok_0) ==> summary_of(
                name,
                notes_of(p),
                results,
            ) == Some("Dyndns update ("@ + name + ")"@ + outcome_line(ipv4_note(v4), results[0])),
{
    let i = first_record(recs, name, AddressFamily::V4).unwrap();
    let q = plan_of(name, recs, v4, v6)->Ok_0;
    assert(q =~= seq![(i, DnsContent::A { content: v4 }, ipv4_note(v4))]);
    assert forall|p: Seq<PlannedUpdate>| realizes(p, recs, q) implies summary_of(
        name,
        notes_of(p),
        results,
    ) == Some("Dyndns update ("@ + name + ")"@ + outcome_line(ipv4_note(v4), results[0])) by {
        assert(notes_of(p).len() == 1);
        assert(notes_of(p)[0] == p[0].note@);
        assert(is_update_of(p[0].request, recs[q[0].0], q[0].1));
        lemma_one_line(notes_of(p), results);
        assert(outcome_lines(notes_of(p), results) == outcome_line(q[0].2, results[0]));
    }
}

/// When only the IPv6 address drifted, the pass updates the IPv6 record alone
/// and its message reports only the new IPv6 address.
pub proof fn law_only_ipv6_drift(
    name: Seq<char>,
    recs: Seq<DnsRecord>,
    v4: Ipv4Addr,
    v6: Ipv6Addr,
    results: Seq<Result<(), String>>,
)
    requires
        first_record(recs, name, AddressFamily::V4) matches Some(i) && recs[i].content == (
        DnsContent::A { content: v4 }),
        first_record(recs, name, AddressFamily::V6) matches Some(j) && ipv6_differs(recs[j], v6),
        results.len() == 1,
    ensures
        plan_of(name, recs, v4, v6) == Ok::<_, ReconcileError>(
            seq![
                (
                    first_record(recs, name, AddressFamily::V6).unwrap(),
                    DnsContent::AAAA { content: v6 },
                    ipv6_note(v6),
                ),
            ],
        ),
        forall|p: Seq<PlannedUpdate>|
            realizes(p, recs, plan_of(name, recs, v4, v6)->Ok_0) ==> summary_of(
                name,
                notes_of(p),
                results,
            ) == Some("Dyndns update ("@ + name + ")"@ + outcome_line(ipv6_note(v6), results[0])),
{
    let j = first_record(recs, name, AddressFamily::V6).unwrap();
    let q = plan_of(name, recs, v4, v6)->Ok_0;
    assert(q =~= seq![(j, DnsContent::AAAA { content: v6 }, ipv6_note(v6))]);
    assert forall|p: Seq<PlannedUpdate>| realizes(p, recs, q) implies summary_of(
        name,
        notes_of(p),
        results,
    ) == Some("Dyndns update ("@ + name + ")"@ + outcome_line(ipv6_note(v6), results[0])) by {
        assert(notes_of(p).len() == 1);
        assert(notes_of(p)[0] == p[0].note@);
        assert(is_update_of(p[0].request, recs[q[0].0], q[0].1));
        lemma_one_line(notes_of(p), results);
        assert(outcome_lines(notes_of(p), results) == outcome_line(q[0].2, results[0]));
    }
}

proof fn lemma_one_line(notes: Seq<Seq<char>>, results: Seq<Result<(), String>>)
    requires
        notes.len() == 1,
    ensures
        outcome_lines(notes, results) == outcome_line(notes[0], results[0]),
{
    assert(notes.drop_last().len() == 0);
    assert(outcome_lines(notes.drop_last(), results.subrange(0, 0)) == Seq::<char>::empty());
    assert(outcome_lines(notes, results) =~= outcome_line(notes[0], results[0]));
}

/// When the provider lists no IPv4 record under the name, the pass fails with
/// `RecordNotFound` and plans no update.
pub proof fn law_missing_ipv4_record(
    name: Seq<char>,
    ipv4: Ipv4Addr,
    ipv6: Ipv6Addr,
    records: Vec<DnsRecord>,
)
    requires
        first_record(records@, name, AddressFamily::V4) is None,
    ensures
        fetched_plan_of(name, Ok(ipv4), Ok(ipv6), Ok(records)) == Err::<
            Seq<(int, DnsContent, Seq<char>)>,
            ReconcileError,
        >(ReconcileError::RecordNotFound { family: AddressFamily::V4 }),
{
}

/// A message over two updates of which one failed holds one line for each,
/// in order: an `Updated` line for the one that went through and an
/// `Update failed` line, with the error, for the other. It is sent all the
/// same.
pub proof fn law_mixed_outcomes_both_reported(
    name: Seq<char>,
    first: Seq<char>,
    second: Seq<char>,
    r1: Result<(), String>,
    r2: Result<(), String>,
)
    requires
        r1 is Ok != r2 is Ok,
    ensures
        summary_of(name, seq![first, second], seq![r1, r2]) == Some(
            "Dyndns update ("@ + name + ")"@ + outcome_line(first, r1) + outcome_line(second, r2),
        ),
        r1 matches Err(e) ==> outcome_line(first, r1) == "\n- Update failed: "@ + first
            + "; Error was: "@ + e@,
        r1 is Ok ==> outcome_line(first, r1) == "\n- Updated: "@ + first,
        r2 matches Err(e) ==> outcome_line(second, r2) == "\n- Update failed: "@ + second
            + "; Error was: "@ + e@,
        r2 is Ok ==> outcome_line(second, r2) == "\n- Updated: "@ + second,
{
    let notes = seq![first, second];
    let results = seq![r1, r2];
    assert(notes.drop_last() =~= seq![first]);
    lemma_one_line(seq![first], results.subrange(0, 1));
    assert(results.subrange(0, 1)[0] == r1);
    assert(outcome_lines(notes, results) =~= outcome_line(first, r1) + outcome_line(second, r2));
    assert(("Dyndns update ("@ + name + ")"@ + outcome_lines(notes, results)) =~= (
    "Dyndns update ("@ + name + ")"@ + outcome_line(first, r1) + outcome_line(second, r2)));
}

/// When resolving either address fails, the pass fails with that error before
/// any record is looked at, so no update is planned and nothing is sent.
pub proof fn law_resolution_failure_stops_pass(
    name: Seq<char>,
    ipv4: Result<Ipv4Addr, ReconcileError>,
    ipv6: Result<Ipv6Addr, ReconcileError>,
    records: Result<Vec<DnsRecord>, ReconcileError>,
)
    requires
        ipv4 is Err || ipv6 is Err,
    ensures
        ipv4 matches Err(e) ==> fetched_plan_of(name, ipv4, ipv6, records) == Err::<
            Seq<(int, DnsContent, Seq<char>)>,
            ReconcileError,
        >(e),
        ipv4 is Ok ==> fetched_plan_of(name, ipv4, ipv6, records) == Err::<
            Seq<(int, DnsContent, Seq<char>)>,
            ReconcileError,
        >(ipv6->Err_0),
{
}

} // verus!
