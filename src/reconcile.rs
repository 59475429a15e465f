//! One reconciliation pass: which records are stale, which updates to send,
//! and the message that reports them.

use vstd::prelude::*;

use crate::addr::{ipv4_text, ipv6_text, push_ipv4_text, push_ipv6_text, Ipv4Addr, Ipv6Addr};
use crate::record::{is_update_of, DnsContent, DnsRecord, UpdateDnsRecordBuilder};

verus! {

/// The two address families that a pass keeps current.
#[derive(Clone, Copy, Debug, PartialEq, Eq, Structural)]
pub enum AddressFamily {
    V4,
    V6,
}

/// Why a pass failed.
#[derive(Clone, Debug, PartialEq, Eq)]
pub enum ReconcileError {
    /// An HTTP endpoint could not be reached.
    Network { message: String },
    /// A resolver answered with text that is not an address of its family.
    Parse { message: String },
    /// The DNS provider refused a request.
    Provider { message: String },
    /// The provider listed no record of this family under the name.
    RecordNotFound { family: AddressFamily },
    /// The webhook could not be reached.
    Notify { message: String },
}

/// What a failed pass reports.
pub open spec fn error_text(e: ReconcileError) -> Seq<char> {
    match e {
        ReconcileError::Network { message } => message@,
        ReconcileError::Parse { message } => message@,
        ReconcileError::Provider { message } => message@,
        ReconcileError::RecordNotFound { family } => if family == AddressFamily::V4 {
            "No IPv4 record found"@
        } else {
            "No IPv6 record found"@
        },
        ReconcileError::Notify { message } => message@,
    }
}

impl ReconcileError {
    /// The text that reports this error.
    pub fn describe(&self) -> (r: String)
        ensures
            r@ == error_text(*self),
    {
        match self {
            ReconcileError::Network { message } => message.clone(),
            ReconcileError::Parse { message } => message.clone(),
            ReconcileError::Provider { message } => message.clone(),
            ReconcileError::RecordNotFound { family } => match family {
                AddressFamily::V4 => String::from_str("No IPv4 record found"),
                AddressFamily::V6 => String::from_str("No IPv6 record found"),
            },
            ReconcileError::Notify { message } => message.clone(),
        }
    }
}

/// An update that the pass will send, with the note that reports it.
#[derive(Clone, Debug, PartialEq, Eq)]
pub struct PlannedUpdate {
    pub request: UpdateDnsRecordBuilder,
    pub note: String,
}

pub open spec fn has_family(c: DnsContent, f: AddressFamily) -> bool {
    match c {
        DnsContent::A { .. } => f == AddressFamily::V4,
        DnsContent::AAAA { .. } => f == AddressFamily::V6,
        _ => false,
    }
}

/// `rec` is a record of family `f` named `name`.
pub open spec fn selects(rec: DnsRecord, name: Seq<char>, f: AddressFamily) -> bool {
    rec.name@ == name && has_family(rec.content, f)
}

/// Index of the first record at or after `i` that `selects` picks.
pub open spec fn first_from(recs: Seq<DnsRecord>, name: Seq<char>, f: AddressFamily, i: int) -> Option<
    int,
>
    decreases recs.len() - i,
{
    if i < 0 || i >= recs.len() {
        None
    } else if selects(recs[i], name, f) {
        Some(i)
    } else {
        first_from(recs, name, f, i + 1)
    }
}

/// Index of the first record of family `f` named `name`.
pub open spec fn first_record(recs: Seq<DnsRecord>, name: Seq<char>, f: AddressFamily) -> Option<
    int,
> {
    first_from(recs, name, f, 0)
}

/// The stored IPv4 address of `rec` is not `v4`.
pub open spec fn ipv4_differs(rec: DnsRecord, v4: Ipv4Addr) -> bool {
    match rec.content {
        DnsContent::A { content } => content != v4,
        _ => false,
    }
}

/// The stored IPv6 address of `rec` is not `v6`.
pub open spec fn ipv6_differs(rec: DnsRecord, v6: Ipv6Addr) -> bool {
    match rec.content {
        DnsContent::AAAA { content } => content != v6,
        _ => false,
    }
}

pub open spec fn ipv4_note(v4: Ipv4Addr) -> Seq<char> {
    "New IPv4 address ("@ + ipv4_text(v4) + ")"@
}

pub open spec fn ipv6_note(v6: Ipv6Addr) -> Seq<char> {
    "New IPv6 address ("@ + ipv6_text(v6) + ")"@
}

/// The updates of a pass, as (index of the record, new content, note): first
/// the IPv4 record if it is stale, then the IPv6 record if it is stale.
pub open spec fn plan_of(name: Seq<char>, recs: Seq<DnsRecord>, v4: Ipv4Addr, v6: Ipv6Addr) -> Result<
    Seq<(int, DnsContent, Seq<char>)>,
    ReconcileError,
> {
    match first_record(recs, name, AddressFamily::V4) {
        None => Err(ReconcileError::RecordNotFound { family: AddressFamily::V4 }),
        Some(i) => match first_record(recs, name, AddressFamily::V6) {
            None => Err(ReconcileError::RecordNotFound { family: AddressFamily::V6 }),
            Some(j) => Ok(
                (if ipv4_differs(recs[i], v4) {
                    seq![(i, DnsContent::A { content: v4 }, ipv4_note(v4))]
                } else {
                    seq![]
                }) + (if ipv6_differs(recs[j], v6) {
                    seq![(j, DnsContent::AAAA { content: v6 }, ipv6_note(v6))]
                } else {
                    seq![]
                }),
            ),
        },
    }
}

/// The executable updates `p` are the planned updates `q` of `recs`.
pub open spec fn realizes(
    p: Seq<PlannedUpdate>,
    recs: Seq<DnsRecord>,
    q: Seq<(int, DnsContent, Seq<char>)>,
) -> bool {
    &&& p.len() == q.len()
    &&& forall|k: int|
        0 <= k < p.len() ==> {
            &&& 0 <= q[k].0 < recs.len()
            &&& is_update_of(#[trigger] p[k].request, recs[q[k].0], q[k].1)
            &&& p[k].note@ == q[k].2
        }
}

/// The plan of a pass once its three fetches have come back: the first
/// failure among the IPv4 address, the IPv6 address and the listing, in that
/// order, ends it; otherwise `plan_of`.
pub open spec fn fetched_plan_of(
    name: Seq<char>,
    ipv4: Result<Ipv4Addr, ReconcileError>,
    ipv6: Result<Ipv6Addr, ReconcileError>,
    records: Result<Vec<DnsRecord>, ReconcileError>,
) -> Result<Seq<(int, DnsContent, Seq<char>)>, ReconcileError> {
    match ipv4 {
        Err(e) => Err(e),
        Ok(a) => match ipv6 {
            Err(e) => Err(e),
            Ok(b) => match records {
                Err(e) => Err(e),
                Ok(rs) => plan_of(name, rs@, a, b),
            },
        },
    }
}

/// Index of the first record of family `family` named `name`.
pub fn find_record(records: &Vec<DnsRecord>, name: &String, family: AddressFamily) -> (r: Option<
    usize,
>)
    ensures
        match r {
            Some(i) => first_record(records@, name@, family) == Some(i as int),
            None => first_record(records@, name@, family) is None,
        },
{
    let mut i: usize = 0;
    while i < records.len()
        invariant
            i <= records@.len(),
            first_record(records@, name@, family) == first_from(records@, name@, family, i as int),
        decreases records@.len() - i,
    {
        let rec = &records[i];
        let fits = match &rec.content {
            DnsContent::A { .. } => family == AddressFamily::V4,
            DnsContent::AAAA { .. } => family == AddressFamily::V6,
            _ => false,
        };
        if fits && rec.name == *name {
            return Some(i);
        }
        i = i + 1;
    }
    None
}

fn planned(record: &DnsRecord, content: DnsContent, note: String) -> (r: PlannedUpdate)
    ensures
        is_update_of(r.request, *record, content),
        r.note == note,
{
    PlannedUpdate { request: UpdateDnsRecordBuilder::new(record).content(content), note }
}

/// Decides which of the two records named `name` are stale against the
/// resolved addresses `ipv4` and `ipv6`, and builds their updates.
pub fn plan_updates(name: &String, records: &Vec<DnsRecord>, ipv4: Ipv4Addr, ipv6: Ipv6Addr) -> (r:
    Result<Vec<PlannedUpdate>, ReconcileError>)
    ensures
        match plan_of(name@, records@, ipv4, ipv6) {
            Ok(q) => r.is_ok() && realizes(r.unwrap()@, records@, q),
            Err(e) => r == Err::<Vec<PlannedUpdate>, ReconcileError>(e),
        },
{
    let i = match find_record(records, name, AddressFamily::V4) {
        Some(i) => i,
        None => {
            return Err(ReconcileError::RecordNotFound { family: AddressFamily::V4 });
        },
    };
    let j = match find_record(records, name, AddressFamily::V6) {
        Some(j) => j,
        None => {
            return Err(ReconcileError::RecordNotFound { family: AddressFamily::V6 });
        },
    };
    proof {
        lemma_first_from_in_range(records@, name@, AddressFamily::V4, 0);
        lemma_first_from_in_range(records@, name@, AddressFamily::V6, 0);
    }
    let ghost q = plan_of(name@, records@, ipv4, ipv6).unwrap();
    let mut out: Vec<PlannedUpdate> = Vec::new();
    let stale4 = match &records[i].content {
        DnsContent::A { content } => *content != ipv4,
        _ => false,
    };
    if stale4 {
        let mut note = String::from_str("New IPv4 address (");
        push_ipv4_text(&mut note, ipv4);
        note.append(")");
        out.push(planned(&records[i], DnsContent::A { content: ipv4 }, note));
    }
    let stale6 = match &records[j].content {
        DnsContent::AAAA { content } => *content != ipv6,
        _ => false,
    };
    if stale6 {
        let mut note = String::from_str("New IPv6 address (");
        push_ipv6_text(&mut note, ipv6);
        note.append(")");
        out.push(planned(&records[j], DnsContent::AAAA { content: ipv6 }, note));
    }
    assert(realizes(out@, records@, q));
    Ok(out)
}

/// Decides a pass from what its three fetches returned: a failed fetch ends
/// the pass with its error before any record is looked at.
pub fn plan_from_fetch(
    name: &String,
    ipv4: Result<Ipv4Addr, ReconcileError>,
    ipv6: Result<Ipv6Addr, ReconcileError>,
    records: Result<Vec<DnsRecord>, ReconcileError>,
) -> (r: Result<Vec<PlannedUpdate>, ReconcileError>)
    ensures
        match fetched_plan_of(name@, ipv4, ipv6, records) {
            Ok(q) => r.is_ok() && realizes(r.unwrap()@, records.unwrap()@, q),
            Err(e) => r == Err::<Vec<PlannedUpdate>, ReconcileError>(e),
        },
{
    let a = match ipv4 {
        Ok(a) => a,
        Err(e) => {
            return Err(e);
        },
    };
    let b = match ipv6 {
        Ok(b) => b,
        Err(e) => {
            return Err(e);
        },
    };
    match records {
        Ok(rs) => plan_updates(name, &rs, a, b),
        Err(e) => Err(e),
    }
}

/// The report line of one update: its note, and the error if it failed.
pub open spec fn outcome_line(note: Seq<char>, result: Result<(), String>) -> Seq<char> {
    match result {
        Ok(_) => "\n- Updated: "@ + note,
        Err(e) => "\n- Update failed: "@ + note + "; Error was: "@ + e@,
    }
}

/// The report lines of the updates with notes `notes`, in order.
pub open spec fn outcome_lines(notes: Seq<Seq<char>>, results: Seq<Result<(), String>>) -> Seq<char>
    decreases notes.len(),
{
    if notes.len() == 0 {
        seq![]
    } else {
        outcome_lines(notes.drop_last(), results.subrange(0, notes.len() - 1)) + outcome_line(
            notes.last(),
            results[notes.len() - 1],
        )
    }
}

/// The message that reports a pass on `name`: none when no update was sent.
pub open spec fn summary_of(
    name: Seq<char>,
    notes: Seq<Seq<char>>,
    results: Seq<Result<(), String>>,
) -> Option<Seq<char>> {
    if notes.len() == 0 {
        None
    } else {
        Some("Dyndns update ("@ + name + ")"@ + outcome_lines(notes, results))
    }
}

pub open spec fn notes_of(plan: Seq<PlannedUpdate>) -> Seq<Seq<char>> {
    plan.map_values(|u: PlannedUpdate| u.note@)
}

/// The message that reports the updates `plan` of a pass on `name`, where
/// `results[k]` is how `plan[k]` went; `None` when nothing was updated, in
/// which case nothing is sent.
pub fn summary_message(name: &String, plan: &Vec<PlannedUpdate>, results: &Vec<Result<(), String>>) -> (r:
    Option<String>)
    requires
        plan@.len() == results@.len(),
    ensures
        match r {
            Some(m) => summary_of(name@, notes_of(plan@), results@) == Some(m@),
            None => summary_of(name@, notes_of(plan@), results@) is None,
        },
{
    if plan.len() == 0 {
        return None;
    }
    let ghost notes = notes_of(plan@);
    let mut m = String::from_str("Dyndns update (");
    m.append(name.as_str());
    m.append(")");
    let ghost header = m@;
    let mut k: usize = 0;
    while k < plan.len()
        invariant
            plan@.len() == results@.len(),
            k <= plan@.len(),
            notes == notes_of(plan@),
            m@ == header + outcome_lines(notes.subrange(0, k as int), results@.subrange(0, k as int)),
        decreases plan@.len() - k,
    {
        let ghost before = m@;
        m.append("\n- ");
        match &results[k] {
            Ok(_) => {
                m.append("Updated: ");
                m.append(plan[k].note.as_str());
            },
            Err(e) => {
                m.append("Update failed: ");
                m.append(plan[k].note.as_str());
                m.append("; Error was: ");
                m.append(e.as_str());
            },
        }
        proof {
            let ns = notes.subrange(0, k + 1);
            let rs = results@.subrange(0, k + 1);
            assert(ns.drop_last() =~= notes.subrange(0, k as int));
            assert(rs.subrange(0, k as int) =~= results@.subrange(0, k as int));
            assert(ns.last() == plan@[k as int].note@);
            reveal_strlit("\n- ");
            reveal_strlit("Updated: ");
            reveal_strlit("Update failed: ");
            reveal_strlit("\n- Updated: ");
            reveal_strlit("\n- Update failed: ");
            assert(m@ =~= before + outcome_line(ns.last(), rs[k as int]));
        }
        k = k + 1;
    }
    assert(notes.subrange(0, k as int) =~= notes);
    assert(results@.subrange(0, k as int) =~= results@);
    Some(m)
}

/// How a pass ends once its message was posted or not.
pub fn notify_outcome(sent: Result<(), String>) -> (r: Result<(), ReconcileError>)
    ensures
        match sent {
            Ok(_) => r is Ok,
            Err(e) => r == Err::<(), ReconcileError>(ReconcileError::Notify { message: e }),
        },
{
    match sent {
        Ok(_) => Ok(()),
        Err(message) => Err(ReconcileError::Notify { message }),
    }
}

proof fn lemma_first_from_in_range(recs: Seq<DnsRecord>, name: Seq<char>, f: AddressFamily, i: int)
    ensures
        first_from(recs, name, f, i) matches Some(k) ==> i <= k < recs.len() && selects(
            recs[k],
            name,
            f,
        ),
    decreases recs.len() - i,
{
    if !(i < 0 || i >= recs.len()) && !selects(recs[i], name, f) {
        lemma_first_from_in_range(recs, name, f, i + 1);
    }
}

} // verus!
