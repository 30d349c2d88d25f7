//! A single blocklist lookup: build the reversed-label hostname, ask the
//! system's resolver service for it over the local bus, and interpret the
//! reply — a populated answer means "listed", NXDOMAIN means "not listed",
//! anything else is a propagated error.

use vstd::prelude::*;

use crate::error::{
    classified_error, classify_error, is_nxdomain_name, DnsCheckError, DnsCheckErrorValue,
};
use crate::query::{query_hostname, query_text, Query};

use generate_dbus_resolve1::OrgFreedesktopResolve1Manager;

verus! {

/// Verbosity of the surrounding tooling. Affects only diagnostic printing
/// by the caller, never the result of a lookup.
#[derive(Debug, Copy, Clone, PartialEq, Eq, Structural)]
pub enum Output {
    Quiet,
    Normal,
    Verbose,
}

/// One membership result: `name` is the textual rendering of the queried
/// target, `list` the blocklist source, `found` whether the target is listed.
#[derive(Debug)]
pub struct DnsListMembership {
    pub name: String,
    pub list: String,
    pub found: bool,
}

/// The value of a [`DnsListMembership`], with its strings as character
/// sequences.
pub struct DnsListMembershipValue {
    pub name: Seq<char>,
    pub list: Seq<char>,
    pub found: bool,
}

impl View for DnsListMembership {
    type V = DnsListMembershipValue;

    open spec fn view(&self) -> DnsListMembershipValue {
        DnsListMembershipValue { name: self.name@, list: self.list@, found: self.found }
    }
}

/// One address record of a resolver reply: address family, scope identifier,
/// and the raw address bytes.
#[derive(Debug)]
pub struct AddressRecord {
    pub family: i32,
    pub scope: i32,
    pub bytes: Vec<u8>,
}

/// A successful resolver reply: the returned address records, the canonical
/// name, and the response flags word.
#[derive(Debug)]
pub struct ResolveReply {
    pub addresses: Vec<AddressRecord>,
    pub canonical_name: String,
    pub flags: u64,
}

/// What the resolver service came back with: a reply, or a named error with
/// its description.
#[derive(Debug)]
pub enum ResolveOutcome {
    Replied(ResolveReply),
    Failed(String, String),
}

/// The membership value recorded for `q` against `source`.
pub open spec fn membership_value(q: Query, source: Seq<char>, found: bool)
    -> DnsListMembershipValue {
    DnsListMembershipValue { name: query_text(q), list: source, found }
}

/// How a lookup for `q` against `source` interprets a resolver outcome:
/// a reply is a membership whose `found` says whether any address record
/// came back; an NXDOMAIN-named error is a membership with `found` false;
/// any other error is propagated classified.
pub open spec fn interpreted_outcome(q: Query, source: Seq<char>, outcome: ResolveOutcome)
    -> Result<DnsListMembershipValue, DnsCheckErrorValue> {
    match outcome {
        ResolveOutcome::Replied(rep) => Ok(
            membership_value(q, source, rep.addresses@.len() > 0),
        ),
        ResolveOutcome::Failed(name, desc) => if is_nxdomain_name(name@) {
            Ok(membership_value(q, source, false))
        } else {
            Err(classified_error(name@, desc@))
        },
    }
}

/// Law: a reply from the resolver derives membership from its address list
/// alone — non-empty means `found`, empty means not found — and is never an
/// error.
pub proof fn lemma_membership_from_reply(q: Query, source: Seq<char>, rep: ResolveReply)
    ensures
        interpreted_outcome(q, source, ResolveOutcome::Replied(rep)) == Ok::<
            DnsListMembershipValue,
            DnsCheckErrorValue,
        >(membership_value(q, source, rep.addresses@.len() > 0)),
{
}

/// Law: a resolver error named under the NXDOMAIN error namespace is
/// absorbed — the lookup succeeds with `found` false instead of
/// propagating an error.
pub proof fn lemma_nxdomain_absorbed(q: Query, source: Seq<char>, name: String, desc: String)
    requires
        is_nxdomain_name(name@),
    ensures
        interpreted_outcome(q, source, ResolveOutcome::Failed(name, desc)) == Ok::<
            DnsListMembershipValue,
            DnsCheckErrorValue,
        >(membership_value(q, source, false)),
{
}

/// The value of a lookup result.
pub open spec fn lookup_result_value(r: Result<DnsListMembership, DnsCheckError>)
    -> Result<DnsListMembershipValue, DnsCheckErrorValue> {
    match r {
        Ok(m) => Ok(m@),
        Err(e) => Err(e@),
    }
}

/// Interprets what the resolver came back with for `query` against `source`.
/// A reply with a non-empty address list yields `found = true`, an empty one
/// `found = false`; an error under the resolver's NXDOMAIN namespace is a
/// successful "not listed"; any other error is classified and returned.
pub fn interpret_outcome(query: &Query, source: &str, outcome: &ResolveOutcome)
    -> (r: Result<DnsListMembership, DnsCheckError>)
    ensures
        lookup_result_value(r) == interpreted_outcome(*query, source@, *outcome),
{
    match outcome {
        ResolveOutcome::Replied(rep) => Ok(
            DnsListMembership {
                name: query.render(),
                list: source.to_owned(),
                found: rep.addresses.len() > 0,
            },
        ),
        ResolveOutcome::Failed(name, desc) => {
            let e = classify_error(name.as_str(), desc.as_str());
            match e {
                DnsCheckError::NxDomain(_) => Ok(
                    DnsListMembership { name: query.render(), list: source.to_owned(), found: false },
                ),
                other => Err(other),
            }
        },
    }
}

#[verifier::external_type_specification]
#[verifier::external_body]
pub struct ExDbusConnection(dbus::blocking::Connection);

/// Relies on dbus::blocking::Connection::new_system: opens a connection to
/// the system bus. On failure the error is returned as its name and
/// description, the name falling back to "org.freedesktop.DBus.Error.Failed"
/// as dbus::MethodErr::from does.
#[verifier::external_body]
fn connect_system_bus() -> Result<dbus::blocking::Connection, (String, String)> {
    match dbus::blocking::Connection::new_system() {
        Ok(conn) => Ok(conn),
        Err(e) => {
            let me = dbus::MethodErr::from(e);
            Err((me.errorname().to_string(), me.description().to_string()))
        },
    }
}

/// Relies on OrgFreedesktopResolve1Manager::resolve_hostname, the generated
/// proxy for resolve1's ResolveHostname, called on the resolver's bus name
/// with a 30-second timeout, interface index 0, family AF_INET and flags 0.
/// The reply is handed back exactly as returned: the raw address-record
/// triples, the canonical name and the flags word; an error as its name and
/// description, as in `connect_system_bus`.
#[verifier::external_body]
fn resolve_hostname_ipv4(conn: &dbus::blocking::Connection, hostname: &str)
    -> Result<(Vec<(i32, i32, Vec<u8>)>, String, u64), (String, String)> {
    let proxy = conn.with_proxy(
        "org.freedesktop.resolve1",
        "/org/freedesktop/resolve1",
        std::time::Duration::from_secs(30),
    );
    match proxy.resolve_hostname(0, hostname, libc::AF_INET, 0) {
        Ok(reply) => Ok(reply),
        Err(e) => {
            let me = dbus::MethodErr::from(e);
            Err((me.errorname().to_string(), me.description().to_string()))
        },
    }
}

/// Packs raw address records into a reply, record for record.
fn reply_from_records(records: Vec<(i32, i32, Vec<u8>)>, canonical_name: String, flags: u64)
    -> (r: ResolveReply)
    ensures
        r.addresses@.len() == records@.len(),
        forall|i: int|
            0 <= i < records@.len() ==> (#[trigger] r.addresses@[i]).family == records@[i].0
                && r.addresses@[i].scope == records@[i].1 && r.addresses@[i].bytes@
                == records@[i].2@,
        r.canonical_name@ == canonical_name@,
        r.flags == flags,
{
    let mut addresses: Vec<AddressRecord> = Vec::new();
    while addresses.len() < records.len()
        invariant
            addresses@.len() <= records@.len(),
            forall|i: int|
                0 <= i < addresses@.len() ==> (#[trigger] addresses@[i]).family == records@[i].0
                    && addresses@[i].scope == records@[i].1 && addresses@[i].bytes@
                    == records@[i].2@,
        decreases records@.len() - addresses@.len(),
    {
        let j = addresses.len();
        let family = records[j].0;
        let scope = records[j].1;
        let bytes = vstd::slice::slice_to_vec(records[j].2.as_slice());
        addresses.push(AddressRecord { family, scope, bytes });
    }
    ResolveReply { addresses, canonical_name, flags }
}

/// Looks up one query against one blocklist source through the system's
/// resolver service. On success the record carries the target's rendering
/// and the source; `found` reports whether the source lists the target.
/// NXDOMAIN never surfaces as an error; every returned error is a transport
/// error whose name is outside the resolver's NXDOMAIN namespace.
#[allow(unused_variables)]
pub fn lookup(source: &str, query: &Query, output: &Output)
    -> (r: Result<DnsListMembership, DnsCheckError>)
    ensures
        (r matches Ok(m) ==> m@.name == query_text(*query) && m@.list == source@),
        (r matches Err(e) ==> (e@ matches DnsCheckErrorValue::DBus(name, desc)
            && !is_nxdomain_name(name))),
{
    let hostname = query_hostname(query, source);
    let outcome = match connect_system_bus() {
        Ok(conn) => {
            match resolve_hostname_ipv4(&conn, hostname.as_str()) {
                Ok((records, canonical_name, flags)) => ResolveOutcome::Replied(
                    reply_from_records(records, canonical_name, flags),
                ),
                Err((name, desc)) => ResolveOutcome::Failed(name, desc),
            }
        },
        Err((name, desc)) => ResolveOutcome::Failed(name, desc),
    };
    interpret_outcome(query, source, &outcome)
}

} // verus!
