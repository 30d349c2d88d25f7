//! The error taxonomy, and the classifier that separates the resolver's
//! "no such domain" reply from genuine transport or protocol failures.

use vstd::prelude::*;

verus! {

/// How a lookup can fail.
///
/// `DBus` carries the error identifier and description that the resolver
/// service reported, verbatim. `NxDomain` is the benign "no such domain"
/// condition and is absorbed before a lookup returns. `Unknown` is reserved
/// for conditions without structured error information.
#[derive(Debug)]
pub enum DnsCheckError {
    DBus(String, String),
    NxDomain(String),
    Unknown,
}

/// The value of a [`DnsCheckError`], with its strings as character sequences.
pub enum DnsCheckErrorValue {
    DBus(Seq<char>, Seq<char>),
    NxDomain(Seq<char>),
    Unknown,
}

impl View for DnsCheckError {
    type V = DnsCheckErrorValue;

    open spec fn view(&self) -> DnsCheckErrorValue {
        match self {
            DnsCheckError::DBus(name, desc) => DnsCheckErrorValue::DBus(name@, desc@),
            DnsCheckError::NxDomain(desc) => DnsCheckErrorValue::NxDomain(desc@),
            DnsCheckError::Unknown => DnsCheckErrorValue::Unknown,
        }
    }
}

/// The error-name prefix under which the resolver's protocol-error namespace
/// reports NXDOMAIN.
pub open spec fn nxdomain_prefix() -> Seq<char> {
    "org.freedesktop.resolve1.DnsError.NXDOMAIN"@
}

/// Whether the resolver error identifier `name` signals NXDOMAIN.
pub open spec fn is_nxdomain_name(name: Seq<char>) -> bool {
    nxdomain_prefix().is_prefix_of(name)
}

/// The classification of a resolver error with identifier `name` and
/// description `desc`: NXDOMAIN by its well-known prefix, anything else a
/// transport error carried verbatim.
pub open spec fn classified_error(name: Seq<char>, desc: Seq<char>) -> DnsCheckErrorValue {
    if is_nxdomain_name(name) {
        DnsCheckErrorValue::NxDomain(desc)
    } else {
        DnsCheckErrorValue::DBus(name, desc)
    }
}

/// Whether `prefix` is a prefix of `s`.
fn str_starts_with(s: &str, prefix: &str) -> (r: bool)
    ensures
        r == prefix@.is_prefix_of(s@),
{
    let n = prefix.unicode_len();
    let sn = s.unicode_len();
    if n > sn {
        return false;
    }
    let mut i: usize = 0;
    while i < n
        invariant
            i <= n,
            n == prefix@.len() <= s@.len(),
            forall|j: int| 0 <= j < i ==> s@[j] == prefix@[j],
        decreases n - i,
    {
        if s.get_char(i) != prefix.get_char(i) {
            return false;
        }
        i = i + 1;
    }
    proof {
        assert(s@.subrange(0, n as int) =~= prefix@);
    }
    true
}

/// Classifies a raw resolver-service error from its identifier and
/// description alone: an identifier under the resolver's NXDOMAIN error
/// namespace is the benign "not found" case, anything else a transport
/// error surfaced verbatim. Stateless and side-effect free.
pub fn classify_error(name: &str, desc: &str) -> (r: DnsCheckError)
    ensures
        r@ == classified_error(name@, desc@),
{
    let prefix = "org.freedesktop.resolve1.DnsError.NXDOMAIN";
    assert(prefix@ == nxdomain_prefix());
    if str_starts_with(name, prefix) {
        DnsCheckError::NxDomain(desc.to_owned())
    } else {
        DnsCheckError::DBus(name.to_owned(), desc.to_owned())
    }
}

impl DnsCheckError {
    /// A human-readable description of the error.
    pub fn message(&self) -> (r: String)
        ensures
            (self matches DnsCheckError::DBus(name, desc) ==> r@ == "DBus reported "@ + name@
                + ": "@ + desc@),
            (self matches DnsCheckError::NxDomain(desc) ==> r@ == "NXDOMAIN "@ + desc@),
            (self matches DnsCheckError::Unknown ==> r@ == "Something went wrong"@),
    {
        match self {
            DnsCheckError::DBus(name, desc) => {
                let mut out = "DBus reported ".to_owned();
                out.append(name.as_str());
                out.append(": ");
                out.append(desc.as_str());
                out
            },
            DnsCheckError::NxDomain(desc) => {
                let mut out = "NXDOMAIN ".to_owned();
                out.append(desc.as_str());
                out
            },
            DnsCheckError::Unknown => "Something went wrong".to_owned(),
        }
    }
}

} // verus!
