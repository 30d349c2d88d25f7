//! Checks whether IP addresses or domain names are listed on DNS-based
//! blocklists (DNSBL), by encoding each lookup target into the reversed-label
//! query form and asking the host's resolver service over its local bus.

pub mod batch;
pub mod error;
pub mod query;
pub mod resolve;
pub mod text;

pub use batch::{count_lists, interpret_batch};
pub use error::{classify_error, DnsCheckError};
pub use query::{encode_query, query_hostname, IpAddress, Query};
pub use resolve::{
    interpret_outcome, lookup, AddressRecord, DnsListMembership, Output, ResolveOutcome,
    ResolveReply,
};
