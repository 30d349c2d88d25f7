//! Lookup targets and their textual forms: the plain rendering used in result
//! records, and the reversed-label encoding that DNS blocklists expect.

use vstd::prelude::*;

use crate::text::{dec_of, hex_digit, hex_of, push_dec_u8, push_hex_digit, push_hex_u16};

verus! {

/// An IP address held as its raw octets in network order.
#[derive(Debug)]
pub enum IpAddress {
    V4([u8; 4]),
    V6([u8; 16]),
}

/// A lookup target: an IP address or a domain name.
#[derive(Debug)]
pub enum Query {
    Address(IpAddress),
    Domain(String),
}

// ---------------------------------------------------------------------------
// Plain textual rendering (the `name` field of a result record).
// ---------------------------------------------------------------------------

/// Dotted-decimal rendering of the four IPv4 octets `b`.
pub open spec fn v4_text(b: Seq<u8>) -> Seq<char> {
    dec_of(b[0] as nat) + seq!['.'] + dec_of(b[1] as nat) + seq!['.'] + dec_of(b[2] as nat)
        + seq!['.'] + dec_of(b[3] as nat)
}

/// The 16-bit group `i` (of 8) of the IPv6 octets `b`.
pub open spec fn v6_group(b: Seq<u8>, i: int) -> u16 {
    (b[2 * i] * 256 + b[2 * i + 1]) as u16
}

/// The length of the run of zero groups of `g` that starts at `i`.
pub open spec fn zero_run_len(g: Seq<u16>, i: int) -> int
    decreases g.len() - i when 0 <= i <= g.len()
{
    if i >= g.len() || g[i] != 0 {
        0
    } else {
        1 + zero_run_len(g, i + 1)
    }
}

/// The start and length of the leftmost longest run of zero groups of `g`
/// at or after `i`. Ties go to the leftmost start; with no zero group at
/// all the length is 0.
pub open spec fn best_zero_run(g: Seq<u16>, i: int) -> (int, int)
    decreases g.len() - i when 0 <= i <= g.len()
{
    if i >= g.len() {
        (0, 0)
    } else {
        let here = zero_run_len(g, i);
        let rest = best_zero_run(g, i + 1);
        if here >= rest.1 {
            (i, here)
        } else {
            rest
        }
    }
}

/// The groups of `g`, each in lowercase hexadecimal without leading zeros,
/// joined by ':'.
pub open spec fn hex_groups_text(g: Seq<u16>) -> Seq<char>
    decreases g.len(),
{
    if g.len() == 0 {
        Seq::<char>::empty()
    } else if g.len() == 1 {
        hex_of(g[0] as nat)
    } else {
        hex_groups_text(g.drop_last()) + seq![':'] + hex_of(g.last() as nat)
    }
}

/// The eight 16-bit groups of the IPv6 octets `b`.
pub open spec fn v6_groups(b: Seq<u8>) -> Seq<u16> {
    Seq::new(8, |i: int| v6_group(b, i))
}

/// Whether the IPv6 octets `b` are an IPv4-mapped address: ten zero octets,
/// then two 0xff octets, then the embedded IPv4 octets.
pub open spec fn is_v4_mapped(b: Seq<u8>) -> bool {
    (forall|i: int| 0 <= i < 10 ==> b[i] == 0) && b[10] == 0xff && b[11] == 0xff
}

/// Standard textual rendering of the IPv6 octets `b`: an IPv4-mapped
/// address in mixed notation, "::ffff:" followed by the embedded address
/// in dotted decimal; otherwise hexadecimal groups joined by ':', with the
/// leftmost longest run of at least two zero groups compressed to "::".
pub open spec fn v6_text(b: Seq<u8>) -> Seq<char> {
    if is_v4_mapped(b) {
        "::ffff:"@ + v4_text(b.subrange(12, 16))
    } else {
        let g = v6_groups(b);
        let run = best_zero_run(g, 0);
        if run.1 >= 2 {
            hex_groups_text(g.subrange(0, run.0)) + seq![':', ':'] + hex_groups_text(
                g.subrange(run.0 + run.1, 8),
            )
        } else {
            hex_groups_text(g)
        }
    }
}

/// Textual rendering of an address: standard notation.
pub open spec fn address_text(a: IpAddress) -> Seq<char> {
    match a {
        IpAddress::V4(b) => v4_text(b@),
        IpAddress::V6(b) => v6_text(b@),
    }
}

/// Textual rendering of a query: an address in its standard notation, a
/// domain as its literal string.
pub open spec fn query_text(q: Query) -> Seq<char> {
    match q {
        Query::Address(a) => address_text(a),
        Query::Domain(d) => d@,
    }
}

// ---------------------------------------------------------------------------
// Reversed-label query encoding (RFC 5782).
// ---------------------------------------------------------------------------

/// Nibble `k` (of 32, high nibble of each octet first) of the IPv6 octets `b`.
pub open spec fn v6_nibble(b: Seq<u8>, k: int) -> u8 {
    if k % 2 == 0 {
        b[k / 2] / 16
    } else {
        (b[k / 2] % 16) as u8
    }
}

/// The nibbles `hi - 1` down to `lo` of the IPv6 octets `b`, each as one
/// hexadecimal digit followed by '.'.
pub open spec fn v6_rev_nibbles(b: Seq<u8>, hi: int, lo: int) -> Seq<char>
    decreases hi - lo when lo <= hi
{
    if hi <= lo {
        Seq::<char>::empty()
    } else {
        seq![hex_digit(v6_nibble(b, hi - 1) as nat), '.'] + v6_rev_nibbles(b, hi - 1, lo)
    }
}

/// Reversed-label encoding of the IPv4 octets `b`: octets reversed,
/// dot-joined, trailing dot.
pub open spec fn v4_query_text(b: Seq<u8>) -> Seq<char> {
    dec_of(b[3] as nat) + seq!['.'] + dec_of(b[2] as nat) + seq!['.'] + dec_of(b[1] as nat)
        + seq!['.'] + dec_of(b[0] as nat) + seq!['.']
}

/// Reversed-label encoding of a query: for an address the reversed octets or
/// nibbles with a trailing dot, for a domain the domain with a trailing dot.
pub open spec fn encoded_query(q: Query) -> Seq<char> {
    match q {
        Query::Address(IpAddress::V4(b)) => v4_query_text(b@),
        Query::Address(IpAddress::V6(b)) => v6_rev_nibbles(b@, 32, 0),
        Query::Domain(d) => d@ + seq!['.'],
    }
}

/// The hostname resolved for a query against a blocklist `source`: the
/// encoded query, then the source, then a trailing dot.
pub open spec fn query_hostname_text(q: Query, source: Seq<char>) -> Seq<char> {
    encoded_query(q) + source + seq!['.']
}

/// Law: encoding is a pure total function of the query, with no hidden
/// state — two encodings of the same query are identical.
pub proof fn lemma_encode_pure(q: Query, first: Seq<char>, second: Seq<char>)
    requires
        first == encoded_query(q),
        second == encoded_query(q),
    ensures
        first == second,
{
}

// ---------------------------------------------------------------------------
// Executable rendering and encoding.
// ---------------------------------------------------------------------------

/// Appends a single '.' to `out`.
fn push_dot(out: &mut String)
    ensures
        final(out)@ == old(out)@ + seq!['.'],
{
    proof {
        reveal_strlit(".");
    }
    assert("."@ =~= seq!['.']);
    out.append(".");
}

/// Appends a single ':' to `out`.
fn push_colon(out: &mut String)
    ensures
        final(out)@ == old(out)@ + seq![':'],
{
    proof {
        reveal_strlit(":");
    }
    assert(":"@ =~= seq![':']);
    out.append(":");
}

/// Splitting the nibble run at its low end: the nibbles `hi - 1` down to
/// `lo` are the nibbles `hi - 1` down to `lo + 1`, then nibble `lo`.
proof fn lemma_rev_nibbles_snoc(b: Seq<u8>, hi: int, lo: int)
    requires
        lo < hi,
    ensures
        v6_rev_nibbles(b, hi, lo) == v6_rev_nibbles(b, hi, lo + 1) + seq![
            hex_digit(v6_nibble(b, lo) as nat),
            '.',
        ],
    decreases hi - lo,
{
    if hi == lo + 1 {
        assert(v6_rev_nibbles(b, hi, lo) =~= v6_rev_nibbles(b, hi, lo + 1) + seq![
            hex_digit(v6_nibble(b, lo) as nat),
            '.',
        ]);
    } else {
        lemma_rev_nibbles_snoc(b, hi - 1, lo);
        let lead = seq![hex_digit(v6_nibble(b, hi - 1) as nat), '.'];
        let tail = seq![hex_digit(v6_nibble(b, lo) as nat), '.'];
        assert(v6_rev_nibbles(b, hi, lo) == lead + v6_rev_nibbles(b, hi - 1, lo));
        assert(v6_rev_nibbles(b, hi, lo + 1) == lead + v6_rev_nibbles(b, hi - 1, lo + 1));
        assert(lead + (v6_rev_nibbles(b, hi - 1, lo + 1) + tail) =~= (lead + v6_rev_nibbles(
            b,
            hi - 1,
            lo + 1,
        )) + tail);
        assert(v6_rev_nibbles(b, hi, lo) =~= v6_rev_nibbles(b, hi, lo + 1) + tail);
    }
}

/// Appends the reversed-nibble encoding of the IPv6 octets `b`.
fn push_v6_rev_nibbles(out: &mut String, b: &[u8; 16])
    ensures
        final(out)@ == old(out)@ + v6_rev_nibbles(b@, 32, 0),
{
    let mut k: usize = 32;
    while k > 0
        invariant
            k <= 32,
            out@ == old(out)@ + v6_rev_nibbles(b@, 32, k as int),
        decreases k,
    {
        k = k - 1;
        let octet = b[k / 2];
        let nib: u8 = if k % 2 == 0 {
            octet / 16
        } else {
            octet % 16
        };
        assert(nib == v6_nibble(b@, k as int));
        push_hex_digit(out, nib);
        push_dot(out);
        proof {
            lemma_rev_nibbles_snoc(b@, 32, k as int);
            assert(out@ =~= old(out)@ + v6_rev_nibbles(b@, 32, k as int));
        }
    }
}

/// Encodes a query into its reversed-label form: reversed octets for IPv4,
/// reversed nibbles for IPv6, the literal domain otherwise, all with a
/// trailing dot. Pure: the result depends on the query alone.
pub fn encode_query(q: &Query) -> (r: String)
    ensures
        r@ == encoded_query(*q),
{
    match q {
        Query::Domain(d) => {
            let mut out = d.clone();
            push_dot(&mut out);
            out
        },
        Query::Address(IpAddress::V4(b)) => {
            let mut out = String::new();
            push_dec_u8(&mut out, b[3]);
            push_dot(&mut out);
            push_dec_u8(&mut out, b[2]);
            push_dot(&mut out);
            push_dec_u8(&mut out, b[1]);
            push_dot(&mut out);
            push_dec_u8(&mut out, b[0]);
            push_dot(&mut out);
            assert(out@ =~= v4_query_text(b@));
            out
        },
        Query::Address(IpAddress::V6(b)) => {
            let mut out = String::new();
            push_v6_rev_nibbles(&mut out, b);
            assert(out@ =~= v6_rev_nibbles(b@, 32, 0));
            out
        },
    }
}

/// The hostname to resolve for `q` against the blocklist `source`: encoded
/// query, then source, then a trailing dot.
pub fn query_hostname(q: &Query, source: &str) -> (r: String)
    ensures
        r@ == query_hostname_text(*q, source@),
{
    let mut out = encode_query(q);
    out.append(source);
    push_dot(&mut out);
    assert(out@ =~= query_hostname_text(*q, source@));
    out
}

/// A run of zero groups fits between its start and the end of `g`.
proof fn lemma_zero_run_le(g: Seq<u16>, i: int)
    requires
        0 <= i <= g.len(),
    ensures
        0 <= zero_run_len(g, i) <= g.len() - i,
    decreases g.len() - i,
{
    if i < g.len() && g[i] == 0 {
        lemma_zero_run_le(g, i + 1);
    }
}

/// The best zero run lies within `g`.
proof fn lemma_best_run_bounds(g: Seq<u16>, i: int)
    requires
        0 <= i <= g.len(),
    ensures
        0 <= best_zero_run(g, i).0,
        0 <= best_zero_run(g, i).1,
        best_zero_run(g, i).0 + best_zero_run(g, i).1 <= g.len(),
    decreases g.len() - i,
{
    if i < g.len() {
        lemma_zero_run_le(g, i);
        lemma_best_run_bounds(g, i + 1);
    }
}

/// Appends the groups `from .. to` of `g`, in hexadecimal, joined by ':'.
fn push_hex_groups(out: &mut String, g: &Vec<u16>, from: usize, to: usize)
    requires
        from <= to <= g@.len(),
    ensures
        final(out)@ == old(out)@ + hex_groups_text(g@.subrange(from as int, to as int)),
{
    let mut j: usize = from;
    while j < to
        invariant
            from <= j <= to <= g@.len(),
            out@ == old(out)@ + hex_groups_text(g@.subrange(from as int, j as int)),
        decreases to - j,
    {
        if j > from {
            push_colon(out);
        }
        push_hex_u16(out, g[j]);
        proof {
            let done = g@.subrange(from as int, j + 1 as int);
            assert(done.drop_last() =~= g@.subrange(from as int, j as int));
            assert(done.last() == g@[j as int]);
            assert(out@ =~= old(out)@ + hex_groups_text(done));
        }
        j = j + 1;
    }
}

impl Query {
    /// The textual rendering of the target, as it appears in result records:
    /// an address in its standard notation, a domain as its literal string.
    pub fn render(&self) -> (r: String)
        ensures
            r@ == query_text(*self),
    {
        match self {
            Query::Domain(d) => d.clone(),
            Query::Address(IpAddress::V4(b)) => {
                let mut out = String::new();
                push_dec_u8(&mut out, b[0]);
                push_dot(&mut out);
                push_dec_u8(&mut out, b[1]);
                push_dot(&mut out);
                push_dec_u8(&mut out, b[2]);
                push_dot(&mut out);
                push_dec_u8(&mut out, b[3]);
                assert(out@ =~= v4_text(b@));
                out
            },
            Query::Address(IpAddress::V6(b)) => render_v6(b),
        }
    }
}

/// Whether the octets are an IPv4-mapped address.
fn v4_mapped(b: &[u8; 16]) -> (r: bool)
    ensures
        r == is_v4_mapped(b@),
{
    let mut i: usize = 0;
    while i < 10
        invariant
            i <= 10,
            forall|j: int| 0 <= j < i ==> b@[j] == 0,
        decreases 10 - i,
    {
        if b[i] != 0 {
            return false;
        }
        i = i + 1;
    }
    b[10] == 255 && b[11] == 255
}

/// Renders the IPv6 octets `b` in standard notation: mixed notation for an
/// IPv4-mapped address; otherwise hexadecimal groups joined by ':', the
/// leftmost longest run of at least two zero groups compressed to "::".
fn render_v6(b: &[u8; 16]) -> (r: String)
    ensures
        r@ == v6_text(b@),
{
    if v4_mapped(b) {
        let mut out = "::ffff:".to_owned();
        push_dec_u8(&mut out, b[12]);
        push_dot(&mut out);
        push_dec_u8(&mut out, b[13]);
        push_dot(&mut out);
        push_dec_u8(&mut out, b[14]);
        push_dot(&mut out);
        push_dec_u8(&mut out, b[15]);
        proof {
            let tail = b@.subrange(12, 16);
            assert(tail[0] == b@[12] && tail[1] == b@[13] && tail[2] == b@[14]
                && tail[3] == b@[15]);
            assert(out@ =~= v6_text(b@));
        }
        return out;
    }
    let mut groups: Vec<u16> = Vec::new();
    let mut i: usize = 0;
    while i < 8
        invariant
            i <= 8,
            groups@.len() == i,
            forall|j: int| 0 <= j < i ==> groups@[j] == v6_group(b@, j),
        decreases 8 - i,
    {
        let hi = b[2 * i] as u16;
        let lo = b[2 * i + 1] as u16;
        groups.push(hi * 256 + lo);
        i = i + 1;
    }
    proof {
        assert(groups@ =~= v6_groups(b@));
    }

    // Scan from the right for the leftmost longest run of zero groups,
    // mirroring `best_zero_run`.
    let mut run_here: usize = 0;
    let mut best_start: usize = 0;
    let mut best_len: usize = 0;
    let mut k: usize = 8;
    while k > 0
        invariant
            k <= 8,
            groups@.len() == 8,
            run_here as int == zero_run_len(groups@, k as int),
            (best_start as int, best_len as int) == best_zero_run(groups@, k as int),
        decreases k,
    {
        k = k - 1;
        proof {
            lemma_zero_run_le(groups@, k as int + 1);
        }
        if groups[k] != 0 {
            run_here = 0;
        } else {
            run_here = run_here + 1;
        }
        if run_here >= best_len {
            best_start = k;
            best_len = run_here;
        }
    }

    proof {
        lemma_best_run_bounds(groups@, 0);
    }
    let mut out = String::new();
    if best_len >= 2 {
        push_hex_groups(&mut out, &groups, 0, best_start);
        push_colon(&mut out);
        push_colon(&mut out);
        push_hex_groups(&mut out, &groups, best_start + best_len, 8);
        assert(out@ =~= v6_text(b@));
    } else {
        push_hex_groups(&mut out, &groups, 0, 8);
        proof {
            assert(groups@.subrange(0, 8) =~= groups@);
            assert(out@ =~= v6_text(b@));
        }
    }
    out
}

} // verus!
