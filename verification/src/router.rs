//! The query router: classifies query text into one of a small number of
//! recognized request shapes.
//!
//! The router is an enumerated rule table, not a SQL parser. On the
//! trimmed query text, keywords compared case-insensitively:
//! - exactly the diagnostic probe query: answered from a fixed result,
//!   without touching the backend;
//! - text starting with the read-statement keyword: delegated to the
//!   backend adapter;
//! - anything else: acknowledged as a successful no-op. This deliberately
//!   no-ops statements the gateway does not understand — writes and DDL
//!   included — rather than guessing at their meaning; the session
//!   protocol stays well-formed for every input.
//!
//! The router never inspects past the leading keyword.

use vstd::prelude::*;

verus! {

/// Whether `b` is an ASCII whitespace byte (space, tab, line feed,
/// vertical tab, form feed, carriage return).
pub open spec fn is_ws(b: u8) -> bool {
    b == 32 || (9 <= b && b <= 13)
}

/// ASCII upper-casing of one byte.
pub open spec fn upper(b: u8) -> u8 {
    if 97 <= b && b <= 122 {
        (b - 32) as u8
    } else {
        b
    }
}

/// `s` without leading whitespace.
pub open spec fn trim_front(s: Seq<u8>) -> Seq<u8>
    decreases s.len(),
{
    if s.len() > 0 && is_ws(s[0]) {
        trim_front(s.drop_first())
    } else {
        s
    }
}

/// `s` without trailing whitespace.
pub open spec fn trim_back(s: Seq<u8>) -> Seq<u8>
    decreases s.len(),
{
    if s.len() > 0 && is_ws(s.last()) {
        trim_back(s.drop_last())
    } else {
        s
    }
}

/// `s` without leading and trailing whitespace.
pub open spec fn trimmed(s: Seq<u8>) -> Seq<u8> {
    trim_back(trim_front(s))
}

/// `s` upper-cased byte by byte.
pub open spec fn upper_seq(s: Seq<u8>) -> Seq<u8> {
    Seq::new(s.len(), |i: int| upper(s[i]))
}

/// The diagnostic probe query, upper-cased: `SELECT 1`.
pub open spec fn probe_text() -> Seq<u8> {
    seq![83u8, 69u8, 76u8, 69u8, 67u8, 84u8, 32u8, 49u8]
}

/// The read-statement keyword, upper-cased: `SELECT`.
pub open spec fn read_keyword() -> Seq<u8> {
    seq![83u8, 69u8, 76u8, 69u8, 67u8, 84u8]
}

/// Whether `q` is the diagnostic probe query: its trimmed text equals the
/// probe literal, case-insensitively.
pub open spec fn is_probe(q: Seq<u8>) -> bool {
    upper_seq(trimmed(q)) == probe_text()
}

/// Whether `q` is a read statement: after leading whitespace it starts
/// with the read keyword, case-insensitively.
pub open spec fn is_read(q: Seq<u8>) -> bool {
    &&& trim_front(q).len() >= 6
    &&& upper_seq(trim_front(q).subrange(0, 6)) == read_keyword()
}

/// The handling strategy selected for one query.
#[derive(PartialEq, Eq, Structural, Clone, Copy, Debug)]
pub enum RouteDecision {
    /// Answer the diagnostic probe from a fixed result; the backend is not
    /// touched.
    FixedProbe,
    /// Delegate to the backend adapter.
    ReadQuery,
    /// Acknowledge as a successful no-op, by policy, without touching the
    /// backend.
    NoOpAck,
}

/// The routing rule table: probe first, then read statements, then the
/// no-op acknowledgment for everything else.
pub open spec fn spec_classify(q: Seq<u8>) -> RouteDecision {
    if is_probe(q) {
        RouteDecision::FixedProbe
    } else if is_read(q) {
        RouteDecision::ReadQuery
    } else {
        RouteDecision::NoOpAck
    }
}

/// Two texts equal up to letter case have the same upper-cased
/// leading-whitespace trim.
proof fn lemma_upper_trim_front(s: Seq<u8>, t: Seq<u8>)
    requires
        upper_seq(s) == upper_seq(t),
    ensures
        upper_seq(trim_front(s)) == upper_seq(trim_front(t)),
    decreases s.len(),
{
    assert(upper_seq(s).len() == s.len());
    assert(upper_seq(t).len() == t.len());
    if s.len() > 0 {
        assert(upper(s[0]) == upper_seq(s)[0]);
        assert(upper(t[0]) == upper_seq(t)[0]);
        assert(is_ws(s[0]) == is_ws(t[0]));
        if is_ws(s[0]) {
            assert(upper_seq(s.drop_first()) =~= upper_seq(s).drop_first());
            assert(upper_seq(t.drop_first()) =~= upper_seq(t).drop_first());
            lemma_upper_trim_front(s.drop_first(), t.drop_first());
        }
    }
}

/// Two texts equal up to letter case have the same upper-cased
/// trailing-whitespace trim.
proof fn lemma_upper_trim_back(s: Seq<u8>, t: Seq<u8>)
    requires
        upper_seq(s) == upper_seq(t),
    ensures
        upper_seq(trim_back(s)) == upper_seq(trim_back(t)),
    decreases s.len(),
{
    assert(upper_seq(s).len() == s.len());
    assert(upper_seq(t).len() == t.len());
    if s.len() > 0 {
        assert(upper(s.last()) == upper_seq(s)[s.len() - 1]);
        assert(upper(t.last()) == upper_seq(t)[t.len() - 1]);
        assert(is_ws(s.last()) == is_ws(t.last()));
        if is_ws(s.last()) {
            assert(upper_seq(s.drop_last()) =~= upper_seq(s).drop_last());
            assert(upper_seq(t.drop_last()) =~= upper_seq(t).drop_last());
            lemma_upper_trim_back(s.drop_last(), t.drop_last());
        }
    }
}

/// Routing is case-insensitive: two query texts that differ only in
/// letter case — their byte-for-byte upper-casings agree — are classified
/// identically. In particular every case variant of the probe query is
/// answered as the probe.
pub proof fn lemma_classify_case_insensitive(s: Seq<u8>, t: Seq<u8>)
    requires
        upper_seq(s) == upper_seq(t),
    ensures
        spec_classify(s) == spec_classify(t),
{
    lemma_upper_trim_front(s, t);
    lemma_upper_trim_back(trim_front(s), trim_front(t));
    assert(is_probe(s) == is_probe(t));
    assert(upper_seq(trim_front(s)).len() == trim_front(s).len());
    assert(upper_seq(trim_front(t)).len() == trim_front(t).len());
    assert(trim_front(s).len() == trim_front(t).len());
    if trim_front(s).len() >= 6 {
        assert(upper_seq(trim_front(s).subrange(0, 6)) =~= upper_seq(trim_front(s)).subrange(
            0,
            6,
        ));
        assert(upper_seq(trim_front(t).subrange(0, 6)) =~= upper_seq(trim_front(t)).subrange(
            0,
            6,
        ));
    }
    assert(is_read(s) == is_read(t));
}

/// ASCII upper-casing of one byte.
fn upper_byte(b: u8) -> (r: u8)
    ensures
        r == upper(b),
{
    if 97 <= b && b <= 122 {
        b - 32
    } else {
        b
    }
}

/// Whether `b` is an ASCII whitespace byte.
fn is_ws_byte(b: u8) -> (r: bool)
    ensures
        r == is_ws(b),
{
    b == 32 || (9 <= b && b <= 13)
}

/// Dropping `k` leading whitespace bytes, up to the first byte that is
/// none, computes `trim_front`.
proof fn lemma_trim_front_exact(s: Seq<u8>, k: int)
    requires
        0 <= k <= s.len(),
        forall|j: int| 0 <= j < k ==> is_ws(s[j]),
        k == s.len() || !is_ws(s[k]),
    ensures
        trim_front(s) == s.subrange(k, s.len() as int),
    decreases k,
{
    if k == 0 {
        assert(s.subrange(0, s.len() as int) =~= s);
    } else {
        lemma_trim_front_exact(s.drop_first(), k - 1);
        assert(s.drop_first().subrange(k - 1, s.drop_first().len() as int) =~= s.subrange(
            k,
            s.len() as int,
        ));
    }
}

/// Dropping trailing whitespace bytes back to index `k`, where no more
/// whitespace precedes, computes `trim_back`.
proof fn lemma_trim_back_exact(s: Seq<u8>, k: int)
    requires
        0 <= k <= s.len(),
        forall|j: int| k <= j < s.len() ==> is_ws(s[j]),
        k == 0 || !is_ws(s[k - 1]),
    ensures
        trim_back(s) == s.subrange(0, k),
    decreases s.len(),
{
    if k == s.len() {
        assert(s.subrange(0, k) =~= s);
    } else {
        lemma_trim_back_exact(s.drop_last(), k);
        assert(s.drop_last().subrange(0, k) =~= s.subrange(0, k));
    }
}

/// Classifies one query's text by the routing rule table.
pub fn classify(q: &Vec<u8>) -> (r: RouteDecision)
    ensures
        r == spec_classify(q@),
{
    let n: usize = q.len();
    let mut start: usize = 0;
    while start < n && is_ws_byte(q[start])
        invariant
            start <= n,
            n == q@.len(),
            forall|j: int| 0 <= j < start ==> is_ws(q@[j]),
        decreases n - start,
    {
        start = start + 1;
    }
    proof {
        lemma_trim_front_exact(q@, start as int);
    }
    let mut end: usize = n;
    while end > start && is_ws_byte(q[end - 1])
        invariant
            start <= end <= n,
            n == q@.len(),
            forall|j: int| end <= j < n ==> is_ws(q@[j]),
        decreases end,
    {
        end = end - 1;
    }
    proof {
        let t = q@.subrange(start as int, n as int);
        lemma_trim_back_exact(t, end - start);
        assert(t.subrange(0, end - start) =~= q@.subrange(start as int, end as int));
        assert(trimmed(q@) == q@.subrange(start as int, end as int));
    }
    let probe: bool = end - start == 8 && upper_byte(q[start]) == 83 && upper_byte(
        q[start + 1],
    ) == 69 && upper_byte(q[start + 2]) == 76 && upper_byte(q[start + 3]) == 69 && upper_byte(
        q[start + 4],
    ) == 67 && upper_byte(q[start + 5]) == 84 && upper_byte(q[start + 6]) == 32 && upper_byte(
        q[start + 7],
    ) == 49;
    proof {
        if probe {
            assert(upper_seq(trimmed(q@)) =~= probe_text());
        } else {
            if is_probe(q@) {
                assert(upper_seq(trimmed(q@)).len() == 8);
                assert(end - start == 8);
                assert(forall|j: int| 0 <= j < 8 ==> upper_seq(trimmed(q@))[j] == probe_text()[j]);
                assert(false);
            }
        }
    }
    if probe {
        return RouteDecision::FixedProbe;
    }
    let read: bool = n - start >= 6 && upper_byte(q[start]) == 83 && upper_byte(q[start + 1]) == 69
        && upper_byte(q[start + 2]) == 76 && upper_byte(q[start + 3]) == 69 && upper_byte(
        q[start + 4],
    ) == 67 && upper_byte(q[start + 5]) == 84;
    proof {
        let t = trim_front(q@);
        assert(t == q@.subrange(start as int, n as int));
        if read {
            assert(upper_seq(t.subrange(0, 6)) =~= read_keyword());
        } else {
            if is_read(q@) {
                assert(t.len() >= 6);
                assert(n - start >= 6);
                assert(forall|j: int| 0 <= j < 6 ==> upper_seq(t.subrange(0, 6))[j]
                    == read_keyword()[j]);
                assert(false);
            }
        }
    }
    if read {
        RouteDecision::ReadQuery
    } else {
        RouteDecision::NoOpAck
    }
}

} // verus!
