//! The policy engine: which hosts a site-control policy permits, and what it
//! records about each decision.

use crate::config::SiteControl;
use crate::config::SitePolicy;
use vstd::prelude::*;
use vstd::string::*;
use vstd::utf8::*;

verus! {

/// `host` ends with `entry`, compared byte by byte over the UTF-8 encodings.
/// The comparison knows nothing of domain labels: `evil.com` is a suffix of
/// `notevil.com`.
pub open spec fn host_ends_with(host: Seq<char>, entry: Seq<char>) -> bool {
    encode_utf8(entry).is_suffix_of(encode_utf8(host))
}

/// Some entry of `entries` is a suffix of `host`.
pub open spec fn listed(host: Seq<char>, entries: Seq<Seq<char>>) -> bool {
    exists|i: int| 0 <= i < entries.len() && host_ends_with(host, #[trigger] entries[i])
}

/// The decision of the policy engine for `host`.
pub open spec fn permits(policy: SitePolicy, host: Seq<char>) -> bool {
    match policy {
        SitePolicy::Disable => true,
        SitePolicy::Allow(entries) => listed(host, entries),
        SitePolicy::Block(entries) => !listed(host, entries),
    }
}

/// Under an allowlist a host is permitted exactly when it ends with some entry
/// of the list.
pub proof fn allow_permits_listed_hosts(entries: Seq<Seq<char>>, host: Seq<char>)
    ensures
        permits(SitePolicy::Allow(entries), host) <==> exists|i: int|
            0 <= i < entries.len() && encode_utf8(#[trigger] entries[i]).is_suffix_of(
                encode_utf8(host),
            ),
{
    if permits(SitePolicy::Allow(entries), host) {
        let i = choose|i: int| 0 <= i < entries.len() && host_ends_with(host, #[trigger] entries[i]);
        assert(encode_utf8(entries[i]).is_suffix_of(encode_utf8(host)));
    }
    if exists|i: int|
        0 <= i < entries.len() && encode_utf8(#[trigger] entries[i]).is_suffix_of(encode_utf8(host)) {
        let i = choose|i: int|
            0 <= i < entries.len() && encode_utf8(#[trigger] entries[i]).is_suffix_of(
                encode_utf8(host),
            );
        assert(host_ends_with(host, entries[i]));
    }
}

/// Under a denylist a host is permitted exactly when it ends with no entry of
/// the list.
pub proof fn block_permits_unlisted_hosts(entries: Seq<Seq<char>>, host: Seq<char>)
    ensures
        permits(SitePolicy::Block(entries), host) <==> forall|i: int|
            0 <= i < entries.len() ==> !encode_utf8(#[trigger] entries[i]).is_suffix_of(
                encode_utf8(host),
            ),
{
    allow_permits_listed_hosts(entries, host);
}

/// With site control disabled every host is permitted.
pub proof fn disable_permits_every_host(host: Seq<char>)
    ensures
        permits(SitePolicy::Disable, host),
{
}

/// An allowlist and a denylist with the same entries decide every host in
/// opposite ways.
pub proof fn allow_and_block_are_opposite(entries: Seq<Seq<char>>, host: Seq<char>)
    ensures
        permits(SitePolicy::Allow(entries), host) != permits(SitePolicy::Block(entries), host),
{
}

/// The encoding of two texts, one after the other, is the encoding of the
/// first followed by that of the second.
pub proof fn encoding_of_concatenation(a: Seq<char>, b: Seq<char>)
    ensures
        encode_utf8(a + b) == encode_utf8(a) + encode_utf8(b),
    decreases a.len(),
{
    if a.len() == 0 {
        assert(a + b =~= b);
        assert(encode_utf8(a) + encode_utf8(b) =~= encode_utf8(b));
    } else {
        assert((a + b).drop_first() =~= a.drop_first() + b);
        encoding_of_concatenation(a.drop_first(), b);
        assert(encode_utf8(a + b) =~= encode_utf8(a) + encode_utf8(b));
    }
}

/// To end with an entry byte by byte is to end with it character by
/// character: no entry can match from the middle of a character of the host.
pub proof fn byte_suffix_is_text_suffix(host: Seq<char>, entry: Seq<char>)
    ensures
        host_ends_with(host, entry) <==> entry.is_suffix_of(host),
{
    broadcast use encode_utf8_valid_utf8, encode_utf8_decode_utf8;

    let h = encode_utf8(host);
    let e = encode_utf8(entry);
    assert(decode_utf8(h) == host);
    assert(decode_utf8(e) == entry);
    if entry.is_suffix_of(host) {
        let p = host.take(host.len() - entry.len());
        assert(host =~= p + entry);
        encoding_of_concatenation(p, entry);
        assert(h.subrange(h.len() - e.len(), h.len() as int) =~= e);
    }
    if e.is_suffix_of(h) {
        let k = h.len() - e.len();
        if e.len() == 0 {
            assert(entry.len() == 0);
            assert(host.subrange(host.len() - entry.len(), host.len() as int) =~= entry);
        } else {
            assert(h[k] == e[0]);
            is_char_boundary_iff_not_is_continuation_byte(e, 0);
            is_char_boundary_iff_not_is_continuation_byte(h, k);
            decode_utf8_split(h, k);
            assert(h.subrange(k, h.len() as int) =~= e);
            let p = decode_utf8(h.subrange(0, k));
            assert(host =~= p + entry);
            assert(host.subrange(host.len() - entry.len(), host.len() as int) =~= entry);
        }
    }
}

/// Whether a decision was to let the destination through or to refuse it.
#[derive(Debug, Clone, Copy, PartialEq, Eq, Structural)]
pub enum AuditKind {
    Accept,
    Denied,
}

/// What the policy engine reports about one decision, for the audit log.
#[derive(Debug)]
pub struct AuditEvent {
    pub kind: AuditKind,
    pub host: String,
    pub port: u16,
    pub source: String,
}

/// The mathematical content of an [`AuditEvent`].
pub struct AuditRecord {
    pub kind: AuditKind,
    pub host: Seq<char>,
    pub port: u16,
    pub source: Seq<char>,
}

impl View for AuditEvent {
    type V = AuditRecord;

    open spec fn view(&self) -> AuditRecord {
        AuditRecord { kind: self.kind, host: self.host@, port: self.port, source: self.source@ }
    }
}

/// The content of an optional audit event.
pub open spec fn audit_view(audit: Option<AuditEvent>) -> Option<AuditRecord> {
    match audit {
        Some(event) => Some(event@),
        None => None,
    }
}

/// What is recorded for a decision: nothing while site control is disabled,
/// otherwise an accept event for a permitted destination and a denial event
/// for a refused one.
pub open spec fn audit_of(policy: SitePolicy, host: Seq<char>, port: u16, source: Seq<char>) -> Option<
    AuditRecord,
> {
    if policy is Disable {
        None
    } else {
        Some(
            AuditRecord {
                kind: if permits(policy, host) {
                    AuditKind::Accept
                } else {
                    AuditKind::Denied
                },
                host,
                port,
                source,
            },
        )
    }
}

/// A decision of the policy engine with its audit event.
#[derive(Debug)]
pub struct Verdict {
    pub permit: bool,
    pub audit: Option<AuditEvent>,
}

/// Whether `suffix` ends `text`, byte by byte.
pub fn ends_with(text: &[u8], suffix: &[u8]) -> (found: bool)
    ensures
        found == suffix@.is_suffix_of(text@),
{
    let n = text.len();
    let m = suffix.len();
    if m > n {
        return false;
    }
    let start = n - m;
    let mut i: usize = 0;
    while i < m
        invariant
            n == text@.len(),
            m == suffix@.len(),
            start + m == n,
            i <= m,
            forall|j: int| 0 <= j < i ==> suffix@[j] == text@[start + j],
        decreases m - i,
    {
        if suffix[i] != text[start + i] {
            assert(text@.subrange(start as int, n as int)[i as int] != suffix@[i as int]);
            return false;
        }
        i += 1;
    }
    assert(suffix@ =~= text@.subrange(start as int, n as int));
    true
}

/// Whether some entry of `list` is a suffix of `host`.
pub fn is_listed(host: &str, list: &Vec<String>) -> (found: bool)
    ensures
        found == listed(host@, crate::config::texts(list@)),
{
    let bytes = host.as_bytes();
    let ghost entries = crate::config::texts(list@);
    let mut i: usize = 0;
    while i < list.len()
        invariant
            i <= list.len(),
            bytes@ == encode_utf8(host@),
            entries == crate::config::texts(list@),
            forall|j: int| 0 <= j < i ==> !host_ends_with(host@, #[trigger] entries[j]),
        decreases list.len() - i,
    {
        if ends_with(bytes, list[i].as_str().as_bytes()) {
            assert(host_ends_with(host@, entries[i as int]));
            return true;
        }
        i += 1;
    }
    false
}

/// The policy engine: decides whether `host` may be reached under `policy`,
/// and reports the decision for the audit log together with the port and the
/// client address it was made for.
pub fn check_valid(policy: &SiteControl, host: &str, port: u16, from: &str) -> (verdict: Verdict)
    ensures
        verdict.permit == permits(policy@, host@),
        audit_view(verdict.audit) == audit_of(policy@, host@, port, from@),
{
    let permit = match policy {
        SiteControl::Disable => {
            return Verdict { permit: true, audit: None };
        },
        SiteControl::Allow(list) => is_listed(host, list),
        SiteControl::Block(list) => !is_listed(host, list),
    };
    let kind = if permit {
        AuditKind::Accept
    } else {
        AuditKind::Denied
    };
    let event = AuditEvent { kind, host: String::from_str(host), port, source: String::from_str(from) };
    Verdict { permit, audit: Some(event) }
}

} // verus!
