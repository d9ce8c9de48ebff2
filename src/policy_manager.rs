//! The policy store: one partition holding the current security-policy
//! snapshot under a fixed key, loaded best-effort and seeded when absent.

use vstd::prelude::*;
use crate::kb::{open_partition, partition_get, partition_write, wrote, KnowledgeBase, Partition,
    StoreError};
use vstd::utf8::encode_utf8;
use crate::text::{decimal, decimal_string, json_quoted, json_str_field, json_str_member,
    json_u64_field, json_u64_member, quote_json};

verus! {

/// A simplified snapshot of enterprise security tooling state.
#[derive(Debug)]
pub struct SecurityPolicy {
    pub zscaler_status: String,
    pub crowdstrike_endpoint_count: u32,
    pub proofpoint_quarantined_emails: u32,
    pub jira_open_tickets: u32,
    pub meraki_network_health: String,
}

/// The mathematical value of a [`SecurityPolicy`].
pub struct PolicyModel {
    pub zscaler_status: Seq<char>,
    pub crowdstrike_endpoint_count: u32,
    pub proofpoint_quarantined_emails: u32,
    pub jira_open_tickets: u32,
    pub meraki_network_health: Seq<char>,
}

impl View for SecurityPolicy {
    type V = PolicyModel;

    open spec fn view(&self) -> PolicyModel {
        PolicyModel {
            zscaler_status: self.zscaler_status@,
            crowdstrike_endpoint_count: self.crowdstrike_endpoint_count,
            proofpoint_quarantined_emails: self.proofpoint_quarantined_emails,
            jira_open_tickets: self.jira_open_tickets,
            meraki_network_health: self.meraki_network_health@,
        }
    }
}

/// The partition that holds the policy snapshot.
pub const SECURITY_POLICY_TREE: &'static str = "security_policy_tree";

/// The key of the single snapshot in its partition.
pub const SECURITY_POLICY_KEY: &'static str = "current";

/// The snapshot used when none can be read. Its low endpoint count is what
/// makes triage synthesize a rule.
pub open spec fn default_policy_model() -> PolicyModel {
    PolicyModel {
        zscaler_status: "OK"@,
        crowdstrike_endpoint_count: 42,
        proofpoint_quarantined_emails: 3,
        jira_open_tickets: 7,
        meraki_network_health: "DEGRADED"@,
    }
}

/// The JSON object a snapshot is stored as: its five members in declaration
/// order, with no whitespace.
pub open spec fn policy_json(p: PolicyModel) -> Seq<char> {
    "{\"zscaler_status\":"@ + json_quoted(p.zscaler_status)
        + ",\"crowdstrike_endpoint_count\":"@ + decimal(p.crowdstrike_endpoint_count as nat)
        + ",\"proofpoint_quarantined_emails\":"@ + decimal(p.proofpoint_quarantined_emails as nat)
        + ",\"jira_open_tickets\":"@ + decimal(p.jira_open_tickets as nat)
        + ",\"meraki_network_health\":"@ + json_quoted(p.meraki_network_health) + "}"@
}

/// A JSON member holding an integer that fits in `u32`.
pub open spec fn u32_member(b: Seq<u8>, key: Seq<char>) -> Option<u32> {
    match json_u64_member(b, key) {
        Some(n) => if n <= u32::MAX {
            Some(n as u32)
        } else {
            None
        },
        None => None,
    }
}

/// The snapshot that the stored bytes `b` describe: all five members must be
/// present with the right JSON types, and the counts must fit in `u32`.
pub open spec fn decoded_policy(b: Seq<u8>) -> Option<PolicyModel> {
    let z = json_str_member(b, "zscaler_status"@);
    let c = u32_member(b, "crowdstrike_endpoint_count"@);
    let p = u32_member(b, "proofpoint_quarantined_emails"@);
    let j = u32_member(b, "jira_open_tickets"@);
    let m = json_str_member(b, "meraki_network_health"@);
    if z is Some && c is Some && p is Some && j is Some && m is Some {
        Some(
            PolicyModel {
                zscaler_status: z->0,
                crowdstrike_endpoint_count: c->0,
                proofpoint_quarantined_emails: p->0,
                jira_open_tickets: j->0,
                meraki_network_health: m->0,
            },
        )
    } else {
        None
    }
}

/// What a load makes of the value found under the snapshot key: the snapshot
/// it returns, and the record it writes back, if any. A value that is absent
/// or does not decode gives the default, which is then seeded.
pub open spec fn load_outcome(stored: Option<Seq<u8>>) -> (PolicyModel, Option<Seq<char>>) {
    match stored {
        Some(b) => match decoded_policy(b) {
            Some(p) => (p, None),
            None => (default_policy_model(), Some(policy_json(default_policy_model()))),
        },
        None => (default_policy_model(), Some(policy_json(default_policy_model()))),
    }
}

pub open spec fn string_view(s: Option<String>) -> Option<Seq<char>> {
    match s {
        Some(t) => Some(t@),
        None => None,
    }
}

impl SecurityPolicy {
    /// A copy of this snapshot.
    pub fn snapshot(&self) -> (r: SecurityPolicy)
        ensures
            r@ == self@,
    {
        SecurityPolicy {
            zscaler_status: String::from_str(self.zscaler_status.as_str()),
            crowdstrike_endpoint_count: self.crowdstrike_endpoint_count,
            proofpoint_quarantined_emails: self.proofpoint_quarantined_emails,
            jira_open_tickets: self.jira_open_tickets,
            meraki_network_health: String::from_str(self.meraki_network_health.as_str()),
        }
    }
}

/// The fixed default snapshot.
pub fn default_policy() -> (r: SecurityPolicy)
    ensures
        r@ == default_policy_model(),
{
    SecurityPolicy {
        zscaler_status: String::from_str("OK"),
        crowdstrike_endpoint_count: 42,
        proofpoint_quarantined_emails: 3,
        jira_open_tickets: 7,
        meraki_network_health: String::from_str("DEGRADED"),
    }
}

/// The stored form of a snapshot.
pub fn encode_policy(p: &SecurityPolicy) -> (r: String)
    ensures
        r@ == policy_json(p@),
{
    let mut out = String::from_str("{\"zscaler_status\":");
    let q = quote_json(p.zscaler_status.as_str());
    if let Some(q) = q {
        out.append(q.as_str());
    }
    out.append(",\"crowdstrike_endpoint_count\":");
    out.append(decimal_string(p.crowdstrike_endpoint_count as u64).as_str());
    out.append(",\"proofpoint_quarantined_emails\":");
    out.append(decimal_string(p.proofpoint_quarantined_emails as u64).as_str());
    out.append(",\"jira_open_tickets\":");
    out.append(decimal_string(p.jira_open_tickets as u64).as_str());
    out.append(",\"meraki_network_health\":");
    let q = quote_json(p.meraki_network_health.as_str());
    if let Some(q) = q {
        out.append(q.as_str());
    }
    out.append("}");
    out
}

fn u32_field(raw: &[u8], key: &str) -> (r: Option<u32>)
    ensures
        r == u32_member(raw@, key@),
{
    match json_u64_field(raw, key) {
        Some(n) => if n <= u32::MAX as u64 {
            Some(n as u32)
        } else {
            None
        },
        None => None,
    }
}

/// Reads a snapshot back from its stored bytes.
pub fn decode_policy(raw: &[u8]) -> (r: Option<SecurityPolicy>)
    ensures
        r is Some <==> decoded_policy(raw@) is Some,
        r is Some ==> decoded_policy(raw@) == Some(r->0@),
{
    let z = json_str_field(raw, "zscaler_status");
    let c = u32_field(raw, "crowdstrike_endpoint_count");
    let p = u32_field(raw, "proofpoint_quarantined_emails");
    let j = u32_field(raw, "jira_open_tickets");
    let m = json_str_field(raw, "meraki_network_health");
    match (z, c, p, j, m) {
        (Some(z), Some(c), Some(p), Some(j), Some(m)) => Some(
            SecurityPolicy {
                zscaler_status: z,
                crowdstrike_endpoint_count: c,
                proofpoint_quarantined_emails: p,
                jira_open_tickets: j,
                meraki_network_health: m,
            },
        ),
        _ => None,
    }
}

/// What a read of the snapshot key yields for the load: a failed read counts
/// as an absent value.
pub open spec fn read_view(read: Result<Option<Vec<u8>>, StoreError>) -> Option<Seq<u8>> {
    match read {
        Ok(Some(b)) => Some(b@),
        _ => None,
    }
}

/// The bytes of the snapshot key.
pub open spec fn policy_key_bytes() -> Seq<u8> {
    encode_utf8(SECURITY_POLICY_KEY@)
}

/// How a load changes the handle, given the seed record it decided on: with
/// none, not at all; with one, by one write of the record's bytes under the
/// snapshot key of partition `name`, which may have failed.
pub open spec fn seeded_as(
    before: KnowledgeBase,
    after: KnowledgeBase,
    seed: Option<Seq<char>>,
    name: Seq<char>,
) -> bool {
    match seed {
        None => after == before,
        Some(record) => wrote(before, after, name, policy_key_bytes(), encode_utf8(record), true)
            || wrote(before, after, name, policy_key_bytes(), encode_utf8(record), false),
    }
}

/// What a load does to the handle and returns: either the policy partition
/// could not be opened, which gives the default and changes nothing, or the
/// snapshot comes from the value read there, seeding as [`load_outcome`] says.
pub open spec fn loaded(before: KnowledgeBase, after: KnowledgeBase, p: PolicyModel) -> bool {
    ||| p == default_policy_model() && after == before
    ||| exists|stored: Option<Seq<u8>>|
        p == (#[trigger] load_outcome(stored)).0 && seeded_as(
            before,
            after,
            load_outcome(stored).1,
            SECURITY_POLICY_TREE@,
        )
}

/// Decides a load from the outcome of reading the snapshot key: the snapshot
/// to return, and the record to seed the partition with, if any.
pub fn resolve_policy(read: Result<Option<Vec<u8>>, StoreError>) -> (r: (SecurityPolicy, Option<String>))
    ensures
        r.0@ == load_outcome(read_view(read)).0,
        string_view(r.1) == load_outcome(read_view(read)).1,
{
    let found = match read {
        Ok(Some(raw)) => decode_policy(raw.as_slice()),
        _ => None,
    };
    match found {
        Some(p) => (p, None),
        None => {
            let p = default_policy();
            let record = encode_policy(&p);
            (p, Some(record))
        },
    }
}

/// Loads the current snapshot, best-effort: a partition that cannot be
/// opened gives the default; a value that is absent, unreadable or corrupt
/// gives the default, which is then written and flushed under the key, with
/// any failure of that write ignored. A value that decodes is returned as it
/// is, and nothing is written.
pub fn load_policy(kb: &mut KnowledgeBase) -> (r: SecurityPolicy)
    ensures
        loaded(*old(kb), *final(kb), r@),
{
    let opened = open_partition(kb, SECURITY_POLICY_TREE);
    load_policy_from_partition(kb, opened)
}

/// Loads the snapshot from the outcome of opening its partition. A partition
/// that could not be opened gives the default snapshot, and nothing is read
/// or written.
pub fn load_policy_from_partition(kb: &mut KnowledgeBase, opened: Result<Partition, StoreError>) -> (r: SecurityPolicy)
    ensures
        opened is Err ==> r@ == default_policy_model() && *final(kb) == *old(kb),
        opened is Ok ==> exists|stored: Option<Seq<u8>>|
            r@ == (#[trigger] load_outcome(stored)).0 && seeded_as(
                *old(kb),
                *final(kb),
                load_outcome(stored).1,
                opened->Ok_0.name(),
            ),
{
    let tree = match opened {
        Ok(tree) => tree,
        Err(_) => return default_policy(),
    };
    let read = partition_get(&tree, SECURITY_POLICY_KEY.as_bytes());
    let ghost stored = read_view(read);
    let (p, seed) = resolve_policy(read);
    let ghost before = *kb;
    if let Some(record) = seed {
        let w = partition_write(kb, &tree, SECURITY_POLICY_KEY.as_bytes(), record.as_str().as_bytes());
        assert(wrote(
            before,
            *kb,
            tree.name(),
            policy_key_bytes(),
            encode_utf8(record@),
            !(w is Err && w->Err_0 == StoreError::WriteFailed),
        ));
    }
    assert(p@ == load_outcome(stored).0);
    p
}

/// Loading from a partition with nothing under the snapshot key returns the
/// default snapshot and seeds the key with the default's stored form; loading
/// from a partition whose value decodes returns that snapshot unchanged and
/// writes nothing.
pub proof fn lemma_load_seeds_then_reads(raw: Seq<u8>)
    ensures
        load_outcome(None) == (default_policy_model(), Some(policy_json(default_policy_model()))),
        decoded_policy(raw) is Some ==> load_outcome(Some(raw)) == (
            decoded_policy(raw)->0,
            None::<Seq<char>>,
        ),
{
}

} // verus!
