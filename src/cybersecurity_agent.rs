//! The triage engine: it reads the policy snapshot, picks a response
//! directive, synthesizes a rule when the snapshot calls for one, stores that
//! rule, and describes the outcome as a summary and as a fact to record.

use vstd::prelude::*;
use crate::kb::{generate_id, write_entry, wrote, KnowledgeBase, StoreError};
use crate::policy_manager::{default_policy_model, load_outcome, load_policy, loaded, policy_key_bytes,
    seeded_as, PolicyModel, SecurityPolicy, SECURITY_POLICY_TREE};
use vstd::utf8::encode_utf8;
use crate::text::{decimal, decimal_string, has_substring, json_quoted, lemma_decimal_injective,
    lemma_decimal_len, quote_json, str_contains};

verus! {

/// The partition that holds synthesized rules, keyed by rule id.
pub const RULES_TREE: &'static str = "rules";

/// The fact type under which triage outcomes are recorded.
pub const TRIAGE_FACT_TYPE: &'static str = "SecurityTriage";

/// The agent's identifier in recorded facts.
pub const AGENT_ID: &'static str = "CybersecurityAgent";

/// A minimal symbolic rule: when a fact of `condition_fact_type` mentions
/// `condition_keyword`, carry out `action_directive`.
#[derive(Debug)]
pub struct PAGIRule {
    pub id: String,
    pub condition_fact_type: String,
    pub condition_keyword: String,
    pub action_directive: String,
}

/// The mathematical value of a [`PAGIRule`].
pub struct RuleModel {
    pub id: Seq<char>,
    pub condition_fact_type: Seq<char>,
    pub condition_keyword: Seq<char>,
    pub action_directive: Seq<char>,
}

impl View for PAGIRule {
    type V = RuleModel;

    open spec fn view(&self) -> RuleModel {
        RuleModel {
            id: self.id@,
            condition_fact_type: self.condition_fact_type@,
            condition_keyword: self.condition_keyword@,
            action_directive: self.action_directive@,
        }
    }
}

/// What one triage run decided. It is handed on, never stored as such.
#[derive(Debug)]
pub struct TriageOutcome {
    pub task_input: String,
    pub plan_directive: String,
    pub policy_snapshot: SecurityPolicy,
    pub rule_written: Option<PAGIRule>,
}

pub struct OutcomeModel {
    pub task_input: Seq<char>,
    pub plan_directive: Seq<char>,
    pub policy_snapshot: PolicyModel,
    pub rule_written: Option<RuleModel>,
}

impl View for TriageOutcome {
    type V = OutcomeModel;

    open spec fn view(&self) -> OutcomeModel {
        OutcomeModel {
            task_input: self.task_input@,
            plan_directive: self.plan_directive@,
            policy_snapshot: self.policy_snapshot@,
            rule_written: match self.rule_written {
                Some(r) => Some(r@),
                None => None,
            },
        }
    }
}

/// A fact for the fact recorder: who recorded it, when (seconds since the
/// epoch), of what type, and its JSON content.
#[derive(Debug)]
pub struct Fact {
    pub agent_id: String,
    pub timestamp: u64,
    pub fact_type: String,
    pub content: String,
}

/// What a run hands back: the summary for the caller and the fact to record.
#[derive(Debug)]
pub struct TriageReport {
    pub summary: String,
    pub fact: Fact,
}

/// The handle through which the agent reaches its knowledge base.
pub struct CybersecurityAgent {
    kb: KnowledgeBase,
}

pub open spec fn alert_marker() -> Seq<char> {
    "HIGH_SEVERITY_ALERT"@
}

pub open spec fn high_severity_directive() -> Seq<char> {
    "ORCHESTRATE_RESPONSE: block_user, investigate_logs, create_ticket"@
}

pub open spec fn monitor_directive() -> Seq<char> {
    "ORCHESTRATE_RESPONSE: monitor"@
}

/// The directive for an event: the high-severity one exactly when the event
/// text contains the alert marker (case-sensitive), else the monitor one.
pub open spec fn directive_for(task_input: Seq<char>) -> Seq<char> {
    if has_substring(task_input, alert_marker()) {
        high_severity_directive()
    } else {
        monitor_directive()
    }
}

pub open spec fn rule_id_prefix() -> Seq<char> {
    "rule_crowdstrike_"@
}

pub open spec fn fallback_rule_id() -> Seq<char> {
    "rule_crowdstrike_fallback"@
}

/// The id of a synthesized rule: the prefix and the generated number, or the
/// fixed fallback when no number could be generated.
///
/// Known gap: the fallback id is the same on every failed draw, so a rule
/// stored under it replaces the previous rule stored under it.
pub open spec fn rule_id_for(generated: Option<u64>) -> Seq<char> {
    match generated {
        Some(n) => rule_id_prefix() + decimal(n as nat),
        None => fallback_rule_id(),
    }
}

/// A rule is synthesized when fewer than a hundred endpoints report.
pub open spec fn rule_triggered(p: PolicyModel) -> bool {
    p.crowdstrike_endpoint_count < 100
}

/// The rule template: the fixed condition and action, under the given id.
pub open spec fn crowdstrike_rule(id: Seq<char>) -> RuleModel {
    RuleModel {
        id: id,
        condition_fact_type: "SecurityTriage"@,
        condition_keyword: "Crowdstrike"@,
        action_directive: "Send Alert to Jira"@,
    }
}

/// The outcome of triaging `task_input` under snapshot `p`, with `generated`
/// the result of drawing an id (only drawn when a rule is due).
pub open spec fn triage_model(task_input: Seq<char>, p: PolicyModel, generated: Option<u64>) -> OutcomeModel {
    OutcomeModel {
        task_input: task_input,
        plan_directive: directive_for(task_input),
        policy_snapshot: p,
        rule_written: if rule_triggered(p) {
            Some(crowdstrike_rule(rule_id_for(generated)))
        } else {
            None
        },
    }
}

/// The id reported in a summary: the written rule's, or `none`.
pub open spec fn reported_rule_id(rule: Option<RuleModel>) -> Seq<char> {
    match rule {
        Some(r) => r.id,
        None => "none"@,
    }
}

pub open spec fn summary_text(directive: Seq<char>, rule_id: Seq<char>) -> Seq<char> {
    "Cybersecurity triage complete. directive="@ + directive + "; rule_written="@ + rule_id
}

/// The stored form of a rule: its members in declaration order.
pub open spec fn rule_json(r: RuleModel) -> Seq<char> {
    "{\"id\":"@ + json_quoted(r.id) + ",\"condition_fact_type\":"@ + json_quoted(
        r.condition_fact_type,
    ) + ",\"condition_keyword\":"@ + json_quoted(r.condition_keyword) + ",\"action_directive\":"@
        + json_quoted(r.action_directive) + "}"@
}

/// A rule inside a fact's content: its members in key order.
pub open spec fn rule_json_sorted(r: RuleModel) -> Seq<char> {
    "{\"action_directive\":"@ + json_quoted(r.action_directive) + ",\"condition_fact_type\":"@
        + json_quoted(r.condition_fact_type) + ",\"condition_keyword\":"@ + json_quoted(
        r.condition_keyword,
    ) + ",\"id\":"@ + json_quoted(r.id) + "}"@
}

/// A snapshot inside a fact's content: its members in key order.
pub open spec fn policy_json_sorted(p: PolicyModel) -> Seq<char> {
    "{\"crowdstrike_endpoint_count\":"@ + decimal(p.crowdstrike_endpoint_count as nat)
        + ",\"jira_open_tickets\":"@ + decimal(p.jira_open_tickets as nat)
        + ",\"meraki_network_health\":"@ + json_quoted(p.meraki_network_health)
        + ",\"proofpoint_quarantined_emails\":"@ + decimal(p.proofpoint_quarantined_emails as nat)
        + ",\"zscaler_status\":"@ + json_quoted(p.zscaler_status) + "}"@
}

/// The content of a triage fact: a JSON object with its members in key order,
/// the rule present only when one was written.
pub open spec fn outcome_json(o: OutcomeModel) -> Seq<char> {
    "{\"plan_directive\":"@ + json_quoted(o.plan_directive) + ",\"policy_snapshot\":"@
        + policy_json_sorted(o.policy_snapshot) + match o.rule_written {
        Some(r) => ",\"rule_written\":"@ + rule_json_sorted(r),
        None => Seq::<char>::empty(),
    } + ",\"task_input\":"@ + json_quoted(o.task_input) + "}"@
}

/// The key a rule is stored under: the bytes of its id.
pub open spec fn rule_key(r: RuleModel) -> Seq<u8> {
    encode_utf8(r.id)
}

/// The value a rule is stored as: the bytes of its stored form.
pub open spec fn rule_value(r: RuleModel) -> Seq<u8> {
    encode_utf8(rule_json(r))
}

/// How storing `rule` changes the handle: with no rule, not at all; with
/// one, by one write of its entry in the rule partition, which may have failed.
pub open spec fn rule_stored_as(before: KnowledgeBase, after: KnowledgeBase, rule: Option<RuleModel>) -> bool {
    match rule {
        None => after == before,
        Some(r) => wrote(before, after, RULES_TREE@, rule_key(r), rule_value(r), true) || wrote(
            before,
            after,
            RULES_TREE@,
            rule_key(r),
            rule_value(r),
            false,
        ),
    }
}

/// How drawing an id changes the handle. When `attempted`, one draw is asked
/// for, and `generated` is the new number it gave, or `None` if it failed;
/// otherwise nothing changes and `generated` is `None`.
pub open spec fn drew(before: KnowledgeBase, after: KnowledgeBase, generated: Option<u64>, attempted: bool) -> bool {
    if attempted {
        &&& after.db() == before.db()
        &&& after.requested() == before.requested()
        &&& after.written() == before.written()
        &&& after.draw_attempts() == before.draw_attempts() + 1
        &&& match generated {
            Some(n) => !before.drawn().contains(n) && after.drawn() == before.drawn().insert(n),
            None => after.drawn() == before.drawn(),
        }
    } else {
        after == before && generated is None
    }
}

/// The decision and the rule write of a triage run under the snapshot in
/// `o`, from handle `before` to handle `after`: an id is drawn exactly when
/// a rule is due, and that rule is then written once.
pub open spec fn decided_after(before: KnowledgeBase, after: KnowledgeBase, task_input: Seq<char>, o: OutcomeModel) -> bool {
    exists|generated: Option<u64>, mid: KnowledgeBase|
        #[trigger] drew(before, mid, generated, rule_triggered(o.policy_snapshot)) && triage_model(
            task_input,
            o.policy_snapshot,
            generated,
        ) == o && rule_stored_as(mid, after, o.rule_written)
}

/// A whole triage run from handle `before` to handle `after`, with outcome
/// `o`: the snapshot comes from a load (which may seed the policy partition),
/// then the decision and the rule write follow.
pub open spec fn triage_step(before: KnowledgeBase, after: KnowledgeBase, task_input: Seq<char>, o: OutcomeModel) -> bool {
    exists|mid: KnowledgeBase|
        #[trigger] loaded(before, mid, o.policy_snapshot) && decided_after(mid, after, task_input, o)
}

fn append_quoted(out: &mut String, s: &str)
    ensures
        final(out)@ == old(out)@ + json_quoted(s@),
{
    if let Some(q) = quote_json(s) {
        out.append(q.as_str());
    }
}

fn append_decimal(out: &mut String, n: u32)
    ensures
        final(out)@ == old(out)@ + decimal(n as nat),
{
    out.append(decimal_string(n as u64).as_str());
}

/// The directive for an event text.
pub fn plan_directive(task_input: &str) -> (r: String)
    ensures
        r@ == directive_for(task_input@),
{
    if str_contains(task_input, "HIGH_SEVERITY_ALERT") {
        String::from_str("ORCHESTRATE_RESPONSE: block_user, investigate_logs, create_ticket")
    } else {
        String::from_str("ORCHESTRATE_RESPONSE: monitor")
    }
}

/// The id for a new rule from the outcome of drawing a number. Generated ids
/// never repeat; the fallback id does (see [`rule_id_for`]).
pub fn rule_id(generated: Option<u64>) -> (r: String)
    ensures
        r@ == rule_id_for(generated),
{
    match generated {
        Some(n) => {
            let mut id = String::from_str("rule_crowdstrike_");
            id.append(decimal_string(n).as_str());
            id
        },
        None => String::from_str("rule_crowdstrike_fallback"),
    }
}

/// The rule template instantiated under `id`.
pub fn crowdstrike_rule_with_id(id: String) -> (r: PAGIRule)
    ensures
        r@ == crowdstrike_rule(id@),
{
    PAGIRule {
        id,
        condition_fact_type: String::from_str("SecurityTriage"),
        condition_keyword: String::from_str("Crowdstrike"),
        action_directive: String::from_str("Send Alert to Jira"),
    }
}

/// The decision of one triage run, given the snapshot and the outcome of
/// drawing an id.
pub fn decide_triage(task_input: &str, policy: SecurityPolicy, generated: Option<u64>) -> (r: TriageOutcome)
    ensures
        r@ == triage_model(task_input@, policy@, generated),
{
    let plan = plan_directive(task_input);
    let rule_written = if policy.crowdstrike_endpoint_count < 100 {
        Some(crowdstrike_rule_with_id(rule_id(generated)))
    } else {
        None
    };
    TriageOutcome {
        task_input: String::from_str(task_input),
        plan_directive: plan,
        policy_snapshot: policy,
        rule_written,
    }
}

impl PAGIRule {
    /// The stored form of this rule.
    pub fn to_json(&self) -> (r: String)
        ensures
            r@ == rule_json(self@),
    {
        let mut out = String::from_str("{\"id\":");
        append_quoted(&mut out, self.id.as_str());
        out.append(",\"condition_fact_type\":");
        append_quoted(&mut out, self.condition_fact_type.as_str());
        out.append(",\"condition_keyword\":");
        append_quoted(&mut out, self.condition_keyword.as_str());
        out.append(",\"action_directive\":");
        append_quoted(&mut out, self.action_directive.as_str());
        out.append("}");
        out
    }

    fn append_sorted_json(&self, out: &mut String)
        ensures
            final(out)@ == old(out)@ + rule_json_sorted(self@),
    {
        out.append("{\"action_directive\":");
        append_quoted(out, self.action_directive.as_str());
        out.append(",\"condition_fact_type\":");
        append_quoted(out, self.condition_fact_type.as_str());
        out.append(",\"condition_keyword\":");
        append_quoted(out, self.condition_keyword.as_str());
        out.append(",\"id\":");
        append_quoted(out, self.id.as_str());
        out.append("}");
    }
}

fn append_policy_sorted_json(out: &mut String, p: &SecurityPolicy)
    ensures
        final(out)@ == old(out)@ + policy_json_sorted(p@),
{
    out.append("{\"crowdstrike_endpoint_count\":");
    append_decimal(out, p.crowdstrike_endpoint_count);
    out.append(",\"jira_open_tickets\":");
    append_decimal(out, p.jira_open_tickets);
    out.append(",\"meraki_network_health\":");
    append_quoted(out, p.meraki_network_health.as_str());
    out.append(",\"proofpoint_quarantined_emails\":");
    append_decimal(out, p.proofpoint_quarantined_emails);
    out.append(",\"zscaler_status\":");
    append_quoted(out, p.zscaler_status.as_str());
    out.append("}");
}

impl TriageOutcome {
    /// The human-readable summary: the directive and the written rule's id,
    /// or `none`.
    pub fn summary(&self) -> (r: String)
        ensures
            r@ == summary_text(self@.plan_directive, reported_rule_id(self@.rule_written)),
    {
        let mut out = String::from_str("Cybersecurity triage complete. directive=");
        out.append(self.plan_directive.as_str());
        out.append("; rule_written=");
        match &self.rule_written {
            Some(rule) => out.append(rule.id.as_str()),
            None => out.append("none"),
        }
        out
    }

    /// The JSON content of the fact that records this outcome.
    pub fn fact_content(&self) -> (r: String)
        ensures
            r@ == outcome_json(self@),
    {
        let mut out = String::from_str("{\"plan_directive\":");
        append_quoted(&mut out, self.plan_directive.as_str());
        out.append(",\"policy_snapshot\":");
        append_policy_sorted_json(&mut out, &self.policy_snapshot);
        match &self.rule_written {
            Some(rule) => {
                out.append(",\"rule_written\":");
                rule.append_sorted_json(&mut out);
            },
            None => {},
        }
        out.append(",\"task_input\":");
        append_quoted(&mut out, self.task_input.as_str());
        out.append("}");
        out
    }

    /// The fact that records this outcome at `timestamp`.
    pub fn to_fact(&self, timestamp: u64) -> (r: Fact)
        ensures
            r.agent_id@ == AGENT_ID@,
            r.timestamp == timestamp,
            r.fact_type@ == TRIAGE_FACT_TYPE@,
            r.content@ == outcome_json(self@),
    {
        Fact {
            agent_id: String::from_str(AGENT_ID),
            timestamp,
            fact_type: String::from_str(TRIAGE_FACT_TYPE),
            content: self.fact_content(),
        }
    }
}

impl CybersecurityAgent {
    /// The handle on the knowledge base this agent reads and writes.
    pub closed spec fn knowledge_base(&self) -> KnowledgeBase {
        self.kb
    }

    /// The database this agent reads and writes.
    pub closed spec fn store(&self) -> sled::Db {
        self.kb.db()
    }

    /// An agent over an opened knowledge base, with nothing done through it yet.
    pub fn new(db: sled::Db) -> (r: Self)
        ensures
            r.store() == db,
            r.knowledge_base().db() == db,
            r.knowledge_base().requested().len() == 0,
            r.knowledge_base().written().is_empty(),
            r.knowledge_base().draw_attempts() == 0,
            r.knowledge_base().drawn().is_empty(),
    {
        CybersecurityAgent { kb: KnowledgeBase::new(db) }
    }

    /// Stores `rule` under its id in the rule partition and flushes. The
    /// first failure is returned; nothing is retried.
    pub fn store_rule(&mut self, rule: &PAGIRule) -> (r: Result<(), StoreError>)
        ensures
            final(self).store() == old(self).store(),
            r is Err ==> (r->Err_0 == StoreError::StoreUnavailable || r->Err_0
                == StoreError::WriteFailed || r->Err_0 == StoreError::FlushFailed),
            wrote(
                old(self).knowledge_base(),
                final(self).knowledge_base(),
                RULES_TREE@,
                rule_key(rule@),
                rule_value(rule@),
                !(r is Err && (r->Err_0 == StoreError::StoreUnavailable || r->Err_0
                    == StoreError::WriteFailed)),
            ),
    {
        let value = rule.to_json();
        write_entry(&mut self.kb, RULES_TREE, rule.id.as_str().as_bytes(), value.as_str().as_bytes())
    }

    /// Stores `rule`, best-effort: a failure is dropped, since the decision
    /// it records was already made.
    pub fn write_rule_to_kb(&mut self, rule: &PAGIRule)
        ensures
            final(self).store() == old(self).store(),
            rule_stored_as(old(self).knowledge_base(), final(self).knowledge_base(), Some(rule@)),
    {
        let ghost before = self.kb;
        let r = self.store_rule(rule);
        assert(wrote(
            before,
            self.kb,
            RULES_TREE@,
            rule_key(rule@),
            rule_value(rule@),
            !(r is Err && (r->Err_0 == StoreError::StoreUnavailable || r->Err_0 == StoreError::WriteFailed)),
        ));
        assert(rule_stored_as(before, self.kb, Some(rule@)));
    }

    /// Draws a number for a rule id; a failure leaves `None`.
    fn draw_id(&mut self) -> (r: Option<u64>)
        ensures
            final(self).store() == old(self).store(),
            drew(old(self).knowledge_base(), final(self).knowledge_base(), r, true),
    {
        match generate_id(&mut self.kb) {
            Ok(n) => Some(n),
            Err(_) => None,
        }
    }

    /// Triages one event: loads the snapshot (seeding it when absent or
    /// corrupt), decides, and stores the rule when one is due.
    pub fn triage(&mut self, task_input: &str) -> (r: TriageOutcome)
        ensures
            final(self).store() == old(self).store(),
            triage_step(old(self).knowledge_base(), final(self).knowledge_base(), task_input@, r@),
    {
        let ghost before = self.kb;
        let policy = load_policy(&mut self.kb);
        let ghost mid = self.kb;
        proof {
            lemma_loaded_keeps_db(before, mid, policy@);
        }
        let r = self.triage_with_policy(task_input, policy);
        assert(loaded(before, mid, r@.policy_snapshot));
        r
    }

    /// Triages one event under the given snapshot. An id is drawn, and the
    /// rule stored, exactly when the snapshot calls for a rule.
    pub fn triage_with_policy(&mut self, task_input: &str, policy: SecurityPolicy) -> (r: TriageOutcome)
        ensures
            r@.policy_snapshot == policy@,
            final(self).store() == old(self).store(),
            decided_after(old(self).knowledge_base(), final(self).knowledge_base(), task_input@, r@),
    {
        let ghost snapshot = policy@;
        let ghost before = self.kb;
        let generated = if policy.crowdstrike_endpoint_count < 100 {
            self.draw_id()
        } else {
            None
        };
        let ghost mid = self.kb;
        let outcome = decide_triage(task_input, policy, generated);
        if let Some(rule) = &outcome.rule_written {
            self.write_rule_to_kb(rule);
        }
        assert(outcome@ == triage_model(task_input@, snapshot, generated));
        assert(drew(before, mid, generated, rule_triggered(snapshot)));
        assert(rule_stored_as(mid, self.kb, outcome@.rule_written));
        outcome
    }

    /// Runs triage on one event and returns the summary, with the fact that
    /// records the outcome at `timestamp` (seconds since the epoch).
    pub fn run(&mut self, task_input: &str, timestamp: u64) -> (r: TriageReport)
        ensures
            final(self).store() == old(self).store(),
            exists|o: OutcomeModel|
                {
                    &&& triage_step(old(self).knowledge_base(), final(self).knowledge_base(), task_input@, o)
                    &&& r.summary@ == summary_text(o.plan_directive, reported_rule_id(o.rule_written))
                    &&& r.fact.content@ == #[trigger] outcome_json(o)
                },
            r.fact.agent_id@ == AGENT_ID@,
            r.fact.timestamp == timestamp,
            r.fact.fact_type@ == TRIAGE_FACT_TYPE@,
    {
        let outcome = self.triage(task_input);
        let summary = outcome.summary();
        let fact = outcome.to_fact(timestamp);
        TriageReport { summary, fact }
    }
}

/// A load leaves the handle on the same database.
proof fn lemma_loaded_keeps_db(before: KnowledgeBase, after: KnowledgeBase, p: PolicyModel)
    requires
        loaded(before, after, p),
    ensures
        after.db() == before.db(),
{
    if !(p == default_policy_model() && after == before) {
        let stored = choose|stored: Option<Seq<u8>>|
            p == (#[trigger] load_outcome(stored)).0 && seeded_as(
                before,
                after,
                load_outcome(stored).1,
                SECURITY_POLICY_TREE@,
            );
    }
}

/// What one triage run asks of the rule partition. When a rule is due, its
/// last write request is that rule's entry in the rule partition, under the
/// rule's id, and the id is either the fallback or built from a number not
/// drawn before through the handle. When none is due, every write it asks
/// for goes to the policy partition (the seed), so the rule partition is left
/// alone, and the summary reports `none`.
pub proof fn lemma_triage_rule_writes(before: KnowledgeBase, after: KnowledgeBase, task_input: Seq<char>, o: OutcomeModel)
    requires
        triage_step(before, after, task_input, o),
    ensures
        rule_triggered(o.policy_snapshot) ==> after.requested().len() > before.requested().len()
            && after.requested().last() == (
            (RULES_TREE@, rule_key(o.rule_written->0)),
            rule_value(o.rule_written->0),
        ) && (o.rule_written->0.id == fallback_rule_id() || exists|n: u64|
            !before.drawn().contains(n) && #[trigger] rule_id_for(Some(n)) == o.rule_written->0.id),
        !rule_triggered(o.policy_snapshot) ==> o.rule_written is None && reported_rule_id(o.rule_written)
            == "none"@ && forall|i: int|
            before.requested().len() <= i < after.requested().len() ==> (#[trigger] after.requested()[i]).0.0
                == SECURITY_POLICY_TREE@,
        after.requested().len() >= before.requested().len(),
        forall|i: int| 0 <= i < before.requested().len() ==> #[trigger] after.requested()[i] == before.requested()[i],
{
    let mid = choose|mid: KnowledgeBase| #[trigger] loaded(before, mid, o.policy_snapshot) && decided_after(mid, after, task_input, o);
    let (g, mid2) = choose|g: Option<u64>, mid2: KnowledgeBase|
        #[trigger] drew(mid, mid2, g, rule_triggered(o.policy_snapshot)) && triage_model(task_input, o.policy_snapshot, g) == o
            && rule_stored_as(mid2, after, o.rule_written);
    // The load asks for at most the seed, in the policy partition.
    if !(o.policy_snapshot == default_policy_model() && mid == before) {
        let stored = choose|stored: Option<Seq<u8>>|
            o.policy_snapshot == (#[trigger] load_outcome(stored)).0 && seeded_as(
                before,
                mid,
                load_outcome(stored).1,
                SECURITY_POLICY_TREE@,
            );
    }
    assert(mid.requested().len() >= before.requested().len());
    assert(forall|i: int| 0 <= i < before.requested().len() ==> #[trigger] mid.requested()[i] == before.requested()[i]);
    assert(forall|i: int|
        before.requested().len() <= i < mid.requested().len() ==> (#[trigger] mid.requested()[i]).0.0
            == SECURITY_POLICY_TREE@);
    if rule_triggered(o.policy_snapshot) {
        match g {
            Some(n) => {
                assert(rule_id_for(Some(n)) == o.rule_written->0.id);
            },
            None => {},
        }
    }
}

/// With the default snapshot, which is what a store that refuses to open its
/// partitions yields, triage still decides the directive from the event text
/// and synthesizes a rule, and its summary reports that rule's id.
pub proof fn lemma_triage_on_default_snapshot(task_input: Seq<char>, generated: Option<u64>)
    ensures
        triage_model(task_input, default_policy_model(), generated).rule_written == Some(
            crowdstrike_rule(rule_id_for(generated)),
        ),
        summary_text(
            triage_model(task_input, default_policy_model(), generated).plan_directive,
            reported_rule_id(triage_model(task_input, default_policy_model(), generated).rule_written),
        ) == summary_text(directive_for(task_input), rule_id_for(generated)),
{
}

/// A rule id built from a number not drawn before differs from every rule id
/// built from a number drawn before, and from the fallback id.
pub proof fn lemma_fresh_rule_id(n: u64, drawn: Set<u64>)
    requires
        !drawn.contains(n),
    ensures
        forall|m: u64| drawn.contains(m) ==> #[trigger] rule_id_for(Some(m)) != rule_id_for(Some(n)),
        rule_id_for(Some(n)) != rule_id_for(None),
{
    assert forall|m: u64| drawn.contains(m) implies #[trigger] rule_id_for(Some(m)) != rule_id_for(
        Some(n),
    ) by {
        lemma_rule_id_injective(m, n);
    }
    lemma_fallback_id_differs(n);
}

/// A rule id built from a generated number is never the fallback id.
pub proof fn lemma_fallback_id_differs(n: u64)
    ensures
        rule_id_for(Some(n)) != rule_id_for(None),
{
    reveal_strlit("rule_crowdstrike_");
    reveal_strlit("rule_crowdstrike_fallback");
    lemma_decimal_len(n as nat);
    let id = rule_id_for(Some(n));
    assert(id[17] == decimal(n as nat)[0]);
    assert(fallback_rule_id()[17] == 'f');
}

/// Distinct generated numbers give distinct rule ids.
pub proof fn lemma_rule_id_injective(n: u64, m: u64)
    requires
        n != m,
    ensures
        rule_id_for(Some(n)) != rule_id_for(Some(m)),
{
    let a = rule_id_for(Some(n));
    let b = rule_id_for(Some(m));
    if a == b {
        let k = rule_id_prefix().len() as int;
        assert(a.subrange(k, a.len() as int) == decimal(n as nat));
        assert(b.subrange(k, b.len() as int) == decimal(m as nat));
        lemma_decimal_injective(n as nat, m as nat);
    }
}

/// Rule ids built from pairwise distinct generated numbers, as concurrent
/// triage runs on a healthy store draw them, are pairwise distinct.
pub proof fn lemma_generated_rule_ids_distinct(ns: Seq<u64>)
    requires
        forall|i: int, j: int| 0 <= i < j < ns.len() ==> ns[i] != ns[j],
    ensures
        forall|i: int, j: int|
            0 <= i < j < ns.len() ==> #[trigger] rule_id_for(Some(ns[i])) != #[trigger] rule_id_for(
                Some(ns[j]),
            ),
{
    assert forall|i: int, j: int| 0 <= i < j < ns.len() implies #[trigger] rule_id_for(
        Some(ns[i]),
    ) != #[trigger] rule_id_for(Some(ns[j])) by {
        lemma_rule_id_injective(ns[i], ns[j]);
    }
}

/// The directive depends on the alert marker alone: any event text that
/// contains it gets the high-severity directive, any other the monitor one.
pub proof fn lemma_directive_by_marker(task_input: Seq<char>)
    ensures
        has_substring(task_input, alert_marker()) ==> directive_for(task_input)
            == high_severity_directive(),
        !has_substring(task_input, alert_marker()) ==> directive_for(task_input)
            == monitor_directive(),
{
}

/// With a snapshot of a hundred endpoints or more, triage writes no rule and
/// its summary reports `none`; below that, exactly one rule, whose id the
/// summary reports.
pub proof fn lemma_rule_only_below_threshold(task_input: Seq<char>, p: PolicyModel, generated: Option<u64>)
    ensures
        !rule_triggered(p) ==> triage_model(task_input, p, generated).rule_written is None
            && reported_rule_id(triage_model(task_input, p, generated).rule_written) == "none"@,
        rule_triggered(p) ==> triage_model(task_input, p, generated).rule_written == Some(
            crowdstrike_rule(rule_id_for(generated)),
        ) && reported_rule_id(triage_model(task_input, p, generated).rule_written) == rule_id_for(
            generated,
        ),
{
}

} // verus!
