use pagi_cyber_agent::cybersecurity_agent::{
    decide_triage, plan_directive, rule_id, CybersecurityAgent, PAGIRule,
};
use pagi_cyber_agent::kb::{open_partition, write_entry, KnowledgeBase, StoreError};
use pagi_cyber_agent::policy_manager::{
    decode_policy, default_policy, encode_policy, load_policy, load_policy_from_partition,
    resolve_policy, SecurityPolicy,
};

const HIGH: &str = "ORCHESTRATE_RESPONSE: block_user, investigate_logs, create_ticket";
const MONITOR: &str = "ORCHESTRATE_RESPONSE: monitor";
const DEFAULT_JSON: &str = "{\"zscaler_status\":\"OK\",\"crowdstrike_endpoint_count\":42,\"proofpoint_quarantined_emails\":3,\"jira_open_tickets\":7,\"meraki_network_health\":\"DEGRADED\"}";

fn temp_db() -> sled::Db {
    sled::Config::new().temporary(true).open().unwrap()
}

fn policy_with_count(n: u32) -> SecurityPolicy {
    SecurityPolicy {
        zscaler_status: "OK".to_string(),
        crowdstrike_endpoint_count: n,
        proofpoint_quarantined_emails: 1,
        jira_open_tickets: 2,
        meraki_network_health: "GOOD".to_string(),
    }
}

fn rule_count(db: &sled::Db) -> usize {
    db.open_tree("rules").unwrap().len()
}

#[test]
fn default_policy_has_fixed_values() {
    let p = default_policy();
    assert_eq!(p.zscaler_status, "OK");
    assert_eq!(p.crowdstrike_endpoint_count, 42);
    assert_eq!(p.proofpoint_quarantined_emails, 3);
    assert_eq!(p.jira_open_tickets, 7);
    assert_eq!(p.meraki_network_health, "DEGRADED");
}

#[test]
fn encode_default_policy_exact() {
    assert_eq!(encode_policy(&default_policy()), DEFAULT_JSON);
}

#[test]
fn encode_escapes_strings() {
    let mut p = policy_with_count(5);
    p.zscaler_status = "a\"b".to_string();
    let s = encode_policy(&p);
    assert!(s.starts_with("{\"zscaler_status\":\"a\\\"b\","));
}

#[test]
fn decode_round_trips_encoding() {
    let p = policy_with_count(123);
    let back = decode_policy(encode_policy(&p).as_bytes()).unwrap();
    assert_eq!(back.zscaler_status, "OK");
    assert_eq!(back.crowdstrike_endpoint_count, 123);
    assert_eq!(back.proofpoint_quarantined_emails, 1);
    assert_eq!(back.jira_open_tickets, 2);
    assert_eq!(back.meraki_network_health, "GOOD");
}

#[test]
fn decode_accepts_whitespace_and_member_order() {
    let raw = b"{ \"meraki_network_health\": \"X\", \"jira_open_tickets\": 1, \"proofpoint_quarantined_emails\": 2, \"crowdstrike_endpoint_count\": 3, \"zscaler_status\": \"Y\", \"extra\": true }";
    let p = decode_policy(raw).unwrap();
    assert_eq!(p.zscaler_status, "Y");
    assert_eq!(p.crowdstrike_endpoint_count, 3);
    assert_eq!(p.meraki_network_health, "X");
}

#[test]
fn decode_rejects_corrupt_missing_and_oversized() {
    assert!(decode_policy(b"not json").is_none());
    assert!(decode_policy(b"").is_none());
    assert!(decode_policy(b"{\"zscaler_status\":\"OK\"}").is_none());
    let too_big = DEFAULT_JSON.replace(":42,", ":4294967296,");
    assert!(decode_policy(too_big.as_bytes()).is_none());
    let max = DEFAULT_JSON.replace(":42,", ":4294967295,");
    assert_eq!(decode_policy(max.as_bytes()).unwrap().crowdstrike_endpoint_count, u32::MAX);
    let negative = DEFAULT_JSON.replace(":42,", ":-1,");
    assert!(decode_policy(negative.as_bytes()).is_none());
    let wrong_type = DEFAULT_JSON.replace("\"OK\"", "1");
    assert!(decode_policy(wrong_type.as_bytes()).is_none());
}

#[test]
fn resolve_absent_gives_default_and_seed() {
    let (p, seed) = resolve_policy(Ok(None));
    assert_eq!(p.crowdstrike_endpoint_count, 42);
    assert_eq!(seed.unwrap(), DEFAULT_JSON);
}

#[test]
fn resolve_corrupt_gives_default_and_seed() {
    let (p, seed) = resolve_policy(Ok(Some(b"{broken".to_vec())));
    assert_eq!(p.zscaler_status, "OK");
    assert_eq!(seed.unwrap(), DEFAULT_JSON);
}

#[test]
fn resolve_stored_returns_it_without_seed() {
    let raw = encode_policy(&policy_with_count(500)).into_bytes();
    let (p, seed) = resolve_policy(Ok(Some(raw)));
    assert_eq!(p.crowdstrike_endpoint_count, 500);
    assert!(seed.is_none());
}

#[test]
fn load_policy_seeds_empty_store_then_reads_it_back() {
    let db = temp_db();
    let mut kb = KnowledgeBase::new(db.clone());
    let first = load_policy(&mut kb);
    assert_eq!(first.crowdstrike_endpoint_count, 42);
    let stored = db.open_tree("security_policy_tree").unwrap().get(b"current").unwrap().unwrap();
    assert_eq!(stored.as_ref(), DEFAULT_JSON.as_bytes());
    let second = load_policy(&mut KnowledgeBase::new(db.clone()));
    assert_eq!(second.zscaler_status, first.zscaler_status);
    assert_eq!(second.crowdstrike_endpoint_count, first.crowdstrike_endpoint_count);
    assert_eq!(second.proofpoint_quarantined_emails, first.proofpoint_quarantined_emails);
    assert_eq!(second.jira_open_tickets, first.jira_open_tickets);
    assert_eq!(second.meraki_network_health, first.meraki_network_health);
}

#[test]
fn load_policy_returns_stored_snapshot() {
    let db = temp_db();
    let tree = db.open_tree("security_policy_tree").unwrap();
    tree.insert(b"current", encode_policy(&policy_with_count(250)).into_bytes()).unwrap();
    let p = load_policy(&mut KnowledgeBase::new(db.clone()));
    assert_eq!(p.crowdstrike_endpoint_count, 250);
    assert_eq!(p.meraki_network_health, "GOOD");
}

#[test]
fn load_policy_reseeds_corrupt_value() {
    let db = temp_db();
    let tree = db.open_tree("security_policy_tree").unwrap();
    tree.insert(b"current", b"garbage".to_vec()).unwrap();
    let p = load_policy(&mut KnowledgeBase::new(db.clone()));
    assert_eq!(p.crowdstrike_endpoint_count, 42);
    assert_eq!(tree.get(b"current").unwrap().unwrap().as_ref(), DEFAULT_JSON.as_bytes());
}

#[test]
fn directive_follows_alert_marker() {
    assert_eq!(plan_directive("HIGH_SEVERITY_ALERT"), HIGH);
    assert_eq!(plan_directive("prefix HIGH_SEVERITY_ALERT suffix"), HIGH);
    assert_eq!(plan_directive("routine check"), MONITOR);
    assert_eq!(plan_directive("high_severity_alert"), MONITOR);
    assert_eq!(plan_directive("HIGH_SEVERITY ALERT"), MONITOR);
    assert_eq!(plan_directive(""), MONITOR);
}

#[test]
fn rule_ids_from_numbers_and_fallback() {
    assert_eq!(rule_id(Some(0)), "rule_crowdstrike_0");
    assert_eq!(rule_id(Some(1234)), "rule_crowdstrike_1234");
    assert_eq!(rule_id(Some(u64::MAX)), "rule_crowdstrike_18446744073709551615");
    assert_eq!(rule_id(None), "rule_crowdstrike_fallback");
}

#[test]
fn rule_json_exact() {
    let rule = PAGIRule {
        id: "rule_crowdstrike_9".to_string(),
        condition_fact_type: "SecurityTriage".to_string(),
        condition_keyword: "Crowdstrike".to_string(),
        action_directive: "Send Alert to Jira".to_string(),
    };
    assert_eq!(
        rule.to_json(),
        "{\"id\":\"rule_crowdstrike_9\",\"condition_fact_type\":\"SecurityTriage\",\"condition_keyword\":\"Crowdstrike\",\"action_directive\":\"Send Alert to Jira\"}"
    );
}

#[test]
fn decide_below_threshold_synthesizes_rule() {
    let o = decide_triage("routine check", default_policy(), Some(7));
    assert_eq!(o.plan_directive, MONITOR);
    let rule = o.rule_written.as_ref().unwrap();
    assert_eq!(rule.id, "rule_crowdstrike_7");
    assert_eq!(rule.condition_fact_type, "SecurityTriage");
    assert_eq!(rule.condition_keyword, "Crowdstrike");
    assert_eq!(rule.action_directive, "Send Alert to Jira");
    assert_eq!(
        o.summary(),
        "Cybersecurity triage complete. directive=ORCHESTRATE_RESPONSE: monitor; rule_written=rule_crowdstrike_7"
    );
}

#[test]
fn decide_at_threshold_writes_no_rule() {
    let o = decide_triage("HIGH_SEVERITY_ALERT", policy_with_count(100), Some(7));
    assert!(o.rule_written.is_none());
    assert_eq!(
        o.summary(),
        format!("Cybersecurity triage complete. directive={}; rule_written=none", HIGH)
    );
    let o = decide_triage("x", policy_with_count(99), None);
    assert_eq!(o.rule_written.unwrap().id, "rule_crowdstrike_fallback");
}

#[test]
fn fact_content_exact_with_rule() {
    let o = decide_triage("x", default_policy(), Some(7));
    let fact = o.to_fact(1700000000);
    assert_eq!(fact.agent_id, "CybersecurityAgent");
    assert_eq!(fact.fact_type, "SecurityTriage");
    assert_eq!(fact.timestamp, 1700000000);
    assert_eq!(
        fact.content,
        "{\"plan_directive\":\"ORCHESTRATE_RESPONSE: monitor\",\"policy_snapshot\":{\"crowdstrike_endpoint_count\":42,\"jira_open_tickets\":7,\"meraki_network_health\":\"DEGRADED\",\"proofpoint_quarantined_emails\":3,\"zscaler_status\":\"OK\"},\"rule_written\":{\"action_directive\":\"Send Alert to Jira\",\"condition_fact_type\":\"SecurityTriage\",\"condition_keyword\":\"Crowdstrike\",\"id\":\"rule_crowdstrike_7\"},\"task_input\":\"x\"}"
    );
}

#[test]
fn fact_content_without_rule_escapes_input() {
    let o = decide_triage("say \"hi\"", policy_with_count(300), None);
    let content = o.fact_content();
    assert!(!content.contains("rule_written"));
    assert!(content.ends_with(",\"task_input\":\"say \\\"hi\\\"\"}"));
    let parsed: serde_json::Value = serde_json::from_str(&content).unwrap();
    assert_eq!(parsed["policy_snapshot"]["crowdstrike_endpoint_count"], 300);
}

#[test]
fn high_severity_scenario_on_empty_store() {
    let db = temp_db();
    let mut agent = CybersecurityAgent::new(db.clone());
    let report = agent.run("HIGH_SEVERITY_ALERT: Source=X, User=Y", 1);
    assert!(report.summary.contains(&format!("directive={}", HIGH)));
    assert_eq!(rule_count(&db), 1);
    let (key, value) = db.open_tree("rules").unwrap().iter().next().unwrap().unwrap();
    let id = String::from_utf8(key.to_vec()).unwrap();
    assert!(id.starts_with("rule_crowdstrike_"));
    assert!(report.summary.ends_with(&format!("rule_written={}", id)));
    let rule: serde_json::Value = serde_json::from_slice(&value).unwrap();
    assert_eq!(rule["condition_keyword"], "Crowdstrike");
    assert_eq!(rule["action_directive"], "Send Alert to Jira");
    assert_eq!(rule["id"], id.as_str());
}

#[test]
fn routine_scenario_on_empty_store() {
    let db = temp_db();
    let mut agent = CybersecurityAgent::new(db.clone());
    let report = agent.run("routine check", 1);
    assert!(report.summary.contains("directive=ORCHESTRATE_RESPONSE: monitor;"));
    assert!(report.summary.contains("rule_written=rule_crowdstrike_"));
    assert_eq!(rule_count(&db), 1);
}

#[test]
fn no_rule_when_endpoint_count_high() {
    let db = temp_db();
    let tree = db.open_tree("security_policy_tree").unwrap();
    tree.insert(b"current", encode_policy(&policy_with_count(100)).into_bytes()).unwrap();
    let mut agent = CybersecurityAgent::new(db.clone());
    let report = agent.run("routine check", 1);
    assert!(report.summary.ends_with("rule_written=none"));
    assert_eq!(rule_count(&db), 0);
}

#[test]
fn one_new_rule_per_triage_with_distinct_ids() {
    let db = temp_db();
    let mut agent = CybersecurityAgent::new(db.clone());
    let mut ids: Vec<String> = Vec::new();
    for n in 0..5usize {
        let o = agent.triage("routine check");
        ids.push(o.rule_written.unwrap().id);
        assert_eq!(rule_count(&db), n + 1);
    }
    for i in 0..ids.len() {
        for j in (i + 1)..ids.len() {
            assert_ne!(ids[i], ids[j]);
        }
    }
}

#[test]
fn unavailable_store_degrades_to_default_and_fallback() {
    let mut kb = KnowledgeBase::new(temp_db());
    let p = load_policy_from_partition(&mut kb, Err(StoreError::StoreUnavailable));
    assert_eq!(p.zscaler_status, "OK");
    assert_eq!(p.crowdstrike_endpoint_count, 42);
    assert_eq!(p.proofpoint_quarantined_emails, 3);
    assert_eq!(p.jira_open_tickets, 7);
    assert_eq!(p.meraki_network_health, "DEGRADED");
    let o = decide_triage("HIGH_SEVERITY_ALERT", p, None);
    assert_eq!(
        o.summary(),
        format!("Cybersecurity triage complete. directive={}; rule_written=rule_crowdstrike_fallback", HIGH)
    );
}

#[test]
fn triage_under_default_snapshot_still_reports_rule() {
    let db = temp_db();
    let mut agent = CybersecurityAgent::new(db.clone());
    let o = agent.triage_with_policy("routine check", default_policy());
    let id = o.rule_written.as_ref().unwrap().id.clone();
    assert!(id.starts_with("rule_crowdstrike_"));
    assert_eq!(
        o.summary(),
        format!("Cybersecurity triage complete. directive={}; rule_written={}", MONITOR, id)
    );
    assert!(db.open_tree("security_policy_tree").unwrap().is_empty());
}

#[test]
fn resolve_failed_read_gives_default_and_seed() {
    let (p, seed) = resolve_policy(Err(StoreError::StoreUnavailable));
    assert_eq!(p.crowdstrike_endpoint_count, 42);
    assert_eq!(seed.unwrap(), DEFAULT_JSON);
}

#[test]
fn store_rule_writes_rules_partition_only() {
    let db = temp_db();
    let mut agent = CybersecurityAgent::new(db.clone());
    let rule = decide_triage("x", default_policy(), Some(5)).rule_written.unwrap();
    assert_eq!(agent.store_rule(&rule), Ok(()));
    let rules = db.open_tree("rules").unwrap();
    assert_eq!(rules.len(), 1);
    assert_eq!(rules.get(b"rule_crowdstrike_5").unwrap().unwrap().as_ref(), rule.to_json().as_bytes());
    assert!(db.open_tree("security_policy_tree").unwrap().is_empty());
}

#[test]
fn write_entry_and_seed_land_under_their_keys() {
    let db = temp_db();
    let mut kb = KnowledgeBase::new(db.clone());
    assert_eq!(write_entry(&mut kb, "rules", b"k", b"v"), Ok(()));
    assert_eq!(db.open_tree("rules").unwrap().get(b"k").unwrap().unwrap().as_ref(), b"v");
    let opened = open_partition(&kb, "security_policy_tree");
    let p = load_policy_from_partition(&mut kb, opened);
    assert_eq!(p.crowdstrike_endpoint_count, 42);
    let tree = db.open_tree("security_policy_tree").unwrap();
    assert_eq!(tree.len(), 1);
    assert_eq!(tree.get(b"current").unwrap().unwrap().as_ref(), DEFAULT_JSON.as_bytes());
}
