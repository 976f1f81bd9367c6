use memory_ledger::adapters::model::{
    chat_completions_endpoint, decision_messages, extract_action, extract_json_object,
    extract_message_content, http_status_error, self_revision_messages,
    self_revision_proposal_json, strip_code_fence, MockModel, DECISION_SYSTEM_PROMPT,
};
use memory_ledger::application::daemon::{should_start_daemon, DaemonConfig, DaemonHandle};
use memory_ledger::application::decide_with_snapshot::ModelDecisionRequest;
use memory_ledger::demo::{
    bullets, classify_response, demo_config, find_header_end, http_body, parse_content_length,
    parse_demo_args, parse_port, parse_unsigned, render_report, DemoFindings, IntParseError,
    DEMO_PROPOSAL_JSON,
};
use memory_ledger::domain::self_revision::{SelfRevisionRequest, TriggerType};
use memory_ledger::domain::snapshot::SelfSnapshot;
use memory_ledger::domain::types::Namespace;

fn s(text: &str) -> String {
    text.to_string()
}

fn snapshot(claims: Vec<String>) -> SelfSnapshot {
    SelfSnapshot {
        identity: Vec::new(),
        commitments: Vec::new(),
        claims,
        evidence: Vec::new(),
        episodes: Vec::new(),
    }
}

#[test]
fn mock_model_asks_for_context_without_claims() {
    let model = MockModel;
    let empty = ModelDecisionRequest::new(s("t"), s("a"), snapshot(Vec::new()));
    assert_eq!(model.decide(&empty).unwrap().action, "request_more_context");
    let full = ModelDecisionRequest::new(s("t"), s("a"), snapshot(vec![s("claim:x=y")]));
    assert_eq!(model.decide(&full).unwrap().action, "summarize_memory_state");
}

#[test]
fn mock_model_never_proposes_a_revision() {
    let request = SelfRevisionRequest::new(
        TriggerType::Conflict,
        Namespace::self_(),
        snapshot(Vec::new()),
        Vec::new(),
        Vec::new(),
    );
    let proposal = MockModel.propose_self_revision(&request).unwrap();
    assert!(!proposal.should_reflect);
    assert_eq!(proposal.rationale, "mock model did not detect a valid Conflict revision");
}

#[test]
fn endpoint_drops_trailing_slashes() {
    assert_eq!(chat_completions_endpoint("http://x/v1//"), "http://x/v1/chat/completions");
    assert_eq!(chat_completions_endpoint("http://x"), "http://x/chat/completions");
}

#[test]
fn prompts_carry_the_request() {
    let messages = decision_messages("plan", "act", "{}");
    assert_eq!(messages[0].role, "system");
    assert_eq!(messages[0].content, DECISION_SYSTEM_PROMPT);
    assert_eq!(messages[1].content, "Task: plan\nAction: act\nSnapshot:\n{}");
    let revision = self_revision_messages("{\"a\":1}");
    assert_eq!(revision[1].content, "Self revision request:\n{\"a\":1}");
}

#[test]
fn reply_content_is_the_first_present_content_trimmed() {
    let contents = vec![None, Some(s("  go  ")), Some(s("other"))];
    assert_eq!(extract_message_content(&contents, "empty").unwrap(), "go");
    let blank = vec![Some(s("   ")), Some(s("later"))];
    assert_eq!(extract_message_content(&blank, "empty").unwrap_err().message(), "empty");
    assert_eq!(
        extract_action(&[]).unwrap_err().message(),
        "openai-compatible response contained an empty model action"
    );
}

#[test]
fn json_object_is_found_in_plain_fenced_and_wrapped_replies() {
    assert_eq!(extract_json_object(" {\"a\":1} "), Some(s("{\"a\":1}")));
    assert_eq!(extract_json_object("```json\n{\"a\":1}\n```"), Some(s("{\"a\":1}")));
    assert_eq!(extract_json_object("Here: {\"a\":1} done"), Some(s("{\"a\":1}")));
    assert_eq!(extract_json_object("no object"), None);
    assert_eq!(extract_json_object("} {"), None);
    let fence: Vec<char> = "```\nbody\n```".chars().collect();
    assert_eq!(strip_code_fence(&fence).unwrap().iter().collect::<String>(), "body");
    let unfenced: Vec<char> = "body".chars().collect();
    assert!(strip_code_fence(&unfenced).is_none());
}

#[test]
fn proposal_json_errors() {
    assert_eq!(
        self_revision_proposal_json(&[Some(s("nothing here"))]).unwrap_err().message(),
        "openai-compatible self-revision proposal did not contain a JSON object"
    );
    assert_eq!(
        self_revision_proposal_json(&[None]).unwrap_err().message(),
        "openai-compatible response contained an empty self-revision proposal"
    );
    assert_eq!(self_revision_proposal_json(&[Some(s("{}"))]).unwrap(), "{}");
    assert_eq!(
        http_status_error(500, "boom").message(),
        "openai-compatible request failed with status 500: boom"
    );
}

#[test]
fn daemon_reports_observe_only() {
    let on = DaemonHandle::from_config(&DaemonConfig { enabled: true, poll_interval_ms: 250 });
    assert_eq!(on.mode(), "observe_only");
    assert!(on.config_enabled());
    assert_eq!(on.poll_interval_ms(), 250);
    assert!(!on.writes_allowed());
    assert!(!on.remote_listener_enabled());
    let off = DaemonHandle::from_config(&DaemonConfig { enabled: false, poll_interval_ms: 1 });
    assert_eq!(off.mode(), "disabled");
    assert!(!should_start_daemon(&DaemonConfig { enabled: false, poll_interval_ms: 1 }));
}

#[test]
fn stub_answers_decisions_and_proposals() {
    let decision_system = "Return only the next action name as plain text with no explanation.";
    assert_eq!(classify_response(decision_system, "Task: x"), "apply_commitment_update_now");
    assert_eq!(
        classify_response(
            decision_system,
            "Task: x prefer:confirm_conflicting_commitment_updates_before_overwrite"
        ),
        "confirm_conflicting_commitment_updates_before_overwrite"
    );
    let proposal = classify_response(
        "Return only a JSON self-revision proposal with ...",
        "Self revision request:\n{}",
    );
    assert_eq!(proposal, DEMO_PROPOSAL_JSON);
    let value: serde_json::Value = serde_json::from_str(&proposal).unwrap();
    assert_eq!(value["confidence"], "high");
    assert_eq!(value["proposed_evidence_query"]["limit"], 1);
    assert_eq!(classify_response("", ""), "unsupported_demo_request");
}

#[test]
fn unsigned_parsing_matches_rust() {
    assert_eq!(parse_unsigned("42", 100), Ok(42));
    assert_eq!(parse_unsigned("+7", 100), Ok(7));
    assert_eq!(parse_unsigned("", 100), Err(IntParseError::Empty));
    assert_eq!(parse_unsigned("+", 100), Err(IntParseError::InvalidDigit));
    assert_eq!(parse_unsigned("-1", 100), Err(IntParseError::InvalidDigit));
    assert_eq!(parse_unsigned("101", 100), Err(IntParseError::PosOverflow));
    assert_eq!(parse_unsigned("65535", u16::MAX as u64), Ok(65535));
    assert_eq!(IntParseError::PosOverflow.message(), "number too large to fit in target type");
}

#[test]
fn content_length_header_is_found_case_insensitively() {
    let headers = "POST / HTTP/1.1\r\nHost: x\r\nContent-Length: 12\r\n";
    assert_eq!(parse_content_length(headers), Some(12));
    assert_eq!(parse_content_length("content-length: abc\ncontent-length: 3"), Some(3));
    assert_eq!(parse_content_length("Host: x"), None);
}

#[test]
fn header_end_and_body() {
    assert_eq!(find_header_end(b"GET /\r\nA: b\r\n\r\nbody"), Some(11));
    assert_eq!(find_header_end(b"GET /\r\n"), None);
    assert_eq!(http_body("POST /\r\n\r\n{\"a\":1}"), Some(s("{\"a\":1}")));
    assert_eq!(http_body("POST /\r\n\r\nx\r\n\r\ny"), Some(s("x")));
    assert_eq!(http_body("POST /"), None);
}

#[test]
fn stub_port_argument() {
    assert_eq!(parse_port(&[]), Ok(0));
    assert_eq!(parse_port(&[s("--port"), s("8080")]), Ok(8080));
    assert_eq!(parse_port(&[s("--port"), s("x")]), Err(s("invalid digit found in string")));
    assert_eq!(
        parse_port(&[s("--host")]),
        Err(s("usage: demo_openai_compatible_stub [--port <port>]"))
    );
}

#[test]
fn demo_arguments_and_config() {
    let args = parse_demo_args(&[s("--output-dir"), s("out"), s("--server-bin"), s("srv")]).unwrap();
    assert_eq!(args.output_dir, Some(s("out")));
    assert_eq!(args.server_bin, Some(s("srv")));
    assert_eq!(parse_demo_args(&[s("--verbose")]).unwrap_err(), "unknown argument: --verbose");
    let trailing = parse_demo_args(&[s("--output-dir")]).unwrap();
    assert_eq!(trailing.output_dir, None);
    let config = demo_config("sqlite://d.db", "http://127.0.0.1:9");
    assert!(config.starts_with("transport = \"stdio\"\ndatabase_url = \"sqlite://d.db\"\n"));
    assert!(config.contains("base_url = \"http://127.0.0.1:9\"\n"));
}

#[test]
fn demo_report_text() {
    assert_eq!(bullets(&[s("a"), s("b")]), "- `a`\n- `b`");
    let findings = DemoFindings {
        transport: s("stdio"),
        provider: s("openai-compatible"),
        self_revision_write_path: s("run_reflection"),
        status: s("ok"),
        runtime_hooks: vec![s("h1")],
        gate_before_blocked: true,
        handled_conflicts_before_hints: 0,
        handled_conflicts_after_hints: 1,
        commitments: vec![s("c1"), s("c2")],
    };
    let expected = "# Self-Revision Demo Report\n\n## Environment\n\n- transport: `stdio`\n- provider: `openai-compatible`\n- durable write path: `run_reflection`\n- status: `ok`\n\n## Runtime Hooks\n\n- `h1`\n\n## Timeline\n\n- gate before update blocked: `true`\n- handled conflict rows before explicit hints: `0`\n- handled conflict rows after explicit hints: `1`\n\n## Current Commitments\n\n- `c1`\n- `c2`\n";
    assert_eq!(render_report(&findings), expected);
}
