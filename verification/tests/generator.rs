use autocommit::json::escape_json;
use autocommit::json::request_payload;
use autocommit::message::fallback_message;
use autocommit::message::message_from_extracted;
use autocommit::message::message_from_response;
use autocommit::message::noop_message;
use autocommit::message::plan_message;
use autocommit::message::prompt_for;
use autocommit::message::request_url;
use autocommit::message::MessagePlan;

const URL_PREFIX: &str =
    "https://generativelanguage.googleapis.com/v1beta/models/gemini-1.5-flash:generateContent?key=";

#[test]
fn missing_credential_plans_fallback() {
    let plan = plan_message(&None, "diff --git a/x b/x\n+new line\n");
    assert!(matches!(plan, MessagePlan::UseFallback));
}

#[test]
fn missing_credential_message_is_deterministic_fallback() {
    assert_eq!(fallback_message(), "Updated files");
    assert_eq!(fallback_message(), fallback_message());
}

#[test]
fn empty_diff_plans_noop_and_no_call() {
    let plan = plan_message(&Some("key".to_string()), "");
    assert!(matches!(plan, MessagePlan::UseNoop));
    assert!(!matches!(plan, MessagePlan::CallApi { .. }));
    assert_eq!(noop_message(), "Minor updates");
}

#[test]
fn nonempty_diff_plans_one_call() {
    let plan = plan_message(&Some("secret".to_string()), "+added\n");
    match plan {
        MessagePlan::CallApi { url, body } => {
            assert_eq!(url, format!("{}secret", URL_PREFIX));
            assert_eq!(
                body,
                "{\"contents\":[{\"parts\":[{\"text\":\"Generate a clear, concise Git \
                 commit message for the following changes:\\n\\n+added\\n\"}]}]}"
            );
        }
        other => panic!("expected a call, got {:?}", fmt_plan(&other)),
    }
}

fn fmt_plan(plan: &MessagePlan) -> &'static str {
    match plan {
        MessagePlan::UseFallback => "UseFallback",
        MessagePlan::UseNoop => "UseNoop",
        MessagePlan::CallApi { .. } => "CallApi",
    }
}

#[test]
fn prompt_embeds_whole_diff() {
    let prompt = prompt_for("line one\nline two");
    assert_eq!(
        prompt,
        "Generate a clear, concise Git commit message for the following changes:\n\nline one\nline two"
    );
}

#[test]
fn url_carries_credential_as_query_value() {
    assert_eq!(request_url("abc123"), format!("{}abc123", URL_PREFIX));
}

#[test]
fn escaping_covers_quotes_backslashes_and_controls() {
    assert_eq!(escape_json("plain"), "plain");
    assert_eq!(escape_json("a\"b"), "a\\\"b");
    assert_eq!(escape_json("a\\b"), "a\\\\b");
    assert_eq!(escape_json("a\nb\tc\rd"), "a\\nb\\tc\\rd");
    assert_eq!(escape_json("\u{1}\u{1f}"), "\\u0001\\u001f");
    assert_eq!(escape_json("caf\u{e9}"), "caf\u{e9}");
}

#[test]
fn payload_is_valid_json_holding_the_prompt() {
    let payload = request_payload("say \"hi\"\n");
    assert_eq!(
        payload,
        "{\"contents\":[{\"parts\":[{\"text\":\"say \\\"hi\\\"\\n\"}]}]}"
    );
    let parsed: serde_json::Value = serde_json::from_str(&payload).unwrap();
    assert_eq!(
        parsed["contents"][0]["parts"][0]["text"].as_str(),
        Some("say \"hi\"\n")
    );
}

#[test]
fn well_formed_response_returns_text_verbatim() {
    let body = "{\"candidates\":[{\"content\":{\"parts\":[{\"text\":\"Fix bug in parser\"}]}}]}";
    assert_eq!(message_from_response(true, body), "Fix bug in parser");
}

#[test]
fn response_missing_text_field_falls_back() {
    assert_eq!(message_from_response(true, "{}"), "Updated files");
    assert_eq!(
        message_from_response(true, "{\"candidates\":[]}"),
        "Updated files"
    );
    assert_eq!(
        message_from_response(true, "{\"candidates\":[{\"content\":{\"parts\":[]}}]}"),
        "Updated files"
    );
    assert_eq!(
        message_from_response(true, "{\"candidates\":[{\"content\":{\"parts\":[{\"text\":7}]}}]}"),
        "Updated files"
    );
}

#[test]
fn unparseable_response_falls_back() {
    assert_eq!(message_from_response(true, "not json at all"), "Updated files");
    assert_eq!(message_from_response(true, ""), "Updated files");
}

#[test]
fn non_success_status_falls_back_even_with_good_body() {
    let body = "{\"candidates\":[{\"content\":{\"parts\":[{\"text\":\"Fix bug in parser\"}]}}]}";
    assert_eq!(message_from_response(false, body), "Updated files");
}

#[test]
fn extracted_text_must_be_non_empty() {
    assert_eq!(message_from_extracted(true, Some(String::new())), "Updated files");
    assert_eq!(
        message_from_extracted(true, Some("Refactor".to_string())),
        "Refactor"
    );
    assert_eq!(message_from_extracted(true, None), "Updated files");
    assert_eq!(
        message_from_extracted(false, Some("Refactor".to_string())),
        "Updated files"
    );
}
