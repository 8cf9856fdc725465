use project_manager::commits::commit_event;
use project_manager::error::ErrorKind;
use project_manager::time::Timestamp;
use project_manager::timeline_ai::{
    build_request, generate_commit_summary, read_summary, CommitSummarizer, Provider,
    ProviderReply,
};

fn answer(body: &str) -> ProviderReply {
    ProviderReply::Answered { success: true, body: body.to_string() }
}

const CLOUD_BODY: &str =
    "{\"choices\":[{\"index\":0,\"message\":{\"role\":\"assistant\",\"content\":\"Added retry logic\"}}]}";

#[test]
fn first_provider_fails_and_second_answers() {
    let replies = vec![ProviderReply::Failed, answer(CLOUD_BODY)];
    assert_eq!(
        generate_commit_summary("summary", "diff", "key", &replies),
        Ok("Added retry logic".to_string())
    );
}

#[test]
fn both_providers_fail() {
    let replies = vec![ProviderReply::Failed, ProviderReply::Failed];
    let result = generate_commit_summary("summary", "diff", "key", &replies);
    assert_eq!(result, Err(ErrorKind::ProviderUnavailable));
    let event = commit_event(1, 2, Timestamp { secs: 3, nanos: 0 }, "0123456789abcdef", result);
    assert_eq!(event.description, Some("Commit summary unavailable".to_string()));
    assert_eq!(generate_commit_summary("s", "d", "k", &vec![]), Err(ErrorKind::ProviderUnavailable));
    assert_eq!(
        generate_commit_summary("s", "d", "k", &vec![ProviderReply::Failed]),
        Err(ErrorKind::ProviderUnavailable)
    );
}

#[test]
fn first_success_wins() {
    let replies = vec![answer("{\"response\":\"Local says hi\",\"done\":true}"), answer(CLOUD_BODY)];
    assert_eq!(
        generate_commit_summary("summary", "diff", "key", &replies),
        Ok("Local says hi".to_string())
    );
    let replies = vec![answer("{\"response\":\"\"}")];
    assert_eq!(generate_commit_summary("s", "d", "k", &replies), Ok(String::new()));
}

#[test]
fn answers_without_the_expected_field_are_passed_over() {
    for bad in [
        "",
        "not json",
        "{}",
        "{\"response\":5}",
        "{\"response\":null}",
        "{\"Response\":\"x\"}",
        "[\"response\"]",
        CLOUD_BODY,
    ] {
        let replies = vec![answer(bad), answer(CLOUD_BODY)];
        assert_eq!(
            generate_commit_summary("summary", "diff", "key", &replies),
            Ok("Added retry logic".to_string())
        );
    }
    for bad in [
        "{\"choices\":[]}",
        "{\"choices\":[{\"message\":{\"content\":7}}]}",
        "{\"choices\":{\"0\":{\"message\":{}}}}",
        "{\"response\":\"x\"}",
        "{\"error\":{\"message\":\"quota\"}}",
    ] {
        let replies = vec![ProviderReply::Failed, answer(bad)];
        assert_eq!(
            generate_commit_summary("summary", "diff", "key", &replies),
            Err(ErrorKind::ProviderUnavailable)
        );
    }
}

#[test]
fn answers_without_success_are_passed_over() {
    let refused = ProviderReply::Answered {
        success: false,
        body: "{\"response\":\"half an answer\"}".to_string(),
    };
    assert_eq!(read_summary(Provider::Local, &refused), None);
    let replies = vec![refused, answer(CLOUD_BODY)];
    assert_eq!(
        generate_commit_summary("summary", "diff", "key", &replies),
        Ok("Added retry logic".to_string())
    );
    let refused = ProviderReply::Answered { success: false, body: CLOUD_BODY.to_string() };
    assert_eq!(
        generate_commit_summary("s", "d", "k", &vec![ProviderReply::Failed, refused]),
        Err(ErrorKind::ProviderUnavailable)
    );
}

#[test]
fn summary_is_read_where_the_provider_puts_it() {
    assert_eq!(
        read_summary(Provider::Local, &answer("{\"response\":\"a \\\"b\\\"\\n\"}")),
        Some("a \"b\"\n".to_string())
    );
    assert_eq!(read_summary(Provider::Cloud, &answer(CLOUD_BODY)), Some("Added retry logic".to_string()));
    assert_eq!(read_summary(Provider::Local, &answer(CLOUD_BODY)), None);
    assert_eq!(read_summary(Provider::Cloud, &ProviderReply::Failed), None);
}

#[test]
fn requests_carry_the_prompt_to_each_provider() {
    let local = build_request(Provider::Local, "say \"hi\"\n", "secret");
    assert_eq!(local.url, "http://localhost:11434/api/generate");
    assert_eq!(local.bearer, None);
    assert_eq!(local.body, "{\"model\":\"llama3.1\",\"prompt\":\"say \\\"hi\\\"\\n\"}");
    let parsed: serde_json::Value = serde_json::from_str(&local.body).unwrap();
    assert_eq!(serde_json::to_string(&parsed).unwrap(), local.body);
    assert_eq!(parsed["prompt"].as_str(), Some("say \"hi\"\n"));
    let cloud = build_request(Provider::Cloud, "say \"hi\"\n", "secret");
    assert_eq!(cloud.url, "https://api.openai.com/v1/chat/completions");
    assert_eq!(cloud.bearer, Some("secret".to_string()));
    let parsed: serde_json::Value = serde_json::from_str(&cloud.body).unwrap();
    assert_eq!(serde_json::to_string(&parsed).unwrap(), cloud.body);
    assert_eq!(parsed["messages"][0]["content"].as_str(), Some("say \"hi\"\n"));
    assert_eq!(parsed["messages"][0]["role"].as_str(), Some("user"));
    assert_eq!(parsed["model"].as_str(), Some("gpt-4.1-nano"));
    assert_eq!(
        cloud.body,
        "{\"messages\":[{\"content\":\"say \\\"hi\\\"\\n\",\"role\":\"user\"}],\"model\":\"gpt-4.1-nano\"}"
    );
}

#[test]
fn a_run_asks_the_providers_in_order() {
    let mut run = CommitSummarizer::new("A project", "+line", "secret");
    let prompt = "Project summary: A project\nCommit diff: +line\nWrite a concise, human-readable summary of what was accomplished in this commit for a project timeline.";
    let first = run.pending().unwrap();
    assert_eq!(first, build_request(Provider::Local, prompt, "secret"));
    assert_eq!(run.pending(), Some(first));
    assert_eq!(run.accept(&ProviderReply::Failed), None);
    let second = run.pending().unwrap();
    assert_eq!(second, build_request(Provider::Cloud, prompt, "secret"));
    assert_eq!(run.accept(&answer(CLOUD_BODY)), Some(Ok("Added retry logic".to_string())));
    assert_eq!(run.pending(), None);
    assert_eq!(run.accept(&answer(CLOUD_BODY)), Some(Err(ErrorKind::ProviderUnavailable)));
}

#[test]
fn a_run_ends_when_the_first_provider_answers() {
    let mut run = CommitSummarizer::new("s", "d", "k");
    assert_eq!(run.accept(&answer("{\"response\":\"done\"}")), Some(Ok("done".to_string())));
    assert_eq!(run.pending(), None);
}

#[test]
fn a_run_ends_unavailable_after_the_last_provider() {
    let mut run = CommitSummarizer::new("s", "d", "k");
    assert_eq!(run.accept(&answer("{}")), None);
    assert_eq!(run.accept(&ProviderReply::Failed), Some(Err(ErrorKind::ProviderUnavailable)));
    assert_eq!(run.pending(), None);
    assert_eq!(run.accept(&answer(CLOUD_BODY)), Some(Err(ErrorKind::ProviderUnavailable)));
}
