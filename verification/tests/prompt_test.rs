use langfuse::cache::{CacheEntry, PromptCache, TtlCache};
use langfuse::error::LangfuseError;
use langfuse::prompt_fetch::{
    chat_prompt_from_response, fetch_status_error, text_prompt_from_response, PromptApiResponse,
    PromptPayload,
};
use langfuse::prompts::{cache_key, invalidation_prefix_of, ChatPromptClient, Prompt, TextPromptClient};
use langfuse::template::{compile_template, TemplateVariables};
use langfuse::types::{ChatMessage, PromptType};

fn vars(pairs: &[(&str, &str)]) -> TemplateVariables {
    let mut v = TemplateVariables::new();
    for (k, val) in pairs {
        v.insert(k.to_string(), val.to_string());
    }
    v
}

fn text_answer(name: &str, version: i32, template: &str) -> PromptApiResponse {
    PromptApiResponse {
        name: name.to_string(),
        version,
        prompt: PromptPayload::Text(template.to_string()),
        config: serde_json::Value::Null,
        labels: vec!["production".to_string()],
        tags: vec![],
        prompt_type: PromptType::Text,
    }
}

fn msg(role: &str, content: &str) -> ChatMessage {
    ChatMessage { role: role.to_string(), content: content.to_string() }
}

#[test]
fn compile_replaces_each_placeholder() {
    let out = compile_template("Hello {{name}}, welcome to {{ place }}!", &vars(&[("name", "Ada"), ("place", "Paris")]));
    assert_eq!(out.unwrap(), "Hello Ada, welcome to Paris!");
}

#[test]
fn compile_without_placeholders_is_identity() {
    assert_eq!(compile_template("plain } text {", &vars(&[])).unwrap(), "plain } text {");
}

#[test]
fn compile_missing_variable_is_named() {
    match compile_template("Hi {{ who }}", &vars(&[])) {
        Err(LangfuseError::PromptCompilation { variable }) => assert_eq!(variable, "who"),
        other => panic!("unexpected {other:?}"),
    }
}

#[test]
fn compile_unclosed_placeholder() {
    match compile_template("Hi {{who", &vars(&[("who", "x")])) {
        Err(LangfuseError::PromptCompilation { variable }) => assert_eq!(variable, "unclosed {{"),
        other => panic!("unexpected {other:?}"),
    }
}

#[test]
fn compile_does_not_rescan_substituted_values() {
    let out = compile_template("{{a}}{{b}}", &vars(&[("a", "{{b}}"), ("b", "2")]));
    assert_eq!(out.unwrap(), "{{b}}2");
}

#[test]
fn text_prompt_compile() {
    let p = TextPromptClient {
        name: "greet".to_string(),
        version: 1,
        template: "Hi {{x}}".to_string(),
        config: serde_json::Value::Null,
        labels: vec![],
        tags: vec![],
        is_fallback: false,
    };
    assert_eq!(p.compile(&vars(&[("x", "there")])).unwrap(), "Hi there");
}

#[test]
fn chat_prompt_compile_keeps_roles() {
    let p = ChatPromptClient {
        name: "chat".to_string(),
        version: 2,
        messages: vec![msg("system", "You are {{role}}."), msg("user", "Say {{word}}")],
        config: serde_json::Value::Null,
        labels: vec![],
        tags: vec![],
        is_fallback: false,
    };
    let out = p.compile(&vars(&[("role", "terse"), ("word", "hi")])).unwrap();
    assert_eq!(out.len(), 2);
    assert_eq!(out[0].role, "system");
    assert_eq!(out[0].content, "You are terse.");
    assert_eq!(out[1].role, "user");
    assert_eq!(out[1].content, "Say hi");
    assert!(p.compile(&vars(&[("role", "terse")])).is_err());
}

#[test]
fn cache_keys() {
    assert_eq!(cache_key("greet", Some(3), Some("prod")), "greet:3");
    assert_eq!(cache_key("greet", Some(-1), None), "greet:-1");
    assert_eq!(cache_key("greet", None, Some("prod")), "greet:prod");
    assert_eq!(cache_key("greet", None, None), "greet:latest");
    assert_eq!(invalidation_prefix_of("greet"), "greet:");
}

#[test]
fn fetch_statuses() {
    let body = "oops".to_string();
    assert!(fetch_status_error(200, &body, "p").is_none());
    match fetch_status_error(404, &body, "p") {
        Some(LangfuseError::PromptNotFound { name }) => assert_eq!(name, "p"),
        other => panic!("unexpected {other:?}"),
    }
    assert!(matches!(fetch_status_error(401, &body, "p"), Some(LangfuseError::Auth)));
    match fetch_status_error(503, &body, "p") {
        Some(LangfuseError::Api { status, message }) => {
            assert_eq!(status, 503);
            assert_eq!(message, "oops");
        }
        other => panic!("unexpected {other:?}"),
    }
}

#[test]
fn answers_become_prompts_only_when_they_fit_their_type() {
    let p = text_prompt_from_response(text_answer("greet", 4, "Hi {{x}}"), "greet").unwrap();
    assert_eq!(p.name, "greet");
    assert_eq!(p.version, 4);
    assert_eq!(p.template, "Hi {{x}}");
    assert_eq!(p.labels, vec!["production".to_string()]);
    assert!(!p.is_fallback);

    let mut wrong = text_answer("greet", 4, "Hi");
    wrong.prompt_type = PromptType::Chat;
    assert!(matches!(text_prompt_from_response(wrong, "greet"), Err(LangfuseError::PromptNotFound { .. })));

    let chat = PromptApiResponse {
        name: "c".to_string(),
        version: 1,
        prompt: PromptPayload::Messages(vec![msg("user", "hi")]),
        config: serde_json::Value::Null,
        labels: vec![],
        tags: vec!["t".to_string()],
        prompt_type: PromptType::Chat,
    };
    let c = chat_prompt_from_response(chat, "c").unwrap();
    assert_eq!(c.messages.len(), 1);
    assert_eq!(c.tags, vec!["t".to_string()]);

    let mut not_messages = text_answer("c", 1, "text");
    not_messages.prompt_type = PromptType::Chat;
    assert!(chat_prompt_from_response(not_messages, "c").is_err());
}

#[test]
fn a_fetched_prompt_is_cached_and_served_fresh() {
    let mut cache = PromptCache::new(60);
    let key = cache_key("greet", None, None);
    assert!(cache.get_text(&key).is_none());
    let p = cache.settle_text(&key, "greet", Ok(text_answer("greet", 1, "Hello"))).unwrap();
    assert_eq!(p.template, "Hello");
    let cached = cache.get_text(&key).expect("cached");
    assert_eq!(cached.template, "Hello");
    assert!(!cached.is_fallback);
}

#[test]
fn a_failed_fetch_falls_back_to_the_cached_prompt() {
    let mut cache = PromptCache::new(0);
    let key = cache_key("greet", Some(1), None);
    cache.settle_text(&key, "greet", Ok(text_answer("greet", 1, "Hello"))).unwrap();
    // A time-to-live of zero: the entry is expired at once.
    let p = cache
        .settle_text(&key, "greet", Err(LangfuseError::Network("down".to_string())))
        .unwrap();
    assert!(p.is_fallback);
    assert_eq!(p.template, "Hello");
    assert!(cache.get_text(&key).is_none());
    assert!(cache.get_text_expired(&key).is_none());
}

#[test]
fn an_expired_prompt_is_served_when_the_request_fails() {
    // A time-to-live of zero: every entry is expired as soon as it is stored.
    let mut cache = PromptCache::new(0);
    let key = cache_key("greeting", None, None);
    cache.settle_text(&key, "greeting", Ok(text_answer("greeting", 2, "Hi {{name}}"))).unwrap();
    // The lookup before the request misses but keeps the expired entry.
    assert!(cache.fresh_text(&key).is_none());
    assert!(cache.get_text_expired(&key).is_some());
    let p = cache
        .settle_text(&key, "greeting", Err(LangfuseError::Network("unreachable".to_string())))
        .unwrap();
    assert!(p.is_fallback);
    assert_eq!(p.template, "Hi {{name}}");
    assert_eq!(p.version, 2);

    let chat = PromptApiResponse {
        name: "c".to_string(),
        version: 1,
        prompt: PromptPayload::Messages(vec![msg("user", "hi")]),
        config: serde_json::Value::Null,
        labels: vec![],
        tags: vec![],
        prompt_type: PromptType::Chat,
    };
    cache.settle_chat("c:latest", "c", Ok(chat)).unwrap();
    assert!(cache.fresh_chat("c:latest").is_none());
    assert!(cache.lookup_prompt("c:latest").is_none());
    let c = cache.settle_chat("c:latest", "c", Err(LangfuseError::Auth)).unwrap();
    assert!(c.is_fallback);
    assert_eq!(c.messages[0].content, "hi");
    match cache.settle_prompt("c:latest", "c", Err(LangfuseError::Auth)) {
        Ok(Prompt::Chat(c)) => assert!(c.is_fallback),
        other => panic!("unexpected {other:?}"),
    }
}

#[test]
fn a_failed_fetch_without_cache_reports_the_error() {
    let mut cache = PromptCache::new(60);
    match cache.settle_text("k", "greet", Err(LangfuseError::Auth)) {
        Err(LangfuseError::Auth) => {}
        other => panic!("unexpected {other:?}"),
    }
    match cache.settle_chat("k", "greet", Err(LangfuseError::Auth)) {
        Err(LangfuseError::Auth) => {}
        other => panic!("unexpected {other:?}"),
    }
}

#[test]
fn unified_lookup_prefers_text_and_falls_back_to_chat() {
    let mut cache = PromptCache::new(0);
    let chat = PromptApiResponse {
        name: "c".to_string(),
        version: 1,
        prompt: PromptPayload::Messages(vec![msg("user", "hi")]),
        config: serde_json::Value::Null,
        labels: vec![],
        tags: vec![],
        prompt_type: PromptType::Chat,
    };
    match cache.settle_prompt("c:latest", "c", Ok(chat)) {
        Ok(Prompt::Chat(c)) => assert_eq!(c.name, "c"),
        other => panic!("unexpected {other:?}"),
    }
    match cache.settle_prompt("c:latest", "c", Err(LangfuseError::Network("x".to_string()))) {
        Ok(Prompt::Chat(c)) => assert!(c.is_fallback),
        other => panic!("unexpected {other:?}"),
    }
    // An answer that does not fit its type is a failure too.
    let mut bad = text_answer("c", 1, "x");
    bad.prompt = PromptPayload::Other;
    match cache.settle_prompt("c:latest", "c", Ok(bad)) {
        Ok(prompt) => assert!(prompt.is_fallback()),
        other => panic!("unexpected {other:?}"),
    }
    let empty = PromptCache::new(60);
    assert!(empty.lookup_prompt("c:latest").is_none());
}

#[test]
fn creating_a_prompt_drops_its_cached_entries_only() {
    let mut cache = PromptCache::new(60);
    cache.settle_text("greet:latest", "greet", Ok(text_answer("greet", 1, "a"))).unwrap();
    cache.settle_text("greet:3", "greet", Ok(text_answer("greet", 3, "b"))).unwrap();
    cache.settle_text("greeting:latest", "greeting", Ok(text_answer("greeting", 1, "c"))).unwrap();
    let mut answer = text_answer("greet", 4, "new");
    answer.prompt = PromptPayload::Other;
    let created = cache.created_text_prompt("greet", "sent template", answer);
    assert_eq!(created.template, "sent template");
    assert_eq!(created.version, 4);
    assert!(cache.get_text_expired("greet:latest").is_none());
    assert!(cache.get_text_expired("greet:3").is_none());
    assert!(cache.get_text_expired("greeting:latest").is_some());

    let chat_answer = PromptApiResponse {
        name: "greeting".to_string(),
        version: 2,
        prompt: PromptPayload::Other,
        config: serde_json::Value::Null,
        labels: vec![],
        tags: vec![],
        prompt_type: PromptType::Chat,
    };
    let created = cache.created_chat_prompt("greeting", &vec![msg("user", "sent")], chat_answer);
    assert_eq!(created.messages[0].content, "sent");
    assert!(cache.get_text_expired("greeting:latest").is_none());
}

#[test]
fn ttl_cache_expiry_by_explicit_time() {
    let mut cache: TtlCache<u32> = TtlCache::new();
    cache.put_at("k".to_string(), 7, 1_000, 500);
    assert_eq!(cache.get_at("k", 1_499).copied(), Some(7));
    assert_eq!(cache.get_at("k", 1_500).copied(), None);
    assert!(cache.get_any("k").is_none());
    let entry = CacheEntry { value: 1u8, inserted_at: 10, ttl: 5 };
    assert!(!entry.is_expired(14));
    assert!(entry.is_expired(15));
    assert!(!entry.is_expired(3));
}

#[test]
fn clearing_the_prompt_cache() {
    let mut cache = PromptCache::new(60);
    cache.settle_text("a:latest", "a", Ok(text_answer("a", 1, "x"))).unwrap();
    cache.clear();
    assert!(cache.get_text_expired("a:latest").is_none());
}

#[test]
fn a_copied_prompt_keeps_its_configuration() {
    let config: serde_json::Value = serde_json::from_str("{\"temperature\": 0.5, \"model\": \"m\"}").unwrap();
    let p = TextPromptClient {
        name: "n".to_string(),
        version: 7,
        template: "t".to_string(),
        config: config.clone(),
        labels: vec!["a".to_string()],
        tags: vec!["b".to_string()],
        is_fallback: true,
    };
    let q = p.duplicate();
    assert_eq!(q.config, config);
    assert_eq!(q.name, "n");
    assert_eq!(q.version, 7);
    assert_eq!(q.labels, vec!["a".to_string()]);
    assert_eq!(q.tags, vec!["b".to_string()]);
    assert!(q.is_fallback);
}

#[test]
fn peeking_leaves_an_expired_entry_in_place() {
    let mut cache: TtlCache<u32> = TtlCache::new();
    cache.put_at("k".to_string(), 7, 100, 50);
    assert_eq!(cache.peek_at("k", 120), Some(&7));
    assert_eq!(cache.peek_at("k", 150), None);
    assert_eq!(cache.get_any("k"), Some(&7));
    assert_eq!(cache.get_at("k", 150), None);
    assert_eq!(cache.get_any("k"), None);
}
