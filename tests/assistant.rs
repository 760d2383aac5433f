use voice_assistant::config::{
    AssistantConfig, OpenAiConfig, ParamConfig, TimeRangeConfig, ToolConfig, TtsConfig,
    VoskConfig,
};
use voice_assistant::dialogue::{
    initial_history, Dialogue, DialogueAction, Message, Reply, ToolCall, MAX_TOOL_ROUNDS,
};
use voice_assistant::listener::{ListenAction, Listener, Mode};
use voice_assistant::text::{contains_text, find_text, replace_text, same_text};
use voice_assistant::tools::{
    arguments_of, tool_result, JsonDoc, JsonMember, ToolManager, ToolOutcome, ToolRequest,
};

fn s(x: &str) -> String {
    x.to_string()
}

fn assistant() -> AssistantConfig {
    AssistantConfig {
        wake_word: s("компьютер"),
        stop_words: AssistantConfig::default_stop_words(),
        system_prompt: s("prompt"),
    }
}

fn echo_tool() -> ToolConfig {
    ToolConfig {
        name: s("echo_tool"),
        description: s("echoes"),
        command: s("echo {{msg}}"),
        params: vec![(s("msg"), ParamConfig { param_type: s("string"), description: s("text") })],
        required_params: vec![s("msg")],
    }
}

fn manager() -> ToolManager {
    ToolManager::new(vec![echo_tool()])
}

fn run_command(r: ToolRequest) -> String {
    match r {
        ToolRequest::Run(c) => c,
        ToolRequest::NotFound(m) => panic!("not found: {}", m),
    }
}

fn finish_text(a: DialogueAction) -> String {
    match a {
        DialogueAction::Finish(t) => t,
        _ => panic!("dialogue did not finish"),
    }
}

fn call(id: &str, name: &str, args: &str) -> ToolCall {
    ToolCall { id: s(id), name: s(name), arguments: s(args) }
}

// ---- text ----

#[test]
fn find_text_counts_characters() {
    assert_eq!(find_text("привет мир", "мир"), Some(7));
    assert_eq!(find_text("abcabc", "ca"), Some(2));
    assert_eq!(find_text("abc", "x"), None);
    assert_eq!(find_text("ab", "abc"), None);
    assert_eq!(find_text("abc", ""), Some(0));
    assert!(contains_text("скажи стоп", "стоп"));
    assert!(!contains_text("", "стоп"));
}

#[test]
fn replace_text_is_left_to_right_and_non_overlapping() {
    assert_eq!(replace_text("aaa", "aa", "b"), "ba");
    assert_eq!(replace_text("x {{a}} {{a}}", "{{a}}", "1"), "x 1 1");
    assert_eq!(replace_text("", "{{a}}", "1"), "");
    assert!(same_text("мир", "мир"));
    assert!(!same_text("мир", "мира"));
}

// ---- config ----

#[test]
fn config_defaults() {
    assert_eq!(TtsConfig::default().model_path, "./ru_RU-irina-medium.onnx.json");
    assert_eq!(VoskConfig::default().model_path, "./vosk-model-small-ru-0.22");
    assert_eq!(OpenAiConfig::default().model, "gpt-4o-mini");
    let r = TimeRangeConfig::default();
    assert_eq!((r.start_hour, r.end_hour), (1, 18));
    assert_eq!(AssistantConfig::default_stop_words(), vec!["стоп", "спасибо", "хватит", "отмена"]);
    assert_eq!(
        AssistantConfig::default_system_prompt(),
        "Ты голосовой ассистент. Отвечай кратко на русском языке."
    );
    assert!(r.contains_hour(1));
    assert!(r.contains_hour(17));
    assert!(!r.contains_hour(18));
    assert!(!r.contains_hour(0));
}

// ---- tool dispatcher ----

#[test]
fn echo_tool_substitutes_argument() {
    let cmd = run_command(manager().call_tool("echo_tool", &vec![(s("msg"), s("hi"))]));
    assert_eq!(cmd, "echo hi");
    let out = ToolOutcome::Exited { success: true, status: s("exit status: 0"), stdout: s("hi\n"), stderr: s("") };
    assert_eq!(tool_result(&out), "hi");
}

#[test]
fn undefined_placeholder_stays_literal() {
    let mut t = echo_tool();
    t.command = s("echo {{x}} {{msg}}");
    let m = ToolManager::new(vec![t]);
    assert_eq!(run_command(m.call_tool("echo_tool", &vec![(s("msg"), s("hi"))])), "echo {{x}} hi");
}

#[test]
fn unknown_tool_is_not_run() {
    match manager().call_tool("nope", &vec![]) {
        ToolRequest::NotFound(m) => assert_eq!(m, "Инструмент «nope» не найден"),
        ToolRequest::Run(c) => panic!("ran {}", c),
    }
}

#[test]
fn json_arguments_are_parsed() {
    let m = manager();
    assert_eq!(run_command(m.call_tool_json("echo_tool", "{\"msg\": \"hi\"}")), "echo hi");
    assert_eq!(run_command(m.call_tool_json("echo_tool", "{\"msg\": 5}")), "echo 5");
    assert_eq!(run_command(m.call_tool_json("echo_tool", "not json")), "echo {{msg}}");
    assert_eq!(run_command(m.call_tool_json("echo_tool", "[1]")), "echo {{msg}}");
}

#[test]
fn tool_outcomes_become_text() {
    let ok_empty = ToolOutcome::Exited { success: true, status: s("exit status: 0"), stdout: s("  \n"), stderr: s("") };
    assert_eq!(tool_result(&ok_empty), "OK");
    let failed = ToolOutcome::Exited { success: false, status: s("exit status: 2"), stdout: s("out"), stderr: s(" bad \n") };
    assert_eq!(tool_result(&failed), "Ошибка (код exit status: 2): bad");
    let failed_quiet = ToolOutcome::Exited { success: false, status: s("exit status: 1"), stdout: s("out\n"), stderr: s("") };
    assert_eq!(tool_result(&failed_quiet), "Ошибка (код exit status: 1): out");
    assert_eq!(tool_result(&ToolOutcome::LaunchFailed(s("no sh"))), "Ошибка запуска: no sh");
}

#[test]
fn tool_schemas_follow_config() {
    let schemas = manager().tools();
    assert_eq!(schemas.len(), 1);
    assert_eq!(schemas[0].name, "echo_tool");
    assert_eq!(schemas[0].description, "echoes");
    assert_eq!(schemas[0].properties.len(), 1);
    assert_eq!(schemas[0].properties[0].0, "msg");
    assert_eq!(schemas[0].properties[0].1.param_type, "string");
    assert_eq!(schemas[0].required, vec!["msg"]);
}

// ---- dialogue ----

fn is_user(m: &Message, q: &str) -> bool {
    matches!(m, Message::User(t) if t == q)
}

fn is_assistant(m: &Message, q: &str) -> bool {
    matches!(m, Message::Assistant(t) if t == q)
}

#[test]
fn plain_reply_ends_dialogue() {
    let tools = manager();
    let mut h = initial_history("prompt");
    assert!(matches!(&h[0], Message::System(p) if p == "prompt"));
    let mut d = Dialogue::start(&mut h, "сколько времени");
    let t = finish_text(d.on_reply(&mut h, &tools, Reply::Answer { calls: vec![], text: s("полдень") }));
    assert_eq!(t, "полдень");
    assert_eq!(h.len(), 3);
    assert!(is_user(&h[1], "сколько времени"));
    assert!(is_assistant(&h[2], "полдень"));
}

#[test]
fn one_tool_round_then_text() {
    let tools = manager();
    let mut h = initial_history("prompt");
    let mut d = Dialogue::start(&mut h, "q");
    let a = d.on_reply(&mut h, &tools, Reply::Answer { calls: vec![call("c1", "echo_tool", "{\"msg\":\"hi\"}")], text: s("") });
    let cmd = match a {
        DialogueAction::Execute(r) => run_command(r),
        _ => panic!("expected a tool call"),
    };
    assert_eq!(cmd, "echo hi");
    assert!(matches!(d.on_tool_result(&mut h, &tools, s("hi")), DialogueAction::Request));
    let t = finish_text(d.on_reply(&mut h, &tools, Reply::Answer { calls: vec![], text: s("done") }));
    assert_eq!(t, "done");
    assert_eq!(h.len(), 5);
    assert!(matches!(&h[2], Message::ToolCalls(c) if c.len() == 1 && c[0].id == "c1"));
    assert!(matches!(&h[3], Message::ToolResult { call_id, content } if call_id == "c1" && content == "hi"));
    assert!(is_assistant(&h[4], "done"));
}

#[test]
fn two_calls_in_one_round_run_in_order() {
    let tools = manager();
    let mut h = initial_history("prompt");
    let mut d = Dialogue::start(&mut h, "q");
    let calls = vec![call("a", "echo_tool", "{\"msg\":\"1\"}"), call("b", "missing", "{}")];
    assert!(matches!(d.on_reply(&mut h, &tools, Reply::Answer { calls, text: s("") }), DialogueAction::Execute(ToolRequest::Run(_))));
    match d.on_tool_result(&mut h, &tools, s("1")) {
        DialogueAction::Execute(ToolRequest::NotFound(m)) => assert_eq!(m, "Инструмент «missing» не найден"),
        _ => panic!("expected the second call"),
    }
    assert!(matches!(d.on_tool_result(&mut h, &tools, s("x")), DialogueAction::Request));
    assert!(matches!(d.on_tool_result(&mut h, &tools, s("y")), DialogueAction::Request));
    assert_eq!(h.len(), 5);
}

#[test]
fn failures_become_the_reply() {
    let tools = manager();
    let mut h = initial_history("prompt");
    let mut d = Dialogue::start(&mut h, "q");
    assert_eq!(finish_text(d.on_reply(&mut h, &tools, Reply::TransportFailed(s("timeout")))), "Ошибка OpenAI: timeout");
    assert!(is_assistant(&h[2], "Ошибка OpenAI: timeout"));
    let mut d = Dialogue::start(&mut h, "q2");
    assert_eq!(finish_text(d.on_reply(&mut h, &tools, Reply::RequestFailed(s("bad")))), "Ошибка: bad");
    assert_eq!(h.len(), 5);
}

#[test]
fn tool_rounds_are_capped() {
    let tools = manager();
    let mut h = initial_history("prompt");
    let mut d = Dialogue::start(&mut h, "q");
    for _ in 0..MAX_TOOL_ROUNDS {
        let a = d.on_reply(&mut h, &tools, Reply::Answer { calls: vec![call("c", "echo_tool", "{}")], text: s("") });
        assert!(matches!(a, DialogueAction::Execute(_)));
        assert!(matches!(d.on_tool_result(&mut h, &tools, s("r")), DialogueAction::Request));
    }
    let a = d.on_reply(&mut h, &tools, Reply::Answer { calls: vec![call("c", "echo_tool", "{}")], text: s("") });
    assert_eq!(finish_text(a), "Ошибка: слишком много вызовов инструментов");
}

// ---- turn-taking ----

fn dispatched(a: ListenAction) -> String {
    match a {
        ListenAction::Dispatch(q) => q,
        _ => panic!("expected a dispatch"),
    }
}

fn listening(a: &AssistantConfig) -> Listener {
    let mut l = Listener::new(a);
    assert!(matches!(l.heard(a, "компьютер", false), ListenAction::Restart));
    l
}

#[test]
fn wake_word_in_final_result_seeds_buffer() {
    let a = assistant();
    let mut l = Listener::new(&a);
    assert!(matches!(l.heard(&a, "компьютер what time is it", true), ListenAction::Restart));
    assert_eq!(l.mode, Mode::ListeningQuery);
    assert_eq!(l.buffer, "what time is it");
    assert_eq!(l.silence, 0);
}

#[test]
fn wake_word_in_partial_result_starts_empty() {
    let a = assistant();
    let mut l = Listener::new(&a);
    assert!(matches!(l.heard(&a, "эй", false), ListenAction::Continue));
    assert_eq!(l.mode, Mode::Idle);
    assert!(matches!(l.heard(&a, "компьютер", false), ListenAction::Restart));
    assert_eq!(l.mode, Mode::ListeningQuery);
    assert_eq!(l.buffer, "");
    assert_eq!(l.history.len(), 1);
}

#[test]
fn final_fragments_are_space_joined() {
    let a = assistant();
    let mut l = listening(&a);
    assert!(matches!(l.heard(&a, "", true), ListenAction::Continue));
    assert!(matches!(l.heard(&a, "какая", true), ListenAction::Continue));
    assert!(matches!(l.heard(&a, "погода", false), ListenAction::Continue));
    assert!(matches!(l.heard(&a, "погода", true), ListenAction::Continue));
    assert!(matches!(l.heard(&a, "завтра", true), ListenAction::Continue));
    assert_eq!(l.buffer, "какая погода завтра");
}

#[test]
fn stop_word_aborts_listening() {
    let a = assistant();
    let mut l = listening(&a);
    l.heard(&a, "включи свет", true);
    assert!(matches!(l.heard(&a, "нет стоп", false), ListenAction::Restart));
    assert_eq!(l.mode, Mode::Idle);
    assert_eq!(l.buffer, "");
    assert_eq!(l.silence, 0);
}

#[test]
fn grace_period_dispatches_once() {
    let a = assistant();
    let mut l = listening(&a);
    l.heard(&a, "включи свет", true);
    assert!(matches!(l.heard(&a, "", false), ListenAction::Continue));
    assert!(matches!(l.heard(&a, "", false), ListenAction::Continue));
    assert_eq!(dispatched(l.heard(&a, "", false)), "включи свет");
    assert_eq!(l.buffer, "");
    assert_eq!(l.silence, 0);
    assert_eq!(l.mode, Mode::ListeningQuery);
    assert!(matches!(l.heard(&a, "", false), ListenAction::Continue));
}

#[test]
fn empty_final_ends_utterance() {
    let a = assistant();
    let mut l = listening(&a);
    l.heard(&a, "привет", true);
    assert_eq!(dispatched(l.heard(&a, "", true)), "привет");
}

#[test]
fn partial_speech_resets_silence() {
    let a = assistant();
    let mut l = listening(&a);
    l.heard(&a, "привет", true);
    l.heard(&a, "", false);
    l.heard(&a, "", false);
    assert!(matches!(l.heard(&a, "как", false), ListenAction::Continue));
    assert_eq!(l.silence, 0);
}

#[test]
fn idle_timeout_returns_to_idle() {
    let a = assistant();
    let mut l = listening(&a);
    for _ in 0..19 {
        assert!(matches!(l.heard(&a, "", false), ListenAction::Continue));
    }
    assert!(matches!(l.heard(&a, "", false), ListenAction::Restart));
    assert_eq!(l.mode, Mode::Idle);
    assert_eq!(l.history.len(), 1);
}

#[test]
fn out_of_hours_resets() {
    let a = assistant();
    let mut l = listening(&a);
    l.heard(&a, "привет", true);
    let range = TimeRangeConfig { start_hour: 8, end_hour: 20 };
    assert!(l.check_hour(&a, &range, 10));
    assert_eq!(l.buffer, "привет");
    assert!(!l.check_hour(&a, &range, 20));
    assert_eq!(l.mode, Mode::Idle);
    assert_eq!(l.buffer, "");
}

#[test]
fn clock_gate_edges() {
    let a = assistant();
    let mut l = listening(&a);
    assert!(l.check_clock(&a, &TimeRangeConfig { start_hour: 0, end_hour: 24 }));
    assert_eq!(l.mode, Mode::ListeningQuery);
    assert!(!l.check_clock(&a, &TimeRangeConfig { start_hour: 5, end_hour: 5 }));
    assert_eq!(l.mode, Mode::Idle);
}

#[test]
fn non_string_arguments_use_json_text() {
    let m = manager();
    assert_eq!(run_command(m.call_tool_json("echo_tool", "{\"msg\": {\"a\": [1, true]}}")), "echo {\"a\":[1,true]}");
    assert_eq!(run_command(m.call_tool_json("echo_tool", "{\"msg\": null}")), "echo null");
}

#[test]
fn each_dispatch_gets_a_fresh_history() {
    let a = assistant();
    let tools = manager();
    let mut l = listening(&a);
    l.heard(&a, "первый", true);
    assert_eq!(dispatched(l.heard(&a, "", true)), "первый");
    assert_eq!(l.history.len(), 1);
    let mut d = Dialogue::start(&mut l.history, "первый");
    d.on_reply(&mut l.history, &tools, Reply::Answer { calls: vec![], text: s("ответ") });
    assert_eq!(l.history.len(), 3);
    l.heard(&a, "второй", true);
    assert_eq!(dispatched(l.heard(&a, "", true)), "второй");
    assert_eq!(l.history.len(), 1);
    assert!(matches!(&l.history[0], Message::System(p) if p == "prompt"));
}

#[test]
fn arguments_follow_member_kinds() {
    assert!(arguments_of(&None).is_empty());
    assert!(arguments_of(&Some(JsonDoc::NotObject)).is_empty());
    let doc = JsonDoc::Object(vec![
        (s("a"), JsonMember::Str(s("x y"))),
        (s("b"), JsonMember::Other(s("[1]"))),
    ]);
    assert_eq!(arguments_of(&Some(doc)), vec![(s("a"), s("x y")), (s("b"), s("[1]"))]);
}

#[test]
fn duplicate_parameter_names_are_detected() {
    let mut t = echo_tool();
    assert!(t.params_distinct());
    t.params.push((s("n"), ParamConfig { param_type: s("number"), description: s("") }));
    assert!(t.params_distinct());
    t.params.push((s("msg"), ParamConfig { param_type: s("string"), description: s("") }));
    assert!(!t.params_distinct());
}
