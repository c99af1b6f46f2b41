use fledge_plugin_corvid_agent::json::{get_member, get_number_text, get_string, get_unsigned, Json};
use fledge_plugin_corvid_agent::protocol::{exec_stdout, Emit, InboundMessage, OutboundMessage, Segment};
use fledge_plugin_corvid_agent::session::{Next, Session, Step, HELP_TEXT};

fn strings(v: &[&str]) -> Vec<String> {
    v.iter().map(|s| s.to_string()).collect()
}

fn reply(value: Option<&str>) -> InboundMessage {
    InboundMessage { msg_type: "response".to_string(), id: None, value: value.map(String::from), reason: None }
}

fn exec_reply(stdout: &str) -> InboundMessage {
    let text = format!("{{\"stdout\":{},\"stderr\":\"\",\"code\":0}}", serde_json::to_string(stdout).unwrap());
    reply(Some(text.as_str()))
}

fn string_reply(s: &str) -> InboundMessage {
    let text = serde_json::to_string(s).unwrap();
    reply(Some(text.as_str()))
}

fn output(text: &str) -> Emit {
    Emit::Send(OutboundMessage::Output { text: text.to_string() })
}

fn log(command: &str) -> Emit {
    Emit::Send(OutboundMessage::Log { level: "info".to_string(), message: format!("corvid-agent {} complete", command) })
}

fn progress(text: &str) -> Emit {
    Emit::Send(OutboundMessage::Progress { message: Some(text.to_string()), current: None, total: None, done: None })
}

fn progress_done() -> Emit {
    Emit::Send(OutboundMessage::Progress { message: None, current: None, total: None, done: Some(true) })
}

fn exec(id: &str, command: &str) -> Next {
    Next::Await(OutboundMessage::Exec { id: id.to_string(), command: command.to_string(), cwd: None, timeout: Some(30) })
}

/// Starts a run and answers the URL lookup with `url`.
fn begin(args: &[&str], url: Option<&str>) -> (Session, Step) {
    let (mut s, first) = Session::start(&strings(args));
    assert!(first.emits.is_empty());
    assert_eq!(
        first.next,
        Next::Await(OutboundMessage::Load { id: "1".to_string(), key: "corvid_base_url".to_string() })
    );
    let step = match url {
        Some(u) => s.resume(&string_reply(u)),
        None => s.resume(&reply(None)),
    };
    (s, step)
}

#[test]
fn health_shows_status_uptime_and_counts() {
    let (mut s, step) = begin(&["health"], Some("http://srv:1"));
    assert_eq!(step.emits, vec![progress("Checking server health")]);
    assert_eq!(step.next, exec("2", "curl -s 'http://srv:1/api/health'"));
    let last = s.resume(&exec_reply(" {\"status\":\"ok\",\"uptime\":7325.5,\"agents\":3,\"activeSessions\":2}\n"));
    assert_eq!(
        last.emits,
        vec![
            progress_done(),
            Emit::Show(vec![
                Segment::Text("\n  Server Health\n  Status:  ok\n  Uptime:  ".to_string()),
                Segment::UptimeHours(Some("7325.5".to_string())),
                Segment::Text("h ".to_string()),
                Segment::UptimeMinutes(Some("7325.5".to_string())),
                Segment::Text("m\n\n".to_string()),
            ]),
            output("  Active agents: 3\n"),
            output("  Active sessions: 2\n"),
            output("\n"),
            log("health"),
        ]
    );
    assert_eq!(last.next, Next::Finish);
    assert!(s.finished());
}

#[test]
fn status_is_health_and_defaults_apply() {
    let (mut s, step) = begin(&["status"], None);
    assert_eq!(step.next, exec("2", "curl -s 'http://localhost:3000/api/health'"));
    let last = s.resume(&exec_reply("[1]"));
    assert_eq!(
        last.emits[1],
        Emit::Show(vec![
            Segment::Text("\n  Server Health\n  Status:  unknown\n  Uptime:  ".to_string()),
            Segment::UptimeHours(None),
            Segment::Text("h ".to_string()),
            Segment::UptimeMinutes(None),
            Segment::Text("m\n\n".to_string()),
        ])
    );
    assert_eq!(last.emits.len(), 4);
}

#[test]
fn health_unreachable_and_raw() {
    let (mut s, _) = begin(&["health"], Some("http://x"));
    let last = s.resume(&exec_reply("   "));
    assert_eq!(last.emits, vec![progress_done(), output("  Server is not reachable.\n"), log("health")]);
    let (mut s, _) = begin(&["health", "--json"], Some("http://x"));
    let last = s.resume(&exec_reply(""));
    assert_eq!(last.emits, vec![progress_done(), output("{\"error\":\"server not reachable\"}\n"), log("health")]);
    let (mut s, _) = begin(&["--json", "health"], Some("http://x"));
    let last = s.resume(&exec_reply("{\"status\": \"ok\"}"));
    assert_eq!(last.emits, vec![progress_done(), output("{\"status\": \"ok\"}\n"), log("health")]);
    let (mut s, _) = begin(&["health"], Some("http://x"));
    let last = s.resume(&exec_reply("<html>"));
    assert_eq!(last.emits, vec![progress_done(), output("  Raw response: <html>\n"), log("health")]);
}

#[test]
fn empty_stored_url_falls_back_to_default() {
    let (_, step) = begin(&["agents"], Some(""));
    assert_eq!(step.next, exec("2", "curl -s 'http://localhost:3000/api/agents'"));
}

#[test]
fn cancel_stops_the_run() {
    let (mut s, _) = Session::start(&strings(&["agents"]));
    let step = s.resume(&InboundMessage { msg_type: "cancel".to_string(), id: None, value: None, reason: None });
    assert!(step.emits.is_empty());
    assert_eq!(step.next, Next::Cancel);
    let after = s.resume(&reply(None));
    assert!(after.emits.is_empty());
    assert_eq!(after.next, Next::Finish);
}

#[test]
fn agents_are_listed_in_columns() {
    let (mut s, _) = begin(&["agents"], Some("http://h"));
    let body = "{\"agents\":[{\"name\":\"Jackdaw\",\"model\":\"opus\",\"status\":\"busy\"},{\"name\":\"Rook\"}]}";
    let last = s.resume(&exec_reply(body));
    assert_eq!(
        last.emits,
        vec![
            output("\n  Agents (2 total)\n\n"),
            output(&format!("  {:<16} {:<20} [{}]\n", "Jackdaw", "opus", "busy")),
            output(&format!("  {:<16} {:<20} [{}]\n", "Rook", "?", "idle")),
            output("\n"),
            log("agents"),
        ]
    );
}

#[test]
fn agents_odd_answers() {
    let (mut s, _) = begin(&["agents"], Some("http://h"));
    let last = s.resume(&exec_reply("{\"count\":2}"));
    assert_eq!(last.emits, vec![output("  Response: {\"count\":2}\n"), log("agents")]);
    let (mut s, _) = begin(&["agents"], Some("http://h"));
    let last = s.resume(&exec_reply("nope"));
    assert_eq!(last.emits, vec![output("  Raw: nope\n"), log("agents")]);
    let (mut s, _) = begin(&["agents"], Some("http://h"));
    let last = s.resume(&exec_reply(""));
    assert_eq!(last.emits, vec![output("  Server not reachable.\n"), log("agents")]);
}

#[test]
fn sessions_use_the_filter_and_show_costs() {
    let (mut s, step) = begin(&["sessions"], Some("http://h"));
    let expected = "curl -s 'http://h/api/sessions' | python3 -c \"import sys,json; data=json.load(sys.stdin); sessions=data if isinstance(data,list) else data.get('sessions',[]); running=[{'id':s.get('id','')[:8],'agent':s.get('agentName','?'),'status':s.get('status','?'),'cost':s.get('totalCost',0)} for s in sessions if s.get('status')=='running']; json.dump(running,sys.stdout)\"";
    assert_eq!(step.next, exec("2", expected));
    let last = s.resume(&exec_reply("[{\"id\":\"abc12345\",\"agent\":\"Rook\",\"status\":\"running\",\"cost\":0.25}]"));
    assert_eq!(
        last.emits,
        vec![
            output("\n  Running Sessions (1)\n\n"),
            Emit::Show(vec![
                Segment::Text(format!("  abc12345  {:<16} $", "Rook")),
                Segment::Cost(Some("0.25".to_string())),
                Segment::Text("\n".to_string()),
            ]),
            output("\n"),
            log("sessions"),
        ]
    );
}

#[test]
fn sessions_show_at_most_twenty() {
    let (mut s, _) = begin(&["sessions"], Some("http://h"));
    let items: Vec<String> = (0..25).map(|i| format!("{{\"id\":\"s{}\"}}", i)).collect();
    let last = s.resume(&exec_reply(&format!("[{}]", items.join(","))));
    assert_eq!(last.emits[0], output("\n  Running Sessions (25)\n\n"));
    assert_eq!(last.emits.len(), 1 + 20 + 1 + 1);
    let (mut s, _) = begin(&["sessions"], Some("http://h"));
    let last = s.resume(&exec_reply("{}"));
    assert_eq!(last.emits, vec![output("  Unexpected response format.\n"), log("sessions")]);
    let (mut s, _) = begin(&["sessions"], Some("http://h"));
    let last = s.resume(&exec_reply("{"));
    assert_eq!(last.emits, vec![output("  Failed to parse sessions.\n"), log("sessions")]);
}

#[test]
fn work_list_lines() {
    let (mut s, step) = begin(&["work"], Some("http://h"));
    match &step.next {
        Next::Await(OutboundMessage::Exec { command, .. }) => {
            assert!(command.starts_with("curl -s 'http://h/api/work-tasks' | python3 -c \"import sys,json; "));
            assert!(command.ends_with("for t in tasks[:20]]; json.dump(out,sys.stdout)\""));
        }
        other => panic!("unexpected {:?}", other),
    }
    let last = s.resume(&exec_reply("[{\"id\":\"t1\",\"status\":\"done\",\"desc\":\"Fix\",\"agent\":\"Rook\"},{}]"));
    assert_eq!(
        last.emits,
        vec![
            output("\n  Work Tasks (showing up to 20)\n\n"),
            output(&format!("  t1  [{:<10}]  {:<12}  Fix\n", "done", "Rook")),
            output(&format!("  ?  [{:<10}]  {:<12}  \n", "?", "?")),
            output("\n"),
            log("work"),
        ]
    );
}

#[test]
fn unknown_work_subcommand() {
    let (_, step) = begin(&["work", "delete"], Some("http://h"));
    assert_eq!(
        step.emits,
        vec![output("  Unknown work subcommand: delete\n  Usage: corvid-agent work [list|create]\n"), log("work")]
    );
    assert_eq!(step.next, Next::Finish);
}

#[test]
fn work_create_interactive() {
    let (mut s, step) = begin(&["work", "create"], Some("http://h"));
    assert_eq!(
        step.next,
        Next::Await(OutboundMessage::Prompt {
            id: "2".to_string(),
            message: "Task description:".to_string(),
            default: None,
            validate: Some("non_empty".to_string()),
        })
    );
    let step = s.resume(&string_reply("Fix it"));
    assert_eq!(step.next, exec("3", "curl -s 'http://h/api/agents'"));
    let step = s.resume(&exec_reply("[{\"name\":\"Jackdaw\"},{\"model\":\"x\"},{\"name\":\"Rook\"}]"));
    assert_eq!(
        step.next,
        Next::Await(OutboundMessage::Select {
            id: "4".to_string(),
            message: "Assign to agent:".to_string(),
            options: strings(&["Jackdaw", "Rook"]),
            default: Some(0),
        })
    );
    let step = s.resume(&reply(None));
    assert_eq!(step.emits, vec![progress("Creating work task")]);
    assert_eq!(
        step.next,
        exec(
            "5",
            "curl -s -X POST -H 'Content-Type: application/json' -d '{\"agentName\":\"Jackdaw\",\"description\":\"Fix it\"}' 'http://h/api/work-tasks'"
        )
    );
    let last = s.resume(&exec_reply("{\"id\":\"w-9\"}"));
    assert_eq!(
        last.emits,
        vec![
            progress_done(),
            output("\n  Work task created: w-9\n  Agent: Jackdaw\n  Description: Fix it\n\n"),
            log("work"),
        ]
    );
}

#[test]
fn work_create_named_agent_any_case() {
    let (mut s, step) = begin(&["work", "create", "-a", "jackdaw", "it's", "broken", "--json"], Some("http://h"));
    assert_eq!(step.next, exec("2", "curl -s 'http://h/api/agents'"));
    let step = s.resume(&exec_reply("{\"agents\":[{\"name\":\"Rook\"},{\"name\":\"JackDaw\"}]}"));
    assert_eq!(
        step.next,
        exec(
            "3",
            "curl -s -X POST -H 'Content-Type: application/json' -d '{\"agentName\":\"JackDaw\",\"description\":\"it'\\''s broken\"}' 'http://h/api/work-tasks'"
        )
    );
    let last = s.resume(&exec_reply("{\"id\":1}"));
    assert_eq!(last.emits, vec![progress_done(), output("{\"id\":1}\n"), log("work")]);
}

#[test]
fn work_create_failures() {
    let (mut s, _) = begin(&["work", "create", "--agent", "Crow", "x"], Some("http://h"));
    let last = s.resume(&exec_reply("[{\"name\":\"Rook\"},{\"name\":\"Jay\"}]"));
    assert_eq!(last.emits, vec![output("  Unknown agent: Crow\n  Available: Rook, Jay\n"), log("work")]);
    let (mut s, _) = begin(&["work", "create", "x"], Some("http://h"));
    let last = s.resume(&exec_reply("[]"));
    assert_eq!(last.emits, vec![output("  No agents available.\n"), log("work")]);
    let (mut s, _) = begin(&["work", "create"], Some("http://h"));
    let last = s.resume(&string_reply(""));
    assert_eq!(last.emits, vec![output("  Cancelled \u{2014} no description provided.\n"), log("work")]);
    let (mut s, _) = begin(&["work", "create", "x", "-a", "ROOK"], Some("http://h"));
    let _ = s.resume(&exec_reply("[{\"name\":\"Rook\"}]"));
    let last = s.resume(&exec_reply("oops"));
    assert_eq!(last.emits, vec![progress_done(), output("  Response: oops\n"), log("work")]);
}

#[test]
fn chat_lists_conversations() {
    let (mut s, step) = begin(&["chat"], Some("http://h"));
    assert_eq!(step.next, exec("2", "curl -s 'http://h/api/algochat/conversations'"));
    let long = "x".repeat(70);
    let body = format!(
        "{{\"conversations\":[{{\"contactName\":\"Ann\",\"lastMessage\":\"hi\"}},{{\"from\":\"Bob\",\"content\":\"{}\"}},{{}}]}}",
        long
    );
    let last = s.resume(&exec_reply(&body));
    assert_eq!(
        last.emits,
        vec![
            output("\n  AlgoChat Conversations (3)\n\n"),
            output("  [Ann] hi\n"),
            output(&format!("  [Bob] {}\n", &long[..60])),
            output("  [?] \n"),
            output("\n"),
            log("chat"),
        ]
    );
}

#[test]
fn chat_stops_where_a_message_cannot_be_cut() {
    let (mut s, _) = begin(&["chat"], Some("http://h"));
    let message = format!("{}\u{e9}tail", "a".repeat(59));
    let body = format!("[{{\"text\":\"ok\"}},{{\"text\":\"{}\"}}]", message);
    let last = s.resume(&exec_reply(&body));
    assert_eq!(last.emits, vec![output("\n  AlgoChat Conversations (2)\n\n"), output("  [?] ok\n")]);
    assert_eq!(
        last.next,
        Next::Crash(format!(
            "end byte index 60 is not a char boundary; it is inside '\u{e9}' (bytes 59..61) of `{}`",
            message
        ))
    );
    assert!(s.finished());
}

#[test]
fn long_messages_are_shortened_in_the_panic_message() {
    let (mut s, _) = begin(&["chat"], Some("http://h"));
    let message = format!("{}\u{20ac}{}", "b".repeat(58), "c".repeat(300));
    let body = format!("[{{\"from\":\"Z\",\"lastMessage\":\"{}\"}}]", message);
    let last = s.resume(&exec_reply(&body));
    let shown = &message[..256];
    assert_eq!(
        last.next,
        Next::Crash(format!(
            "end byte index 60 is not a char boundary; it is inside '\u{20ac}' (bytes 58..61) of `{}`[...]",
            shown
        ))
    );
    assert_eq!(last.emits, vec![output("\n  AlgoChat Conversations (1)\n\n")]);
}

#[test]
fn chat_sends_a_message() {
    let (mut s, step) = begin(&["chat", "Hello", "from", "Fledge!"], Some("http://h"));
    assert_eq!(
        step.next,
        exec(
            "2",
            "curl -s -X POST -H 'Content-Type: application/json' -d '{\"message\":\"Hello from Fledge!\"}' 'http://h/api/algochat/send'"
        )
    );
    let last = s.resume(&exec_reply(""));
    assert_eq!(last.emits, vec![output("  Message sent.\n"), log("chat")]);
    let (mut s, _) = begin(&["chat", "hi", "--json"], Some("http://h"));
    let last = s.resume(&exec_reply(""));
    assert_eq!(last.emits, vec![output("{\"status\":\"sent\"}\n"), log("chat")]);
    let (mut s, _) = begin(&["chat", "hi"], Some("http://h"));
    let last = s.resume(&exec_reply("{\"ok\":true}"));
    assert_eq!(last.emits, vec![output("  {\"ok\":true}\n"), log("chat")]);
}

#[test]
fn restart_with_yes_posts_at_once() {
    let (mut s, step) = begin(&["restart", "-y"], Some("http://h"));
    assert_eq!(step.emits, vec![progress("Restarting server")]);
    assert_eq!(
        step.next,
        exec("2", "curl -s -X POST -H 'Content-Type: application/json' -d '{}' 'http://h/api/system/restart'")
    );
    let last = s.resume(&exec_reply(""));
    assert_eq!(last.emits, vec![progress_done(), output("  Restart signal sent.\n"), log("restart")]);
}

#[test]
fn restart_asks_first() {
    let (mut s, step) = begin(&["restart"], Some("http://h"));
    assert_eq!(
        step.next,
        Next::Await(OutboundMessage::Confirm {
            id: "2".to_string(),
            message: "Restart the CorvidAgent server?".to_string(),
            default: Some(false),
        })
    );
    let last = s.resume(&reply(Some("false")));
    assert_eq!(last.emits, vec![output("  Cancelled.\n"), log("restart")]);
    let (mut s, _) = begin(&["restart"], Some("http://h"));
    let step = s.resume(&reply(Some("true")));
    assert_eq!(step.emits, vec![progress("Restarting server")]);
    let last = s.resume(&exec_reply("{\"restarting\":true}"));
    assert_eq!(last.emits, vec![progress_done(), output("  {\"restarting\":true}\n"), log("restart")]);
}

#[test]
fn config_saves_the_url() {
    let (_, step) = begin(&["config", "--url", "http://myserver:3000"], Some("http://h"));
    assert_eq!(
        step.emits,
        vec![
            Emit::Send(OutboundMessage::Store {
                key: "corvid_base_url".to_string(),
                value: "http://myserver:3000".to_string(),
            }),
            output("\n  Saved server URL: http://myserver:3000\n\n"),
            log("config"),
        ]
    );
    let (mut s, step) = begin(&["config"], None);
    assert_eq!(
        step.next,
        Next::Await(OutboundMessage::Prompt {
            id: "2".to_string(),
            message: "CorvidAgent server URL:".to_string(),
            default: Some("http://localhost:3000".to_string()),
            validate: None,
        })
    );
    let last = s.resume(&reply(None));
    assert_eq!(last.emits[1], output("\n  Saved server URL: http://localhost:3000\n\n"));
}

#[test]
fn help_and_unknown_commands() {
    let (_, step) = begin(&[], Some("http://h"));
    assert_eq!(step.emits, vec![output(HELP_TEXT), log("help")]);
    let (_, step) = begin(&["-h"], Some("http://h"));
    assert_eq!(step.emits, vec![output(HELP_TEXT), log("-h")]);
    let (_, step) = begin(&["fly"], Some("http://h"));
    assert_eq!(step.emits, vec![output("  Unknown command: fly\n"), output(HELP_TEXT), log("fly")]);
    assert!(HELP_TEXT.starts_with("\n  fledge corvid-agent \u{2014} CorvidAgent CLI\n\n  Commands:\n    health      Check"));
    assert!(HELP_TEXT.ends_with("    fledge corvid-agent config --url http://localhost:3000\n\n"));
}

#[test]
fn members_are_parsed_on_lookup() {
    let doc = Some(Json::Object(vec![
        ("a".to_string(), "{\"b\":\"x\"}".to_string()),
        ("n".to_string(), "42".to_string()),
        ("f".to_string(), "1.5".to_string()),
        ("bad".to_string(), "{\"b\":".to_string()),
    ]));
    assert_eq!(get_string(&get_member(&get_member(&doc, "a"), "b")).as_deref(), Some("x"));
    assert_eq!(get_unsigned(&get_member(&doc, "n")), Some(42));
    assert_eq!(get_unsigned(&get_member(&doc, "f")), None);
    assert_eq!(get_number_text(&get_member(&doc, "f")).as_deref(), Some("1.5"));
    assert_eq!(get_member(&doc, "bad"), None);
    assert_eq!(get_member(&doc, "missing"), None);
    assert_eq!(get_member(&Some(Json::Array(vec!["1".to_string()])), "a"), None);
}

#[test]
fn json_bodies_are_escaped() {
    let (_, step) = begin(&["chat", "say", "\"hi\"\n"], Some("http://h"));
    assert_eq!(
        step.next,
        exec(
            "2",
            "curl -s -X POST -H 'Content-Type: application/json' -d '{\"message\":\"say \\\"hi\\\"\\n\"}' 'http://h/api/algochat/send'"
        )
    );
}

#[test]
fn exec_output_is_trimmed_stdout() {
    assert_eq!(exec_stdout(&exec_reply("  out \n")), "out");
    assert_eq!(exec_stdout(&reply(Some("{\"stderr\":\"e\"}"))), "");
    assert_eq!(exec_stdout(&reply(None)), "");
}

#[test]
fn json_flag_shows_every_listing_raw() {
    for command in ["agents", "sessions", "work", "chat"] {
        let (mut s, _) = begin(&[command, "--json"], Some("http://h"));
        let last = s.resume(&exec_reply("[{\"a\":1}]"));
        assert_eq!(last.emits, vec![output("[{\"a\":1}]\n"), log(command)]);
        let (mut s, _) = begin(&["--json", command], Some("http://h"));
        let last = s.resume(&exec_reply(""));
        assert_eq!(last.emits, vec![output("{\"error\":\"server not reachable\"}\n"), log(command)]);
    }
}

#[test]
fn ids_never_repeat_within_a_run() {
    let (mut s, step) = begin(&["work", "create"], Some("http://h"));
    let mut ids = vec!["1".to_string()];
    let mut next = step.next;
    let replies = [string_reply("task"), exec_reply("[{\"name\":\"A\"}]"), reply(None), exec_reply("{}")];
    for r in replies.iter() {
        match &next {
            Next::Await(OutboundMessage::Prompt { id, .. })
            | Next::Await(OutboundMessage::Select { id, .. })
            | Next::Await(OutboundMessage::Exec { id, .. }) => ids.push(id.clone()),
            other => panic!("unexpected {:?}", other),
        }
        next = s.resume(r).next;
    }
    assert_eq!(next, Next::Finish);
    assert_eq!(ids, strings(&["1", "2", "3", "4", "5"]));
}

#[test]
fn work_without_subcommand_is_list() {
    let (mut a, first_a) = begin(&["work"], Some("http://h"));
    let (mut b, first_b) = begin(&["work", "list"], Some("http://h"));
    assert_eq!(first_a, first_b);
    let answer = exec_reply("[{\"id\":\"t\"}]");
    let last_a = a.resume(&answer);
    let last_b = b.resume(&answer);
    assert_eq!(last_a, last_b);
}

#[test]
fn status_runs_like_health() {
    let (mut a, first_a) = begin(&["status", "--json"], Some("http://h"));
    let (mut b, first_b) = begin(&["health", "--json"], Some("http://h"));
    assert_eq!(first_a, first_b);
    let answer = exec_reply("{\"status\":\"ok\"}");
    let last_a = a.resume(&answer);
    let last_b = b.resume(&answer);
    assert_eq!(last_a.next, last_b.next);
    assert_eq!(last_a.emits[..2], last_b.emits[..2]);
    assert_eq!(last_a.emits[2], log("status"));
    assert_eq!(last_b.emits[2], log("health"));
}
