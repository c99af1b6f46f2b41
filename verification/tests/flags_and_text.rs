use fledge_plugin_corvid_agent::flags::{parse_config_url, parse_flags, parse_work_create_flags};
use fledge_plugin_corvid_agent::protocol::next_id;
use fledge_plugin_corvid_agent::text::{
    decimal_string, escaped_single_quotes, joined, padded, same_ignoring_ascii_case, trimmed,
};

fn strings(v: &[&str]) -> Vec<String> {
    v.iter().map(|s| s.to_string()).collect()
}

#[test]
fn global_flags_are_split_off_anywhere() {
    let f = parse_flags(&strings(&["--json", "work", "-y", "create", "--yes", "x"]));
    assert!(f.yes);
    assert!(f.json);
    assert_eq!(f.positional, strings(&["work", "create", "x"]));
}

#[test]
fn no_flags_keep_everything() {
    let f = parse_flags(&strings(&["chat", "--help", "-h"]));
    assert!(!f.yes);
    assert!(!f.json);
    assert_eq!(f.positional, strings(&["chat", "--help", "-h"]));
}

#[test]
fn work_create_agent_and_description() {
    let f = parse_work_create_flags(&strings(&["--agent", "Jackdaw", "Fix", "the", "login", "bug"]));
    assert_eq!(f.agent.as_deref(), Some("Jackdaw"));
    assert_eq!(f.description.as_deref(), Some("Fix the login bug"));
}

#[test]
fn work_create_short_agent_last_wins() {
    let f = parse_work_create_flags(&strings(&["-a", "Rook", "Deploy staging", "-a", "Crow"]));
    assert_eq!(f.agent.as_deref(), Some("Crow"));
    assert_eq!(f.description.as_deref(), Some("Deploy staging"));
}

#[test]
fn work_create_dangling_agent_and_dashes() {
    let f = parse_work_create_flags(&strings(&["-v", "task", "--agent"]));
    assert_eq!(f.agent, None);
    assert_eq!(f.description.as_deref(), Some("task"));
    let g = parse_work_create_flags(&strings(&[]));
    assert_eq!(g.agent, None);
    assert_eq!(g.description, None);
}

#[test]
fn work_create_agent_value_may_start_with_dash() {
    let f = parse_work_create_flags(&strings(&["--agent", "-x", "go"]));
    assert_eq!(f.agent.as_deref(), Some("-x"));
    assert_eq!(f.description.as_deref(), Some("go"));
}

#[test]
fn config_url_from_flag_or_word() {
    assert_eq!(parse_config_url(&strings(&["--url", "http://a:1"])).as_deref(), Some("http://a:1"));
    assert_eq!(parse_config_url(&strings(&["http://b", "http://c"])).as_deref(), Some("http://b"));
    assert_eq!(parse_config_url(&strings(&["http://b", "--url", "http://d"])).as_deref(), Some("http://d"));
    assert_eq!(parse_config_url(&strings(&["--url"])), None);
    assert_eq!(parse_config_url(&strings(&["-q"])), None);
}

#[test]
fn ids_count_up_from_one() {
    let mut counter: u64 = 1;
    assert_eq!(next_id(&mut counter), "1");
    assert_eq!(next_id(&mut counter), "2");
    assert_eq!(counter, 3);
    let mut top = u64::MAX;
    assert_eq!(next_id(&mut top), "18446744073709551615");
    assert_eq!(top, 0);
}

#[test]
fn decimal_matches_to_string() {
    for n in [0u64, 7, 10, 99, 100, 1234567890, u64::MAX] {
        assert_eq!(decimal_string(n), n.to_string());
    }
}

#[test]
fn trim_matches_std() {
    for s in ["", "  x ", "\n\t a b \r\n", "\u{3000}y\u{a0}", "none", "   "] {
        assert_eq!(trimmed(s), s.trim());
    }
}

#[test]
fn padding_matches_format() {
    let s = "abc".to_string();
    assert_eq!(padded(&s, 6), format!("{:<6}", "abc"));
    assert_eq!(padded(&s, 2), "abc");
    let w = "\u{e9}t\u{e9}".to_string();
    assert_eq!(padded(&w, 5), format!("{:<5}", "\u{e9}t\u{e9}"));
}

#[test]
fn join_matches_std() {
    let parts = strings(&["a", "b", "c"]);
    assert_eq!(joined(&parts, ", "), "a, b, c");
    assert_eq!(joined(&strings(&[]), ", "), "");
    assert_eq!(joined(&strings(&["only"]), " "), "only");
}

#[test]
fn ascii_case_equality() {
    let a = "JackDaw".to_string();
    assert!(same_ignoring_ascii_case(&a, &"jackdaw".to_string()));
    assert!(!same_ignoring_ascii_case(&a, &"jackdow".to_string()));
    assert!(!same_ignoring_ascii_case(&"\u{c9}".to_string(), &"\u{e9}".to_string()));
}

#[test]
fn single_quotes_are_escaped() {
    assert_eq!(escaped_single_quotes("it's"), "it'\\''s");
    assert_eq!(escaped_single_quotes("{}"), "{}");
    let twice = "it's".replace('\'', "'\\''");
    assert_eq!(escaped_single_quotes(twice.as_str()), twice.replace('\'', "'\\''"));
}

#[test]
fn plain_words_are_the_whole_description() {
    let f = parse_work_create_flags(&strings(&["Deploy", "staging", "now"]));
    assert_eq!(f.agent, None);
    assert_eq!(f.description.as_deref(), Some("Deploy staging now"));
    let g = parse_work_create_flags(&strings(&[""]));
    assert_eq!(g.description.as_deref(), Some(""));
}
