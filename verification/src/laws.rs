//! Properties of the plugin as a whole, proved from the specifications of
//! its parts.
use vstd::prelude::*;
use crate::flags::{is_agent_flag, is_json_flag, is_yes_flag, positional_args, work_agent, work_scan, work_words};
use crate::json::{bool_value, elements, json_document, member, number_text, string_value, unsigned_value, JsonView};
use crate::protocol::{
    after_id, curl_post_command, exec_message, Piece, exec_output, id_text, output_message, reply_value, Emitted, Message, Reply,
};
use crate::reports::{
    conversation_contact, conversation_lines, conversation_message,
    agent_names, first_twenty, or_else, session_line, session_list, task_line, task_list,
    agent_line, agent_list, agents_report, conversations_report, field_or, health_details, health_report, matching_name, message_preview, sessions_report,
    unreachable_json, work_list_report,
};
use crate::session::{
    base_url_of, command_flow, completion_log, work_flow, resume_run, start_run, Phase, SessionState, StepView, Then, DEFAULT_URL, URL_KEY,
};
use crate::json::json_object_text;
use crate::text::{join, pad_right, byte_prefix, decimal, escape_single_quotes, digit_char, eq_ignore_ascii_case, starts_with_dash, utf8_len, utf8_width};

verus! {

// ---------------------------------------------------------------------------
// Flags
// ---------------------------------------------------------------------------

/// The global flags `--yes`, `-y` and `--json` may stand anywhere: none of
/// them is left among the positional arguments, and every other argument is
/// kept.
pub proof fn law_global_flags_are_removed(args: Seq<Seq<char>>)
    ensures
        forall|i: int|
            0 <= i < positional_args(args).len() ==> !is_yes_flag(#[trigger] positional_args(args)[i])
                && !is_json_flag(positional_args(args)[i]),
        (forall|i: int| 0 <= i < args.len() ==> !is_yes_flag(#[trigger] args[i]) && !is_json_flag(args[i]))
            ==> positional_args(args) == args,
    decreases args.len(),
{
    if args.len() > 0 {
        law_global_flags_are_removed(args.drop_last());
        let rest = positional_args(args.drop_last());
        if is_yes_flag(args.last()) || is_json_flag(args.last()) {
        } else {
            assert forall|i: int| 0 <= i < rest.push(args.last()).len() implies !is_yes_flag(
                #[trigger] rest.push(args.last())[i],
            ) && !is_json_flag(rest.push(args.last())[i]) by {
                if i < rest.len() {
                    assert(rest.push(args.last())[i] == rest[i]);
                }
            }
        }
        if forall|i: int| 0 <= i < args.len() ==> !is_yes_flag(#[trigger] args[i]) && !is_json_flag(args[i]) {
            assert forall|i: int| 0 <= i < args.drop_last().len() implies !is_yes_flag(#[trigger] args.drop_last()[i])
                && !is_json_flag(args.drop_last()[i]) by {
                assert(args.drop_last()[i] == args[i]);
            }
            assert(!is_yes_flag(args[args.len() - 1]));
            assert(args.drop_last().push(args.last()) =~= args);
        }
    } else {
        assert(positional_args(args) =~= args);
    }
}

proof fn lemma_scan_words(args: Seq<Seq<char>>, agent: Option<Seq<char>>, words: Seq<Seq<char>>)
    requires
        forall|i: int| 0 <= i < words.len() ==> !starts_with_dash(#[trigger] words[i]),
    ensures
        forall|i: int|
            0 <= i < work_scan(args, agent, words).1.len() ==> !starts_with_dash(
                #[trigger] work_scan(args, agent, words).1[i],
            ),
        (forall|i: int| 0 <= i < args.len() ==> !starts_with_dash(#[trigger] args[i])) ==> work_scan(
            args,
            agent,
            words,
        ) == (agent, words + args),
    decreases args.len(),
{
    reveal_strlit("--agent");
    reveal_strlit("-a");
    if args.len() == 0 {
        assert(words + args =~= words);
    } else if is_agent_flag(args[0]) && args.len() >= 2 {
        lemma_scan_words(args.skip(2), Some(args[1]), words);
        assert(work_scan(args, agent, words) == work_scan(args.skip(2), Some(args[1]), words));
        assert(starts_with_dash(args[0]));
    } else if !is_agent_flag(args[0]) && !starts_with_dash(args[0]) {
        let w = words.push(args[0]);
        assert forall|i: int| 0 <= i < w.len() implies !starts_with_dash(#[trigger] w[i]) by {
            if i < words.len() {
                assert(w[i] == words[i]);
            }
        }
        lemma_scan_words(args.drop_first(), agent, w);
        assert(work_scan(args, agent, words) == work_scan(args.drop_first(), agent, w));
        if forall|i: int| 0 <= i < args.len() ==> !starts_with_dash(#[trigger] args[i]) {
            assert forall|i: int| 0 <= i < args.drop_first().len() implies !starts_with_dash(
                #[trigger] args.drop_first()[i],
            ) by {
                assert(args.drop_first()[i] == args[i + 1]);
            }
            assert(w + args.drop_first() =~= words + args);
        }
    } else {
        lemma_scan_words(args.drop_first(), agent, words);
        assert(work_scan(args, agent, words) == work_scan(args.drop_first(), agent, words));
        assert(starts_with_dash(args[0]));
    }
}

/// No word of a task description starts with `-`; where no argument of
/// `work create` does, all of them are the description's words, in order,
/// and no agent is named.
pub proof fn law_description_words(args: Seq<Seq<char>>)
    ensures
        forall|i: int| 0 <= i < work_words(args).len() ==> !starts_with_dash(#[trigger] work_words(args)[i]),
        (forall|i: int| 0 <= i < args.len() ==> !starts_with_dash(#[trigger] args[i])) ==> work_words(args) == args
            && work_agent(args) is None,
{
    lemma_scan_words(args, None, Seq::empty());
    assert(Seq::<Seq<char>>::empty() + args =~= args);
}

// ---------------------------------------------------------------------------
// Request ids
// ---------------------------------------------------------------------------

proof fn lemma_digit(d: nat)
    requires
        d < 10,
    ensures
        digit_char(d) as u32 == d + 48,
{
}

proof fn lemma_decimal_len(n: nat)
    ensures
        decimal(n).len() >= 1,
        decimal(n).len() == 1 <==> n < 10,
    decreases n,
{
    if n >= 10 {
        lemma_decimal_len(n / 10);
    }
}

/// Different counter values give different ids.
pub proof fn law_ids_are_distinct(a: nat, b: nat)
    requires
        decimal(a) == decimal(b),
    ensures
        a == b,
    decreases a,
{
    lemma_decimal_len(a);
    lemma_decimal_len(b);
    if a < 10 {
        assert(decimal(a)[0] == digit_char(a));
        assert(decimal(b)[0] == digit_char(b));
        lemma_digit(a);
        lemma_digit(b);
    } else {
        assert(decimal(a).last() == digit_char(a % 10));
        assert(decimal(b).last() == digit_char(b % 10));
        lemma_digit(a % 10);
        lemma_digit(b % 10);
        assert(decimal(a).drop_last() =~= decimal(a / 10));
        assert(decimal(b).drop_last() =~= decimal(b / 10));
        law_ids_are_distinct(a / 10, b / 10);
    }
}

/// Two requests made one after the other never share an id.
pub proof fn law_consecutive_ids_differ(counter: u64)
    ensures
        id_text(counter) != id_text(after_id(counter)),
{
    if id_text(counter) == id_text(after_id(counter)) {
        law_ids_are_distinct(counter as nat, after_id(counter) as nat);
    }
}

// ---------------------------------------------------------------------------
// The run
// ---------------------------------------------------------------------------

/// The server URL is read from the plugin-store key that `config` writes;
/// a stored non-empty URL is the one the run uses, and where none is stored
/// the run uses `http://localhost:3000`. Either way the URL is not empty.
pub proof fn law_configured_url_is_used(args: Seq<Seq<char>>, r: Reply, url: Seq<char>)
    requires
        r.msg_type != "cancel"@,
    ensures
        start_run(args).1.next == Then::Await(Message::Load { id: id_text(1), key: URL_KEY@ }),
        crate::session::url_saved(url)[0] == Emitted::Send(Message::Store { key: URL_KEY@, value: url }),
        string_value(reply_value(r)) == Some(url) && url.len() > 0 ==> base_url_of(r) == url,
        string_value(reply_value(r)) is None ==> base_url_of(r) == DEFAULT_URL@,
        base_url_of(r).len() > 0,
        !(resume_run(start_run(args).0, r).0.stage is LoadingUrl),
        resume_run(start_run(args).0, r).0.base_url == base_url_of(r),
{
    reveal_strlit("http://localhost:3000");
}

/// How many more replies a run can take from a stage.
pub open spec fn replies_left(p: Phase) -> nat {
    match p {
        Phase::Finished => 0,
        Phase::LoadingUrl => 5,
        Phase::WorkDescription { .. } => 4,
        Phase::WorkAgents { .. } => 3,
        Phase::WorkAssign { .. } => 2,
        Phase::RestartConfirm => 2,
        _ => 1,
    }
}

/// Every run ends: each reply brings it closer to its end, so that it takes
/// at most five replies; it waits for a reply exactly while it is not over.
pub proof fn law_runs_end(s: SessionState, r: Reply)
    ensures
        replies_left(s.stage) == 0 <==> s.stage is Finished,
        !(s.stage is Finished) ==> replies_left(resume_run(s, r).0.stage) < replies_left(s.stage),
        s.stage is Finished ==> resume_run(s, r) == (s, StepView { emits: Seq::empty(), next: Then::Finish }),
        (resume_run(s, r).1.next is Await) <==> !(resume_run(s, r).0.stage is Finished),
{
}

/// `work` without a subcommand is `work list`: the flows are the same, and
/// so is every step of a run that differs only there.
pub proof fn law_work_defaults_to_list(s: SessionState, r: Reply, base: Seq<char>, counter: u64)
    requires
        s.command == "work"@,
        s.rest.len() == 0,
    ensures
        work_flow(Seq::empty(), base, counter) == work_flow(seq!["list"@], base, counter),
        ({
            let listed = SessionState { rest: seq!["list"@], ..s };
            &&& resume_run(s, r).1 == resume_run(listed, r).1
            &&& resume_run(s, r).0 == SessionState { rest: Seq::empty(), ..resume_run(listed, r).0 }
        }),
{
    let listed = SessionState { rest: seq!["list"@], ..s };
    assert(s.rest =~= Seq::<Seq<char>>::empty());
    assert(work_flow(s.rest, base, counter) == work_flow(seq!["list"@], base, counter));
}

/// `status` is `health`: a run with either command makes the same steps,
/// except that the log that ends a completed run names the command given.
pub proof fn law_status_is_health(s: SessionState, r: Reply)
    requires
        s.command == "status"@,
    ensures
        command_flow("status"@, s.rest, s.yes, s.base_url, s.counter) == command_flow(
            "health"@,
            s.rest,
            s.yes,
            s.base_url,
            s.counter,
        ),
        ({
            let h = SessionState { command: "health"@, ..s };
            let (a, x) = resume_run(s, r);
            let (b, y) = resume_run(h, r);
            &&& a == SessionState { command: "status"@, ..b }
            &&& x.next == y.next
            &&& (x.next is Finish && !(s.stage is Finished)) ==> x.emits.len() > 0 && y.emits.len() > 0
                && x.emits.drop_last() == y.emits.drop_last() && x.emits.last() == completion_log("status"@)
                && y.emits.last() == completion_log("health"@)
            &&& !(x.next is Finish && !(s.stage is Finished)) ==> x.emits == y.emits
        }),
{
    let h = SessionState { command: "health"@, ..s };
    if !(s.stage is Finished) && r.msg_type != "cancel"@ {
        let (a, x) = resume_run(s, r);
        let (b, y) = resume_run(h, r);
        if x.next is Finish {
            let f = if s.stage is LoadingUrl {
                command_flow(s.command, s.rest, s.yes, base_url_of(r), s.counter)
            } else {
                crate::session::reply_flow(s.stage, r, s.json, s.base_url, s.counter)
            };
            assert((f.emits + seq![completion_log("status"@)]).drop_last() =~= f.emits);
            assert((f.emits + seq![completion_log("health"@)]).drop_last() =~= f.emits);
        }
    }
}

/// A run that finishes normally ends by logging
/// `corvid-agent COMMAND complete`.
pub proof fn law_finish_is_logged(s: SessionState, r: Reply)
    requires
        !(s.stage is Finished),
        resume_run(s, r).1.next is Finish,
    ensures
        resume_run(s, r).1.emits.len() > 0,
        resume_run(s, r).1.emits.last() == completion_log(s.command),
{
}

/// A `cancel` reply stops the run at once, with nothing more sent.
pub proof fn law_cancel_stops(s: SessionState, r: Reply)
    requires
        !(s.stage is Finished),
        r.msg_type == "cancel"@,
    ensures
        resume_run(s, r).1 == (StepView { emits: Seq::empty(), next: Then::Cancel }),
        resume_run(s, r).0.stage is Finished,
{
}

/// The run waits for a shell command to run.
pub open spec fn awaits_command(t: Then) -> bool {
    match t {
        Then::Await(Message::Exec { .. }) => true,
        _ => false,
    }
}

/// The run waits for the user to confirm.
pub open spec fn awaits_confirmation(t: Then) -> bool {
    match t {
        Then::Await(Message::Confirm { .. }) => true,
        _ => false,
    }
}

/// `restart` asks for confirmation unless `--yes` is given, and posts the
/// restart only once confirmed.
pub proof fn law_restart_is_confirmed(s: SessionState, r: Reply)
    requires
        r.msg_type != "cancel"@,
    ensures
        s.stage is LoadingUrl && s.command == "restart"@ ==> ({
            let (t, step) = resume_run(s, r);
            &&& s.yes ==> awaits_command(step.next) && t.stage is Restarted
            &&& !s.yes ==> awaits_confirmation(step.next) && t.stage is RestartConfirm
        }),
        s.stage is RestartConfirm ==> ({
            let (t, step) = resume_run(s, r);
            &&& bool_value(reply_value(r)) == Some(true) ==> awaits_command(step.next)
            &&& bool_value(reply_value(r)) != Some(true) ==> step.emits == seq![
                output_message("  Cancelled.\n"@),
                completion_log(s.command),
            ] && step.next is Finish
        }),
{
    reveal_strlit("restart");
    reveal_strlit("health");
    reveal_strlit("status");
    reveal_strlit("agents");
    reveal_strlit("sessions");
    reveal_strlit("work");
    reveal_strlit("chat");
}

/// With `--json`, a listing shows the server's answer exactly as it came,
/// or a JSON error object where none came.
pub proof fn law_json_output_is_raw(raw: Seq<char>)
    ensures
        raw.len() > 0 ==> health_report(raw, true) == seq![output_message(raw + "\n"@)],
        raw.len() > 0 ==> agents_report(raw, true) == seq![output_message(raw + "\n"@)],
        raw.len() > 0 ==> sessions_report(raw, true) == seq![output_message(raw + "\n"@)],
        raw.len() > 0 ==> work_list_report(raw, true) == seq![output_message(raw + "\n"@)],
        raw.len() > 0 ==> conversations_report(raw, true) == (seq![output_message(raw + "\n"@)], None::<Seq<char>>),
        raw.len() == 0 ==> health_report(raw, true) == seq![output_message(unreachable_json())],
        raw.len() == 0 ==> agents_report(raw, true) == seq![output_message(unreachable_json())],
        raw.len() == 0 ==> sessions_report(raw, true) == seq![output_message(unreachable_json())],
        raw.len() == 0 ==> work_list_report(raw, true) == seq![output_message(unreachable_json())],
        raw.len() == 0 ==> conversations_report(raw, true) == (seq![output_message(unreachable_json())], None::<Seq<char>>),
{
}

/// `--agent NAME` picks a listed agent whose name equals `NAME` up to ASCII
/// case, the first such one; where there is none, no listed name matches.
pub proof fn law_agent_is_matched(names: Seq<Seq<char>>, wanted: Seq<char>)
    ensures
        matching_name(names, wanted) matches Some(n) ==> names.contains(n) && eq_ignore_ascii_case(n, wanted),
        matching_name(names, wanted) is None ==> forall|i: int|
            0 <= i < names.len() ==> !eq_ignore_ascii_case(#[trigger] names[i], wanted),
    decreases names.len(),
{
    if names.len() > 0 {
        law_agent_is_matched(names.drop_first(), wanted);
        if !eq_ignore_ascii_case(names[0], wanted) {
            if let Some(n) = matching_name(names.drop_first(), wanted) {
                let k = choose|k: int| 0 <= k < names.drop_first().len() && names.drop_first()[k] == n;
                assert(names[k + 1] == n);
            }
            assert forall|i: int| 0 <= i < names.len() && matching_name(names, wanted) is None implies !eq_ignore_ascii_case(
                #[trigger] names[i],
                wanted,
            ) by {
                if i > 0 {
                    assert(names[i] == names.drop_first()[i - 1]);
                }
            }
        } else {
            assert(names.contains(names[0]));
        }
    }
}

proof fn lemma_byte_prefix(s: Seq<char>, n: nat)
    ensures
        byte_prefix(s, n) matches Some(p) ==> utf8_len(p) == n && p.len() <= s.len() && p == s.take(p.len() as int),
    decreases s.len(),
{
    if n > 0 && s.len() > 0 && utf8_width(s[0]) <= n {
        lemma_byte_prefix(s.drop_first(), (n - utf8_width(s[0])) as nat);
        if let Some(q) = byte_prefix(s.drop_first(), (n - utf8_width(s[0])) as nat) {
            let p = seq![s[0]] + q;
            assert(p.drop_first() =~= q);
            assert(p =~= s.take(p.len() as int));
        }
    } else if n == 0 {
        assert(Seq::<char>::empty() =~= s.take(0));
    }
}

/// The message preview of a conversation is the start of the message and is
/// at most 60 bytes long.
pub proof fn law_preview_is_short(m: Seq<char>)
    ensures
        message_preview(m) matches Some(p) ==> utf8_len(p) <= 60 && p.len() <= m.len() && p == m.take(
            p.len() as int,
        ),
        utf8_len(m) <= 60 ==> message_preview(m) == Some(m),
{
    lemma_byte_prefix(m, 60);
    assert(m.take(m.len() as int) =~= m);
}

// ---------------------------------------------------------------------------
// Shell quoting
// ---------------------------------------------------------------------------

/// `prefix` in front of a text that may be absent.
pub open spec fn prepend(prefix: Seq<char>, r: Option<Seq<char>>) -> Option<Seq<char>> {
    match r {
        Some(t) => Some(prefix + t),
        None => None,
    }
}

/// The word a POSIX shell reads from `t`, where `quoted` tells whether a
/// single quote is open: inside single quotes every character stands for
/// itself up to the closing quote; outside them a backslash stands for the
/// character after it; an unclosed quote is an error. (Words made of other
/// unquoted characters are read as those characters.)
pub open spec fn shell_read(t: Seq<char>, quoted: bool) -> Option<Seq<char>>
    decreases t.len(),
{
    if t.len() == 0 {
        if quoted {
            None
        } else {
            Some(Seq::empty())
        }
    } else if quoted {
        if t[0] == '\'' {
            shell_read(t.drop_first(), false)
        } else {
            prepend(seq![t[0]], shell_read(t.drop_first(), true))
        }
    } else if t[0] == '\'' {
        shell_read(t.drop_first(), true)
    } else if t[0] == '\\' {
        if t.len() >= 2 {
            prepend(seq![t[1]], shell_read(t.skip(2), false))
        } else {
            None
        }
    } else {
        prepend(seq![t[0]], shell_read(t.drop_first(), false))
    }
}

proof fn lemma_quoted_escape(s: Seq<char>, tail: Seq<char>)
    ensures
        shell_read(escape_single_quotes(s) + tail, true) == prepend(s, shell_read(tail, true)),
    decreases s.len(),
{
    if s.len() == 0 {
        assert(escape_single_quotes(s) + tail =~= tail);
        match shell_read(tail, true) {
            Some(r) => {
                assert(s + r =~= r);
            },
            None => {},
        }
    } else {
        let rest = s.drop_first();
        lemma_quoted_escape(rest, tail);
        let t = escape_single_quotes(s) + tail;
        let inner = escape_single_quotes(rest) + tail;
        if s[0] == '\'' {
            assert(t =~= seq!['\'', '\\', '\'', '\''] + inner);
            let t1 = t.drop_first();
            assert(t1 =~= seq!['\\', '\'', '\''] + inner);
            let t2 = t1.skip(2);
            assert(t2 =~= seq!['\''] + inner);
            assert(t2.drop_first() =~= inner);
            assert(t[0] == '\'');
            assert(shell_read(t, true) == shell_read(t1, false));
            assert(t1[0] == '\\' && t1[1] == '\'');
            assert(shell_read(t1, false) == prepend(seq!['\''], shell_read(t2, false)));
            assert(t2[0] == '\'');
            assert(shell_read(t2, false) == shell_read(inner, true));
        } else {
            assert(t =~= seq![s[0]] + inner);
            assert(t.drop_first() =~= inner);
            assert(t[0] == s[0]);
            assert(shell_read(t, true) == prepend(seq![s[0]], shell_read(inner, true)));
        }
        match shell_read(tail, true) {
            Some(r) => {
                assert(seq![s[0]] + (rest + r) =~= s + r);
            },
            None => {},
        }
    }
}

/// The request body, quoted as `curl_post` quotes it, reaches curl as it is:
/// a shell reads `'` + the escaped body + `'` back as the body.
pub proof fn law_posted_body_is_unchanged(body: Seq<char>)
    ensures
        shell_read(seq!['\''] + escape_single_quotes(body) + seq!['\''], false) == Some(body),
{
    let t = seq!['\''] + escape_single_quotes(body) + seq!['\''];
    assert(t.drop_first() =~= escape_single_quotes(body) + seq!['\'']);
    lemma_quoted_escape(body, seq!['\'']);
    assert(t[0] == '\'');
    assert(shell_read(t, false) == shell_read(t.drop_first(), true));
    let q: Seq<char> = seq!['\''];
    assert(q.drop_first() =~= Seq::<char>::empty());
    assert(shell_read(q, true) == shell_read(q.drop_first(), false));
    assert(shell_read(Seq::<char>::empty(), false) == Some(Seq::<char>::empty()));
    assert(body + Seq::<char>::empty() =~= body);
}

// ---------------------------------------------------------------------------
// What the commands show and send
// ---------------------------------------------------------------------------

/// An agent list may come as a bare array or as the member `agents` of an
/// object: both are listed alike, with the number of agents in the header,
/// one line per agent in order, and an empty line at the end.
pub proof fn law_agent_arrays_are_listed(items: Seq<Seq<char>>, t: Seq<char>, raw: Seq<char>)
    requires
        json_document(t) == Some(JsonView::Array(items)),
    ensures
        agent_list(Some(JsonView::Array(items)), raw) == agent_list(Some(JsonView::Object(seq![("agents"@, t)])), raw),
        agent_list(Some(JsonView::Array(items)), raw).len() == items.len() + 2,
        agent_list(Some(JsonView::Array(items)), raw)[0] == output_message(
            "\n  Agents ("@ + decimal(items.len()) + " total)\n\n"@,
        ),
        forall|i: int| 0 <= i < items.len() ==> agent_list(Some(JsonView::Array(items)), raw)[i + 1] == agent_line(#[trigger] items[i]),
        agent_list(Some(JsonView::Array(items)), raw).last() == output_message("\n"@),
{
    let l = agent_list(Some(JsonView::Array(items)), raw);
    assert(member(Some(JsonView::Object(seq![("agents"@, t)])), "agents"@) == json_document(t));
    assert forall|i: int| 0 <= i < items.len() implies l[i + 1] == agent_line(#[trigger] items[i]) by {}
}

/// A line of the agent list shows the agent's name and model, each padded to
/// its column, and its status in brackets; `?`, `?` and `idle` stand for
/// what is missing.
pub proof fn law_agent_line(item: Seq<char>)
    ensures
        agent_line(item) == output_message(
            "  "@ + pad_right(field_or(json_document(item), "name"@, "?"@), 16) + " "@ + pad_right(
                field_or(json_document(item), "model"@, "?"@),
                20,
            ) + " ["@ + field_or(json_document(item), "status"@, "idle"@) + "]\n"@,
        ),
        string_value(member(json_document(item), "name"@)) is None ==> field_or(json_document(item), "name"@, "?"@) == "?"@,
        string_value(member(json_document(item), "status"@)) matches Some(st) ==> field_or(
            json_document(item),
            "status"@,
            "idle"@,
        ) == st,
{
}

/// A run showing agents lists a bare array of agents: the header counts
/// them, each gets a line, and the run ends with an empty line and the log.
pub proof fn law_agents_command_lists_arrays(s: SessionState, r: Reply, items: Seq<Seq<char>>)
    requires
        s.stage == Phase::Agents,
        !s.json,
        r.msg_type != "cancel"@,
        exec_output(r).len() > 0,
        json_document(exec_output(r)) == Some(JsonView::Array(items)),
    ensures
        resume_run(s, r).1.emits.len() == items.len() + 3,
        resume_run(s, r).1.emits[0] == output_message("\n  Agents ("@ + decimal(items.len()) + " total)\n\n"@),
        forall|i: int| 0 <= i < items.len() ==> resume_run(s, r).1.emits[i + 1] == agent_line(#[trigger] items[i]),
        resume_run(s, r).1.emits[items.len() + 1int] == output_message("\n"@),
        resume_run(s, r).1.emits[items.len() + 2int] == completion_log(s.command),
        resume_run(s, r).1.next == Then::Finish,
{
    let e = resume_run(s, r).1.emits;
    let l = agent_list(Some(JsonView::Array(items)), exec_output(r));
    assert(e == l + seq![completion_log(s.command)]);
    assert forall|i: int| 0 <= i < items.len() implies e[i + 1] == agent_line(#[trigger] items[i]) by {
        assert(e[i + 1] == l[i + 1]);
    }
}

/// The health report shows every count the server gives as an unsigned
/// integer, zero included: the agents line right after the status block and
/// the sessions line just before the closing empty line; a count that is
/// absent gets no line.
pub proof fn law_health_counts_are_shown(h: Option<JsonView>)
    ensures
        health_details(h).last() == output_message("\n"@),
        health_details(h).len() == 2 + (if unsigned_value(member(h, "agents"@)) is Some { 1int } else { 0int })
            + (if unsigned_value(member(h, "activeSessions"@)) is Some { 1int } else { 0int }),
        unsigned_value(member(h, "agents"@)) is Some ==> health_details(h)[1] == output_message(
            "  Active agents: "@ + decimal(unsigned_value(member(h, "agents"@))->0 as nat) + "\n"@,
        ),
        unsigned_value(member(h, "activeSessions"@)) is Some ==> health_details(h)[health_details(h).len() - 2]
            == output_message(
            "  Active sessions: "@ + decimal(unsigned_value(member(h, "activeSessions"@))->0 as nat) + "\n"@,
        ),
{
}

/// A run showing health, given a parsed answer, queues the end of progress,
/// then the report with its counts, then the log.
pub proof fn law_health_command_shows_counts(s: SessionState, r: Reply, h: JsonView, sessions: u64)
    requires
        s.stage == Phase::Health,
        !s.json,
        r.msg_type != "cancel"@,
        exec_output(r).len() > 0,
        json_document(exec_output(r)) == Some(h),
        unsigned_value(member(Some(h), "activeSessions"@)) == Some(sessions),
    ensures
        resume_run(s, r).1.emits.len() >= 5,
        resume_run(s, r).1.emits[resume_run(s, r).1.emits.len() - 3] == output_message(
            "  Active sessions: "@ + decimal(sessions as nat) + "\n"@,
        ),
        resume_run(s, r).1.emits[resume_run(s, r).1.emits.len() - 2] == output_message("\n"@),
        resume_run(s, r).1.emits.last() == completion_log(s.command),
{
    law_health_counts_are_shown(Some(h));
    let e = resume_run(s, r).1.emits;
    let d = health_details(Some(h));
    assert(e == seq![crate::session::progress_done()] + d + seq![completion_log(s.command)]);
    assert(e[e.len() - 3] == d[d.len() - 2]);
    assert(e[e.len() - 2] == d[d.len() - 1]);
}

/// Picking an agent: the task is posted for the agent the user chose, and
/// only a reply without a string falls back to the first listed name.
pub proof fn law_chosen_agent_gets_the_task(s: SessionState, r: Reply, description: Seq<char>, names: Seq<Seq<char>>)
    requires
        s.stage == (Phase::WorkAssign { description, names }),
        r.msg_type != "cancel"@,
    ensures
        ({
            let agent = match string_value(reply_value(r)) {
                Some(a) => a,
                None => names[0],
            };
            &&& resume_run(s, r).1.next == Then::Await(
                exec_message(
                    id_text(s.counter),
                    curl_post_command(
                        s.base_url + "/api/work-tasks"@,
                        json_object_text(seq![("description"@, description), ("agentName"@, agent)]),
                    ),
                ),
            )
            &&& resume_run(s, r).0.stage == (Phase::WorkCreated { description, agent })
        }),
        string_value(reply_value(r)) matches Some(a) ==> resume_run(s, r).0.stage == (Phase::WorkCreated {
            description,
            agent: a,
        }),
{
}

/// `chat MESSAGE --json` shows the server's answer as it came, and
/// `{"status":"sent"}` only where the answer is empty; without `--json` it
/// says the message was sent, or shows the answer indented.
pub proof fn law_sent_chat_shows_the_answer(s: SessionState, r: Reply)
    requires
        s.stage == Phase::ChatSent,
        r.msg_type != "cancel"@,
    ensures
        ({
            let a = exec_output(r);
            let shown = if s.json {
                if a.len() > 0 {
                    a + "\n"@
                } else {
                    "{\"status\":\"sent\"}\n"@
                }
            } else if a.len() > 0 {
                "  "@ + a + "\n"@
            } else {
                "  Message sent.\n"@
            };
            &&& resume_run(s, r).1.emits == seq![output_message(shown), completion_log(s.command)]
            &&& resume_run(s, r).1.next == Then::Finish
        }),
{
}

/// `config` saves the URL typed at its prompt, whatever URL the run uses now;
/// only a reply without a string saves `http://localhost:3000`.
pub proof fn law_prompted_url_is_saved(s: SessionState, r: Reply)
    requires
        s.stage == Phase::ConfigUrl,
        r.msg_type != "cancel"@,
    ensures
        ({
            let u = match string_value(reply_value(r)) {
                Some(t) => t,
                None => DEFAULT_URL@,
            };
            &&& resume_run(s, r).1.emits == seq![
                Emitted::Send(Message::Store { key: URL_KEY@, value: u }),
                output_message("\n  Saved server URL: "@ + u + "\n\n"@),
                completion_log(s.command),
            ]
            &&& resume_run(s, r).1.next == Then::Finish
        }),
        forall|b: Seq<char>| #[trigger] resume_run(SessionState { base_url: b, ..s }, r).1 == resume_run(s, r).1,
{
}

/// A run showing sessions lists the running sessions it got: the header
/// counts all of them, the first twenty get a line each in order, and the
/// run ends with an empty line and the log.
pub proof fn law_sessions_are_listed(s: SessionState, r: Reply, items: Seq<Seq<char>>)
    requires
        s.stage == Phase::Sessions,
        !s.json,
        r.msg_type != "cancel"@,
        exec_output(r).len() > 0,
        json_document(exec_output(r)) == Some(JsonView::Array(items)),
    ensures
        ({
            let e = resume_run(s, r).1.emits;
            let k: int = if items.len() > 20 { 20 } else { items.len() as int };
            &&& e.len() == k + 3
            &&& e[0] == output_message("\n  Running Sessions ("@ + decimal(items.len()) + ")\n\n"@)
            &&& forall|i: int| 0 <= i < k ==> e[i + 1] == session_line(#[trigger] items[i])
            &&& e[k + 1] == output_message("\n"@)
            &&& e[k + 2] == completion_log(s.command)
            &&& resume_run(s, r).1.next == Then::Finish
        }),
{
    let e = resume_run(s, r).1.emits;
    let k: int = if items.len() > 20 { 20 } else { items.len() as int };
    let l = session_list(Some(JsonView::Array(items)));
    assert(e == l + seq![completion_log(s.command)]);
    assert(first_twenty(items).len() == k);
    assert forall|i: int| 0 <= i < k implies e[i + 1] == session_line(#[trigger] items[i]) by {
        assert(e[i + 1] == l[i + 1]);
        assert(first_twenty(items)[i] == items[i]);
    }
}

/// A line of the session list: the id, the agent padded to 16 columns, and
/// the cost after a dollar sign; `?` stands for a missing id or agent.
pub proof fn law_session_line(item: Seq<char>)
    ensures
        session_line(item) == Emitted::Show(
            seq![
                Piece::Text(
                    "  "@ + field_or(json_document(item), "id"@, "?"@) + "  "@ + pad_right(
                        field_or(json_document(item), "agent"@, "?"@),
                        16,
                    ) + " $"@,
                ),
                Piece::Cost(number_text(member(json_document(item), "cost"@))),
                Piece::Text("\n"@),
            ],
        ),
{
}

/// A run listing work tasks shows a header, one line per task in order
/// (id, status in brackets padded to 10, agent padded to 12, description),
/// an empty line, and the log.
pub proof fn law_tasks_are_listed(s: SessionState, r: Reply, items: Seq<Seq<char>>)
    requires
        s.stage == Phase::WorkList,
        !s.json,
        r.msg_type != "cancel"@,
        exec_output(r).len() > 0,
        json_document(exec_output(r)) == Some(JsonView::Array(items)),
    ensures
        ({
            let e = resume_run(s, r).1.emits;
            &&& e.len() == items.len() + 3
            &&& e[0] == output_message("\n  Work Tasks (showing up to 20)\n\n"@)
            &&& forall|i: int| 0 <= i < items.len() ==> e[i + 1] == #[trigger] task_line(items[i])
            &&& e[items.len() + 1int] == output_message("\n"@)
            &&& e[items.len() + 2int] == completion_log(s.command)
            &&& resume_run(s, r).1.next == Then::Finish
        }),
        forall|item: Seq<char>| #[trigger] task_line(item) == output_message(
            "  "@ + field_or(json_document(item), "id"@, "?"@) + "  ["@ + pad_right(
                field_or(json_document(item), "status"@, "?"@),
                10,
            ) + "]  "@ + pad_right(field_or(json_document(item), "agent"@, "?"@), 12) + "  "@ + field_or(
                json_document(item),
                "desc"@,
                Seq::empty(),
            ) + "\n"@,
        ),
{
    let e = resume_run(s, r).1.emits;
    let l = task_list(Some(JsonView::Array(items)));
    assert(e == l + seq![completion_log(s.command)]);
    assert forall|i: int| 0 <= i < items.len() implies e[i + 1] == #[trigger] task_line(items[i]) by {
        assert(e[i + 1] == l[i + 1]);
    }
}

/// With the agent list fetched for a new task: where it names no agent the
/// run says so and ends; an agent given with `--agent` gets the task under
/// its listed spelling, or the run names the available agents and ends;
/// with no agent given the user picks one of the listed names, the first
/// offered by default.
pub proof fn law_task_agent_is_chosen(
    s: SessionState,
    r: Reply,
    description: Seq<char>,
    agent: Option<Seq<char>>,
)
    requires
        s.stage == (Phase::WorkAgents { description, agent }),
        r.msg_type != "cancel"@,
    ensures
        ({
            let names = agent_names(exec_output(r));
            let (t, step) = resume_run(s, r);
            &&& names.len() == 0 ==> step == StepView {
                emits: seq![output_message("  No agents available.\n"@), completion_log(s.command)],
                next: Then::Finish,
            }
            &&& names.len() > 0 && agent is None ==> step.next == Then::Await(
                Message::Select {
                    id: id_text(s.counter),
                    message: "Assign to agent:"@,
                    options: names,
                    default: Some(0),
                },
            ) && t.stage == (Phase::WorkAssign { description, names }) && step.emits.len() == 0
            &&& names.len() > 0 && agent is Some && matching_name(names, agent->0) is None ==> step == StepView {
                emits: seq![
                    output_message(
                        "  Unknown agent: "@ + agent->0 + "\n  Available: "@ + join(names, ", "@) + "\n"@,
                    ),
                    completion_log(s.command),
                ],
                next: Then::Finish,
            }
            &&& names.len() > 0 && agent is Some && matching_name(names, agent->0) is Some ==> step.next
                == Then::Await(
                exec_message(
                    id_text(s.counter),
                    curl_post_command(
                        s.base_url + "/api/work-tasks"@,
                        json_object_text(
                            seq![("description"@, description), ("agentName"@, matching_name(names, agent->0)->0)],
                        ),
                    ),
                ),
            ) && t.stage == (Phase::WorkCreated { description, agent: matching_name(names, agent->0)->0 })
        }),
{
    let names = agent_names(exec_output(r));
    let step = resume_run(s, r).1;
    if names.len() == 0 {
        assert(step.emits =~= seq![output_message("  No agents available.\n"@), completion_log(s.command)]);
    } else if agent is Some && matching_name(names, agent->0) is None {
        let a = agent->0;
        assert(step.emits =~= seq![
            output_message("  Unknown agent: "@ + a + "\n  Available: "@ + join(names, ", "@) + "\n"@),
            completion_log(s.command),
        ]);
    }
}

/// The description typed at the prompt of `work create` is the task's: an
/// empty one (or none) cancels the run; otherwise the agent list is
/// fetched next.
pub proof fn law_typed_description_is_used(s: SessionState, r: Reply, agent: Option<Seq<char>>)
    requires
        s.stage == (Phase::WorkDescription { agent }),
        r.msg_type != "cancel"@,
    ensures
        ({
            let (t, step) = resume_run(s, r);
            let typed = string_value(reply_value(r));
            &&& typed is Some && typed->0.len() > 0 ==> step.next == Then::Await(
                exec_message(id_text(s.counter), "curl -s '"@ + s.base_url + "/api/agents'"@),
            ) && t.stage == (Phase::WorkAgents { description: typed->0, agent })
            &&& (string_value(reply_value(r)) is None || string_value(reply_value(r)) == Some(Seq::<char>::empty()))
                ==> step == StepView {
                emits: seq![
                    output_message("  Cancelled \u{2014} no description provided.\n"@),
                    completion_log(s.command),
                ],
                next: Then::Finish,
            }
        }),
{
    let (t, step) = resume_run(s, r);
    assert(crate::protocol::curl_command(s.base_url + "/api/agents"@) =~= "curl -s '"@ + s.base_url
        + "/api/agents'"@) by {
        reveal_strlit("/api/agents");
        reveal_strlit("/api/agents'");
        reveal_strlit("'");
    }
    let typed = string_value(reply_value(r));
    if typed is None || typed == Some(Seq::<char>::empty()) {
        assert(crate::protocol::text_or_empty(typed).len() == 0);
        assert(step.emits =~= seq![
            output_message("  Cancelled \u{2014} no description provided.\n"@),
            completion_log(s.command),
        ]);
    }
}

/// A created task is reported with its id (`?` where the answer has none),
/// its agent and its description; `--json` shows the answer as it came, and
/// an answer that is not JSON is shown as it came.
pub proof fn law_created_task_is_reported(s: SessionState, r: Reply, description: Seq<char>, agent: Seq<char>)
    requires
        s.stage == (Phase::WorkCreated { description, agent }),
        r.msg_type != "cancel"@,
    ensures
        ({
            let a = exec_output(r);
            let shown = match json_document(a) {
                Some(d) => if s.json {
                    a + "\n"@
                } else {
                    "\n  Work task created: "@ + or_else(string_value(member(Some(d), "id"@)), "?"@) + "\n  Agent: "@
                        + agent + "\n  Description: "@ + description + "\n\n"@
                },
                None => "  Response: "@ + a + "\n"@,
            };
            resume_run(s, r).1 == StepView {
                emits: seq![crate::session::progress_done(), output_message(shown), completion_log(s.command)],
                next: Then::Finish,
            }
        }),
{
    let a = exec_output(r);
    let shown = crate::reports::created_report(a, description, agent, s.json);
    assert(resume_run(s, r).1.emits =~= seq![
        crate::session::progress_done(),
        output_message(shown),
        completion_log(s.command),
    ]);
}

/// After the restart request, the run shows what the server said, or that
/// the signal was sent where it said nothing.
pub proof fn law_restart_answer_is_shown(s: SessionState, r: Reply)
    requires
        s.stage == Phase::Restarted,
        r.msg_type != "cancel"@,
    ensures
        resume_run(s, r).1 == (StepView {
            emits: seq![
                crate::session::progress_done(),
                output_message(
                    if exec_output(r).len() == 0 {
                        "  Restart signal sent.\n"@
                    } else {
                        "  "@ + exec_output(r) + "\n"@
                    },
                ),
                completion_log(s.command),
            ],
            next: Then::Finish,
        }),
{
    let a = exec_output(r);
    let shown = if a.len() == 0 {
        "  Restart signal sent.\n"@
    } else {
        "  "@ + a + "\n"@
    };
    assert(resume_run(s, r).1.emits =~= seq![
        crate::session::progress_done(),
        output_message(shown),
        completion_log(s.command),
    ]);
}

/// Without `--json`, a listing the server did not answer says the server is
/// not reachable; an answer that is not JSON is shown as it came (or the
/// listing says it could not parse it); JSON of another shape than the
/// listing expects is shown as it came, or called unexpected.
pub proof fn law_unexpected_answers_are_reported(raw: Seq<char>)
    ensures
        raw.len() == 0 ==> health_report(raw, false) == seq![output_message("  Server is not reachable.\n"@)],
        raw.len() == 0 ==> agents_report(raw, false) == seq![output_message("  Server not reachable.\n"@)],
        raw.len() == 0 ==> sessions_report(raw, false) == seq![output_message("  Server not reachable.\n"@)],
        raw.len() == 0 ==> work_list_report(raw, false) == seq![output_message("  Server not reachable.\n"@)],
        raw.len() == 0 ==> conversations_report(raw, false) == (
            seq![output_message("  Server not reachable.\n"@)],
            None::<Seq<char>>,
        ),
        raw.len() > 0 && json_document(raw) is None ==> health_report(raw, false) == seq![
            output_message("  Raw response: "@ + raw + "\n"@),
        ],
        raw.len() > 0 && json_document(raw) is None ==> agents_report(raw, false) == seq![
            output_message("  Raw: "@ + raw + "\n"@),
        ],
        raw.len() > 0 && json_document(raw) is None ==> sessions_report(raw, false) == seq![
            output_message("  Failed to parse sessions.\n"@),
        ],
        raw.len() > 0 && json_document(raw) is None ==> work_list_report(raw, false) == seq![
            output_message("  Failed to parse work tasks.\n"@),
        ],
        raw.len() > 0 && json_document(raw) is None ==> conversations_report(raw, false) == (
            seq![output_message("  Raw: "@ + raw + "\n"@)],
            None::<Seq<char>>,
        ),
        raw.len() > 0 && json_document(raw) is Some && !(json_document(raw)->0 is Array) ==> sessions_report(raw, false)
            == seq![output_message("  Unexpected response format.\n"@)],
        raw.len() > 0 && json_document(raw) is Some && !(json_document(raw)->0 is Array) ==> work_list_report(raw, false)
            == seq![output_message("  Unexpected response format.\n"@)],
        raw.len() > 0 && json_document(raw) is Some && !(json_document(raw)->0 is Array) && elements(
            member(json_document(raw), "agents"@),
        ) is None ==> agents_report(raw, false) == seq![output_message("  Response: "@ + raw + "\n"@)],
        raw.len() > 0 && json_document(raw) is Some && !(json_document(raw)->0 is Array) && elements(
            member(json_document(raw), "conversations"@),
        ) is None ==> conversations_report(raw, false) == (
            seq![output_message("  Response: "@ + raw + "\n"@)],
            None::<Seq<char>>,
        ),
{
}

/// The health report opens with the server's status (`unknown` where it
/// gives none) and its uptime in hours and minutes.
pub proof fn law_health_header(h: Option<JsonView>)
    ensures
        health_details(h)[0] == Emitted::Show(
            seq![
                Piece::Text("\n  Server Health\n  Status:  "@ + field_or(h, "status"@, "unknown"@) + "\n  Uptime:  "@),
                Piece::UptimeHours(number_text(member(h, "uptime"@))),
                Piece::Text("h "@),
                Piece::UptimeMinutes(number_text(member(h, "uptime"@))),
                Piece::Text("m\n\n"@),
            ],
        ),
        string_value(member(h, "status"@)) is None ==> field_or(h, "status"@, "unknown"@) == "unknown"@,
        string_value(member(h, "status"@)) is Some ==> field_or(h, "status"@, "unknown"@) == string_value(
            member(h, "status"@),
        )->0,
{
}

/// A conversation is shown with its other party (`contactName`, else
/// `from`, else `?`) and its last message (`lastMessage`, else `text`, else
/// `content`, else nothing).
pub proof fn law_conversation_fields(c: Option<JsonView>)
    ensures
        string_value(member(c, "contactName"@)) is Some ==> conversation_contact(c) == string_value(
            member(c, "contactName"@),
        )->0,
        string_value(member(c, "contactName"@)) is None && string_value(member(c, "from"@)) is Some
            ==> conversation_contact(c) == string_value(member(c, "from"@))->0,
        string_value(member(c, "contactName"@)) is None && string_value(member(c, "from"@)) is None
            ==> conversation_contact(c) == "?"@,
        string_value(member(c, "lastMessage"@)) is Some ==> conversation_message(c) == string_value(
            member(c, "lastMessage"@),
        )->0,
        string_value(member(c, "lastMessage"@)) is None && string_value(member(c, "text"@)) is Some
            ==> conversation_message(c) == string_value(member(c, "text"@))->0,
        string_value(member(c, "lastMessage"@)) is None && string_value(member(c, "text"@)) is None && string_value(
            member(c, "content"@),
        ) is Some ==> conversation_message(c) == string_value(member(c, "content"@))->0,
        string_value(member(c, "lastMessage"@)) is None && string_value(member(c, "text"@)) is None && string_value(
            member(c, "content"@),
        ) is None ==> conversation_message(c) == Seq::<char>::empty(),
{
    reveal_with_fuel(crate::reports::first_field, 4);
    let contacts: Seq<Seq<char>> = seq!["contactName"@, "from"@];
    let texts: Seq<Seq<char>> = seq!["lastMessage"@, "text"@, "content"@];
    assert(contacts.drop_first() =~= seq!["from"@]);
    assert(contacts.drop_first().drop_first() =~= Seq::<Seq<char>>::empty());
    assert(texts.drop_first() =~= seq!["text"@, "content"@]);
    assert(texts.drop_first().drop_first() =~= seq!["content"@]);
    assert(texts.drop_first().drop_first().drop_first() =~= Seq::<Seq<char>>::empty());
}

/// Conversations whose last messages fit in 60 bytes are each shown whole.
proof fn lemma_short_conversations(items: Seq<Seq<char>>)
    requires
        forall|i: int| 0 <= i < items.len() ==> utf8_len(conversation_message(json_document(#[trigger] items[i]))) <= 60,
    ensures
        conversation_lines(items).1 is None,
        conversation_lines(items).0.len() == items.len(),
        forall|i: int| 0 <= i < items.len() ==> conversation_lines(items).0[i] == output_message(
            "  ["@ + conversation_contact(json_document(#[trigger] items[i])) + "] "@ + conversation_message(
                json_document(items[i]),
            ) + "\n"@,
        ),
    decreases items.len(),
{
    if items.len() > 0 {
        let rest = items.drop_first();
        assert forall|i: int| 0 <= i < rest.len() implies utf8_len(
            conversation_message(json_document(#[trigger] rest[i])),
        ) <= 60 by {
            assert(rest[i] == items[i + 1]);
        }
        lemma_short_conversations(rest);
        law_preview_is_short(conversation_message(json_document(items[0])));
        let l = conversation_lines(items).0;
        assert forall|i: int| 0 <= i < items.len() implies l[i] == output_message(
            "  ["@ + conversation_contact(json_document(#[trigger] items[i])) + "] "@ + conversation_message(
                json_document(items[i]),
            ) + "\n"@,
        ) by {
            if i > 0 {
                assert(rest[i - 1] == items[i]);
            }
        }
    }
}

/// A run listing conversations whose last messages fit in 60 bytes: the
/// header counts all conversations, the first twenty get a line each with
/// the other party in brackets and the message, and the run ends with an
/// empty line and the log.
pub proof fn law_conversations_are_listed(s: SessionState, r: Reply, items: Seq<Seq<char>>)
    requires
        s.stage == Phase::Conversations,
        !s.json,
        r.msg_type != "cancel"@,
        exec_output(r).len() > 0,
        json_document(exec_output(r)) == Some(JsonView::Array(items)),
        forall|i: int| 0 <= i < items.len() && i < 20 ==> utf8_len(
            conversation_message(json_document(#[trigger] items[i])),
        ) <= 60,
    ensures
        ({
            let e = resume_run(s, r).1.emits;
            let k: int = if items.len() > 20 { 20 } else { items.len() as int };
            &&& e.len() == k + 3
            &&& e[0] == output_message("\n  AlgoChat Conversations ("@ + decimal(items.len()) + ")\n\n"@)
            &&& forall|i: int| 0 <= i < k ==> e[i + 1] == output_message(
                "  ["@ + conversation_contact(json_document(#[trigger] items[i])) + "] "@ + conversation_message(
                    json_document(items[i]),
                ) + "\n"@,
            )
            &&& e[k + 1] == output_message("\n"@)
            &&& e[k + 2] == completion_log(s.command)
            &&& resume_run(s, r).1.next == Then::Finish
        }),
{
    let k: int = if items.len() > 20 { 20 } else { items.len() as int };
    let firsts = first_twenty(items);
    assert(firsts.len() == k);
    assert forall|i: int| 0 <= i < firsts.len() implies utf8_len(
        conversation_message(json_document(#[trigger] firsts[i])),
    ) <= 60 by {
        assert(firsts[i] == items[i]);
    }
    lemma_short_conversations(firsts);
    let lines = conversation_lines(firsts);
    let header = seq![output_message("\n  AlgoChat Conversations ("@ + decimal(items.len()) + ")\n\n"@)];
    let e = resume_run(s, r).1.emits;
    assert(e == header + lines.0 + seq![output_message("\n"@)] + seq![completion_log(s.command)]);
    assert forall|i: int| 0 <= i < k implies e[i + 1] == output_message(
        "  ["@ + conversation_contact(json_document(#[trigger] items[i])) + "] "@ + conversation_message(
            json_document(items[i]),
        ) + "\n"@,
    ) by {
        assert(e[i + 1] == lines.0[i]);
        assert(firsts[i] == items[i]);
    }
}

/// `curl -s 'URL'` for the server URL `base` followed by `path`.
proof fn lemma_curl_url(base: Seq<char>, path: Seq<char>)
    ensures
        crate::protocol::curl_command(base + path) == "curl -s '"@ + base + path + "'"@,
{
    assert(crate::protocol::curl_command(base + path) =~= "curl -s '"@ + base + path + "'"@);
}

/// Each listing command first runs its request against the server URL the
/// run uses: `health` (showing progress) asks `/api/health`, `agents` asks
/// `/api/agents`, `sessions` runs the running-session filter over
/// `/api/sessions`, and `chat` without a message asks for the
/// conversations; `chat` with a message posts the words, joined by
/// spaces, to `/api/algochat/send`.
pub proof fn law_listing_commands_start(s: SessionState, r: Reply)
    requires
        s.stage is LoadingUrl,
        r.msg_type != "cancel"@,
    ensures
        ({
            let b = base_url_of(r);
            let c = s.counter;
            let (t, step) = resume_run(s, r);
            &&& s.command == "health"@ ==> step == StepView {
                emits: seq![crate::session::progress_start("Checking server health"@)],
                next: Then::Await(
                    Message::Exec {
                        id: id_text(c),
                        command: "curl -s '"@ + b + "/api/health"@ + "'"@,
                        cwd: None,
                        timeout: Some(30),
                    },
                ),
            } && t.stage is Health
            &&& s.command == "agents"@ ==> step == StepView {
                emits: Seq::empty(),
                next: Then::Await(
                    Message::Exec {
                        id: id_text(c),
                        command: "curl -s '"@ + b + "/api/agents"@ + "'"@,
                        cwd: None,
                        timeout: Some(30),
                    },
                ),
            } && t.stage is Agents
            &&& s.command == "sessions"@ ==> step == StepView {
                emits: Seq::empty(),
                next: Then::Await(
                    Message::Exec {
                        id: id_text(c),
                        command: "curl -s '"@ + b + crate::session::SESSIONS_FILTER@,
                        cwd: None,
                        timeout: Some(30),
                    },
                ),
            } && t.stage is Sessions
            &&& s.command == "chat"@ && s.rest.len() == 0 ==> step == StepView {
                emits: Seq::empty(),
                next: Then::Await(
                    Message::Exec {
                        id: id_text(c),
                        command: "curl -s '"@ + b + "/api/algochat/conversations"@ + "'"@,
                        cwd: None,
                        timeout: Some(30),
                    },
                ),
            } && t.stage is Conversations
            &&& s.command == "chat"@ && s.rest.len() > 0 ==> step == StepView {
                emits: Seq::empty(),
                next: Then::Await(
                    Message::Exec {
                        id: id_text(c),
                        command: curl_post_command(
                            b + "/api/algochat/send"@,
                            json_object_text(seq![("message"@, join(s.rest, " "@))]),
                        ),
                        cwd: None,
                        timeout: Some(30),
                    },
                ),
            } && t.stage is ChatSent
            &&& s.command == "work"@ && s.rest.len() > 0 && s.rest[0] == "list"@ ==> step == StepView {
                emits: Seq::empty(),
                next: Then::Await(
                    Message::Exec {
                        id: id_text(c),
                        command: "curl -s '"@ + b + crate::session::TASKS_FILTER@,
                        cwd: None,
                        timeout: Some(30),
                    },
                ),
            } && t.stage is WorkList
        }),
{
    reveal_strlit("health");
    reveal_strlit("status");
    reveal_strlit("agents");
    reveal_strlit("sessions");
    reveal_strlit("work");
    reveal_strlit("chat");
    reveal_strlit("list");
    let b = base_url_of(r);
    lemma_curl_url(b, "/api/health"@);
    lemma_curl_url(b, "/api/agents"@);
    lemma_curl_url(b, "/api/algochat/conversations"@);
    assert("agents"@[0] != "health"@[0] && "agents"@[0] != "status"@[0]);
    assert("chat"@[0] != "work"@[0]);
}

/// The other commands: `help` shows the help; an unknown command is named
/// before the help; `work` with an unknown subcommand names it and shows
/// the usage; `config` with a URL saves it at once and otherwise prompts
/// for one, offering `http://localhost:3000`; `restart --yes` posts the
/// restart at once; `work create` with description words fetches the
/// agent list for the description made of them, joined by spaces, and
/// without them prompts for a description.
pub proof fn law_other_commands_start(s: SessionState, r: Reply)
    requires
        s.stage is LoadingUrl,
        r.msg_type != "cancel"@,
    ensures
        ({
            let b = base_url_of(r);
            let c = s.counter;
            let (t, step) = resume_run(s, r);
            let args = s.rest.skip(1);
            &&& s.command == "help"@ ==> step == StepView {
                emits: seq![output_message(crate::session::HELP_TEXT@), completion_log(s.command)],
                next: Then::Finish,
            }
            &&& s.command != "health"@ && s.command != "status"@ && s.command != "agents"@ && s.command
                != "sessions"@ && s.command != "work"@ && s.command != "chat"@ && s.command != "restart"@
                && s.command != "config"@ && s.command != "help"@ && s.command != "--help"@ && s.command
                != "-h"@ ==> step == StepView {
                emits: seq![
                    output_message("  Unknown command: "@ + s.command + "\n"@),
                    output_message(crate::session::HELP_TEXT@),
                    completion_log(s.command),
                ],
                next: Then::Finish,
            }
            &&& s.command == "work"@ && s.rest.len() > 0 && s.rest[0] != "list"@ && s.rest[0] != "create"@
                ==> step == StepView {
                emits: seq![
                    output_message(
                        "  Unknown work subcommand: "@ + s.rest[0] + "\n  Usage: corvid-agent work [list|create]\n"@,
                    ),
                    completion_log(s.command),
                ],
                next: Then::Finish,
            }
            &&& s.command == "config"@ && crate::flags::config_scan(s.rest, None) is Some ==> step == StepView {
                emits: seq![
                    Emitted::Send(
                        Message::Store { key: URL_KEY@, value: crate::flags::config_scan(s.rest, None)->0 },
                    ),
                    output_message(
                        "\n  Saved server URL: "@ + crate::flags::config_scan(s.rest, None)->0 + "\n\n"@,
                    ),
                    completion_log(s.command),
                ],
                next: Then::Finish,
            }
            &&& s.command == "config"@ && crate::flags::config_scan(s.rest, None) is None ==> step == StepView {
                emits: Seq::empty(),
                next: Then::Await(
                    Message::Prompt {
                        id: id_text(c),
                        message: "CorvidAgent server URL:"@,
                        default: Some(DEFAULT_URL@),
                        validate: None,
                    },
                ),
            } && t.stage is ConfigUrl
            &&& s.command == "restart"@ && s.yes ==> step == StepView {
                emits: seq![crate::session::progress_start("Restarting server"@)],
                next: Then::Await(
                    Message::Exec {
                        id: id_text(c),
                        command: curl_post_command(b + "/api/system/restart"@, "{}"@),
                        cwd: None,
                        timeout: Some(30),
                    },
                ),
            } && t.stage is Restarted
            &&& s.command == "work"@ && s.rest.len() > 0 && s.rest[0] == "create"@ && work_words(args).len() > 0
                && join(work_words(args), " "@).len() > 0 ==> step == StepView {
                emits: Seq::empty(),
                next: Then::Await(
                    Message::Exec {
                        id: id_text(c),
                        command: "curl -s '"@ + b + "/api/agents"@ + "'"@,
                        cwd: None,
                        timeout: Some(30),
                    },
                ),
            } && t.stage == (Phase::WorkAgents {
                description: join(work_words(args), " "@),
                agent: work_agent(args),
            })
            &&& s.command == "work"@ && s.rest.len() > 0 && s.rest[0] == "create"@ && work_words(args).len() == 0
                ==> step == StepView {
                emits: Seq::empty(),
                next: Then::Await(
                    Message::Prompt {
                        id: id_text(c),
                        message: "Task description:"@,
                        default: None,
                        validate: Some("non_empty"@),
                    },
                ),
            } && t.stage == (Phase::WorkDescription { agent: work_agent(args) })
        }),
{
    reveal_strlit("health");
    reveal_strlit("status");
    reveal_strlit("agents");
    reveal_strlit("sessions");
    reveal_strlit("work");
    reveal_strlit("chat");
    reveal_strlit("restart");
    reveal_strlit("config");
    reveal_strlit("help");
    reveal_strlit("list");
    reveal_strlit("create");
    reveal_strlit(" ");
    let b = base_url_of(r);
    lemma_curl_url(b, "/api/agents"@);
    assert("help"@[0] != "work"@[0] && "help"@[0] != "chat"@[0]);
    assert("config"@[0] != "health"@[0] && "config"@[0] != "status"@[0] && "config"@[0] != "agents"@[0]);
    let e = resume_run(s, r).1.emits;
    let log = completion_log(s.command);
    let help = output_message(crate::session::HELP_TEXT@);
    if s.command == "help"@ {
        assert(e =~= seq![help, log]);
    } else if s.command == "work"@ {
        if s.rest.len() > 0 && s.rest[0] != "list"@ && s.rest[0] != "create"@ {
            assert(e =~= seq![
                output_message(
                    "  Unknown work subcommand: "@ + s.rest[0] + "\n  Usage: corvid-agent work [list|create]\n"@,
                ),
                log,
            ]);
        }
    } else if s.command == "config"@ {
        if crate::flags::config_scan(s.rest, None) is Some {
            let u = crate::flags::config_scan(s.rest, None)->0;
            assert(e =~= seq![
                Emitted::Send(Message::Store { key: URL_KEY@, value: u }),
                output_message("\n  Saved server URL: "@ + u + "\n\n"@),
                log,
            ]);
        }
    } else if s.command != "health"@ && s.command != "status"@ && s.command != "agents"@ && s.command
        != "sessions"@ && s.command != "chat"@ && s.command != "restart"@ && s.command != "--help"@
        && s.command != "-h"@ {
        assert(e =~= seq![output_message("  Unknown command: "@ + s.command + "\n"@), help, log]);
    }
}

// ---------------------------------------------------------------------------
// Text
// ---------------------------------------------------------------------------

/// Trimming takes off white space at both ends and nothing else: what is
/// left is a contiguous part of the text that neither starts nor ends with
/// white space, and all that was taken off is white space.
pub proof fn law_trim_takes_only_white_space(t: Seq<char>)
    ensures
        exists|i: int, j: int|
            0 <= i <= j <= t.len() && #[trigger] t.subrange(i, j) == crate::text::trim(t) && (forall|k: int|
                0 <= k < i ==> crate::text::is_white_space(#[trigger] t[k])) && (forall|k: int|
                j <= k < t.len() ==> crate::text::is_white_space(#[trigger] t[k])),
        crate::text::trim(t).len() > 0 ==> !crate::text::is_white_space(crate::text::trim(t)[0])
            && !crate::text::is_white_space(crate::text::trim(t).last()),
{
    let i = lemma_trim_start(t);
    let u = crate::text::trim_start(t);
    let j = lemma_trim_end(u);
    assert(t.subrange(i, i + j) =~= u.subrange(0, j));
    assert forall|k: int| i + j <= k < t.len() implies crate::text::is_white_space(#[trigger] t[k]) by {
        assert(t[k] == u[k - i]);
    }
    if crate::text::trim(t).len() > 0 {
        assert(crate::text::trim(t)[0] == u[0]);
    }
}

/// Where `trim_start` starts in `t`.
proof fn lemma_trim_start(t: Seq<char>) -> (i: int)
    ensures
        0 <= i <= t.len(),
        crate::text::trim_start(t) == t.subrange(i, t.len() as int),
        forall|k: int| 0 <= k < i ==> crate::text::is_white_space(#[trigger] t[k]),
        crate::text::trim_start(t).len() > 0 ==> !crate::text::is_white_space(crate::text::trim_start(t)[0]),
    decreases t.len(),
{
    if t.len() > 0 && crate::text::is_white_space(t[0]) {
        let i = lemma_trim_start(t.drop_first());
        assert(t.drop_first().subrange(i, t.drop_first().len() as int) =~= t.subrange(i + 1, t.len() as int));
        assert forall|k: int| 0 <= k < i + 1 implies crate::text::is_white_space(#[trigger] t[k]) by {
            if k > 0 {
                assert(t[k] == t.drop_first()[k - 1]);
            }
        }
        i + 1
    } else {
        assert(t.subrange(0, t.len() as int) =~= t);
        0
    }
}

/// Where `trim_end` ends in `t`.
proof fn lemma_trim_end(t: Seq<char>) -> (j: int)
    ensures
        0 <= j <= t.len(),
        crate::text::trim_end(t) == t.subrange(0, j),
        forall|k: int| j <= k < t.len() ==> crate::text::is_white_space(#[trigger] t[k]),
        crate::text::trim_end(t).len() > 0 ==> !crate::text::is_white_space(crate::text::trim_end(t).last()),
    decreases t.len(),
{
    if t.len() > 0 && crate::text::is_white_space(t.last()) {
        let j = lemma_trim_end(t.drop_last());
        assert(t.drop_last().subrange(0, j) =~= t.subrange(0, j));
        assert forall|k: int| j <= k < t.len() implies crate::text::is_white_space(#[trigger] t[k]) by {
            if k < t.len() - 1 {
                assert(t[k] == t.drop_last()[k]);
            }
        }
        j
    } else {
        assert(t.subrange(0, t.len() as int) =~= t);
        t.len() as int
    }
}

/// Padding to a width keeps the text in front and fills up to the width
/// with spaces; a text as wide or wider is kept as it is.
pub proof fn law_padding(t: Seq<char>, width: nat)
    ensures
        pad_right(t, width).len() == if t.len() < width { width } else { t.len() },
        pad_right(t, width).take(t.len() as int) == t,
        forall|k: int| t.len() <= k < pad_right(t, width).len() ==> #[trigger] pad_right(t, width)[k] == ' ',
{
    assert(pad_right(t, width).take(t.len() as int) =~= t);
}

/// The value of a string of decimal digits.
pub open spec fn digits_value(t: Seq<char>) -> nat
    decreases t.len(),
{
    if t.len() == 0 {
        0
    } else {
        digits_value(t.drop_last()) * 10 + ((t.last() as nat) - 48) as nat
    }
}

/// Numbers are written in decimal: only digits, no leading zero, and the
/// digits read back as the number.
pub proof fn law_decimal_reads_back(n: nat)
    ensures
        decimal(n).len() > 0,
        forall|k: int| 0 <= k < decimal(n).len() ==> '0' <= #[trigger] decimal(n)[k] <= '9',
        decimal(n)[0] == '0' ==> n == 0,
        digits_value(decimal(n)) == n,
    decreases n,
{
    if n < 10 {
        assert(digit_char(n) as nat == n + 48);
        assert(decimal(n).drop_last() =~= Seq::<char>::empty());
        assert(digits_value(Seq::<char>::empty()) == 0);
        assert(digits_value(decimal(n)) == digits_value(decimal(n).drop_last()) * 10 + ((decimal(n).last() as nat)
            - 48) as nat);
    } else {
        law_decimal_reads_back(n / 10);
        let d = (n % 10) as nat;
        assert(digit_char(d) as nat == d + 48);
        assert(decimal(n).drop_last() =~= decimal(n / 10));
        assert(decimal(n)[0] == decimal(n / 10)[0]);
        assert(decimal(n).last() == digit_char(d));
        assert(digits_value(decimal(n)) == digits_value(decimal(n / 10)) * 10 + d);
        assert(n == (n / 10) * 10 + d);
    }
}

// ---------------------------------------------------------------------------
// config
// ---------------------------------------------------------------------------

/// `config --url URL` and `config URL` give the URL to save; the last
/// `--url` wins; a lone `--url`, or no argument, gives none.
pub proof fn law_config_url_arguments(u: Seq<char>, v: Seq<char>)
    ensures
        crate::flags::config_scan(seq!["--url"@, u], None) == Some(u),
        !starts_with_dash(u) ==> crate::flags::config_scan(seq![u], None) == Some(u),
        crate::flags::config_scan(seq!["--url"@, u, "--url"@, v], None) == Some(v),
        crate::flags::config_scan(Seq::empty(), None) is None,
        crate::flags::config_scan(seq!["--url"@], None) is None,
{
    reveal_strlit("--url");
    reveal_with_fuel(crate::flags::config_scan, 3);
    let a: Seq<Seq<char>> = seq!["--url"@, u];
    assert(a.skip(2) =~= Seq::<Seq<char>>::empty());
    let b: Seq<Seq<char>> = seq!["--url"@, u, "--url"@, v];
    assert(b.skip(2) =~= seq!["--url"@, v]);
    assert(b.skip(2).skip(2) =~= Seq::<Seq<char>>::empty());
    let c: Seq<Seq<char>> = seq![u];
    assert(c.drop_first() =~= Seq::<Seq<char>>::empty());
    if !starts_with_dash(u) {
        assert(u != "--url"@);
    }
    let l: Seq<Seq<char>> = seq!["--url"@];
    assert(l.drop_first() =~= Seq::<Seq<char>>::empty());
    assert(starts_with_dash("--url"@));
}

// ---------------------------------------------------------------------------
// Replies
// ---------------------------------------------------------------------------

/// What a shell command printed is read from the string member `stdout` of
/// the reply's value, trimmed; a reply without one counts as no output.
pub proof fn law_command_output(r: Reply)
    ensures
        string_value(member(reply_value(r), "stdout"@)) is Some ==> exec_output(r) == crate::text::trim(
            string_value(member(reply_value(r), "stdout"@))->0,
        ),
        string_value(member(reply_value(r), "stdout"@)) is None ==> exec_output(r) == Seq::<char>::empty(),
{
    reveal_with_fuel(crate::text::trim_start, 2);
    reveal_with_fuel(crate::text::trim_end, 2);
}

/// A run without a command is a run of `help`; the arguments after the
/// command are the command's.
pub proof fn law_help_is_the_default(args: Seq<Seq<char>>)
    ensures
        positional_args(args).len() == 0 ==> start_run(args).0.command == "help"@,
        positional_args(args).len() > 0 ==> start_run(args).0.command == positional_args(args)[0]
            && start_run(args).0.rest == positional_args(args).skip(1),
        start_run(args).0.stage is LoadingUrl,
        start_run(args).1.emits.len() == 0,
{
    if positional_args(args).len() == 1 {
        assert(positional_args(args).skip(1) =~= Seq::<Seq<char>>::empty());
    }
}

/// The lines of conversations up to one whose message cannot be cut, and
/// the failure of that one.
proof fn lemma_conversations_until_failure(items: Seq<Seq<char>>, j: int)
    requires
        0 <= j < items.len(),
        forall|i: int| 0 <= i < j ==> utf8_len(conversation_message(json_document(#[trigger] items[i]))) <= 60,
        message_preview(conversation_message(json_document(items[j]))) is None,
    ensures
        conversation_lines(items).1 == Some(crate::reports::conversation_failure(items[j])),
        conversation_lines(items).0.len() == j,
        forall|i: int| 0 <= i < j ==> conversation_lines(items).0[i] == output_message(
            "  ["@ + conversation_contact(json_document(#[trigger] items[i])) + "] "@ + conversation_message(
                json_document(items[i]),
            ) + "\n"@,
        ),
    decreases j,
{
    if j > 0 {
        let rest = items.drop_first();
        assert forall|i: int| 0 <= i < j - 1 implies utf8_len(
            conversation_message(json_document(#[trigger] rest[i])),
        ) <= 60 by {
            assert(rest[i] == items[i + 1]);
        }
        assert(rest[j - 1] == items[j]);
        lemma_conversations_until_failure(rest, j - 1);
        law_preview_is_short(conversation_message(json_document(items[0])));
        let l = conversation_lines(items).0;
        assert forall|i: int| 0 <= i < j implies l[i] == output_message(
            "  ["@ + conversation_contact(json_document(#[trigger] items[i])) + "] "@ + conversation_message(
                json_document(items[i]),
            ) + "\n"@,
        ) by {
            if i > 0 {
                assert(rest[i - 1] == items[i]);
            }
        }
    }
}

/// A conversation among the first twenty whose last message cannot be cut
/// at byte 60 (the byte falls inside a character) stops the run there, as
/// slicing the string does: the header and the lines before it are shown,
/// and the run fails with the message of that failed cut.
pub proof fn law_uncuttable_message_stops_the_run(s: SessionState, r: Reply, items: Seq<Seq<char>>, j: int)
    requires
        s.stage == Phase::Conversations,
        !s.json,
        r.msg_type != "cancel"@,
        exec_output(r).len() > 0,
        json_document(exec_output(r)) == Some(JsonView::Array(items)),
        0 <= j < items.len(),
        j < 20,
        forall|i: int| 0 <= i < j ==> utf8_len(conversation_message(json_document(#[trigger] items[i]))) <= 60,
        message_preview(conversation_message(json_document(items[j]))) is None,
    ensures
        ({
            let e = resume_run(s, r).1.emits;
            &&& e.len() == j + 1
            &&& e[0] == output_message("\n  AlgoChat Conversations ("@ + decimal(items.len()) + ")\n\n"@)
            &&& forall|i: int| 0 <= i < j ==> e[i + 1] == output_message(
                "  ["@ + conversation_contact(json_document(#[trigger] items[i])) + "] "@ + conversation_message(
                    json_document(items[i]),
                ) + "\n"@,
            )
            &&& resume_run(s, r).1.next == Then::Crash(
                crate::reports::cut_failure(conversation_message(json_document(items[j]))),
            )
            &&& resume_run(s, r).0.stage is Finished
        }),
        utf8_len(conversation_message(json_document(items[j]))) > 60,
{
    let firsts = first_twenty(items);
    assert(firsts[j] == items[j]);
    assert forall|i: int| 0 <= i < j implies utf8_len(
        conversation_message(json_document(#[trigger] firsts[i])),
    ) <= 60 by {
        assert(firsts[i] == items[i]);
    }
    lemma_conversations_until_failure(firsts, j);
    let lines = conversation_lines(firsts);
    let e = resume_run(s, r).1.emits;
    let header = seq![output_message("\n  AlgoChat Conversations ("@ + decimal(items.len()) + ")\n\n"@)];
    assert(e == header + lines.0);
    assert forall|i: int| 0 <= i < j implies e[i + 1] == output_message(
        "  ["@ + conversation_contact(json_document(#[trigger] items[i])) + "] "@ + conversation_message(
            json_document(items[i]),
        ) + "\n"@,
    ) by {
        assert(e[i + 1] == lines.0[i]);
        assert(firsts[i] == items[i]);
    }
}

// ---------------------------------------------------------------------------
// JSON lookups
// ---------------------------------------------------------------------------

/// Looking up a key in an object finds the value of its first member with
/// that key; an object without such a member, or a value that is not an
/// object, has no member of that name.
pub proof fn law_member_lookup(
    before: Seq<(Seq<char>, Seq<char>)>,
    key: Seq<char>,
    text: Seq<char>,
    after: Seq<(Seq<char>, Seq<char>)>,
)
    requires
        forall|i: int| 0 <= i < before.len() ==> (#[trigger] before[i]).0 != key,
    ensures
        member(Some(JsonView::Object(before + seq![(key, text)] + after)), key) == json_document(text),
        member(Some(JsonView::Object(before)), key) is None,
        member(Some(JsonView::Array(before.map_values(|p: (Seq<char>, Seq<char>)| p.1))), key) is None,
        member(None, key) is None,
    decreases before.len(),
{
    if before.len() > 0 {
        let rest = before.drop_first();
        assert forall|i: int| 0 <= i < rest.len() implies (#[trigger] rest[i]).0 != key by {
            assert(rest[i] == before[i + 1]);
        }
        law_member_lookup(rest, key, text, after);
        assert((before + seq![(key, text)] + after).drop_first() =~= rest + seq![(key, text)] + after);
    } else {
        assert(before + seq![(key, text)] + after =~= seq![(key, text)] + after);
    }
}

} // verus!
