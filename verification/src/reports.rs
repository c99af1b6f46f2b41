//! What each command shows for the server's answer.
use vstd::prelude::*;
use crate::json::{
    elements, get_elements, get_member, get_number_text, get_string, get_unsigned, json_document,
    member, number_text, parse_json, string_value, texts, unsigned_value, Json, JsonView,
};
use crate::protocol::{output_message, pieces, queued, Emitted, Piece, PluginIO, Segment};
use crate::flags::opt_text;
use crate::text::{
    byte_prefix, char_at_byte, char_at_byte_of, char_debug, char_debug_text, char_width, chars_of, floor_prefix,
    floor_prefix_of, lemma_char_at_byte, utf8_width, eq_ignore_ascii_case, longer_than_bytes, same_ignoring_ascii_case, decimal, decimal_string, decimal_usize, owned, pad_right, padded,
    prefix_of_bytes, utf8_len,
};

verus! {

// ---------------------------------------------------------------------------
// Shared pieces
// ---------------------------------------------------------------------------

/// What a command with `--json` shows when the server gave no answer.
pub open spec fn unreachable_json() -> Seq<char> {
    "{\"error\":\"server not reachable\"}\n"@
}

/// The answer of a command that shows a server response: nothing came back,
/// or `--json` asks for the response as it is; otherwise `parsed`.
pub open spec fn shown_response(raw: Seq<char>, json: bool, unreachable: Seq<char>, parsed: Seq<Emitted>) -> Seq<Emitted> {
    if raw.len() == 0 {
        seq![output_message(if json { unreachable_json() } else { unreachable })]
    } else if json {
        seq![output_message(raw + "\n"@)]
    } else {
        parsed
    }
}

/// `v`, or `default` where it is absent.
pub open spec fn or_else(v: Option<Seq<char>>, default: Seq<char>) -> Seq<char> {
    match v {
        Some(t) => t,
        None => default,
    }
}

/// A string member of an object, or `default`.
pub open spec fn field_or(v: Option<JsonView>, key: Seq<char>, default: Seq<char>) -> Seq<char> {
    or_else(string_value(member(v, key)), default)
}

/// The array itself, or else the array member `key` of an object.
pub open spec fn list_of(v: Option<JsonView>, key: Seq<char>) -> Option<Seq<Seq<char>>> {
    match elements(v) {
        Some(items) => Some(items),
        None => elements(member(v, key)),
    }
}

/// At most the first 20 items.
pub open spec fn first_twenty(items: Seq<Seq<char>>) -> Seq<Seq<char>> {
    if items.len() > 20 {
        items.take(20)
    } else {
        items
    }
}

/// Handles the answers that need no parsing; `true` where it did.
fn show_unparsed(io: &mut PluginIO, raw: &String, json: bool, unreachable: &str) -> (done: bool)
    ensures
        done == (raw@.len() == 0 || json),
        done ==> queued(old(io)@, final(io)@, shown_response(raw@, json, unreachable@, Seq::empty())),
        !done ==> final(io)@ == old(io)@,
{
    if raw.as_str().is_empty() {
        if json {
            io.output("{\"error\":\"server not reachable\"}\n");
        } else {
            io.output(unreachable);
        }
        true
    } else if json {
        let mut t = raw.clone();
        t.append("\n");
        io.output(t.as_str());
        true
    } else {
        false
    }
}

/// A string member of an object, or `default`.
fn field_text(v: &Option<Json>, key: &str, default: &str) -> (r: String)
    ensures
        r@ == field_or(crate::json::view_of(*v), key@, default@),
{
    let m = get_member(v, key);
    match get_string(&m) {
        Some(s) => s,
        None => owned(default),
    }
}

/// The array itself, or else the array member `key` of an object.
fn list_in(v: &Option<Json>, key: &str) -> (r: Option<Vec<String>>)
    ensures
        match r {
            Some(items) => list_of(crate::json::view_of(*v), key@) == Some(texts(items@)),
            None => list_of(crate::json::view_of(*v), key@) is None,
        },
{
    match get_elements(v) {
        Some(items) => Some(items),
        None => {
            let m = get_member(v, key);
            get_elements(&m)
        },
    }
}

/// The number of items to show of a list limited to 20.
fn twenty(n: usize) -> (k: usize)
    ensures
        k == if n > 20 { 20 } else { n },
{
    if n > 20 { 20 } else { n }
}

// ---------------------------------------------------------------------------
// health
// ---------------------------------------------------------------------------

/// The health report for a parsed answer.
pub open spec fn health_details(h: Option<JsonView>) -> Seq<Emitted> {
    let status = field_or(h, "status"@, "unknown"@);
    let uptime = number_text(member(h, "uptime"@));
    let header = Emitted::Show(seq![
        Piece::Text("\n  Server Health\n  Status:  "@ + status + "\n  Uptime:  "@),
        Piece::UptimeHours(uptime),
        Piece::Text("h "@),
        Piece::UptimeMinutes(uptime),
        Piece::Text("m\n\n"@),
    ]);
    let agents: Seq<Emitted> = match unsigned_value(member(h, "agents"@)) {
        Some(n) => seq![output_message("  Active agents: "@ + decimal(n as nat) + "\n"@)],
        None => Seq::empty(),
    };
    let sessions: Seq<Emitted> = match unsigned_value(member(h, "activeSessions"@)) {
        Some(n) => seq![output_message("  Active sessions: "@ + decimal(n as nat) + "\n"@)],
        None => Seq::empty(),
    };
    seq![header] + agents + sessions + seq![output_message("\n"@)]
}

/// What `health` shows for the server's answer `raw`.
pub open spec fn health_report(raw: Seq<char>, json: bool) -> Seq<Emitted> {
    shown_response(raw, json, "  Server is not reachable.\n"@, match json_document(raw) {
        Some(h) => health_details(Some(h)),
        None => seq![output_message("  Raw response: "@ + raw + "\n"@)],
    })
}

/// Queues what `health` shows for the server's answer `raw`.
pub fn show_health(io: &mut PluginIO, raw: &String, json: bool)
    ensures
        queued(old(io)@, final(io)@, health_report(raw@, json)),
{
    if show_unparsed(io, raw, json, "  Server is not reachable.\n") {
        return;
    }
    let parsed = parse_json(raw.as_str());
    if parsed.is_none() {
        let mut t = owned("  Raw response: ");
        t.append(raw.as_str());
        t.append("\n");
        io.output(t.as_str());
        return;
    }
    show_health_details(io, &parsed);
}

/// Queues the health report for the parsed answer `doc`.
pub fn show_health_details(io: &mut PluginIO, doc: &Option<Json>)
    ensures
        queued(old(io)@, final(io)@, health_details(crate::json::view_of(*doc))),
{
    let ghost start = io@;
    let status = field_text(doc, "status", "unknown");
    let uptime = get_number_text(&get_member(doc, "uptime"));
    let mut first = owned("\n  Server Health\n  Status:  ");
    first.append(status.as_str());
    first.append("\n  Uptime:  ");
    let mut segments: Vec<Segment> = Vec::new();
    segments.push(Segment::Text(first));
    segments.push(Segment::UptimeHours(uptime.clone()));
    segments.push(Segment::Text(owned("h ")));
    segments.push(Segment::UptimeMinutes(uptime));
    segments.push(Segment::Text(owned("m\n\n")));
    let ghost h = crate::json::view_of(*doc);
    let ghost up = number_text(member(h, "uptime"@));
    assert(pieces(segments@) =~= seq![
        Piece::Text("\n  Server Health\n  Status:  "@ + field_or(h, "status"@, "unknown"@) + "\n  Uptime:  "@),
        Piece::UptimeHours(up),
        Piece::Text("h "@),
        Piece::UptimeMinutes(up),
        Piece::Text("m\n\n"@),
    ]);
    io.show(segments);
    match get_unsigned(&get_member(doc, "agents")) {
        Some(n) => {
            let mut t = owned("  Active agents: ");
            t.append(decimal_string(n).as_str());
            t.append("\n");
            io.output(t.as_str());
        },
        None => {},
    }
    match get_unsigned(&get_member(doc, "activeSessions")) {
        Some(n) => {
            let mut t = owned("  Active sessions: ");
            t.append(decimal_string(n).as_str());
            t.append("\n");
            io.output(t.as_str());
        },
        None => {},
    }
    io.output("\n");
    assert(io@.outbox =~= start.outbox + health_details(h));
}

// ---------------------------------------------------------------------------
// agents
// ---------------------------------------------------------------------------

/// One line of the agent list.
pub open spec fn agent_line(item: Seq<char>) -> Emitted {
    let a = json_document(item);
    output_message("  "@ + pad_right(field_or(a, "name"@, "?"@), 16) + " "@ + pad_right(
        field_or(a, "model"@, "?"@),
        20,
    ) + " ["@ + field_or(a, "status"@, "idle"@) + "]\n"@)
}

/// The agent list in the parsed answer `d` (itself an array, or its member
/// `agents`), or the raw answer where there is none.
pub open spec fn agent_list(d: Option<JsonView>, raw: Seq<char>) -> Seq<Emitted> {
    match list_of(d, "agents"@) {
        Some(items) => seq![output_message("\n  Agents ("@ + decimal(items.len()) + " total)\n\n"@)]
            + items.map_values(|t: Seq<char>| agent_line(t)) + seq![output_message("\n"@)],
        None => seq![output_message("  Response: "@ + raw + "\n"@)],
    }
}

/// What `agents` shows for the server's answer `raw`.
pub open spec fn agents_report(raw: Seq<char>, json: bool) -> Seq<Emitted> {
    shown_response(raw, json, "  Server not reachable.\n"@, match json_document(raw) {
        Some(d) => agent_list(Some(d), raw),
        None => seq![output_message("  Raw: "@ + raw + "\n"@)],
    })
}

/// Queues one line of the agent list.
fn show_agent_line(io: &mut PluginIO, item: &String)
    ensures
        queued(old(io)@, final(io)@, seq![agent_line(item@)]),
{
    let a = parse_json(item.as_str());
    let mut t = owned("  ");
    t.append(padded(&field_text(&a, "name", "?"), 16).as_str());
    t.append(" ");
    t.append(padded(&field_text(&a, "model", "?"), 20).as_str());
    t.append(" [");
    t.append(field_text(&a, "status", "idle").as_str());
    t.append("]\n");
    io.output(t.as_str());
}

/// Queues what `agents` shows for the server's answer `raw`.
pub fn show_agents(io: &mut PluginIO, raw: &String, json: bool)
    ensures
        queued(old(io)@, final(io)@, agents_report(raw@, json)),
{
    if show_unparsed(io, raw, json, "  Server not reachable.\n") {
        return;
    }
    let parsed = parse_json(raw.as_str());
    if parsed.is_none() {
        let mut t = owned("  Raw: ");
        t.append(raw.as_str());
        t.append("\n");
        io.output(t.as_str());
        return;
    }
    show_agent_list(io, &parsed, raw);
}

/// Queues the agent list in the parsed answer `doc`, or the raw answer
/// where there is none.
pub fn show_agent_list(io: &mut PluginIO, doc: &Option<Json>, raw: &String)
    ensures
        queued(old(io)@, final(io)@, agent_list(crate::json::view_of(*doc), raw@)),
{
    match list_in(doc, "agents") {
        Some(items) => {
            let ghost start = io@;
            let ghost all = texts(items@);
            let mut t = owned("\n  Agents (");
            t.append(decimal_usize(items.len()).as_str());
            t.append(" total)\n\n");
            io.output(t.as_str());
            let mut i: usize = 0;
            while i < items.len()
                invariant
                    i <= items.len(),
                    all == texts(items@),
                    io@.counter == start.counter,
                    io@.outbox == start.outbox + seq![output_message("\n  Agents ("@ + decimal(all.len()) + " total)\n\n"@)]
                        + all.take(i as int).map_values(|t: Seq<char>| agent_line(t)),
                decreases items.len() - i,
            {
                show_agent_line(io, &items[i]);
                assert(all.take(i + 1).map_values(|t: Seq<char>| agent_line(t)) =~= all.take(i as int).map_values(
                    |t: Seq<char>| agent_line(t),
                ).push(agent_line(all[i as int])));
                i = i + 1;
            }
            assert(all.take(items.len() as int) =~= all);
            io.output("\n");
            assert(io@.outbox =~= start.outbox + (seq![output_message("\n  Agents ("@ + decimal(all.len()) + " total)\n\n"@)]
                + all.map_values(|t: Seq<char>| agent_line(t)) + seq![output_message("\n"@)]));
        },
        None => {
            let mut t = owned("  Response: ");
            t.append(raw.as_str());
            t.append("\n");
            io.output(t.as_str());
        },
    }
}

// ---------------------------------------------------------------------------
// sessions
// ---------------------------------------------------------------------------

/// One line of the session list.
pub open spec fn session_line(item: Seq<char>) -> Emitted {
    let s = json_document(item);
    Emitted::Show(seq![
        Piece::Text("  "@ + field_or(s, "id"@, "?"@) + "  "@ + pad_right(field_or(s, "agent"@, "?"@), 16) + " $"@),
        Piece::Cost(number_text(member(s, "cost"@))),
        Piece::Text("\n"@),
    ])
}

/// The first twenty sessions of the parsed answer `d`.
pub open spec fn session_list(d: Option<JsonView>) -> Seq<Emitted> {
    match elements(d) {
        Some(items) => seq![output_message("\n  Running Sessions ("@ + decimal(items.len()) + ")\n\n"@)]
            + first_twenty(items).map_values(|t: Seq<char>| session_line(t)) + seq![output_message("\n"@)],
        None => seq![output_message("  Unexpected response format.\n"@)],
    }
}

/// What `sessions` shows for the answer `raw` of the session filter.
pub open spec fn sessions_report(raw: Seq<char>, json: bool) -> Seq<Emitted> {
    shown_response(raw, json, "  Server not reachable.\n"@, match json_document(raw) {
        Some(d) => session_list(Some(d)),
        None => seq![output_message("  Failed to parse sessions.\n"@)],
    })
}

/// Queues one line of the session list.
fn show_session_line(io: &mut PluginIO, item: &String)
    ensures
        queued(old(io)@, final(io)@, seq![session_line(item@)]),
{
    let s = parse_json(item.as_str());
    let mut t = owned("  ");
    t.append(field_text(&s, "id", "?").as_str());
    t.append("  ");
    t.append(padded(&field_text(&s, "agent", "?"), 16).as_str());
    t.append(" $");
    let cost = get_number_text(&get_member(&s, "cost"));
    let mut segments: Vec<Segment> = Vec::new();
    segments.push(Segment::Text(t));
    segments.push(Segment::Cost(cost));
    segments.push(Segment::Text(owned("\n")));
    let ghost v = crate::json::view_of(s);
    assert(pieces(segments@) =~= seq![
        Piece::Text("  "@ + field_or(v, "id"@, "?"@) + "  "@ + pad_right(field_or(v, "agent"@, "?"@), 16) + " $"@),
        Piece::Cost(number_text(member(v, "cost"@))),
        Piece::Text("\n"@),
    ]);
    io.show(segments);
}

/// Queues what `sessions` shows for the answer `raw` of the session filter.
pub fn show_sessions(io: &mut PluginIO, raw: &String, json: bool)
    ensures
        queued(old(io)@, final(io)@, sessions_report(raw@, json)),
{
    if show_unparsed(io, raw, json, "  Server not reachable.\n") {
        return;
    }
    let parsed = parse_json(raw.as_str());
    if parsed.is_none() {
        io.output("  Failed to parse sessions.\n");
        return;
    }
    show_session_list(io, &parsed);
}

/// Queues the first twenty sessions of the parsed answer `doc`.
pub fn show_session_list(io: &mut PluginIO, doc: &Option<Json>)
    ensures
        queued(old(io)@, final(io)@, session_list(crate::json::view_of(*doc))),
{
    match get_elements(doc) {
        Some(items) => {
            let ghost start = io@;
            let ghost all = texts(items@);
            let ghost shown = first_twenty(all);
            let mut t = owned("\n  Running Sessions (");
            t.append(decimal_usize(items.len()).as_str());
            t.append(")\n\n");
            io.output(t.as_str());
            let n: usize = twenty(items.len());
            let mut i: usize = 0;
            while i < n
                invariant
                    i <= n,
                    n == shown.len(),
                    n <= items.len(),
                    all == texts(items@),
                    shown == first_twenty(all),
                    io@.counter == start.counter,
                    io@.outbox == start.outbox + seq![output_message("\n  Running Sessions ("@ + decimal(all.len()) + ")\n\n"@)]
                        + shown.take(i as int).map_values(|t: Seq<char>| session_line(t)),
                decreases n - i,
            {
                assert(shown[i as int] == items@[i as int]@);
                show_session_line(io, &items[i]);
                assert(shown.take(i + 1).map_values(|t: Seq<char>| session_line(t)) =~= shown.take(i as int).map_values(
                    |t: Seq<char>| session_line(t),
                ).push(session_line(shown[i as int])));
                i = i + 1;
            }
            assert(shown.take(n as int) =~= shown);
            io.output("\n");
            assert(io@.outbox =~= start.outbox + (seq![output_message("\n  Running Sessions ("@ + decimal(all.len()) + ")\n\n"@)]
                + shown.map_values(|t: Seq<char>| session_line(t)) + seq![output_message("\n"@)]));
        },
        None => {
            io.output("  Unexpected response format.\n");
        },
    }
}

// ---------------------------------------------------------------------------
// work list
// ---------------------------------------------------------------------------

/// One line of the task list.
pub open spec fn task_line(item: Seq<char>) -> Emitted {
    let t = json_document(item);
    output_message("  "@ + field_or(t, "id"@, "?"@) + "  ["@ + pad_right(field_or(t, "status"@, "?"@), 10) + "]  "@
        + pad_right(field_or(t, "agent"@, "?"@), 12) + "  "@ + field_or(t, "desc"@, Seq::empty()) + "\n"@)
}

/// The tasks of the parsed answer `d`.
pub open spec fn task_list(d: Option<JsonView>) -> Seq<Emitted> {
    match elements(d) {
        Some(items) => seq![output_message("\n  Work Tasks (showing up to 20)\n\n"@)]
            + items.map_values(|t: Seq<char>| task_line(t)) + seq![output_message("\n"@)],
        None => seq![output_message("  Unexpected response format.\n"@)],
    }
}

/// What `work list` shows for the answer `raw` of the task filter.
pub open spec fn work_list_report(raw: Seq<char>, json: bool) -> Seq<Emitted> {
    shown_response(raw, json, "  Server not reachable.\n"@, match json_document(raw) {
        Some(d) => task_list(Some(d)),
        None => seq![output_message("  Failed to parse work tasks.\n"@)],
    })
}

/// Queues one line of the task list.
fn show_task_line(io: &mut PluginIO, item: &String)
    ensures
        queued(old(io)@, final(io)@, seq![task_line(item@)]),
{
    let v = parse_json(item.as_str());
    let mut t = owned("  ");
    t.append(field_text(&v, "id", "?").as_str());
    t.append("  [");
    t.append(padded(&field_text(&v, "status", "?"), 10).as_str());
    t.append("]  ");
    t.append(padded(&field_text(&v, "agent", "?"), 12).as_str());
    t.append("  ");
    t.append(field_text(&v, "desc", "").as_str());
    t.append("\n");
    proof {
        reveal_strlit("");
    }
    io.output(t.as_str());
}

/// Queues what `work list` shows for the answer `raw` of the task filter.
pub fn show_work_list(io: &mut PluginIO, raw: &String, json: bool)
    ensures
        queued(old(io)@, final(io)@, work_list_report(raw@, json)),
{
    if show_unparsed(io, raw, json, "  Server not reachable.\n") {
        return;
    }
    let parsed = parse_json(raw.as_str());
    if parsed.is_none() {
        io.output("  Failed to parse work tasks.\n");
        return;
    }
    show_task_list(io, &parsed);
}

/// Queues the tasks of the parsed answer `doc`.
pub fn show_task_list(io: &mut PluginIO, doc: &Option<Json>)
    ensures
        queued(old(io)@, final(io)@, task_list(crate::json::view_of(*doc))),
{
    match get_elements(doc) {
        Some(items) => {
            let ghost start = io@;
            let ghost all = texts(items@);
            io.output("\n  Work Tasks (showing up to 20)\n\n");
            let mut i: usize = 0;
            while i < items.len()
                invariant
                    i <= items.len(),
                    all == texts(items@),
                    io@.counter == start.counter,
                    io@.outbox == start.outbox + seq![output_message("\n  Work Tasks (showing up to 20)\n\n"@)]
                        + all.take(i as int).map_values(|t: Seq<char>| task_line(t)),
                decreases items.len() - i,
            {
                show_task_line(io, &items[i]);
                assert(all.take(i + 1).map_values(|t: Seq<char>| task_line(t)) =~= all.take(i as int).map_values(
                    |t: Seq<char>| task_line(t),
                ).push(task_line(all[i as int])));
                i = i + 1;
            }
            assert(all.take(items.len() as int) =~= all);
            io.output("\n");
            assert(io@.outbox =~= start.outbox + (seq![output_message("\n  Work Tasks (showing up to 20)\n\n"@)]
                + all.map_values(|t: Seq<char>| task_line(t)) + seq![output_message("\n"@)]));
        },
        None => {
            io.output("  Unexpected response format.\n");
        },
    }
}

// ---------------------------------------------------------------------------
// chat
// ---------------------------------------------------------------------------

/// The first of the string members `keys` that is present.
pub open spec fn first_field(v: Option<JsonView>, keys: Seq<Seq<char>>) -> Option<Seq<char>>
    decreases keys.len(),
{
    if keys.len() == 0 {
        None
    } else {
        match string_value(member(v, keys[0])) {
            Some(s) => Some(s),
            None => first_field(v, keys.drop_first()),
        }
    }
}

/// The other party of a conversation.
pub open spec fn conversation_contact(c: Option<JsonView>) -> Seq<char> {
    or_else(first_field(c, seq!["contactName"@, "from"@]), "?"@)
}

/// The last message of a conversation.
pub open spec fn conversation_message(c: Option<JsonView>) -> Seq<char> {
    or_else(first_field(c, seq!["lastMessage"@, "text"@, "content"@]), Seq::empty())
}

/// A message cut to its first 60 bytes where it is longer; `None` where
/// byte 60 falls inside a character (slicing there panics).
pub open spec fn message_preview(m: Seq<char>) -> Option<Seq<char>> {
    if utf8_len(m) > 60 {
        byte_prefix(m, 60)
    } else {
        Some(m)
    }
}

/// The panic message of cutting `m` at byte 60 where that byte falls inside
/// a character: the standard library's message for a string slice that
/// ends off a character boundary, with the character, its bytes, and the
/// text (its first 256 bytes at most, `[...]` marking the rest).
pub open spec fn cut_failure(m: Seq<char>) -> Seq<char> {
    let at = char_at_byte(m, 60);
    let c = m[at.0 as int];
    let shown = floor_prefix(m, 256);
    "end byte index 60 is not a char boundary; it is inside "@ + char_debug_text(c) + " (bytes "@ + decimal(at.1)
        + ".."@ + decimal(at.1 + utf8_width(c)) + ") of `"@ + shown + "`"@ + (if shown.len() < m.len() {
        "[...]"@
    } else {
        Seq::empty()
    })
}

/// Why the line of a conversation cannot be made: the panic message of
/// cutting its last message.
pub open spec fn conversation_failure(item: Seq<char>) -> Seq<char> {
    cut_failure(conversation_message(json_document(item)))
}

/// One line of the conversation list, or `None` where it cannot be cut.
pub open spec fn conversation_line(item: Seq<char>) -> Option<Emitted> {
    let c = json_document(item);
    match message_preview(conversation_message(c)) {
        Some(p) => Some(output_message("  ["@ + conversation_contact(c) + "] "@ + p + "\n"@)),
        None => None,
    }
}

/// The lines of the listed conversations up to the first that cannot be
/// cut, and the panic message of the first that cannot be cut, if any.
pub open spec fn conversation_lines(items: Seq<Seq<char>>) -> (Seq<Emitted>, Option<Seq<char>>)
    decreases items.len(),
{
    if items.len() == 0 {
        (Seq::empty(), None)
    } else {
        match conversation_line(items[0]) {
            Some(line) => {
                let rest = conversation_lines(items.drop_first());
                (seq![line] + rest.0, rest.1)
            },
            None => (Seq::empty(), Some(conversation_failure(items[0]))),
        }
    }
}

/// The lines of the first twenty conversations in the parsed answer `d`
/// (itself an array, or its member `conversations`), or the raw answer
/// where there is none; and the panic message where the program stops on a
/// message it cannot cut.
pub open spec fn conversation_list(d: Option<JsonView>, raw: Seq<char>) -> (Seq<Emitted>, Option<Seq<char>>) {
    match list_of(d, "conversations"@) {
        Some(items) => {
            let lines = conversation_lines(first_twenty(items));
            let header = seq![output_message("\n  AlgoChat Conversations ("@ + decimal(items.len()) + ")\n\n"@)];
            if lines.1 is Some {
                (header + lines.0, lines.1)
            } else {
                (header + lines.0 + seq![output_message("\n"@)], None)
            }
        },
        None => (seq![output_message("  Response: "@ + raw + "\n"@)], None),
    }
}

/// What `chat` shows for the server's list of conversations `raw`, and
/// the panic message where the program stops on a message it cannot cut.
pub open spec fn conversations_report(raw: Seq<char>, json: bool) -> (Seq<Emitted>, Option<Seq<char>>) {
    if raw.len() == 0 || json {
        (shown_response(raw, json, "  Server not reachable.\n"@, Seq::empty()), None)
    } else {
        match json_document(raw) {
            Some(d) => conversation_list(Some(d), raw),
            None => (seq![output_message("  Raw: "@ + raw + "\n"@)], None),
        }
    }
}

/// The first of the string members named in `keys` that is present, or `default`.
fn first_text(v: &Option<Json>, keys: &Vec<&str>, default: &str) -> (r: String)
    ensures
        r@ == or_else(first_field(crate::json::view_of(*v), keys@.map_values(|k: &str| k@)), default@),
{
    let ghost all = keys@.map_values(|k: &str| k@);
    let mut i: usize = 0;
    assert(all.skip(0) =~= all);
    while i < keys.len()
        invariant
            i <= keys.len(),
            all == keys@.map_values(|k: &str| k@),
            first_field(crate::json::view_of(*v), all) == first_field(crate::json::view_of(*v), all.skip(i as int)),
        decreases keys.len() - i,
    {
        let ghost rest = all.skip(i as int);
        assert(rest[0] == keys@[i as int]@);
        let m = get_member(v, keys[i]);
        match get_string(&m) {
            Some(s) => {
                return s;
            },
            None => {},
        }
        assert(rest.drop_first() =~= all.skip(i + 1));
        i = i + 1;
    }
    assert(all.skip(i as int) =~= Seq::<Seq<char>>::empty());
    owned(default)
}

/// Queues one line of the conversation list; where the message cannot be
/// cut at byte 60, queues nothing and gives the panic message.
fn show_conversation_line(io: &mut PluginIO, item: &String) -> (failure: Option<String>)
    ensures
        failure is None <==> (conversation_line(item@) is Some),
        failure is None ==> queued(old(io)@, final(io)@, seq![conversation_line(item@)->0]),
        failure matches Some(f) ==> final(io)@ == old(io)@ && f@ == conversation_failure(item@),
{
    let c = parse_json(item.as_str());
    let contact = first_text(&c, &vec!["contactName", "from"], "?");
    let message = first_text(&c, &vec!["lastMessage", "text", "content"], "");
    proof {
        let v = crate::json::view_of(c);
        assert(seq!["contactName", "from"].map_values(|k: &str| k@) =~= seq!["contactName"@, "from"@]);
        assert(seq!["lastMessage", "text", "content"].map_values(|k: &str| k@) =~= seq![
            "lastMessage"@,
            "text"@,
            "content"@,
        ]);
        reveal_strlit("");
    }
    let chars = chars_of(message.as_str());
    let preview = if longer_than_bytes(&chars, 60) {
        match prefix_of_bytes(&chars, 60) {
            Some(p) => p,
            None => {
                return Some(cut_message(&chars));
            },
        }
    } else {
        message
    };
    let mut t = owned("  [");
    t.append(contact.as_str());
    t.append("] ");
    t.append(preview.as_str());
    t.append("\n");
    io.output(t.as_str());
    None
}

/// The panic message of cutting `m` at byte 60 inside a character.
fn cut_message(m: &Vec<char>) -> (r: String)
    requires
        utf8_len(m@) > 60,
        byte_prefix(m@, 60) is None,
    ensures
        r@ == cut_failure(m@),
{
    proof {
        lemma_char_at_byte(m@, 60);
    }
    let (index, start) = char_at_byte_of(m, 60);
    let c = m[index];
    let shown = floor_prefix_of(m, 256);
    let mut r = owned("end byte index 60 is not a char boundary; it is inside ");
    r.append(char_debug(c).as_str());
    r.append(" (bytes ");
    r.append(decimal_usize(start).as_str());
    r.append("..");
    r.append(decimal_usize(start + char_width(c)).as_str());
    r.append(") of `");
    r.append(shown.as_str());
    r.append("`");
    if chars_of(shown.as_str()).len() < m.len() {
        r.append("[...]");
    } else {
        proof {
            reveal_strlit("");
        }
        r.append("");
    }
    r
}

/// Queues what `chat` shows for the server's list of conversations `raw`;
/// `false` where it stopped on a message that cannot be cut.
pub fn show_conversations(io: &mut PluginIO, raw: &String, json: bool) -> (failure: Option<String>)
    ensures
        opt_text(failure) == conversations_report(raw@, json).1,
        queued(old(io)@, final(io)@, conversations_report(raw@, json).0),
{
    if show_unparsed(io, raw, json, "  Server not reachable.\n") {
        return None;
    }
    let parsed = parse_json(raw.as_str());
    if parsed.is_none() {
        let mut t = owned("  Raw: ");
        t.append(raw.as_str());
        t.append("\n");
        io.output(t.as_str());
        return None;
    }
    show_conversation_list(io, &parsed, raw)
}

/// Queues the lines of the first twenty conversations in the parsed answer
/// `doc`, or the raw answer where there is none; the panic message where it
/// stopped on a message that cannot be cut.
pub fn show_conversation_list(io: &mut PluginIO, doc: &Option<Json>, raw: &String) -> (failure: Option<String>)
    ensures
        opt_text(failure) == conversation_list(crate::json::view_of(*doc), raw@).1,
        queued(old(io)@, final(io)@, conversation_list(crate::json::view_of(*doc), raw@).0),
{
    match list_in(doc, "conversations") {
        Some(items) => {
            let ghost start = io@;
            let ghost all = texts(items@);
            let ghost shown = first_twenty(all);
            let mut t = owned("\n  AlgoChat Conversations (");
            t.append(decimal_usize(items.len()).as_str());
            t.append(")\n\n");
            io.output(t.as_str());
            let ghost header = seq![output_message("\n  AlgoChat Conversations ("@ + decimal(all.len()) + ")\n\n"@)];
            let n: usize = twenty(items.len());
            let mut i: usize = 0;
            assert(shown.skip(0) =~= shown);
            assert(io@.outbox =~= start.outbox + header + Seq::<Emitted>::empty());
            assert(conversation_list(crate::json::view_of(*doc), raw@) == (if conversation_lines(shown).1 is Some {
                (header + conversation_lines(shown).0, conversation_lines(shown).1)
            } else {
                (header + conversation_lines(shown).0 + seq![output_message("\n"@)], None)
            }));
            while i < n
                invariant
                    start == old(io)@,
                    conversation_list(crate::json::view_of(*doc), raw@) == (if conversation_lines(shown).1 is Some {
                        (header + conversation_lines(shown).0, conversation_lines(shown).1)
                    } else {
                        (header + conversation_lines(shown).0 + seq![output_message("\n"@)], None)
                    }),
                    i <= n,
                    n == shown.len(),
                    n <= items.len(),
                    all == texts(items@),
                    shown == first_twenty(all),
                    io@.counter == start.counter,
                    exists|done: Seq<Emitted>|
                        {
                            &&& io@.outbox == start.outbox + header + done
                            &&& conversation_lines(shown).0 == done + conversation_lines(shown.skip(i as int)).0
                        },
                    conversation_lines(shown).1 == conversation_lines(shown.skip(i as int)).1,
                decreases n - i,
            {
                let ghost rest = shown.skip(i as int);
                assert(rest[0] == items@[i as int]@);
                assert(rest.drop_first() =~= shown.skip(i + 1));
                let ghost done = choose|done: Seq<Emitted>|
                    {
                        &&& io@.outbox == start.outbox + header + done
                        &&& conversation_lines(shown).0 == done + conversation_lines(shown.skip(i as int)).0
                    };
                let failure = show_conversation_line(io, &items[i]);
                if failure.is_some() {
                    assert(conversation_lines(rest) == (Seq::<Emitted>::empty(), opt_text(failure)));
                    assert(done + Seq::<Emitted>::empty() =~= done);
                    assert(conversation_lines(shown).1 == opt_text(failure));
                    assert(conversation_lines(shown).0 == done);
                    assert(io@.outbox =~= start.outbox + (header + conversation_lines(shown).0));
                    return failure;
                }
                proof {
                    let line = conversation_line(rest[0])->0;
                    assert(io@.outbox =~= start.outbox + header + done.push(line));
                    assert(conversation_lines(shown).0 =~= done.push(line) + conversation_lines(shown.skip(i + 1)).0);
                }
                i = i + 1;
            }
            let ghost done = choose|done: Seq<Emitted>|
                {
                    &&& io@.outbox == start.outbox + header + done
                    &&& conversation_lines(shown).0 == done + conversation_lines(shown.skip(i as int)).0
                };
            assert(shown.skip(n as int) =~= Seq::<Seq<char>>::empty());
            assert(done + Seq::<Emitted>::empty() =~= done);
            io.output("\n");
            assert(io@.outbox =~= start.outbox + (header + done + seq![output_message("\n"@)]));
            None
        },
        None => {
            let mut t = owned("  Response: ");
            t.append(raw.as_str());
            t.append("\n");
            io.output(t.as_str());
            None
        },
    }
}

/// What `chat MESSAGE` shows for the server's answer `result`.
pub open spec fn sent_report(result: Seq<char>, json: bool) -> Seq<char> {
    if json {
        if result.len() == 0 {
            "{\"status\":\"sent\"}\n"@
        } else {
            result + "\n"@
        }
    } else if result.len() == 0 {
        "  Message sent.\n"@
    } else {
        "  "@ + result + "\n"@
    }
}

/// Queues what `chat MESSAGE` shows for the server's answer `result`.
pub fn show_sent(io: &mut PluginIO, result: &String, json: bool)
    ensures
        queued(old(io)@, final(io)@, seq![output_message(sent_report(result@, json))]),
{
    if json {
        if result.as_str().is_empty() {
            io.output("{\"status\":\"sent\"}\n");
        } else {
            let mut t = result.clone();
            t.append("\n");
            io.output(t.as_str());
        }
    } else if result.as_str().is_empty() {
        io.output("  Message sent.\n");
    } else {
        let mut t = owned("  ");
        t.append(result.as_str());
        t.append("\n");
        io.output(t.as_str());
    }
}

// ---------------------------------------------------------------------------
// work create
// ---------------------------------------------------------------------------

/// The names of the listed agents that have a string `name`, in order.
pub open spec fn names_in(items: Seq<Seq<char>>) -> Seq<Seq<char>>
    decreases items.len(),
{
    if items.len() == 0 {
        Seq::empty()
    } else {
        let rest = names_in(items.drop_last());
        match string_value(member(json_document(items.last()), "name"@)) {
            Some(n) => rest.push(n),
            None => rest,
        }
    }
}

/// The agent names in the server's answer `raw` to the agent list request.
pub open spec fn agent_names(raw: Seq<char>) -> Seq<Seq<char>> {
    names_of(json_document(raw))
}

/// The agent names in the parsed answer `d` (itself an array, or its member
/// `agents`).
pub open spec fn names_of(d: Option<JsonView>) -> Seq<Seq<char>> {
    match list_of(d, "agents"@) {
        Some(items) => names_in(items),
        None => Seq::empty(),
    }
}

/// The agent names in the server's answer `raw` to the agent list request.
pub fn list_agent_names(raw: &String) -> (names: Vec<String>)
    ensures
        texts(names@) == agent_names(raw@),
{
    let parsed = parse_json(raw.as_str());
    names_in_document(&parsed)
}

/// The agent names in the parsed answer `doc`.
pub fn names_in_document(doc: &Option<Json>) -> (names: Vec<String>)
    ensures
        texts(names@) == names_of(crate::json::view_of(*doc)),
{
    let mut names: Vec<String> = Vec::new();
    match list_in(doc, "agents") {
        Some(items) => {
            let ghost all = texts(items@);
            let mut i: usize = 0;
            assert(texts(names@) =~= names_in(all.take(0)));
            while i < items.len()
                invariant
                    i <= items.len(),
                    all == texts(items@),
                    texts(names@) == names_in(all.take(i as int)),
                decreases items.len() - i,
            {
                assert(all.take(i + 1).drop_last() =~= all.take(i as int));
                assert(all.take(i + 1).last() == items@[i as int]@);
                let a = parse_json(items[i].as_str());
                let m = get_member(&a, "name");
                match get_string(&m) {
                    Some(n) => {
                        let ghost before = names@;
                        names.push(n);
                        assert(texts(names@) =~= texts(before).push(names@.last()@));
                    },
                    None => {},
                }
                i = i + 1;
            }
            assert(all.take(items.len() as int) =~= all);
            names
        },
        None => {
            assert(texts(names@) =~= Seq::<Seq<char>>::empty());
            names
        },
    }
}

/// The first of `names` equal to `wanted` up to ASCII case.
pub open spec fn matching_name(names: Seq<Seq<char>>, wanted: Seq<char>) -> Option<Seq<char>>
    decreases names.len(),
{
    if names.len() == 0 {
        None
    } else if eq_ignore_ascii_case(names[0], wanted) {
        Some(names[0])
    } else {
        matching_name(names.drop_first(), wanted)
    }
}

/// The first of `names` equal to `wanted` up to ASCII case.
pub fn find_agent(names: &Vec<String>, wanted: &String) -> (r: Option<String>)
    ensures
        match r {
            Some(n) => matching_name(texts(names@), wanted@) == Some(n@),
            None => matching_name(texts(names@), wanted@) is None,
        },
{
    let ghost all = texts(names@);
    let mut i: usize = 0;
    assert(all.skip(0) =~= all);
    while i < names.len()
        invariant
            i <= names.len(),
            all == texts(names@),
            matching_name(all, wanted@) == matching_name(all.skip(i as int), wanted@),
        decreases names.len() - i,
    {
        let ghost rest = all.skip(i as int);
        assert(rest[0] == names@[i as int]@);
        if same_ignoring_ascii_case(&names[i], wanted) {
            return Some(names[i].clone());
        }
        assert(rest.drop_first() =~= all.skip(i + 1));
        i = i + 1;
    }
    assert(all.skip(i as int) =~= Seq::<Seq<char>>::empty());
    None
}

/// What `work create` shows for the server's answer `result`.
pub open spec fn created_report(result: Seq<char>, description: Seq<char>, agent: Seq<char>, json: bool) -> Seq<char> {
    created_text(json_document(result), result, description, agent, json)
}

/// What `work create` shows for the server's answer `result`, parsed as `d`.
pub open spec fn created_text(
    d: Option<JsonView>,
    result: Seq<char>,
    description: Seq<char>,
    agent: Seq<char>,
    json: bool,
) -> Seq<char> {
    match d {
        Some(p) => if json {
            result + "\n"@
        } else {
            "\n  Work task created: "@ + field_or(Some(p), "id"@, "?"@) + "\n  Agent: "@ + agent + "\n  Description: "@
                + description + "\n\n"@
        },
        None => "  Response: "@ + result + "\n"@,
    }
}

/// Queues what `work create` shows for the server's answer `result`.
pub fn show_created(io: &mut PluginIO, result: &String, description: &String, agent: &String, json: bool)
    ensures
        queued(old(io)@, final(io)@, seq![output_message(created_report(result@, description@, agent@, json))]),
{
    let parsed = parse_json(result.as_str());
    show_created_for(io, &parsed, result, description, agent, json);
}

/// Queues what `work create` shows for the server's answer `result`, parsed
/// as `doc`.
pub fn show_created_for(
    io: &mut PluginIO,
    doc: &Option<Json>,
    result: &String,
    description: &String,
    agent: &String,
    json: bool,
)
    ensures
        queued(
            old(io)@,
            final(io)@,
            seq![output_message(created_text(crate::json::view_of(*doc), result@, description@, agent@, json))],
        ),
{
    let parsed = doc;
    if parsed.is_some() {
        if json {
            let mut t = result.clone();
            t.append("\n");
            io.output(t.as_str());
        } else {
            let mut t = owned("\n  Work task created: ");
            t.append(field_text(parsed, "id", "?").as_str());
            t.append("\n  Agent: ");
            t.append(agent.as_str());
            t.append("\n  Description: ");
            t.append(description.as_str());
            t.append("\n\n");
            io.output(t.as_str());
        }
    } else {
        let mut t = owned("  Response: ");
        t.append(result.as_str());
        t.append("\n");
        io.output(t.as_str());
    }
}

} // verus!
