//! One run of the plugin as a state machine: the host starts it with the
//! command-line arguments, and feeds it the reply to each request it makes.
//! Every step says what to send to the host and what comes next.
use vstd::prelude::*;
use crate::flags::{
    config_scan, is_json_flag, is_yes_flag, opt_text, parse_config_url, parse_flags, parse_work_create_flags,
    positional_args, work_agent, work_description,
};
use crate::json::{
    bool_value, get_bool, get_string, json_object, json_object_text, string_value, text_pairs, texts, view_of, Json,
    JsonView,
};
use crate::protocol::{
    after_id, curl_command, curl_post_command, emitted, exec_message, exec_output, exec_stdout, id_text, next_id,
    output_message, queued, reply_value, text_or_empty, value_of, Emit, Emitted, InboundMessage, Message,
    OutboundMessage, Outgoing, PluginIO, Reply,
};
use crate::reports::{
    agent_names, agents_report, conversations_report, created_report, health_report, list_agent_names,
    matching_name, find_agent, or_else, sent_report, sessions_report, show_agents, show_conversations,
    show_created, show_health, show_sent, show_sessions, show_work_list, work_list_report,
};
use crate::text::{join, joined, owned, same};

verus! {

/// The server the plugin talks to when none is configured.
pub const DEFAULT_URL: &'static str = "http://localhost:3000";

/// The plugin-store key of the configured server URL.
pub const URL_KEY: &'static str = "corvid_base_url";

/// The text of `help`.
pub const HELP_TEXT: &'static str = "\n  fledge corvid-agent \u{2014} CorvidAgent CLI\n\n  Commands:\n    health      Check server status and uptime\n    agents      List registered agents\n    sessions    List running sessions\n    work        Work task management (list, create)\n    chat        View or send AlgoChat messages\n    restart     Restart the server\n    config      Set server URL\n    help        Show this help\n\n  Global Flags:\n    --yes, -y   Skip confirmations (non-interactive mode)\n    --json      Output raw JSON (machine-readable)\n\n  Examples:\n    fledge corvid-agent health\n    fledge corvid-agent health --json\n    fledge corvid-agent agents\n    fledge corvid-agent work list\n    fledge corvid-agent work create --agent Jackdaw \"Fix the login bug\"\n    fledge corvid-agent chat Hello from Fledge!\n    fledge corvid-agent restart --yes\n    fledge corvid-agent config --url http://localhost:3000\n\n";

/// The path and filter of the running-session listing, after the base URL.
pub const SESSIONS_FILTER: &'static str = "/api/sessions' | python3 -c \"import sys,json; data=json.load(sys.stdin); sessions=data if isinstance(data,list) else data.get('sessions',[]); running=[{'id':s.get('id','')[:8],'agent':s.get('agentName','?'),'status':s.get('status','?'),'cost':s.get('totalCost',0)} for s in sessions if s.get('status')=='running']; json.dump(running,sys.stdout)\"";

/// The path and filter of the work-task listing (newest 20 first), after the base URL.
pub const TASKS_FILTER: &'static str = "/api/work-tasks' | python3 -c \"import sys,json; data=json.load(sys.stdin); tasks=data if isinstance(data,list) else data.get('tasks',[]); tasks.sort(key=lambda t: t.get('queuedAt') or t.get('createdAt') or '', reverse=True); out=[{'id':t.get('id','')[:8],'status':t.get('status','?'),'desc':(t.get('description','') or '')[:60],'agent':t.get('agentName','?')} for t in tasks[:20]]; json.dump(out,sys.stdout)\"";

/// Where a run stands: which reply it waits for, with what it keeps.
#[allow(inconsistent_fields)]
pub enum Stage {
    LoadingUrl,
    Health,
    Agents,
    Sessions,
    WorkList,
    WorkDescription { agent: Option<String> },
    WorkAgents { description: String, agent: Option<String> },
    WorkAssign { description: String, names: Vec<String> },
    WorkCreated { description: String, agent: String },
    Conversations,
    ChatSent,
    RestartConfirm,
    Restarted,
    ConfigUrl,
    Finished,
}

/// What a [`Stage`] holds.
#[allow(inconsistent_fields)]
pub enum Phase {
    LoadingUrl,
    Health,
    Agents,
    Sessions,
    WorkList,
    WorkDescription { agent: Option<Seq<char>> },
    WorkAgents { description: Seq<char>, agent: Option<Seq<char>> },
    WorkAssign { description: Seq<char>, names: Seq<Seq<char>> },
    WorkCreated { description: Seq<char>, agent: Seq<char> },
    Conversations,
    ChatSent,
    RestartConfirm,
    Restarted,
    ConfigUrl,
    Finished,
}

impl View for Stage {
    type V = Phase;

    open spec fn view(&self) -> Phase {
        match self {
            Stage::LoadingUrl => Phase::LoadingUrl,
            Stage::Health => Phase::Health,
            Stage::Agents => Phase::Agents,
            Stage::Sessions => Phase::Sessions,
            Stage::WorkList => Phase::WorkList,
            Stage::WorkDescription { agent } => Phase::WorkDescription { agent: opt_text(*agent) },
            Stage::WorkAgents { description, agent } => Phase::WorkAgents {
                description: description@,
                agent: opt_text(*agent),
            },
            Stage::WorkAssign { description, names } => Phase::WorkAssign {
                description: description@,
                names: texts(names@),
            },
            Stage::WorkCreated { description, agent } => Phase::WorkCreated {
                description: description@,
                agent: agent@,
            },
            Stage::Conversations => Phase::Conversations,
            Stage::ChatSent => Phase::ChatSent,
            Stage::RestartConfirm => Phase::RestartConfirm,
            Stage::Restarted => Phase::Restarted,
            Stage::ConfigUrl => Phase::ConfigUrl,
            Stage::Finished => Phase::Finished,
        }
    }
}

/// What the host does after sending a step's messages.
#[derive(Debug, Clone, PartialEq, Eq)]
pub enum Next {
    /// Send this request and hand its reply to [`Session::resume`].
    Await(OutboundMessage),
    /// The run is over.
    Finish,
    /// The host cancelled; the run stops with exit status 1.
    Cancel,
    /// The run stops with this panic message.
    Crash(String),
}

/// What a [`Next`] holds.
pub enum Then {
    Await(Message),
    Finish,
    Cancel,
    Crash(Seq<char>),
}

impl View for Next {
    type V = Then;

    open spec fn view(&self) -> Then {
        match self {
            Next::Await(m) => Then::Await(m@),
            Next::Finish => Then::Finish,
            Next::Cancel => Then::Cancel,
            Next::Crash(s) => Then::Crash(s@),
        }
    }
}

/// One step of a run: the items to hand to the host, in order, then what
/// comes next.
#[derive(Debug, Clone, PartialEq, Eq)]
pub struct Step {
    pub emits: Vec<Emit>,
    pub next: Next,
}

/// What a [`Step`] holds.
pub struct StepView {
    pub emits: Seq<Emitted>,
    pub next: Then,
}

impl View for Step {
    type V = StepView;

    open spec fn view(&self) -> StepView {
        StepView { emits: emitted(self.emits@), next: self.next@ }
    }
}

/// What a [`Session`] holds.
pub struct SessionState {
    pub counter: u64,
    pub command: Seq<char>,
    pub yes: bool,
    pub json: bool,
    pub rest: Seq<Seq<char>>,
    pub base_url: Seq<char>,
    pub stage: Phase,
}

/// The result of handling one command or one reply, before the run
/// decides how to go on.
pub enum Outcome {
    Done,
    Wait(Message, Phase),
    Crash(Seq<char>),
}

/// Items handed to the host, then the outcome.
pub struct Flow {
    pub emits: Seq<Emitted>,
    pub outcome: Outcome,
}

/// The executable outcome of a handler.
pub enum Continue {
    Done,
    Wait(OutboundMessage, Stage),
    Crash(String),
}

impl View for Continue {
    type V = Outcome;

    open spec fn view(&self) -> Outcome {
        match self {
            Continue::Done => Outcome::Done,
            Continue::Wait(m, s) => Outcome::Wait(m@, s@),
            Continue::Crash(t) => Outcome::Crash(t@),
        }
    }
}

/// A handler went from `old` to `new` returning `c`, as the flow `f` says:
/// it queued the flow's items and took one id where it waits for a reply.
pub open spec fn follows(old: Outgoing, new: Outgoing, c: Outcome, f: Flow) -> bool {
    &&& c == f.outcome
    &&& new.outbox == old.outbox + f.emits
    &&& new.counter == (if f.outcome is Wait { after_id(old.counter) } else { old.counter })
}

/// The flow that ends the work of a command.
pub open spec fn done(emits: Seq<Emitted>) -> Flow {
    Flow { emits, outcome: Outcome::Done }
}

/// The flow that sends a request and waits for its reply in `phase`.
pub open spec fn wait(emits: Seq<Emitted>, request: Message, phase: Phase) -> Flow {
    Flow { emits, outcome: Outcome::Wait(request, phase) }
}

/// A progress message with a text.
pub open spec fn progress_start(text: Seq<char>) -> Emitted {
    Emitted::Send(Message::Progress { message: Some(text), current: None, total: None, done: None })
}

/// The progress message that marks the end of the work.
pub open spec fn progress_done() -> Emitted {
    Emitted::Send(Message::Progress { message: None, current: None, total: None, done: Some(true) })
}

/// The log message that ends a completed run.
pub open spec fn completion_log(command: Seq<char>) -> Emitted {
    Emitted::Send(Message::Log { level: "info"@, message: "corvid-agent "@ + command + " complete"@ })
}

/// The shell command that lists the running sessions.
pub open spec fn sessions_command(base: Seq<char>) -> Seq<char> {
    "curl -s '"@ + base + SESSIONS_FILTER@
}

/// The shell command that lists the newest work tasks.
pub open spec fn tasks_command(base: Seq<char>) -> Seq<char> {
    "curl -s '"@ + base + TASKS_FILTER@
}

/// Storing the server URL and saying so.
pub open spec fn url_saved(url: Seq<char>) -> Seq<Emitted> {
    seq![
        Emitted::Send(Message::Store { key: URL_KEY@, value: url }),
        output_message("\n  Saved server URL: "@ + url + "\n\n"@),
    ]
}

/// The server URL from the reply to the plugin-store lookup: the stored
/// string where it is a non-empty one, else [`DEFAULT_URL`].
pub open spec fn base_url_of(r: Reply) -> Seq<char> {
    stored_url(reply_value(r))
}

/// The server URL in the parsed value of the plugin-store lookup.
pub open spec fn stored_url(v: Option<JsonView>) -> Seq<char> {
    match string_value(v) {
        Some(u) => if u.len() > 0 {
            u
        } else {
            DEFAULT_URL@
        },
        None => DEFAULT_URL@,
    }
}

/// Posting the restart request.
pub open spec fn restart_flow(base: Seq<char>, counter: u64) -> Flow {
    wait(
        seq![progress_start("Restarting server"@)],
        exec_message(id_text(counter), curl_post_command(base + "/api/system/restart"@, "{}"@)),
        Phase::Restarted,
    )
}

/// Going on from a task description: an empty one cancels, otherwise the
/// agent list is fetched.
pub open spec fn described_flow(description: Seq<char>, agent: Option<Seq<char>>, base: Seq<char>, counter: u64) -> Flow {
    if description.len() == 0 {
        done(seq![output_message("  Cancelled \u{2014} no description provided.\n"@)])
    } else {
        wait(
            Seq::empty(),
            exec_message(id_text(counter), curl_command(base + "/api/agents"@)),
            Phase::WorkAgents { description, agent },
        )
    }
}

/// Posting the new work task.
pub open spec fn create_flow(description: Seq<char>, agent: Seq<char>, base: Seq<char>, counter: u64) -> Flow {
    wait(
        seq![progress_start("Creating work task"@)],
        exec_message(
            id_text(counter),
            curl_post_command(
                base + "/api/work-tasks"@,
                json_object_text(seq![("description"@, description), ("agentName"@, agent)]),
            ),
        ),
        Phase::WorkCreated { description, agent },
    )
}

/// What `work` does with its arguments.
pub open spec fn work_flow(rest: Seq<Seq<char>>, base: Seq<char>, counter: u64) -> Flow {
    let sub = if rest.len() > 0 { rest[0] } else { "list"@ };
    if sub == "list"@ {
        wait(Seq::empty(), exec_message(id_text(counter), tasks_command(base)), Phase::WorkList)
    } else if sub == "create"@ {
        let args = rest.skip(1);
        match work_description(args) {
            Some(d) => described_flow(d, work_agent(args), base, counter),
            None => wait(
                Seq::empty(),
                Message::Prompt {
                    id: id_text(counter),
                    message: "Task description:"@,
                    default: None,
                    validate: Some("non_empty"@),
                },
                Phase::WorkDescription { agent: work_agent(args) },
            ),
        }
    } else {
        done(seq![output_message("  Unknown work subcommand: "@ + sub + "\n  Usage: corvid-agent work [list|create]\n"@)])
    }
}

/// What `chat` does with its arguments.
pub open spec fn chat_flow(rest: Seq<Seq<char>>, base: Seq<char>, counter: u64) -> Flow {
    if rest.len() == 0 {
        wait(
            Seq::empty(),
            exec_message(id_text(counter), curl_command(base + "/api/algochat/conversations"@)),
            Phase::Conversations,
        )
    } else {
        wait(
            Seq::empty(),
            exec_message(
                id_text(counter),
                curl_post_command(
                    base + "/api/algochat/send"@,
                    json_object_text(seq![("message"@, join(rest, " "@))]),
                ),
            ),
            Phase::ChatSent,
        )
    }
}

/// What a command does once the server URL is known.
pub open spec fn command_flow(
    command: Seq<char>,
    rest: Seq<Seq<char>>,
    yes: bool,
    base: Seq<char>,
    counter: u64,
) -> Flow {
    if command == "health"@ || command == "status"@ {
        wait(
            seq![progress_start("Checking server health"@)],
            exec_message(id_text(counter), curl_command(base + "/api/health"@)),
            Phase::Health,
        )
    } else if command == "agents"@ {
        wait(Seq::empty(), exec_message(id_text(counter), curl_command(base + "/api/agents"@)), Phase::Agents)
    } else if command == "sessions"@ {
        wait(Seq::empty(), exec_message(id_text(counter), sessions_command(base)), Phase::Sessions)
    } else if command == "work"@ {
        work_flow(rest, base, counter)
    } else if command == "chat"@ {
        chat_flow(rest, base, counter)
    } else if command == "restart"@ {
        if yes {
            restart_flow(base, counter)
        } else {
            wait(
                Seq::empty(),
                Message::Confirm {
                    id: id_text(counter),
                    message: "Restart the CorvidAgent server?"@,
                    default: Some(false),
                },
                Phase::RestartConfirm,
            )
        }
    } else if command == "config"@ {
        match config_scan(rest, None) {
            Some(u) => done(url_saved(u)),
            None => wait(
                Seq::empty(),
                Message::Prompt {
                    id: id_text(counter),
                    message: "CorvidAgent server URL:"@,
                    default: Some(DEFAULT_URL@),
                    validate: None,
                },
                Phase::ConfigUrl,
            ),
        }
    } else if command == "help"@ || command == "--help"@ || command == "-h"@ {
        done(seq![output_message(HELP_TEXT@)])
    } else {
        done(seq![output_message("  Unknown command: "@ + command + "\n"@), output_message(HELP_TEXT@)])
    }
}

/// What a run does with the reply `r` to the request it waits for in `phase`.
pub open spec fn reply_flow(phase: Phase, r: Reply, json: bool, base: Seq<char>, counter: u64) -> Flow {
    match phase {
        Phase::Health => done(seq![progress_done()] + health_report(exec_output(r), json)),
        Phase::Agents => done(agents_report(exec_output(r), json)),
        Phase::Sessions => done(sessions_report(exec_output(r), json)),
        Phase::WorkList => done(work_list_report(exec_output(r), json)),
        Phase::WorkDescription { agent } => described_flow(
            text_or_empty(string_value(reply_value(r))),
            agent,
            base,
            counter,
        ),
        Phase::WorkAgents { description, agent } => {
            let names = agent_names(exec_output(r));
            if names.len() == 0 {
                done(seq![output_message("  No agents available.\n"@)])
            } else {
                match agent {
                    Some(a) => match matching_name(names, a) {
                        Some(n) => create_flow(description, n, base, counter),
                        None => done(
                            seq![
                                output_message(
                                    "  Unknown agent: "@ + a + "\n  Available: "@ + join(names, ", "@) + "\n"@,
                                ),
                            ],
                        ),
                    },
                    None => wait(
                        Seq::empty(),
                        Message::Select {
                            id: id_text(counter),
                            message: "Assign to agent:"@,
                            options: names,
                            default: Some(0),
                        },
                        Phase::WorkAssign { description, names },
                    ),
                }
            }
        },
        Phase::WorkAssign { description, names } => create_flow(
            description,
            or_else(string_value(reply_value(r)), names[0]),
            base,
            counter,
        ),
        Phase::WorkCreated { description, agent } => done(
            seq![progress_done(), output_message(created_report(exec_output(r), description, agent, json))],
        ),
        Phase::Conversations => {
            let report = conversations_report(exec_output(r), json);
            match report.1 {
                Some(message) => Flow { emits: report.0, outcome: Outcome::Crash(message) },
                None => done(report.0),
            }
        },
        Phase::ChatSent => done(seq![output_message(sent_report(exec_output(r), json))]),
        Phase::RestartConfirm => if bool_value(reply_value(r)) == Some(true) {
            restart_flow(base, counter)
        } else {
            done(seq![output_message("  Cancelled.\n"@)])
        },
        Phase::Restarted => {
            let result = exec_output(r);
            done(
                seq![
                    progress_done(),
                    output_message(
                        if result.len() == 0 {
                            "  Restart signal sent.\n"@
                        } else {
                            "  "@ + result + "\n"@
                        },
                    ),
                ],
            )
        },
        Phase::ConfigUrl => done(url_saved(or_else(string_value(reply_value(r)), DEFAULT_URL@))),
        _ => done(Seq::empty()),
    }
}

/// How a run goes on from a flow.
pub open spec fn settle(s: SessionState, f: Flow) -> (SessionState, StepView) {
    match f.outcome {
        Outcome::Done => (
            SessionState { stage: Phase::Finished, ..s },
            StepView { emits: f.emits + seq![completion_log(s.command)], next: Then::Finish },
        ),
        Outcome::Wait(m, p) => (
            SessionState { stage: p, counter: after_id(s.counter), ..s },
            StepView { emits: f.emits, next: Then::Await(m) },
        ),
        Outcome::Crash(t) => (SessionState { stage: Phase::Finished, ..s }, StepView { emits: f.emits, next: Then::Crash(t) }),
    }
}

/// The first step of a run with the arguments `args`: split off the global
/// flags, take the command and its arguments, and ask the host for the
/// configured server URL.
pub open spec fn start_run(args: Seq<Seq<char>>) -> (SessionState, StepView) {
    let pos = positional_args(args);
    (
        SessionState {
            counter: after_id(1),
            command: if pos.len() > 0 { pos[0] } else { "help"@ },
            yes: exists|i: int| 0 <= i < args.len() && is_yes_flag(#[trigger] args[i]),
            json: exists|i: int| 0 <= i < args.len() && is_json_flag(#[trigger] args[i]),
            rest: if pos.len() > 1 { pos.skip(1) } else { Seq::empty() },
            base_url: Seq::empty(),
            stage: Phase::LoadingUrl,
        },
        StepView { emits: Seq::empty(), next: Then::Await(Message::Load { id: id_text(1), key: URL_KEY@ }) },
    )
}

/// The step of a run in state `s` on the reply `r`.
pub open spec fn resume_run(s: SessionState, r: Reply) -> (SessionState, StepView) {
    if s.stage is Finished {
        (s, StepView { emits: Seq::empty(), next: Then::Finish })
    } else if r.msg_type == "cancel"@ {
        (SessionState { stage: Phase::Finished, ..s }, StepView { emits: Seq::empty(), next: Then::Cancel })
    } else if s.stage is LoadingUrl {
        let base = base_url_of(r);
        settle(SessionState { base_url: base, ..s }, command_flow(s.command, s.rest, s.yes, base, s.counter))
    } else {
        settle(s, reply_flow(s.stage, r, s.json, s.base_url, s.counter))
    }
}

// ---------------------------------------------------------------------------
// Handlers
// ---------------------------------------------------------------------------

/// The server URL in the parsed value of the plugin-store lookup: the
/// stored string where it is a non-empty one, else [`DEFAULT_URL`].
pub fn url_in_value(v: &Option<Json>) -> (u: String)
    ensures
        u@ == stored_url(view_of(*v)),
{
    match get_string(v) {
        Some(u) => if u.as_str().is_empty() {
            owned(DEFAULT_URL)
        } else {
            u
        },
        None => owned(DEFAULT_URL),
    }
}

/// `base` followed by `path`.
fn url(base: &String, path: &str) -> (r: String)
    ensures
        r@ == base@ + path@,
{
    let mut r = base.clone();
    r.append(path);
    r
}

/// The arguments after the first.
fn tail_of(v: &Vec<String>) -> (r: Vec<String>)
    requires
        v.len() > 0,
    ensures
        texts(r@) == texts(v@).skip(1),
{
    let mut r: Vec<String> = Vec::new();
    let mut i: usize = 1;
    while i < v.len()
        invariant
            1 <= i <= v.len(),
            r@ == v@.subrange(1, i as int),
        decreases v.len() - i,
    {
        r.push(v[i].clone());
        i = i + 1;
        assert(r@ =~= v@.subrange(1, i as int));
    }
    assert(texts(r@) =~= texts(v@).skip(1));
    r
}

/// Queues a progress message with a text.
fn progress(io: &mut PluginIO, text: &str)
    ensures
        queued(old(io)@, final(io)@, seq![progress_start(text@)]),
{
    io.send(OutboundMessage::Progress { message: Some(owned(text)), current: None, total: None, done: None });
}

/// Queues the progress message that ends the work.
fn progress_end(io: &mut PluginIO)
    ensures
        queued(old(io)@, final(io)@, seq![progress_done()]),
{
    io.send(OutboundMessage::Progress { message: None, current: None, total: None, done: Some(true) });
}

/// Queues the storing of the server URL.
fn save_url(io: &mut PluginIO, u: &String)
    ensures
        queued(old(io)@, final(io)@, url_saved(u@)),
{
    let ghost start = io@;
    io.send(OutboundMessage::Store { key: owned(URL_KEY), value: u.clone() });
    let mut t = owned("\n  Saved server URL: ");
    t.append(u.as_str());
    t.append("\n\n");
    io.output(t.as_str());
    assert(io@.outbox =~= start.outbox + url_saved(u@));
}

/// Posts the restart request.
fn post_restart(io: &mut PluginIO, base: &String) -> (c: Continue)
    ensures
        follows(old(io)@, final(io)@, c@, restart_flow(base@, old(io)@.counter)),
{
    progress(io, "Restarting server");
    let req = io.curl_post(url(base, "/api/system/restart").as_str(), "{}");
    Continue::Wait(req, Stage::Restarted)
}

/// Goes on from a task description.
fn described(io: &mut PluginIO, description: String, agent: Option<String>, base: &String) -> (c: Continue)
    ensures
        follows(old(io)@, final(io)@, c@, described_flow(description@, opt_text(agent), base@, old(io)@.counter)),
{
    if description.as_str().is_empty() {
        io.output("  Cancelled \u{2014} no description provided.\n");
        assert(io@.outbox =~= old(io)@.outbox + seq![output_message("  Cancelled \u{2014} no description provided.\n"@)]);
        Continue::Done
    } else {
        let req = io.curl(url(base, "/api/agents").as_str());
        assert(io@.outbox =~= old(io)@.outbox + Seq::<Emitted>::empty());
        Continue::Wait(req, Stage::WorkAgents { description, agent })
    }
}

/// Posts the new work task.
fn create_task(io: &mut PluginIO, description: String, agent: String, base: &String) -> (c: Continue)
    ensures
        follows(old(io)@, final(io)@, c@, create_flow(description@, agent@, base@, old(io)@.counter)),
{
    let mut members: Vec<(String, String)> = Vec::new();
    members.push((owned("description"), description.clone()));
    members.push((owned("agentName"), agent.clone()));
    assert(text_pairs(members@) =~= seq![("description"@, description@), ("agentName"@, agent@)]);
    let body = json_object(&members);
    progress(io, "Creating work task");
    let req = io.curl_post(url(base, "/api/work-tasks").as_str(), body.as_str());
    Continue::Wait(req, Stage::WorkCreated { description, agent })
}

/// What `work` does with its arguments.
fn work(io: &mut PluginIO, rest: &Vec<String>, base: &String) -> (c: Continue)
    ensures
        follows(old(io)@, final(io)@, c@, work_flow(texts(rest@), base@, old(io)@.counter)),
{
    let sub = if rest.len() > 0 { rest[0].clone() } else { owned("list") };
    if same(&sub, "list") {
        let mut command = owned("curl -s '");
        command.append(base.as_str());
        command.append(TASKS_FILTER);
        let req = io.exec_pipe(command.as_str());
        assert(io@.outbox =~= old(io)@.outbox + Seq::<Emitted>::empty());
        Continue::Wait(req, Stage::WorkList)
    } else if same(&sub, "create") {
        let args = tail_of(rest);
        let flags = parse_work_create_flags(args.as_slice());
        match flags.description {
            Some(d) => described(io, d, flags.agent, base),
            None => {
                let id = next_id(&mut io.counter);
                let req = OutboundMessage::Prompt {
                    id,
                    message: owned("Task description:"),
                    default: None,
                    validate: Some(owned("non_empty")),
                };
                assert(io@.outbox =~= old(io)@.outbox + Seq::<Emitted>::empty());
                Continue::Wait(req, Stage::WorkDescription { agent: flags.agent })
            },
        }
    } else {
        let mut t = owned("  Unknown work subcommand: ");
        t.append(sub.as_str());
        t.append("\n  Usage: corvid-agent work [list|create]\n");
        io.output(t.as_str());
        Continue::Done
    }
}

/// What `chat` does with its arguments.
fn chat(io: &mut PluginIO, rest: &Vec<String>, base: &String) -> (c: Continue)
    ensures
        follows(old(io)@, final(io)@, c@, chat_flow(texts(rest@), base@, old(io)@.counter)),
{
    if rest.len() == 0 {
        let req = io.curl(url(base, "/api/algochat/conversations").as_str());
        assert(io@.outbox =~= old(io)@.outbox + Seq::<Emitted>::empty());
        Continue::Wait(req, Stage::Conversations)
    } else {
        let message = joined(rest, " ");
        let mut members: Vec<(String, String)> = Vec::new();
        members.push((owned("message"), message));
        assert(text_pairs(members@) =~= seq![("message"@, join(texts(rest@), " "@))]);
        let body = json_object(&members);
        let req = io.curl_post(url(base, "/api/algochat/send").as_str(), body.as_str());
        assert(io@.outbox =~= old(io)@.outbox + Seq::<Emitted>::empty());
        Continue::Wait(req, Stage::ChatSent)
    }
}

/// What a command does once the server URL is known.
fn run_command(io: &mut PluginIO, command: &String, rest: &Vec<String>, yes: bool, base: &String) -> (c: Continue)
    ensures
        follows(old(io)@, final(io)@, c@, command_flow(command@, texts(rest@), yes, base@, old(io)@.counter)),
{
    if same(command, "health") || same(command, "status") {
        progress(io, "Checking server health");
        let req = io.curl(url(base, "/api/health").as_str());
        Continue::Wait(req, Stage::Health)
    } else if same(command, "agents") {
        let req = io.curl(url(base, "/api/agents").as_str());
        assert(io@.outbox =~= old(io)@.outbox + Seq::<Emitted>::empty());
        Continue::Wait(req, Stage::Agents)
    } else if same(command, "sessions") {
        let mut line = owned("curl -s '");
        line.append(base.as_str());
        line.append(SESSIONS_FILTER);
        let req = io.exec_pipe(line.as_str());
        assert(io@.outbox =~= old(io)@.outbox + Seq::<Emitted>::empty());
        Continue::Wait(req, Stage::Sessions)
    } else if same(command, "work") {
        work(io, rest, base)
    } else if same(command, "chat") {
        chat(io, rest, base)
    } else if same(command, "restart") {
        if yes {
            post_restart(io, base)
        } else {
            let id = next_id(&mut io.counter);
            let req = OutboundMessage::Confirm {
                id,
                message: owned("Restart the CorvidAgent server?"),
                default: Some(false),
            };
            assert(io@.outbox =~= old(io)@.outbox + Seq::<Emitted>::empty());
            Continue::Wait(req, Stage::RestartConfirm)
        }
    } else if same(command, "config") {
        match parse_config_url(rest.as_slice()) {
            Some(u) => {
                save_url(io, &u);
                Continue::Done
            },
            None => {
                let id = next_id(&mut io.counter);
                let req = OutboundMessage::Prompt {
                    id,
                    message: owned("CorvidAgent server URL:"),
                    default: Some(owned(DEFAULT_URL)),
                    validate: None,
                };
                assert(io@.outbox =~= old(io)@.outbox + Seq::<Emitted>::empty());
                Continue::Wait(req, Stage::ConfigUrl)
            },
        }
    } else if same(command, "help") || same(command, "--help") || same(command, "-h") {
        io.output(HELP_TEXT);
        Continue::Done
    } else {
        let ghost start = io@;
        let mut t = owned("  Unknown command: ");
        t.append(command.as_str());
        t.append("\n");
        io.output(t.as_str());
        io.output(HELP_TEXT);
        assert(io@.outbox =~= start.outbox + seq![
            output_message("  Unknown command: "@ + command@ + "\n"@),
            output_message(HELP_TEXT@),
        ]);
        Continue::Done
    }
}

/// What a run does with the reply to the request it waits for in `stage`.
fn on_reply(io: &mut PluginIO, stage: Stage, r: &InboundMessage, json: bool, base: &String) -> (c: Continue)
    requires
        !(stage is LoadingUrl),
        !(stage is Finished),
        stage matches Stage::WorkAssign { names, .. } ==> names.len() > 0,
    ensures
        follows(old(io)@, final(io)@, c@, reply_flow(stage@, r@, json, base@, old(io)@.counter)),
{
    let ghost start = io@;
    match stage {
        Stage::Health => {
            let raw = exec_stdout(r);
            progress_end(io);
            show_health(io, &raw, json);
            assert(io@.outbox =~= start.outbox + (seq![progress_done()] + health_report(raw@, json)));
            Continue::Done
        },
        Stage::Agents => {
            show_agents(io, &exec_stdout(r), json);
            Continue::Done
        },
        Stage::Sessions => {
            show_sessions(io, &exec_stdout(r), json);
            Continue::Done
        },
        Stage::WorkList => {
            show_work_list(io, &exec_stdout(r), json);
            Continue::Done
        },
        Stage::WorkDescription { agent } => {
            let v = value_of(r);
            let d = match get_string(&v) {
                Some(s) => s,
                None => String::new(),
            };
            described(io, d, agent, base)
        },
        Stage::WorkAgents { description, agent } => {
            let names = list_agent_names(&exec_stdout(r));
            if names.len() == 0 {
                io.output("  No agents available.\n");
                return Continue::Done;
            }
            match agent {
                Some(a) => match find_agent(&names, &a) {
                    Some(n) => create_task(io, description, n, base),
                    None => {
                        let mut t = owned("  Unknown agent: ");
                        t.append(a.as_str());
                        t.append("\n  Available: ");
                        t.append(joined(&names, ", ").as_str());
                        t.append("\n");
                        io.output(t.as_str());
                        Continue::Done
                    },
                },
                None => {
                    let id = next_id(&mut io.counter);
                    let options = names.clone();
                    let req = OutboundMessage::Select {
                        id,
                        message: owned("Assign to agent:"),
                        options,
                        default: Some(0),
                    };
                    assert(io@.outbox =~= start.outbox + Seq::<Emitted>::empty());
                    Continue::Wait(req, Stage::WorkAssign { description, names })
                },
            }
        },
        Stage::WorkAssign { description, names } => {
            let v = value_of(r);
            let agent = match get_string(&v) {
                Some(s) => s,
                None => names[0].clone(),
            };
            create_task(io, description, agent, base)
        },
        Stage::WorkCreated { description, agent } => {
            let result = exec_stdout(r);
            progress_end(io);
            show_created(io, &result, &description, &agent, json);
            assert(io@.outbox =~= start.outbox + seq![
                progress_done(),
                output_message(created_report(result@, description@, agent@, json)),
            ]);
            Continue::Done
        },
        Stage::Conversations => {
            match show_conversations(io, &exec_stdout(r), json) {
                None => Continue::Done,
                Some(message) => Continue::Crash(message),
            }
        },
        Stage::ChatSent => {
            show_sent(io, &exec_stdout(r), json);
            Continue::Done
        },
        Stage::RestartConfirm => {
            let v = value_of(r);
            let confirmed = match get_bool(&v) {
                Some(b) => b,
                None => false,
            };
            if confirmed {
                post_restart(io, base)
            } else {
                io.output("  Cancelled.\n");
                Continue::Done
            }
        },
        Stage::Restarted => {
            let result = exec_stdout(r);
            progress_end(io);
            if result.as_str().is_empty() {
                io.output("  Restart signal sent.\n");
            } else {
                let mut t = owned("  ");
                t.append(result.as_str());
                t.append("\n");
                io.output(t.as_str());
            }
            assert(io@.outbox =~= start.outbox + seq![
                progress_done(),
                output_message(if result@.len() == 0 { "  Restart signal sent.\n"@ } else { "  "@ + result@ + "\n"@ }),
            ]);
            Continue::Done
        },
        Stage::ConfigUrl => {
            let v = value_of(r);
            let u = match get_string(&v) {
                Some(s) => s,
                None => owned(DEFAULT_URL),
            };
            save_url(io, &u);
            Continue::Done
        },
        _ => {
            assert(io@.outbox =~= start.outbox + Seq::<Emitted>::empty());
            Continue::Done
        },
    }
}

// ---------------------------------------------------------------------------
// The run
// ---------------------------------------------------------------------------

/// One run of the plugin.
pub struct Session {
    counter: u64,
    command: String,
    yes: bool,
    json: bool,
    rest: Vec<String>,
    base_url: String,
    stage: Stage,
}

impl View for Session {
    type V = SessionState;

    closed spec fn view(&self) -> SessionState {
        SessionState {
            counter: self.counter,
            command: self.command@,
            yes: self.yes,
            json: self.json,
            rest: texts(self.rest@),
            base_url: self.base_url@,
            stage: self.stage@,
        }
    }
}

impl Session {
    /// An agent selection is only awaited among a non-empty list of names.
    #[verifier::type_invariant]
    spec fn well_formed(self) -> bool {
        self.stage matches Stage::WorkAssign { names, .. } ==> names.len() > 0
    }

    /// Starts a run with the command-line arguments: splits off the global
    /// flags, takes the command (`help` where there is none) and its
    /// arguments, and asks the host for the configured server URL.
    pub fn start(args: &[String]) -> (r: (Session, Step))
        ensures
            (r.0@, r.1@) == start_run(texts(args@)),
    {
        let flags = parse_flags(args);
        proof {
            assert forall|i: int| 0 <= i < args@.len() implies texts(args@)[i] == #[trigger] args@[i]@ by {}
            assert((exists|i: int| 0 <= i < args@.len() && is_yes_flag(#[trigger] args@[i]@)) == (exists|i: int|
                0 <= i < texts(args@).len() && is_yes_flag(#[trigger] texts(args@)[i])));
            assert((exists|i: int| 0 <= i < args@.len() && is_json_flag(#[trigger] args@[i]@)) == (exists|i: int|
                0 <= i < texts(args@).len() && is_json_flag(#[trigger] texts(args@)[i])));
        }
        let command = if flags.positional.len() > 0 { flags.positional[0].clone() } else { owned("help") };
        let rest = if flags.positional.len() > 1 { tail_of(&flags.positional) } else { Vec::new() };
        assert(texts(rest@) =~= (if texts(flags.positional@).len() > 1 {
            texts(flags.positional@).skip(1)
        } else {
            Seq::empty()
        }));
        let mut counter: u64 = 1;
        let id = next_id(&mut counter);
        let request = OutboundMessage::Load { id, key: owned(URL_KEY) };
        let session = Session {
            counter,
            command,
            yes: flags.yes,
            json: flags.json,
            rest,
            base_url: String::new(),
            stage: Stage::LoadingUrl,
        };
        let step = Step { emits: Vec::new(), next: Next::Await(request) };
        assert(step@.emits =~= Seq::<Emitted>::empty());
        (session, step)
    }

    /// Takes the reply to the awaited request and makes the next step. A
    /// reply of type `cancel` stops the run; once the run is over, nothing
    /// more happens.
    pub fn resume(&mut self, reply: &InboundMessage) -> (step: Step)
        ensures
            (final(self)@, step@) == resume_run(old(self)@, reply@),
    {
        proof {
            use_type_invariant(&*self);
        }
        if let Stage::Finished = self.stage {
            let step = Step { emits: Vec::new(), next: Next::Finish };
            assert(step@.emits =~= Seq::<Emitted>::empty());
            return step;
        }
        if same(&reply.msg_type, "cancel") {
            self.stage = Stage::Finished;
            let step = Step { emits: Vec::new(), next: Next::Cancel };
            assert(step@.emits =~= Seq::<Emitted>::empty());
            return step;
        }
        let mut io = PluginIO::new();
        io.counter = self.counter;
        let mut stage = Stage::Finished;
        std::mem::swap(&mut stage, &mut self.stage);
        let outcome = if let Stage::LoadingUrl = stage {
            self.base_url = url_in_value(&value_of(reply));
            run_command(&mut io, &self.command, &self.rest, self.yes, &self.base_url)
        } else {
            on_reply(&mut io, stage, reply, self.json, &self.base_url)
        };
        match outcome {
            Continue::Done => {
                io.log("info", self.completion_message().as_str());
                self.counter = io.counter;
                Step { emits: io.drain(), next: Next::Finish }
            },
            Continue::Wait(request, next_stage) => {
                self.counter = io.counter;
                self.stage = next_stage;
                Step { emits: io.drain(), next: Next::Await(request) }
            },
            Continue::Crash(message) => {
                self.counter = io.counter;
                Step { emits: io.drain(), next: Next::Crash(message) }
            },
        }
    }

    /// `corvid-agent COMMAND complete`.
    fn completion_message(&self) -> (m: String)
        ensures
            m@ == "corvid-agent "@ + self.command@ + " complete"@,
    {
        let mut m = owned("corvid-agent ");
        m.append(self.command.as_str());
        m.append(" complete");
        m
    }

    /// Whether the run is over.
    pub fn finished(&self) -> (r: bool)
        ensures
            r == (self@.stage is Finished),
    {
        if let Stage::Finished = self.stage { true } else { false }
    }
}

} // verus!
