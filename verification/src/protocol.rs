//! The messages of the Fledge plugin protocol and the outgoing side of it:
//! request ids, and the messages queued for the host.
use vstd::prelude::*;
use crate::flags::opt_text;
use crate::json::{get_member, get_string, json_document, member, parse_json, string_value, texts, view_of, JsonView};
use crate::text::{decimal, decimal_string, escape_single_quotes, escaped_single_quotes, owned, trim, trimmed};

verus! {

/// A message from the plugin to the host.
#[allow(inconsistent_fields)]
#[derive(Debug, Clone, PartialEq, Eq)]
pub enum OutboundMessage {
    Prompt { id: String, message: String, default: Option<String>, validate: Option<String> },
    Confirm { id: String, message: String, default: Option<bool> },
    Select { id: String, message: String, options: Vec<String>, default: Option<usize> },
    Progress { message: Option<String>, current: Option<u64>, total: Option<u64>, done: Option<bool> },
    Log { level: String, message: String },
    Output { text: String },
    Store { key: String, value: String },
    Load { id: String, key: String },
    Exec { id: String, command: String, cwd: Option<String>, timeout: Option<u64> },
}

/// What an [`OutboundMessage`] holds, as mathematical values.
#[allow(inconsistent_fields)]
pub enum Message {
    Prompt { id: Seq<char>, message: Seq<char>, default: Option<Seq<char>>, validate: Option<Seq<char>> },
    Confirm { id: Seq<char>, message: Seq<char>, default: Option<bool> },
    Select { id: Seq<char>, message: Seq<char>, options: Seq<Seq<char>>, default: Option<usize> },
    Progress { message: Option<Seq<char>>, current: Option<u64>, total: Option<u64>, done: Option<bool> },
    Log { level: Seq<char>, message: Seq<char> },
    Output { text: Seq<char> },
    Store { key: Seq<char>, value: Seq<char> },
    Load { id: Seq<char>, key: Seq<char> },
    Exec { id: Seq<char>, command: Seq<char>, cwd: Option<Seq<char>>, timeout: Option<u64> },
}

impl View for OutboundMessage {
    type V = Message;

    open spec fn view(&self) -> Message {
        match self {
            OutboundMessage::Prompt { id, message, default, validate } => Message::Prompt {
                id: id@,
                message: message@,
                default: opt_text(*default),
                validate: opt_text(*validate),
            },
            OutboundMessage::Confirm { id, message, default } => Message::Confirm {
                id: id@,
                message: message@,
                default: *default,
            },
            OutboundMessage::Select { id, message, options, default } => Message::Select {
                id: id@,
                message: message@,
                options: texts(options@),
                default: *default,
            },
            OutboundMessage::Progress { message, current, total, done } => Message::Progress {
                message: opt_text(*message),
                current: *current,
                total: *total,
                done: *done,
            },
            OutboundMessage::Log { level, message } => Message::Log { level: level@, message: message@ },
            OutboundMessage::Output { text } => Message::Output { text: text@ },
            OutboundMessage::Store { key, value } => Message::Store { key: key@, value: value@ },
            OutboundMessage::Load { id, key } => Message::Load { id: id@, key: key@ },
            OutboundMessage::Exec { id, command, cwd, timeout } => Message::Exec {
                id: id@,
                command: command@,
                cwd: opt_text(*cwd),
                timeout: *timeout,
            },
        }
    }
}

/// A piece of output text. Pieces that depend on a JSON number carry the
/// number's text (or `None` where the value was not a number, which counts
/// as zero); the host computes them in floating point:
/// - `UptimeHours(x)`: `(x / 3600.0) as u64`,
/// - `UptimeMinutes(x)`: `((x % 3600.0) / 60.0) as u64`,
/// - `Cost(x)`: `x` with four decimals.
#[derive(Debug, Clone, PartialEq, Eq)]
pub enum Segment {
    Text(String),
    UptimeHours(Option<String>),
    UptimeMinutes(Option<String>),
    Cost(Option<String>),
}

/// What a [`Segment`] holds.
pub enum Piece {
    Text(Seq<char>),
    UptimeHours(Option<Seq<char>>),
    UptimeMinutes(Option<Seq<char>>),
    Cost(Option<Seq<char>>),
}

impl View for Segment {
    type V = Piece;

    open spec fn view(&self) -> Piece {
        match self {
            Segment::Text(t) => Piece::Text(t@),
            Segment::UptimeHours(n) => Piece::UptimeHours(opt_text(*n)),
            Segment::UptimeMinutes(n) => Piece::UptimeMinutes(opt_text(*n)),
            Segment::Cost(n) => Piece::Cost(opt_text(*n)),
        }
    }
}

/// Something the plugin hands to the host without waiting for a reply: a
/// message, or an `output` message whose text the host renders from pieces.
#[derive(Debug, Clone, PartialEq, Eq)]
pub enum Emit {
    Send(OutboundMessage),
    Show(Vec<Segment>),
}

/// What an [`Emit`] holds.
pub enum Emitted {
    Send(Message),
    Show(Seq<Piece>),
}

/// The views of a list of segments.
pub open spec fn pieces(v: Seq<Segment>) -> Seq<Piece> {
    v.map_values(|s: Segment| s@)
}

impl View for Emit {
    type V = Emitted;

    open spec fn view(&self) -> Emitted {
        match self {
            Emit::Send(m) => Emitted::Send(m@),
            Emit::Show(s) => Emitted::Show(pieces(s@)),
        }
    }
}

/// The views of a list of emitted items.
pub open spec fn emitted(v: Seq<Emit>) -> Seq<Emitted> {
    v.map_values(|e: Emit| e@)
}

/// A message from the host to the plugin; `value` is the JSON text of the
/// reply's value.
#[derive(Debug, Clone, PartialEq, Eq)]
pub struct InboundMessage {
    pub msg_type: String,
    pub id: Option<String>,
    pub value: Option<String>,
    pub reason: Option<String>,
}

/// What an [`InboundMessage`] holds.
pub struct Reply {
    pub msg_type: Seq<char>,
    pub id: Option<Seq<char>>,
    pub value: Option<Seq<char>>,
    pub reason: Option<Seq<char>>,
}

impl View for InboundMessage {
    type V = Reply;

    open spec fn view(&self) -> Reply {
        Reply {
            msg_type: self.msg_type@,
            id: opt_text(self.id),
            value: opt_text(self.value),
            reason: opt_text(self.reason),
        }
    }
}

// ---------------------------------------------------------------------------
// Messages and replies
// ---------------------------------------------------------------------------

/// The value of a reply.
pub open spec fn reply_value(r: Reply) -> Option<JsonView> {
    match r.value {
        Some(t) => json_document(t),
        None => None,
    }
}

/// The value of a reply, parsed.
pub fn value_of(r: &InboundMessage) -> (v: Option<crate::json::Json>)
    ensures
        view_of(v) == reply_value(r@),
{
    match &r.value {
        Some(t) => parse_json(t.as_str()),
        None => None,
    }
}

/// `s`, or the empty text.
pub open spec fn text_or_empty(s: Option<Seq<char>>) -> Seq<char> {
    match s {
        Some(t) => t,
        None => Seq::empty(),
    }
}

/// The standard output of a command, as an `exec` reply reports it:
/// the string member `stdout` of the value, trimmed, or the empty text.
pub open spec fn exec_output(r: Reply) -> Seq<char> {
    stdout_in(reply_value(r))
}

/// The string member `stdout` of a reply's value, trimmed, or the empty text.
pub open spec fn stdout_in(v: Option<JsonView>) -> Seq<char> {
    trim(text_or_empty(string_value(member(v, "stdout"@))))
}

/// The standard output of a command from the reply to an `exec` request.
pub fn exec_stdout(r: &InboundMessage) -> (s: String)
    ensures
        s@ == exec_output(r@),
{
    let v = value_of(r);
    stdout_in_value(&v)
}

/// The standard output of a command from the parsed value of an `exec` reply.
pub fn stdout_in_value(v: &Option<crate::json::Json>) -> (s: String)
    ensures
        s@ == stdout_in(view_of(*v)),
{
    let out = get_member(v, "stdout");
    match get_string(&out) {
        Some(t) => trimmed(t.as_str()),
        None => {
            let e = String::new();
            trimmed(e.as_str())
        },
    }
}

/// The `exec` request for a shell command, with a 30 second timeout.
pub open spec fn exec_message(id: Seq<char>, command: Seq<char>) -> Message {
    Message::Exec { id, command, cwd: None, timeout: Some(30) }
}

/// `curl -s 'URL'`.
pub open spec fn curl_command(url: Seq<char>) -> Seq<char> {
    "curl -s '"@ + url + "'"@
}

/// A JSON `POST` of `body` to `url`, the body quoted for the shell.
pub open spec fn curl_post_command(url: Seq<char>, body: Seq<char>) -> Seq<char> {
    "curl -s -X POST -H 'Content-Type: application/json' -d '"@ + escape_single_quotes(body)
        + "' '"@ + url + "'"@
}

/// The request id for a counter value.
pub open spec fn id_text(counter: u64) -> Seq<char> {
    decimal(counter as nat)
}

/// The counter after one id has been taken (it wraps like an atomic `fetch_add`).
pub open spec fn after_id(counter: u64) -> u64 {
    if counter == u64::MAX {
        0
    } else {
        (counter + 1) as u64
    }
}

/// Takes the next request id: the decimal text of the counter, which then
/// moves on by one.
pub fn next_id(counter: &mut u64) -> (id: String)
    ensures
        id@ == id_text(*old(counter)),
        *final(counter) == after_id(*old(counter)),
{
    let id = decimal_string(*counter);
    *counter = counter.wrapping_add(1);
    id
}

/// The outgoing side of the plugin: the id counter, and what is queued for
/// the host.
pub struct PluginIO {
    pub counter: u64,
    pub outbox: Vec<Emit>,
}

/// What a [`PluginIO`] holds.
pub struct Outgoing {
    pub counter: u64,
    pub outbox: Seq<Emitted>,
}

impl View for PluginIO {
    type V = Outgoing;

    open spec fn view(&self) -> Outgoing {
        Outgoing { counter: self.counter, outbox: emitted(self.outbox@) }
    }
}

/// `old` after `items` were queued, with the counter unchanged.
pub open spec fn queued(old: Outgoing, new: Outgoing, items: Seq<Emitted>) -> bool {
    new.counter == old.counter && new.outbox == old.outbox + items
}

/// An `output` message.
pub open spec fn output_message(text: Seq<char>) -> Emitted {
    Emitted::Send(Message::Output { text })
}

impl PluginIO {
    /// Nothing queued; the first id is `1`.
    pub fn new() -> (io: PluginIO)
        ensures
            io@.counter == 1,
            io@.outbox == Seq::<Emitted>::empty(),
    {
        let io = PluginIO { counter: 1, outbox: Vec::new() };
        assert(emitted(io.outbox@) =~= Seq::<Emitted>::empty());
        io
    }

    /// Queues an item.
    pub fn emit(&mut self, item: Emit)
        ensures
            queued(old(self)@, final(self)@, seq![item@]),
    {
        let ghost before = self.outbox@;
        self.outbox.push(item);
        assert(emitted(self.outbox@) =~= emitted(before) + seq![item@]);
    }

    /// Queues a message.
    pub fn send(&mut self, msg: OutboundMessage)
        ensures
            queued(old(self)@, final(self)@, seq![Emitted::Send(msg@)]),
    {
        self.emit(Emit::Send(msg));
    }

    /// Queues an `output` message.
    pub fn output(&mut self, text: &str)
        ensures
            queued(old(self)@, final(self)@, seq![output_message(text@)]),
    {
        self.send(OutboundMessage::Output { text: owned(text) });
    }

    /// Queues a `log` message.
    pub fn log(&mut self, level: &str, message: &str)
        ensures
            queued(old(self)@, final(self)@, seq![Emitted::Send(Message::Log { level: level@, message: message@ })]),
    {
        self.send(OutboundMessage::Log { level: owned(level), message: owned(message) });
    }

    /// Queues an `output` message rendered from pieces.
    pub fn show(&mut self, segments: Vec<Segment>)
        ensures
            queued(old(self)@, final(self)@, seq![Emitted::Show(pieces(segments@))]),
    {
        self.emit(Emit::Show(segments));
    }

    /// Takes everything queued, leaving the queue empty.
    pub fn drain(&mut self) -> (items: Vec<Emit>)
        ensures
            emitted(items@) == old(self)@.outbox,
            final(self)@.counter == old(self)@.counter,
            final(self)@.outbox == Seq::<Emitted>::empty(),
    {
        let mut items: Vec<Emit> = Vec::new();
        std::mem::swap(&mut items, &mut self.outbox);
        assert(emitted(self.outbox@) =~= Seq::<Emitted>::empty());
        items
    }

    /// The `exec` request that runs a shell command, with a fresh id. The
    /// command's output comes back in the reply, see [`exec_stdout`].
    pub fn exec_pipe(&mut self, command: &str) -> (req: OutboundMessage)
        ensures
            req@ == exec_message(id_text(old(self)@.counter), command@),
            final(self)@.counter == after_id(old(self)@.counter),
            final(self)@.outbox == old(self)@.outbox,
    {
        let id = next_id(&mut self.counter);
        OutboundMessage::Exec { id, command: owned(command), cwd: None, timeout: Some(30) }
    }

    /// The `exec` request that fetches `url` with curl.
    pub fn curl(&mut self, url: &str) -> (req: OutboundMessage)
        ensures
            req@ == exec_message(id_text(old(self)@.counter), curl_command(url@)),
            final(self)@.counter == after_id(old(self)@.counter),
            final(self)@.outbox == old(self)@.outbox,
    {
        let mut command = owned("curl -s '");
        command.append(url);
        command.append("'");
        self.exec_pipe(command.as_str())
    }

    /// The `exec` request that posts the JSON `body` to `url` with curl.
    pub fn curl_post(&mut self, url: &str, body: &str) -> (req: OutboundMessage)
        ensures
            req@ == exec_message(id_text(old(self)@.counter), curl_post_command(url@, body@)),
            final(self)@.counter == after_id(old(self)@.counter),
            final(self)@.outbox == old(self)@.outbox,
    {
        let escaped = escaped_single_quotes(body);
        let mut command = owned("curl -s -X POST -H 'Content-Type: application/json' -d '");
        command.append(escaped.as_str());
        command.append("' '");
        command.append(url);
        command.append("'");
        self.exec_pipe(command.as_str())
    }
}

} // verus!
