//! Command-line flag parsing: the global flags, the flags of `work create`,
//! and the URL argument of `config`.
use vstd::prelude::*;
use crate::json::texts;
use crate::text::{has_dash_prefix, join, joined, same, starts_with_dash};

verus! {

/// The global flags of a run and the remaining positional arguments.
pub struct Flags {
    pub yes: bool,
    pub json: bool,
    pub positional: Vec<String>,
}

/// `--yes` or `-y`.
pub open spec fn is_yes_flag(a: Seq<char>) -> bool {
    a == "--yes"@ || a == "-y"@
}

/// `--json`.
pub open spec fn is_json_flag(a: Seq<char>) -> bool {
    a == "--json"@
}

/// The arguments that are not global flags, in their order.
pub open spec fn positional_args(args: Seq<Seq<char>>) -> Seq<Seq<char>>
    decreases args.len(),
{
    if args.len() == 0 {
        Seq::empty()
    } else {
        let rest = positional_args(args.drop_last());
        if is_yes_flag(args.last()) || is_json_flag(args.last()) {
            rest
        } else {
            rest.push(args.last())
        }
    }
}

/// Splits the arguments into the global flags and the positional arguments.
pub fn parse_flags(args: &[String]) -> (f: Flags)
    ensures
        f.yes == exists|i: int| 0 <= i < args@.len() && is_yes_flag(#[trigger] args@[i]@),
        f.json == exists|i: int| 0 <= i < args@.len() && is_json_flag(#[trigger] args@[i]@),
        texts(f.positional@) == positional_args(texts(args@)),
{
    let ghost all = texts(args@);
    let mut yes = false;
    let mut json = false;
    let mut positional: Vec<String> = Vec::new();
    let mut i: usize = 0;
    while i < args.len()
        invariant
            i <= args.len(),
            all == texts(args@),
            yes == exists|j: int| 0 <= j < i && is_yes_flag(#[trigger] args@[j]@),
            json == exists|j: int| 0 <= j < i && is_json_flag(#[trigger] args@[j]@),
            texts(positional@) == positional_args(all.take(i as int)),
        decreases args.len() - i,
    {
        let arg = &args[i];
        let ghost before = positional@;
        assert(all.take(i + 1).drop_last() =~= all.take(i as int));
        assert(all.take(i + 1).last() == arg@);
        proof {
            reveal_strlit("--yes");
            reveal_strlit("-y");
            reveal_strlit("--json");
        }
        if same(arg, "--yes") || same(arg, "-y") {
            yes = true;
        } else if same(arg, "--json") {
            json = true;
        } else {
            positional.push(arg.clone());
            assert(texts(positional@) =~= texts(before).push(arg@));
        }
        i = i + 1;
    }
    assert(all.take(args.len() as int) =~= all);
    Flags { yes, json, positional }
}

/// The flags of `work create`.
pub struct WorkCreateFlags {
    pub agent: Option<String>,
    pub description: Option<String>,
}

/// `--agent` or `-a`.
pub open spec fn is_agent_flag(a: Seq<char>) -> bool {
    a == "--agent"@ || a == "-a"@
}

/// Reads `work create` arguments left to right, starting from the agent and
/// the description words found so far: `--agent NAME` (or `-a NAME`) sets
/// the agent, the last one winning; a lone `--agent` at the end is ignored;
/// any other argument that does not start with `-` is a description word;
/// the rest is ignored.
pub open spec fn work_scan(
    args: Seq<Seq<char>>,
    agent: Option<Seq<char>>,
    words: Seq<Seq<char>>,
) -> (Option<Seq<char>>, Seq<Seq<char>>)
    decreases args.len(),
{
    if args.len() == 0 {
        (agent, words)
    } else if is_agent_flag(args[0]) && args.len() >= 2 {
        work_scan(args.skip(2), Some(args[1]), words)
    } else if !is_agent_flag(args[0]) && !starts_with_dash(args[0]) {
        work_scan(args.drop_first(), agent, words.push(args[0]))
    } else {
        work_scan(args.drop_first(), agent, words)
    }
}

/// The agent named on the `work create` command line.
pub open spec fn work_agent(args: Seq<Seq<char>>) -> Option<Seq<char>> {
    work_scan(args, None, Seq::empty()).0
}

/// The description words of the `work create` command line.
pub open spec fn work_words(args: Seq<Seq<char>>) -> Seq<Seq<char>> {
    work_scan(args, None, Seq::empty()).1
}

/// The task description: the description words joined by single spaces,
/// if there is any.
pub open spec fn work_description(args: Seq<Seq<char>>) -> Option<Seq<char>> {
    if work_words(args).len() == 0 {
        None
    } else {
        Some(join(work_words(args), " "@))
    }
}

/// The view of an optional string.
pub open spec fn opt_text(s: Option<String>) -> Option<Seq<char>> {
    match s {
        Some(t) => Some(t@),
        None => None,
    }
}

/// Parses the arguments of `work create`.
pub fn parse_work_create_flags(args: &[String]) -> (f: WorkCreateFlags)
    ensures
        opt_text(f.agent) == work_agent(texts(args@)),
        opt_text(f.description) == work_description(texts(args@)),
{
    let ghost all = texts(args@);
    let mut agent: Option<String> = None;
    let mut parts: Vec<String> = Vec::new();
    let mut i: usize = 0;
    assert(all.skip(0) =~= all);
    assert(texts(parts@) =~= Seq::<Seq<char>>::empty());
    while i < args.len()
        invariant
            i <= args.len(),
            all == texts(args@),
            work_scan(all, None, Seq::empty()) == work_scan(all.skip(i as int), opt_text(agent), texts(parts@)),
        decreases args.len() - i,
    {
        let ghost rest = all.skip(i as int);
        assert(rest[0] == args@[i as int]@);
        if same(&args[i], "--agent") || same(&args[i], "-a") {
            if i + 1 < args.len() {
                assert(rest[1] == args@[i + 1]@);
                assert(rest.skip(2) =~= all.skip(i + 2));
                agent = Some(args[i + 1].clone());
                i = i + 2;
                continue;
            }
            assert(rest.drop_first() =~= all.skip(i + 1));
            i = i + 1;
        } else if !has_dash_prefix(&args[i]) {
            let ghost before = parts@;
            parts.push(args[i].clone());
            assert(texts(parts@) =~= texts(before).push(args@[i as int]@));
            assert(rest.drop_first() =~= all.skip(i + 1));
            i = i + 1;
        } else {
            assert(rest.drop_first() =~= all.skip(i + 1));
            i = i + 1;
        }
    }
    assert(all.skip(i as int) =~= Seq::<Seq<char>>::empty());
    let description = if parts.len() == 0 {
        None
    } else {
        Some(joined(&parts, " "))
    };
    WorkCreateFlags { agent, description }
}

/// Reads `config` arguments left to right from the URL found so far:
/// `--url URL` sets it, the last one winning, and a lone `--url` at the end
/// is ignored; the first other argument that does not start with `-` sets
/// it while none is set yet; the rest is ignored.
pub open spec fn config_scan(args: Seq<Seq<char>>, url: Option<Seq<char>>) -> Option<Seq<char>>
    decreases args.len(),
{
    if args.len() == 0 {
        url
    } else if args[0] == "--url"@ && args.len() >= 2 {
        config_scan(args.skip(2), Some(args[1]))
    } else if args[0] != "--url"@ && !starts_with_dash(args[0]) && url is None {
        config_scan(args.drop_first(), Some(args[0]))
    } else {
        config_scan(args.drop_first(), url)
    }
}

/// The server URL given on the `config` command line, if any.
pub fn parse_config_url(args: &[String]) -> (url: Option<String>)
    ensures
        opt_text(url) == config_scan(texts(args@), None),
{
    let ghost all = texts(args@);
    let mut url: Option<String> = None;
    let mut i: usize = 0;
    assert(all.skip(0) =~= all);
    while i < args.len()
        invariant
            i <= args.len(),
            all == texts(args@),
            config_scan(all, None) == config_scan(all.skip(i as int), opt_text(url)),
        decreases args.len() - i,
    {
        let ghost rest = all.skip(i as int);
        assert(rest[0] == args@[i as int]@);
        if same(&args[i], "--url") {
            if i + 1 < args.len() {
                assert(rest[1] == args@[i + 1]@);
                assert(rest.skip(2) =~= all.skip(i + 2));
                url = Some(args[i + 1].clone());
                i = i + 2;
                continue;
            }
            assert(rest.drop_first() =~= all.skip(i + 1));
            i = i + 1;
        } else if !has_dash_prefix(&args[i]) && url.is_none() {
            assert(rest.drop_first() =~= all.skip(i + 1));
            url = Some(args[i].clone());
            i = i + 1;
        } else {
            assert(rest.drop_first() =~= all.skip(i + 1));
            i = i + 1;
        }
    }
    assert(all.skip(i as int) =~= Seq::<Seq<char>>::empty());
    url
}

} // verus!
