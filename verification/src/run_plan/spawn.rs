//! Agent providers, binary resolution, mission prompts and agent command lines.

use crate::text::{
    all_ascii, ascii_lower_seq, concat2, contains_seq, lemma_lowercase_name_fixed, owned, str_eq,
    to_lowercase_str, unicode_lowercase,
};
use vstd::prelude::*;

verus! {

#[derive(Debug, Clone, Copy, PartialEq, Eq, Structural)]
pub enum RunPlanProvider {
    Cursor,
    Claude,
    Codex,
}

/// The provider that a lowercase name selects.
pub open spec fn provider_named(l: Seq<char>) -> Option<RunPlanProvider> {
    if l == "cursor"@ || l == "agent"@ || l == "cli:cursor"@ {
        Some(RunPlanProvider::Cursor)
    } else if l == "anthropic"@ || l == "cli:anthropic"@ {
        Some(RunPlanProvider::Claude)
    } else if l == "codex"@ || l == "cli:codex"@ {
        Some(RunPlanProvider::Codex)
    } else {
        None
    }
}

/// The canonical name of a provider.
pub open spec fn provider_name(p: RunPlanProvider) -> Seq<char> {
    match p {
        RunPlanProvider::Cursor => "cursor"@,
        RunPlanProvider::Claude => "anthropic"@,
        RunPlanProvider::Codex => "codex"@,
    }
}

/// The error for a name that selects no provider.
pub open spec fn unknown_provider_message(l: Seq<char>) -> Seq<char> {
    "unknown provider `"@ + l + "` (expected cursor | anthropic | codex)"@
}

impl RunPlanProvider {
    /// Parse a provider name, case-insensitively.
    pub fn parse(s: &str) -> (r: Result<RunPlanProvider, String>)
        ensures
            match r {
                Ok(p) => provider_named(unicode_lowercase(s@)) == Some(p),
                Err(e) => provider_named(unicode_lowercase(s@)) is None && e@
                    == unknown_provider_message(unicode_lowercase(s@)),
            },
            all_ascii(s@) ==> match r {
                Ok(p) => provider_named(ascii_lower_seq(s@)) == Some(p),
                Err(_) => provider_named(ascii_lower_seq(s@)) is None,
            },
    {
        let lower = to_lowercase_str(s);
        let l = lower.as_str();
        if str_eq(l, "cursor") || str_eq(l, "agent") || str_eq(l, "cli:cursor") {
            Ok(RunPlanProvider::Cursor)
        } else if str_eq(l, "anthropic") || str_eq(l, "cli:anthropic") {
            Ok(RunPlanProvider::Claude)
        } else if str_eq(l, "codex") || str_eq(l, "cli:codex") {
            Ok(RunPlanProvider::Codex)
        } else {
            let head = concat2("unknown provider `", l);
            Err(concat2(head.as_str(), "` (expected cursor | anthropic | codex)"))
        }
    }

    pub fn as_str(self) -> (r: &'static str)
        ensures
            r@ == provider_name(self),
    {
        match self {
            RunPlanProvider::Cursor => "cursor",
            RunPlanProvider::Claude => "anthropic",
            RunPlanProvider::Codex => "codex",
        }
    }
}

/// The canonical name of every provider is lowercase ASCII and selects that
/// provider again, so parsing a provider's name gives it back.
pub proof fn law_provider_name_selects_provider(p: RunPlanProvider)
    ensures
        all_ascii(provider_name(p)),
        ascii_lower_seq(provider_name(p)) == provider_name(p),
        provider_named(provider_name(p)) == Some(p),
{
    reveal_strlit("cursor");
    reveal_strlit("anthropic");
    reveal_strlit("codex");
    reveal_strlit("agent");
    reveal_strlit("cli:cursor");
    reveal_strlit("cli:anthropic");
    reveal_strlit("cli:codex");
    assert("anthropic"@[1] != "cursor"@[1]);
    assert("codex"@[1] != "agent"@[1]);
    assert("anthropic"@.len() != "agent"@.len());
    assert("codex"@.len() != "cursor"@.len());
    assert("codex"@.len() != "anthropic"@.len());
    lemma_lowercase_name_fixed(provider_name(p));
}

// ---------------------------------------------------------------------------
// Binary resolution
// ---------------------------------------------------------------------------

/// Looks a binary up on `$PATH` with `which::which`. Whether and where it is
/// found depends on the machine. `which` returns a `$PATH` directory joined
/// with the name; on Windows an executable extension may follow and the file
/// name may be re-cased to the directory entry's ASCII case, so what holds
/// everywhere is that the ASCII-lowercased path contains the lowercased name.
#[verifier::external_body]
pub(crate) fn which_path(name: &str) -> (r: Option<String>)
    ensures
        name@.len() > 0 && !name@.contains('/') ==> (r matches Some(p) ==> found_as(p@, name@)),
{
    match which::which(name) {
        Ok(p) => Some(p.display().to_string()),
        Err(_) => None,
    }
}

/// `path` names the binary `name`: ignoring ASCII case, the name occurs in it.
pub open spec fn found_as(path: Seq<char>, name: Seq<char>) -> bool {
    contains_seq(ascii_lower_seq(path), ascii_lower_seq(name))
}

/// The first non-empty value among `values`.
pub open spec fn first_nonempty(values: Seq<Option<Seq<char>>>) -> Option<Seq<char>>
    decreases values.len(),
{
    if values.len() == 0 {
        None
    } else {
        match values[0] {
            Some(v) => if v.len() > 0 {
                Some(v)
            } else {
                first_nonempty(values.drop_first())
            },
            None => first_nonempty(values.drop_first()),
        }
    }
}

/// The first value present among `found`.
pub open spec fn first_some(found: Seq<Option<Seq<char>>>) -> Option<Seq<char>>
    decreases found.len(),
{
    if found.len() == 0 {
        None
    } else {
        match found[0] {
            Some(v) => Some(v),
            None => first_some(found.drop_first()),
        }
    }
}

/// The first binary found among the lookups, in the order of the names.
pub fn first_found(found: &Vec<Option<String>>) -> (r: Option<String>)
    ensures
        r.deep_view() == first_some(found.deep_view()),
{
    let mut i: usize = 0;
    assert(found.deep_view().skip(0) =~= found.deep_view());
    while i < found.len()
        invariant
            i <= found@.len(),
            first_some(found.deep_view()) == first_some(found.deep_view().skip(i as int)),
        decreases found.len() - i,
    {
        assert(found.deep_view().skip(i as int).drop_first() =~= found.deep_view().skip(i + 1));
        if let Some(p) = &found[i] {
            return Some(p.clone());
        }
        i += 1;
    }
    None
}

/// Lookups that fit `names`: one per name, each found path naming its binary.
pub open spec fn lookups_of(found: Seq<Option<Seq<char>>>, names: Seq<Seq<char>>) -> bool {
    found.len() == names.len() && forall|k: int|
        0 <= k < found.len() ==> (#[trigger] found[k] matches Some(p) ==> found_as(p, names[k]))
}

/// A binary's resolution: the first non-empty environment value, else the
/// first binary found on `$PATH`, else the error.
pub open spec fn resolution(
    env_values: Seq<Option<Seq<char>>>,
    found: Seq<Option<Seq<char>>>,
    err: Seq<char>,
) -> Result<Seq<char>, Seq<char>> {
    match first_nonempty(env_values) {
        Some(p) => Ok(p),
        None => match first_some(found) {
            Some(p) => Ok(p),
            None => Err(err),
        },
    }
}

pub open spec fn result_view(r: Result<String, String>) -> Result<Seq<char>, Seq<char>> {
    match r {
        Ok(p) => Ok(p@),
        Err(e) => Err(e@),
    }
}

pub open spec fn plain_names(names: Seq<Seq<char>>) -> bool {
    forall|k: int| 0 <= k < names.len() ==> #[trigger] names[k].len() > 0 && !names[k].contains('/')
}

/// Looks each of `names` up, in order.
fn lookup_all(names: &Vec<&str>) -> (r: Vec<Option<String>>)
    requires
        plain_names(names@.map_values(|n: &str| n@)),
    ensures
        lookups_of(r.deep_view(), names@.map_values(|n: &str| n@)),
{
    let ghost ns = names@.map_values(|n: &str| n@);
    let mut out: Vec<Option<String>> = Vec::new();
    let mut j: usize = 0;
    while j < names.len()
        invariant
            j <= names@.len(),
            ns == names@.map_values(|n: &str| n@),
            plain_names(ns),
            out@.len() == j,
            forall|k: int|
                0 <= k < j ==> (#[trigger] out.deep_view()[k] matches Some(p) ==> found_as(p, ns[k])),
        decreases names.len() - j,
    {
        assert(ns[j as int] == names[j as int]@);
        let ghost before = out.deep_view();
        let f = which_path(names[j]);
        assert(f.deep_view() matches Some(p) ==> found_as(p, ns[j as int]));
        out.push(f);
        assert(out.deep_view() =~= before.push(f.deep_view()));
        j += 1;
    }
    out
}

/// The first non-empty environment value wins, and then `$PATH` is not
/// searched; otherwise the first of `names` that `which` finds; otherwise `err`.
fn resolve_bin(env_values: &Vec<Option<String>>, names: &Vec<&str>, err: &str) -> (r: Result<
    String,
    String,
>)
    requires
        plain_names(names@.map_values(|n: &str| n@)),
    ensures
        first_nonempty(env_values.deep_view()) matches Some(p) ==> result_view(r) == Ok::<
            Seq<char>,
            Seq<char>,
        >(p),
        first_nonempty(env_values.deep_view()) is None ==> exists|found: Seq<Option<Seq<char>>>|
            lookups_of(found, names@.map_values(|n: &str| n@)) && result_view(r) == resolution(
                env_values.deep_view(),
                found,
                err@,
            ),
{
    let mut i: usize = 0;
    assert(env_values.deep_view().skip(0) =~= env_values.deep_view());
    while i < env_values.len()
        invariant
            i <= env_values@.len(),
            first_nonempty(env_values.deep_view()) == first_nonempty(
                env_values.deep_view().skip(i as int),
            ),
        decreases env_values.len() - i,
    {
        assert(env_values.deep_view().skip(i as int).drop_first() =~= env_values.deep_view().skip(
            i + 1,
        ));
        if let Some(p) = &env_values[i] {
            if !p.as_str().is_empty() {
                return Ok(p.clone());
            }
        }
        i += 1;
    }
    assert(env_values.deep_view().skip(i as int) =~= Seq::<Option<Seq<char>>>::empty());
    let found = lookup_all(names);
    let r = match first_found(&found) {
        Some(p) => Ok(p),
        None => Err(owned(err)),
    };
    assert(result_view(r) == resolution(env_values.deep_view(), found.deep_view(), err@));
    r
}

/// An environment value counts when it is set and not empty.
pub open spec fn env_value(o: Option<String>) -> Option<Seq<char>> {
    match o {
        Some(p) => if p@.len() > 0 {
            Some(p@)
        } else {
            None
        },
        None => None,
    }
}

pub const CURSOR_AGENT_MISSING: &'static str =
    "Cursor agent CLI not found; set CURSOR_AGENT or install `agent`";

pub const CLAUDE_MISSING: &'static str =
    "Anthropic agent CLI not found; set CLAUDE_BIN or CLAUDE_CODE";

pub const CODEX_MISSING: &'static str =
    "Codex CLI not found; set CODEX_BIN or install `codex` (npm i -g @openai/codex)";

/// The names under which the Cursor agent CLI is looked for on `$PATH`, in order.
pub const AGENT_BIN: &'static str = "agent";

pub const CURSOR_AGENT_BIN: &'static str = "cursor-agent";

/// The name under which the Codex CLI is looked for on `$PATH`.
pub const CODEX_BIN_NAME: &'static str = "codex";

pub open spec fn agent_bin_names() -> Seq<Seq<char>> {
    seq![AGENT_BIN@, CURSOR_AGENT_BIN@]
}

pub open spec fn codex_bin_names() -> Seq<Seq<char>> {
    seq![CODEX_BIN_NAME@]
}

/// Cursor Agent CLI: `$CURSOR_AGENT` (given as `cursor_agent`), else `agent` or
/// `cursor-agent` on `$PATH`.
pub fn resolve_agent_bin(cursor_agent: Option<String>) -> (r: Result<String, String>)
    ensures
        env_value(cursor_agent) matches Some(p) ==> result_view(r) == Ok::<Seq<char>, Seq<char>>(p),
        env_value(cursor_agent) is None ==> exists|found: Seq<Option<Seq<char>>>|
            lookups_of(found, agent_bin_names()) && result_view(r) == resolution(
                seq![None],
                found,
                CURSOR_AGENT_MISSING@,
            ),
{
    let env = vec![cursor_agent];
    let names = vec![AGENT_BIN, CURSOR_AGENT_BIN];
    proof {
        reveal_strlit("agent");
        reveal_strlit("cursor-agent");
        assert(names@.map_values(|n: &str| n@) =~= agent_bin_names());
        assert(!AGENT_BIN@.contains('/'));
        assert(!CURSOR_AGENT_BIN@.contains('/'));
        assert(env.deep_view()[0] == cursor_agent.deep_view());
        reveal_with_fuel(first_nonempty, 2);
        assert(env.deep_view().drop_first() =~= Seq::<Option<Seq<char>>>::empty());
        assert(seq![None::<Seq<char>>].drop_first() =~= Seq::<Option<Seq<char>>>::empty());
    }
    resolve_bin(&env, &names, CURSOR_AGENT_MISSING)
}

/// The agent CLI behind the provider that reads an MCP configuration: `$CLAUDE_BIN`, else
/// `$CLAUDE_CODE` (given as `claude_bin` and `claude_code`). Its `$PATH`
/// name is not searched for.
pub fn resolve_claude_bin(claude_bin: Option<String>, claude_code: Option<String>) -> (r: Result<
    String,
    String,
>)
    ensures
        result_view(r) == resolution(
            seq![env_value(claude_bin), env_value(claude_code)],
            Seq::empty(),
            CLAUDE_MISSING@,
        ),
{
    let env = vec![claude_bin, claude_code];
    let names: Vec<&str> = Vec::new();
    proof {
        let d = env.deep_view();
        assert(d.drop_first() =~= seq![d[1]]);
        assert(seq![d[1]].drop_first() =~= Seq::<Option<Seq<char>>>::empty());
        let e = seq![env_value(claude_bin), env_value(claude_code)];
        assert(e.drop_first() =~= seq![e[1]]);
        assert(seq![e[1]].drop_first() =~= Seq::<Option<Seq<char>>>::empty());
        reveal_with_fuel(first_nonempty, 3);
        assert(names@.map_values(|n: &str| n@) =~= Seq::<Seq<char>>::empty());
    }
    resolve_bin(&env, &names, CLAUDE_MISSING)
}

/// Codex CLI: `$CODEX_BIN` (given as `codex_bin`), else `codex` on `$PATH`.
pub fn resolve_codex_bin(codex_bin: Option<String>) -> (r: Result<String, String>)
    ensures
        env_value(codex_bin) matches Some(p) ==> result_view(r) == Ok::<Seq<char>, Seq<char>>(p),
        env_value(codex_bin) is None ==> exists|found: Seq<Option<Seq<char>>>|
            lookups_of(found, codex_bin_names()) && result_view(r) == resolution(
                seq![None],
                found,
                CODEX_MISSING@,
            ),
{
    let env = vec![codex_bin];
    let names = vec![CODEX_BIN_NAME];
    proof {
        reveal_strlit("codex");
        assert(names@.map_values(|n: &str| n@) =~= codex_bin_names());
        assert(!CODEX_BIN_NAME@.contains('/'));
        assert(env.deep_view()[0] == codex_bin.deep_view());
        reveal_with_fuel(first_nonempty, 2);
        assert(env.deep_view().drop_first() =~= Seq::<Option<Seq<char>>>::empty());
        assert(seq![None::<Seq<char>>].drop_first() =~= Seq::<Option<Seq<char>>>::empty());
    }
    resolve_bin(&env, &names, CODEX_MISSING)
}

// ---------------------------------------------------------------------------
// Mission prompt
// ---------------------------------------------------------------------------

pub const MISSION_READ: &'static str = "Read ONLY ";

pub const MISSION_BLOCK: &'static str =
    " (mission brief). Then WRITE CODE — do not narrate. Implement ONLY plan block `";

pub const MISSION_RULES: &'static str = "` in this workspace. Prefer Edit/StrReplace. MCP (optional): server name is exactly `codebeacon`. If missing / \"not found\", skip MCP — do not explore MCP catalogs. When MCP works: claim_path → edit → release_path; finish with session_done. When finished REQUIRED: (1) MCP session_done block_key=`";

pub const MISSION_TOUCH: &'static str =
    "` ok=true summary≤1 line if MCP works AND (2) Bash `touch ";

pub const MISSION_DONE: &'static str = "` then print a line that is exactly: CBDONE ";

pub const MISSION_END: &'static str =
    ". If stuck: one short question max — otherwise silence until done.";

/// The mission prompt for one plan block.
pub open spec fn mission_prompt_seq(brief: Seq<char>, key: Seq<char>, signal: Seq<char>) -> Seq<char> {
    MISSION_READ@ + brief + MISSION_BLOCK@ + key + MISSION_RULES@ + key + MISSION_TOUCH@ + signal
        + MISSION_DONE@ + key + MISSION_END@
}

fn push_str(s: &mut String, t: &str)
    ensures
        final(s)@ == old(s)@ + t@,
{
    s.append(t);
}

pub fn mission_prompt(brief_path: &str, block_key: &str, signal_path: &str) -> (r: String)
    ensures
        r@ == mission_prompt_seq(brief_path@, block_key@, signal_path@),
{
    let mut s = owned(MISSION_READ);
    push_str(&mut s, brief_path);
    push_str(&mut s, MISSION_BLOCK);
    push_str(&mut s, block_key);
    push_str(&mut s, MISSION_RULES);
    push_str(&mut s, block_key);
    push_str(&mut s, MISSION_TOUCH);
    push_str(&mut s, signal_path);
    push_str(&mut s, MISSION_DONE);
    push_str(&mut s, block_key);
    push_str(&mut s, MISSION_END);
    s
}

// ---------------------------------------------------------------------------
// Agent command lines
// ---------------------------------------------------------------------------

/// Options for building an agent command line.
pub struct AgentArgvOpts<'a> {
    pub provider: RunPlanProvider,
    pub workspace: &'a str,
    pub model: &'a str,
    pub prompt: &'a str,
    /// `--mcp-config` path, for the provider that takes one, as it should appear on the command line.
    pub mcp_config: Option<&'a str>,
    /// When true, prefer interactive TUI-friendly flags (no `--print`, no Codex `exec`).
    pub interactive: bool,
}

/// `--model m` when a model is set.
pub open spec fn model_args(model: Seq<char>) -> Seq<Seq<char>> {
    if model.len() > 0 {
        seq!["--model"@, model]
    } else {
        Seq::empty()
    }
}

pub open spec fn cursor_argv(bin: Seq<char>, workspace: Seq<char>, model: Seq<char>, prompt: Seq<char>) -> Seq<Seq<char>> {
    seq![bin, "--workspace"@, workspace, "--force"@, "--approve-mcps"@] + model_args(model) + seq![
        prompt,
    ]
}

pub open spec fn claude_argv(
    bin: Seq<char>,
    interactive: bool,
    mcp: Option<Seq<char>>,
    model: Seq<char>,
    prompt: Seq<char>,
) -> Seq<Seq<char>> {
    let mode = if interactive {
        seq!["--permission-mode"@, "bypassPermissions"@]
    } else {
        seq!["--print"@, "--permission-mode"@, "bypassPermissions"@]
    };
    let mcp_args = match mcp {
        Some(p) => seq!["--mcp-config"@, p, "--strict-mcp-config"@],
        None => Seq::empty(),
    };
    seq![bin] + mode + mcp_args + model_args(model) + seq![prompt]
}

pub open spec fn codex_argv(
    bin: Seq<char>,
    interactive: bool,
    workspace: Seq<char>,
    model: Seq<char>,
    prompt: Seq<char>,
) -> Seq<Seq<char>> {
    let head = if interactive {
        seq![bin]
    } else {
        seq![bin, "exec"@, "--full-auto"@, "--sandbox"@, "workspace-write"@]
    };
    head + seq!["--cd"@, workspace, "--skip-git-repo-check"@] + model_args(model) + seq![prompt]
}

/// `[bin, args…]` for an agent of the given options.
pub open spec fn agent_argv(
    provider: RunPlanProvider,
    bin: Seq<char>,
    workspace: Seq<char>,
    model: Seq<char>,
    prompt: Seq<char>,
    mcp: Option<Seq<char>>,
    interactive: bool,
) -> Seq<Seq<char>> {
    match provider {
        RunPlanProvider::Cursor => cursor_argv(bin, workspace, model, prompt),
        RunPlanProvider::Claude => claude_argv(bin, interactive, mcp, model, prompt),
        RunPlanProvider::Codex => codex_argv(bin, interactive, workspace, model, prompt),
    }
}

pub open spec fn opt_str_view(o: Option<&str>) -> Option<Seq<char>> {
    match o {
        Some(s) => Some(s@),
        None => None,
    }
}

fn push_arg(args: &mut Vec<String>, a: &str)
    ensures
        final(args).deep_view() == old(args).deep_view().push(a@),
{
    let ghost before = args.deep_view();
    args.push(owned(a));
    assert(args.deep_view() =~= before.push(a@));
}

fn push_model(args: &mut Vec<String>, model: &str)
    ensures
        final(args).deep_view() == old(args).deep_view() + model_args(model@),
{
    let ghost before = args.deep_view();
    if !model.is_empty() {
        push_arg(args, "--model");
        push_arg(args, model);
        assert(args.deep_view() =~= before + model_args(model@));
    } else {
        assert(args.deep_view() =~= before + model_args(model@));
    }
}

/// Build `[bin, args…]` for spawning an agent (headless command or PTY), with
/// `bin` the resolved binary of the provider.
pub fn build_agent_argv(opts: &AgentArgvOpts, bin: &str) -> (r: Vec<String>)
    ensures
        r.deep_view() == agent_argv(
            opts.provider,
            bin@,
            opts.workspace@,
            opts.model@,
            opts.prompt@,
            opt_str_view(opts.mcp_config),
            opts.interactive,
        ),
{
    let mut args: Vec<String> = Vec::new();
    push_arg(&mut args, bin);
    match opts.provider {
        RunPlanProvider::Cursor => {
            push_arg(&mut args, "--workspace");
            push_arg(&mut args, opts.workspace);
            push_arg(&mut args, "--force");
            push_arg(&mut args, "--approve-mcps");
            push_model(&mut args, opts.model);
            push_arg(&mut args, opts.prompt);
        },
        RunPlanProvider::Claude => {
            if !opts.interactive {
                push_arg(&mut args, "--print");
            }
            push_arg(&mut args, "--permission-mode");
            push_arg(&mut args, "bypassPermissions");
            if let Some(mcp) = opts.mcp_config {
                push_arg(&mut args, "--mcp-config");
                push_arg(&mut args, mcp);
                push_arg(&mut args, "--strict-mcp-config");
            }
            push_model(&mut args, opts.model);
            push_arg(&mut args, opts.prompt);
        },
        RunPlanProvider::Codex => {
            if !opts.interactive {
                push_arg(&mut args, "exec");
                push_arg(&mut args, "--full-auto");
                push_arg(&mut args, "--sandbox");
                push_arg(&mut args, "workspace-write");
            }
            push_arg(&mut args, "--cd");
            push_arg(&mut args, opts.workspace);
            push_arg(&mut args, "--skip-git-repo-check");
            push_model(&mut args, opts.model);
            push_arg(&mut args, opts.prompt);
        },
    }
    assert(args.deep_view() =~= agent_argv(
        opts.provider,
        bin@,
        opts.workspace@,
        opts.model@,
        opts.prompt@,
        opt_str_view(opts.mcp_config),
        opts.interactive,
    ));
    args
}

} // verus!
