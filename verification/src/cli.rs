//! How the program is started, and how it ends.
use vstd::prelude::*;
use vstd::string::*;

use crate::display::{repeat_char, repeated};
use crate::logging::{join_path, joined_path};
use crate::text::{
    byte_len, chars_of, clone_opt, concat, concat3, decimal, decimal_text, join, joined,
    lemma_byte_len_covers, len_bytes, opt_str, opt_text, owned, texts, usize_text,
};

verus! {

broadcast use {vstd::seq::group_seq_axioms, vstd::string::group_string_axioms};

/// The flag without which nothing is started.
pub const ACKNOWLEDGEMENT_FLAG: &'static str = "i-understand-that-this-will-be-running-without-the-usual-guardrails";

/// What the program is called with.
#[derive(Debug)]
pub struct Args {
    pub acknowledge_preview: bool,
    pub port: Option<u16>,
    pub host: Option<String>,
    pub logs_root: Option<String>,
    pub workflow_path: Option<String>,
}

// ---------------------------------------------------------------------------
// The banner
// ---------------------------------------------------------------------------

/// The lines of the banner.
pub open spec fn banner_lines() -> Seq<Seq<char>> {
    seq![
        "This Symphony implementation is a low key engineering preview."@,
        "Codex will run without any guardrails."@,
        "Symphony Rust is not a supported product and is presented as-is."@,
        "To proceed, start with `--"@ + ACKNOWLEDGEMENT_FLAG@ + "` CLI argument"@,
    ]
}

/// How many bytes the longest of some lines has.
pub open spec fn widest(lines: Seq<Seq<char>>) -> nat
    decreases lines.len(),
{
    if lines.len() == 0 {
        0
    } else {
        let rest = widest(lines.drop_last());
        let last = byte_len(lines.last());
        if last > rest {
            last
        } else {
            rest
        }
    }
}

fn widest_line(lines: &Vec<String>) -> (r: usize)
    ensures
        r == widest(texts(lines@)),
{
    let ghost all = texts(lines@);
    let mut width: usize = 0;
    let mut i: usize = 0;
    while i < lines.len()
        invariant
            i <= lines.len(),
            all == texts(lines@),
            width == widest(all.take(i as int)),
        decreases lines.len() - i,
    {
        proof {
            assert(all.take(i + 1).drop_last() =~= all.take(i as int));
            assert(all.take(i + 1).last() == lines@[i as int]@);
        }
        let len: usize = len_bytes(lines[i].as_str());
        if len > width {
            width = len;
        }
        i = i + 1;
    }
    proof {
        assert(all.take(i as int) =~= all);
    }
    width
}

/// A line, filled up with spaces.
pub open spec fn filled(line: Seq<char>, width: nat) -> Seq<char> {
    if line.len() >= width {
        line
    } else {
        line + repeated(' ', (width - line.len()) as nat)
    }
}

fn fill(line: &str, width: usize) -> (r: String)
    ensures
        r@ == filled(line@, width as nat),
{
    let len: usize = chars_of(line).len();
    if len >= width {
        owned(line)
    } else {
        let rest: String = repeat_char(' ', width - len);
        concat(line, rest.as_str())
    }
}

/// A line in the frame of the banner.
pub open spec fn framed(line: Seq<char>, width: nat) -> Seq<char> {
    "│ "@ + filled(line, width) + " │"@
}

fn frame(line: &str, width: usize) -> (r: String)
    ensures
        r@ == framed(line@, width as nat),
{
    let line: String = fill(line, width);
    concat3("│ ", line.as_str(), " │")
}

/// The upper or lower edge of the banner.
pub open spec fn edge(left: Seq<char>, width: nat, right: Seq<char>) -> Seq<char> {
    left + (repeated('─', width) + "──"@) + right
}

fn edge_line(left: &str, width: usize, right: &str) -> (r: String)
    ensures
        r@ == edge(left@, width as nat, right@),
{
    let border: String = repeat_char('─', width);
    let border: String = concat(border.as_str(), "──");
    concat3(left, border.as_str(), right)
}

/// The rows of the banner.
pub open spec fn banner_rows() -> Seq<Seq<char>> {
    let width = widest(banner_lines());
    seq![
        edge("╭"@, width, "╮"@),
        framed(""@, width),
        framed(banner_lines()[0], width),
        framed(banner_lines()[1], width),
        framed(banner_lines()[2], width),
        framed(banner_lines()[3], width),
        framed(""@, width),
        edge("╰"@, width, "╯"@),
    ]
}

/// What is said to those who have not acknowledged that there are no guardrails.
pub fn acknowledgement_banner() -> (r: String)
    ensures
        r@ == joined(banner_rows(), "\n"@),
{
    let mut lines: Vec<String> = Vec::new();
    lines.push(owned("This Symphony implementation is a low key engineering preview."));
    lines.push(owned("Codex will run without any guardrails."));
    lines.push(owned("Symphony Rust is not a supported product and is presented as-is."));
    lines.push(concat3("To proceed, start with `--", ACKNOWLEDGEMENT_FLAG, "` CLI argument"));
    proof {
        assert(texts(lines@) =~= banner_lines());
    }
    let width: usize = widest_line(&lines);
    let mut rows: Vec<String> = Vec::new();
    rows.push(edge_line("╭", width, "╮"));
    rows.push(frame("", width));
    rows.push(frame(lines[0].as_str(), width));
    rows.push(frame(lines[1].as_str(), width));
    rows.push(frame(lines[2].as_str(), width));
    rows.push(frame(lines[3].as_str(), width));
    rows.push(frame("", width));
    rows.push(edge_line("╰", width, "╯"));
    proof {
        assert(lines@[0]@ == banner_lines()[0]);
        assert(lines@[1]@ == banner_lines()[1]);
        assert(lines@[2]@ == banner_lines()[2]);
        assert(lines@[3]@ == banner_lines()[3]);
        assert(texts(rows@) =~= banner_rows());
    }
    join(&rows, "\n")
}

/// Nothing is started unless it is acknowledged that there are no guardrails.
pub fn require_guardrails_acknowledgement(args: &Args) -> (r: Result<(), String>)
    ensures
        r is Ok <==> args.acknowledge_preview,
        r matches Err(banner) ==> banner@ == joined(banner_rows(), "\n"@),
{
    if args.acknowledge_preview {
        Ok(())
    } else {
        Err(acknowledgement_banner())
    }
}

// ---------------------------------------------------------------------------
// Settings
// ---------------------------------------------------------------------------

/// The first of two values that is there.
fn text_or(a: &Option<String>, b: &Option<String>) -> (r: Option<String>)
    ensures
        opt_text(r) == if a is Some {
            opt_text(*a)
        } else {
            opt_text(*b)
        },
{
    if a.is_some() {
        clone_opt(a)
    } else {
        clone_opt(b)
    }
}

/// Where the server takes calls: what the program is called with comes before what is
/// configured.
pub open spec fn server_at(args: Args, host: Option<Seq<char>>, port: Option<u16>) -> (
    Seq<char>,
    Option<u16>,
) {
    (
        match opt_text(args.host) {
            Some(host) => host,
            None => match host {
                Some(host) => host,
                None => "127.0.0.1"@,
            },
        },
        match args.port {
            Some(port) => Some(port),
            None => port,
        },
    )
}

/// Where the server takes calls; without a port there is none.
pub fn server_address(args: &Args, config_host: &Option<String>, config_port: Option<u16>) -> (r: (
    String,
    Option<u16>,
))
    ensures
        (r.0@, r.1) == server_at(*args, opt_text(*config_host), config_port),
{
    let host: String = match text_or(&args.host, config_host) {
        Some(host) => host,
        None => owned("127.0.0.1"),
    };
    let port: Option<u16> = match args.port {
        Some(port) => Some(port),
        None => config_port,
    };
    (host, port)
}

/// Where the workflow is found.
pub open spec fn workflow_at(asked: Option<Seq<char>>, current_dir: Option<Seq<char>>) -> Seq<char> {
    match asked {
        Some(path) => path,
        None => joined_path(
            match current_dir {
                Some(dir) => dir,
                None => "."@,
            },
            "WORKFLOW.md"@,
        ),
    }
}

/// The workflow of a directory; there is always one, though the current directory may not
/// be known.
pub fn default_workflow_path(current_dir: Option<&str>) -> (r: String)
    ensures
        r@ == workflow_at(None, opt_str(current_dir)),
{
    let dir: &str = match current_dir {
        Some(dir) => dir,
        None => ".",
    };
    join_path(dir, "WORKFLOW.md")
}

/// Where the workflow is found: where the program is told to look, or in the current
/// directory.
pub fn workflow_path(args: &Args, current_dir: Option<&str>) -> (r: String)
    ensures
        r@ == workflow_at(opt_text(args.workflow_path), opt_str(current_dir)),
{
    match &args.workflow_path {
        Some(path) => owned(path.as_str()),
        None => default_workflow_path(current_dir),
    }
}

/// The settings that are named when the program starts.
#[derive(Debug)]
pub struct StartupSettings {
    pub tracker_kind: Option<String>,
    pub tracker_project_id: Option<String>,
    pub tracker_label: Option<String>,
    pub tracker_assignee: Option<String>,
    pub active_states: Vec<String>,
    pub terminal_states: Vec<String>,
    pub workspace_root: String,
    pub polling_interval_ms: u64,
    pub observability_refresh_ms: u64,
    pub observability_render_interval_ms: u64,
    pub ssh_hosts: Vec<String>,
    pub max_concurrent_agents: usize,
}

/// A setting, or what stands for it where there is none.
pub open spec fn or_word(setting: Option<String>, word: Seq<char>) -> Seq<char> {
    match setting {
        Some(setting) => setting@,
        None => word,
    }
}

fn or_text<'a>(setting: &'a Option<String>, word: &'a str) -> (r: &'a str)
    ensures
        r@ == or_word(*setting, word@),
{
    match setting {
        Some(setting) => setting.as_str(),
        None => word,
    }
}

/// What is logged when the program starts.
pub open spec fn startup_line(
    workflow_path: Seq<char>,
    settings: StartupSettings,
    host: Seq<char>,
    port: Option<u16>,
) -> Seq<char> {
    "runtime_start status=initialized workflow_path="@ + workflow_path + " tracker_kind="@
        + or_word(settings.tracker_kind, "unknown"@) + " tracker_project_id="@ + or_word(
        settings.tracker_project_id,
        "n/a"@,
    ) + " tracker_label="@ + or_word(settings.tracker_label, "none"@) + " tracker_assignee="@
        + or_word(settings.tracker_assignee, "none"@) + " active_states="@ + joined(
        texts(settings.active_states@),
        "|"@,
    ) + " terminal_states="@ + joined(texts(settings.terminal_states@), "|"@) + " workspace_root="@
        + settings.workspace_root@ + " polling_interval_ms="@ + decimal(
        settings.polling_interval_ms as nat,
    ) + " observability_refresh_ms="@ + decimal(settings.observability_refresh_ms as nat)
        + " observability_render_interval_ms="@ + decimal(
        settings.observability_render_interval_ms as nat,
    ) + " host="@ + host + " port="@ + (match port {
        Some(port) => decimal(port as nat),
        None => "disabled"@,
    }) + " worker_hosts="@ + (if settings.ssh_hosts@.len() == 0 {
        "local"@
    } else {
        joined(texts(settings.ssh_hosts@), "|"@)
    }) + " max_concurrent_agents="@ + decimal(settings.max_concurrent_agents as nat)
}

/// What is logged when the program starts.
pub fn startup_summary(
    workflow_path: &str,
    settings: &StartupSettings,
    host: &str,
    port: Option<u16>,
) -> (r: String)
    ensures
        r@ == startup_line(workflow_path@, *settings, host@, port),
{
    let active: String = join(&settings.active_states, "|");
    let terminal: String = join(&settings.terminal_states, "|");
    let polling: String = decimal_text(settings.polling_interval_ms);
    let refresh: String = decimal_text(settings.observability_refresh_ms);
    let render: String = decimal_text(settings.observability_render_interval_ms);
    let port: String = match port {
        Some(port) => decimal_text(port as u64),
        None => owned("disabled"),
    };
    let hosts: String = if settings.ssh_hosts.len() == 0 {
        owned("local")
    } else {
        join(&settings.ssh_hosts, "|")
    };
    let agents: String = usize_text(settings.max_concurrent_agents);
    let mut out: String = concat("runtime_start status=initialized workflow_path=", workflow_path);
    out.append(" tracker_kind=");
    out.append(or_text(&settings.tracker_kind, "unknown"));
    out.append(" tracker_project_id=");
    out.append(or_text(&settings.tracker_project_id, "n/a"));
    out.append(" tracker_label=");
    out.append(or_text(&settings.tracker_label, "none"));
    out.append(" tracker_assignee=");
    out.append(or_text(&settings.tracker_assignee, "none"));
    out.append(" active_states=");
    out.append(active.as_str());
    out.append(" terminal_states=");
    out.append(terminal.as_str());
    out.append(" workspace_root=");
    out.append(settings.workspace_root.as_str());
    out.append(" polling_interval_ms=");
    out.append(polling.as_str());
    out.append(" observability_refresh_ms=");
    out.append(refresh.as_str());
    out.append(" observability_render_interval_ms=");
    out.append(render.as_str());
    out.append(" host=");
    out.append(host);
    out.append(" port=");
    out.append(port.as_str());
    out.append(" worker_hosts=");
    out.append(hosts.as_str());
    out.append(" max_concurrent_agents=");
    out.append(agents.as_str());
    out
}

// ---------------------------------------------------------------------------
// The end
// ---------------------------------------------------------------------------

/// Why the program ends.
#[derive(Debug, Clone, PartialEq, Eq)]
pub enum ShutdownReason {
    Interrupt,
    Terminate,
    InterruptListenerFailed(String),
    OrchestratorExited(String),
    HttpServerExited(String),
    WorkflowWatcherExited(String),
}

/// Why the program ends.
pub enum ReasonView {
    Interrupt,
    Terminate,
    InterruptListenerFailed(Seq<char>),
    OrchestratorExited(Seq<char>),
    HttpServerExited(Seq<char>),
    WorkflowWatcherExited(Seq<char>),
}

impl View for ShutdownReason {
    type V = ReasonView;

    open spec fn view(&self) -> ReasonView {
        match self {
            ShutdownReason::Interrupt => ReasonView::Interrupt,
            ShutdownReason::Terminate => ReasonView::Terminate,
            ShutdownReason::InterruptListenerFailed(detail) => ReasonView::InterruptListenerFailed(
                detail@,
            ),
            ShutdownReason::OrchestratorExited(detail) => ReasonView::OrchestratorExited(detail@),
            ShutdownReason::HttpServerExited(detail) => ReasonView::HttpServerExited(detail@),
            ShutdownReason::WorkflowWatcherExited(detail) => ReasonView::WorkflowWatcherExited(
                detail@,
            ),
        }
    }
}

impl ReasonView {
    /// Whether nobody asked for the end.
    pub open spec fn unexpected(self) -> bool {
        !(self is Interrupt || self is Terminate)
    }

    /// What ended.
    pub open spec fn part(self) -> Seq<char> {
        match self {
            ReasonView::OrchestratorExited(_) => "orchestrator"@,
            ReasonView::HttpServerExited(_) => "http_server"@,
            ReasonView::WorkflowWatcherExited(_) => "workflow_watcher"@,
            _ => "signal"@,
        }
    }

    /// How it ended.
    pub open spec fn told(self) -> Seq<char> {
        match self {
            ReasonView::Interrupt => "received_interrupt"@,
            ReasonView::Terminate => "received_sigterm"@,
            ReasonView::InterruptListenerFailed(detail) => detail,
            ReasonView::OrchestratorExited(detail) => detail,
            ReasonView::HttpServerExited(detail) => detail,
            ReasonView::WorkflowWatcherExited(detail) => detail,
        }
    }

    /// What the user is told.
    pub open spec fn message(self) -> Option<Seq<char>> {
        match self {
            ReasonView::Interrupt => None,
            ReasonView::Terminate => None,
            ReasonView::InterruptListenerFailed(detail) => Some(
                "Symphony stopped unexpectedly: interrupt listener failed: "@ + detail,
            ),
            ReasonView::OrchestratorExited(detail) => Some(
                "Symphony stopped unexpectedly: orchestrator exited: "@ + detail,
            ),
            ReasonView::HttpServerExited(detail) => Some(
                "Symphony stopped unexpectedly: HTTP server exited: "@ + detail,
            ),
            ReasonView::WorkflowWatcherExited(detail) => Some(
                "Symphony stopped unexpectedly: workflow watcher exited: "@ + detail,
            ),
        }
    }

    /// What is logged.
    pub open spec fn logged(self) -> Seq<char> {
        (if self.unexpected() {
            "runtime_shutdown status=unexpected component="@
        } else {
            "runtime_shutdown status=requested component="@
        }) + self.part() + " detail="@ + self.told()
    }
}

impl ShutdownReason {
    /// Whether nobody asked for the end.
    pub fn is_unexpected(&self) -> (r: bool)
        ensures
            r == self@.unexpected(),
    {
        match self {
            ShutdownReason::Interrupt => false,
            ShutdownReason::Terminate => false,
            _ => true,
        }
    }

    /// What ended.
    pub fn component(&self) -> (r: &'static str)
        ensures
            r@ == self@.part(),
    {
        match self {
            ShutdownReason::OrchestratorExited(_) => "orchestrator",
            ShutdownReason::HttpServerExited(_) => "http_server",
            ShutdownReason::WorkflowWatcherExited(_) => "workflow_watcher",
            _ => "signal",
        }
    }

    /// How it ended.
    pub fn detail(&self) -> (r: &str)
        ensures
            r@ == self@.told(),
    {
        match self {
            ShutdownReason::Interrupt => "received_interrupt",
            ShutdownReason::Terminate => "received_sigterm",
            ShutdownReason::InterruptListenerFailed(detail) => detail.as_str(),
            ShutdownReason::OrchestratorExited(detail) => detail.as_str(),
            ShutdownReason::HttpServerExited(detail) => detail.as_str(),
            ShutdownReason::WorkflowWatcherExited(detail) => detail.as_str(),
        }
    }

    /// What the user is told, where nobody asked for the end.
    pub fn user_message(&self) -> (r: Option<String>)
        ensures
            opt_text(r) == self@.message(),
    {
        match self {
            ShutdownReason::Interrupt => None,
            ShutdownReason::Terminate => None,
            ShutdownReason::InterruptListenerFailed(detail) => Some(
                concat(
                    "Symphony stopped unexpectedly: interrupt listener failed: ",
                    detail.as_str(),
                ),
            ),
            ShutdownReason::OrchestratorExited(detail) => Some(
                concat("Symphony stopped unexpectedly: orchestrator exited: ", detail.as_str()),
            ),
            ShutdownReason::HttpServerExited(detail) => Some(
                concat("Symphony stopped unexpectedly: HTTP server exited: ", detail.as_str()),
            ),
            ShutdownReason::WorkflowWatcherExited(detail) => Some(
                concat("Symphony stopped unexpectedly: workflow watcher exited: ", detail.as_str()),
            ),
        }
    }

    /// What is logged.
    pub fn log_line(&self) -> (r: String)
        ensures
            r@ == self@.logged(),
    {
        let mut out: String = owned(
            if self.is_unexpected() {
                "runtime_shutdown status=unexpected component="
            } else {
                "runtime_shutdown status=requested component="
            },
        );
        out.append(self.component());
        out.append(" detail=");
        out.append(self.detail());
        out
    }

    /// How the program ends: well where it was asked to.
    pub fn outcome(&self) -> (r: Result<(), String>)
        ensures
            match self@.message() {
                Some(message) => (r matches Err(told) && told@ == message),
                None => r is Ok,
            },
    {
        match self.user_message() {
            Some(message) => Err(message),
            None => Ok(()),
        }
    }
}

/// How a part of the program ended.
pub fn component_exit_detail(component: &str, result: Result<(), String>) -> (r: String)
    ensures
        r@ == match result {
            Ok(_) => component@ + " stopped without an explicit shutdown request"@,
            Err(error) => error@,
        },
{
    match result {
        Ok(_) => concat(component, " stopped without an explicit shutdown request"),
        Err(error) => error,
    }
}

/// A part of the program that is shut down.
#[derive(Clone, Copy, Debug, PartialEq, Eq, Structural)]
pub enum ShutdownStage {
    Terminal,
    Http,
    Watcher,
    Orchestrator,
}

/// What is shut down next, after what was shut down last: first what shows the state, then
/// what changes it.
pub fn next_shutdown_stage(last: Option<ShutdownStage>) -> (r: Option<ShutdownStage>)
    ensures
        r == match last {
            None => Some(ShutdownStage::Terminal),
            Some(ShutdownStage::Terminal) => Some(ShutdownStage::Http),
            Some(ShutdownStage::Http) => Some(ShutdownStage::Watcher),
            Some(ShutdownStage::Watcher) => Some(ShutdownStage::Orchestrator),
            Some(ShutdownStage::Orchestrator) => None,
        },
{
    match last {
        None => Some(ShutdownStage::Terminal),
        Some(ShutdownStage::Terminal) => Some(ShutdownStage::Http),
        Some(ShutdownStage::Http) => Some(ShutdownStage::Watcher),
        Some(ShutdownStage::Watcher) => Some(ShutdownStage::Orchestrator),
        Some(ShutdownStage::Orchestrator) => None,
    }
}

// ---------------------------------------------------------------------------
// Laws
// ---------------------------------------------------------------------------

proof fn lemma_widest(lines: Seq<Seq<char>>, i: int)
    requires
        0 <= i < lines.len(),
    ensures
        lines[i].len() <= widest(lines),
    decreases lines.len(),
{
    if i == lines.len() - 1 {
        lemma_byte_len_covers(lines[i]);
    } else {
        lemma_widest(lines.drop_last(), i);
        assert(lines.drop_last()[i] == lines[i]);
    }
}

/// The rows of the banner are all equally long.
pub proof fn law_banner_is_a_box(i: int)
    requires
        0 <= i < banner_rows().len(),
    ensures
        banner_rows()[i].len() == widest(banner_lines()) + 4,
{
    reveal_strlit("");
    reveal_strlit("│ ");
    reveal_strlit(" │");
    reveal_strlit("──");
    reveal_strlit("╭");
    reveal_strlit("╮");
    reveal_strlit("╰");
    reveal_strlit("╯");
    lemma_widest(banner_lines(), 0);
    lemma_widest(banner_lines(), 1);
    lemma_widest(banner_lines(), 2);
    lemma_widest(banner_lines(), 3);
}

/// The user is told of an end that nobody asked for, and of no other.
pub proof fn law_only_unexpected_ends_are_told(reason: ReasonView)
    ensures
        reason.message() is Some <==> reason.unexpected(),
{
}

} // verus!
