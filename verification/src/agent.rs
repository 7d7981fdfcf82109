//! `agent status`: the agent's health, its supervisor process and the table
//! of per-project agents.

use vstd::prelude::*;
use vstd::string::*;
use crate::projects::{cell, owned_cell, row_view, CellColor, ProjectRecord, TableCell};
use crate::sizes::{format_bytes, format_bytes_spec};
use crate::text::{
    concat2, decimal, decimal_text, flag, flag_value, join_texts, joined, string_or_empty,
    text_or_empty, texts,
};

verus! {

/// The agent's `/health` report, as far as the client reads it.
pub struct Health {
    pub status: Option<String>,
    pub model_name: Option<String>,
    pub model_loaded: Option<bool>,
    pub quantization: Option<String>,
    pub n_ctx: Option<u64>,
    pub model_size_bytes: Option<u64>,
}

pub open spec fn endpoint_line_spec(base: Seq<char>) -> Seq<char> {
    "Endpoint: "@ + base
}

/// The first line of the status report.
pub fn endpoint_line(base: &str) -> (r: String)
    ensures
        r@ == endpoint_line_spec(base@),
{
    concat2("Endpoint: ", base)
}

pub const NOT_RUNNING: &'static str = "Status:   not running";

pub open spec fn status_value_spec(h: Health) -> Seq<char> {
    match h.status {
        Some(s) => s@,
        None => "unknown"@,
    }
}

/// The model's details in the order they are shown: quantization, context
/// size, and file size, each only when the report has it.
pub open spec fn model_details_spec(h: Health) -> Seq<Seq<char>> {
    (match h.quantization {
        Some(q) => seq![q@],
        None => Seq::empty(),
    }) + (match h.n_ctx {
        Some(n) => seq![decimal(n as nat) + " ctx"@],
        None => Seq::empty(),
    }) + (match h.model_size_bytes {
        Some(b) => seq![format_bytes_spec(b as nat)],
        None => Seq::empty(),
    })
}

pub open spec fn model_line_spec(h: Health) -> Seq<char> {
    if flag(h.model_loaded) {
        let details = model_details_spec(h);
        if details.len() == 0 {
            "Model:    "@ + text_or_empty(h.model_name)
        } else {
            "Model:    "@ + text_or_empty(h.model_name) + " ("@ + joined(details, ", "@) + ")"@
        }
    } else {
        "Model:    not loaded"@
    }
}

/// The health part of the report; `running` is false when the agent did not
/// answer, and the client then exits with status 1.
pub struct HealthReport {
    pub lines: Vec<String>,
    pub running: bool,
}

fn model_details(h: &Health) -> (r: Vec<String>)
    ensures
        texts(r@) == model_details_spec(*h),
{
    let mut r: Vec<String> = Vec::new();
    match &h.quantization {
        Some(q) => r.push(q.clone()),
        None => {},
    }
    match h.n_ctx {
        Some(n) => {
            let number = decimal_text(n as u128);
            r.push(concat2(number.as_str(), " ctx"));
        },
        None => {},
    }
    match h.model_size_bytes {
        Some(b) => r.push(format_bytes(b)),
        None => {},
    }
    assert(texts(r@) =~= model_details_spec(*h));
    r
}

fn model_line(h: &Health) -> (r: String)
    ensures
        r@ == model_line_spec(*h),
{
    if flag_value(h.model_loaded) {
        let model = string_or_empty(&h.model_name);
        let details = model_details(h);
        let mut r = concat2("Model:    ", model.as_str());
        if details.len() > 0 {
            r.append(" (");
            let list = join_texts(&details, ", ");
            r.append(list.as_str());
            r.append(")");
        }
        r
    } else {
        String::from_str("Model:    not loaded")
    }
}

/// The status and model lines of the report, or `not running` when the
/// agent did not answer on `/health`.
pub fn health_report(health: &Option<Health>) -> (r: HealthReport)
    ensures
        r.running == health is Some,
        match health {
            None => r.lines@.len() == 1 && r.lines@[0]@ == NOT_RUNNING@,
            Some(h) => r.lines@.len() == 2 && r.lines@[0]@ == "Status:   "@
                + status_value_spec(*h) && r.lines@[1]@ == model_line_spec(*h),
        },
{
    let mut lines: Vec<String> = Vec::new();
    match health {
        None => {
            lines.push(String::from_str(NOT_RUNNING));
            HealthReport { lines, running: false }
        },
        Some(h) => {
            let status = match &h.status {
                Some(s) => s.clone(),
                None => String::from_str("unknown"),
            };
            lines.push(concat2("Status:   ", status.as_str()));
            lines.push(model_line(h));
            HealthReport { lines, running: true }
        },
    }
}

/// One project agent of the `/agents` report. `pid`, `port` and `idle` are
/// already rendered as the report shows them.
pub struct AgentRecord {
    pub project_id: Option<String>,
    pub pid: String,
    pub port: String,
    pub alive: Option<bool>,
    pub idle: String,
    pub rss_bytes: Option<u64>,
}

/// The `/agents` report: whether a supervisor runs the project agents, its
/// pid as rendered, its memory, and the agents (when the field is an array).
pub struct AgentsInfo {
    pub supervised: Option<bool>,
    pub supervisor_pid: String,
    pub supervisor_rss: Option<u64>,
    pub agents: Option<Vec<AgentRecord>>,
}

pub open spec fn bytes_or_zero(o: Option<u64>) -> nat {
    match o {
        Some(b) => b as nat,
        None => 0,
    }
}

pub open spec fn process_line_spec(pid: Seq<char>, rss: Option<u64>) -> Seq<char> {
    "Process:  pid "@ + pid + ", "@ + format_bytes_spec(bytes_or_zero(rss))
}

pub const NO_AGENTS: &'static str = "No project agents running";

/// What the supervisor part of the report shows.
pub enum AgentsOverview {
    /// No supervisor: nothing more is printed.
    Unsupervised,
    /// The supervisor's process line, then `No project agents running`.
    NoAgents { process_line: String },
    /// The supervisor's process line, then the agents' table.
    Agents { process_line: String },
}

fn process_line(pid: &str, rss: Option<u64>) -> (r: String)
    ensures
        r@ == process_line_spec(pid@, rss),
{
    let mut r = concat2("Process:  pid ", pid);
    r.append(", ");
    let memory = match rss {
        Some(b) => format_bytes(b),
        None => format_bytes(0),
    };
    r.append(memory.as_str());
    r
}

pub open spec fn has_agents(info: AgentsInfo) -> bool {
    info.agents matches Some(a) && a@.len() > 0
}

pub fn agents_overview(info: &AgentsInfo) -> (r: AgentsOverview)
    ensures
        !flag(info.supervised) <==> r is Unsupervised,
        r matches AgentsOverview::NoAgents { process_line } ==> !has_agents(*info)
            && process_line@ == process_line_spec(info.supervisor_pid@, info.supervisor_rss),
        r matches AgentsOverview::Agents { process_line } ==> has_agents(*info)
            && process_line@ == process_line_spec(info.supervisor_pid@, info.supervisor_rss),
        flag(info.supervised) && has_agents(*info) ==> r is Agents,
{
    if !flag_value(info.supervised) {
        return AgentsOverview::Unsupervised;
    }
    let line = process_line(info.supervisor_pid.as_str(), info.supervisor_rss);
    match &info.agents {
        Some(a) => {
            if a.len() > 0 {
                AgentsOverview::Agents { process_line: line }
            } else {
                AgentsOverview::NoAgents { process_line: line }
            }
        },
        None => AgentsOverview::NoAgents { process_line: line },
    }
}

/// The name shown for project `id`: the name of the last listed project with
/// that id (later entries replace earlier ones), or the id itself.
pub open spec fn shown_name(ps: Seq<ProjectRecord>, id: Seq<char>) -> Seq<char>
    decreases ps.len(),
{
    if ps.len() == 0 {
        id
    } else if text_or_empty(ps.last().id) == id {
        text_or_empty(ps.last().name)
    } else {
        shown_name(ps.drop_last(), id)
    }
}

/// The agent of a project is shown under the name of the last listed
/// project with its id, whatever comes before or after that entry.
pub proof fn lemma_shown_name_is_last_match(ps: Seq<ProjectRecord>, id: Seq<char>, k: int)
    requires
        0 <= k < ps.len(),
        text_or_empty(ps[k].id) == id,
        forall|j: int| k < j < ps.len() ==> text_or_empty(#[trigger] ps[j].id) != id,
    ensures
        shown_name(ps, id) == text_or_empty(ps[k].name),
    decreases ps.len(),
{
    if k < ps.len() - 1 {
        let rest = ps.drop_last();
        assert(text_or_empty(ps[ps.len() - 1].id) != id);
        assert forall|j: int| k < j < rest.len() implies text_or_empty(#[trigger] rest[j].id) != id by {
            assert(rest[j] == ps[j]);
        }
        lemma_shown_name_is_last_match(rest, id, k);
    }
}

/// An agent whose project is not listed is shown by its id.
pub proof fn lemma_shown_name_unlisted(ps: Seq<ProjectRecord>, id: Seq<char>)
    requires
        forall|j: int| 0 <= j < ps.len() ==> text_or_empty(#[trigger] ps[j].id) != id,
    ensures
        shown_name(ps, id) == id,
    decreases ps.len(),
{
    if ps.len() > 0 {
        let rest = ps.drop_last();
        assert(text_or_empty(ps[ps.len() - 1].id) != id);
        assert forall|j: int| 0 <= j < rest.len() implies text_or_empty(#[trigger] rest[j].id) != id by {
            assert(rest[j] == ps[j]);
        }
        lemma_shown_name_unlisted(rest, id);
    }
}

pub open spec fn listed(projects: Option<Vec<ProjectRecord>>) -> Seq<ProjectRecord> {
    match projects {
        Some(ps) => ps@,
        None => Seq::empty(),
    }
}

/// The name to show for a project agent.
pub fn agent_project_name(id: &str, projects: &Option<Vec<ProjectRecord>>) -> (r: String)
    ensures
        r@ == shown_name(listed(*projects), id@),
{
    match projects {
        None => String::from_str(id),
        Some(ps) => {
            let mut j: usize = ps.len();
            assert(ps@.subrange(0, j as int) =~= ps@);
            while j > 0
                invariant
                    j <= ps@.len(),
                    listed(*projects) == ps@,
                    shown_name(ps@, id@) == shown_name(ps@.subrange(0, j as int), id@),
                decreases j,
            {
                let ghost prefix = ps@.subrange(0, j as int);
                assert(prefix.drop_last() =~= ps@.subrange(0, j - 1));
                assert(prefix.last() == ps@[j - 1]);
                let candidate = string_or_empty(&ps[j - 1].id);
                let wanted = String::from_str(id);
                if candidate == wanted {
                    assert(candidate@ == wanted@);
                    return string_or_empty(&ps[j - 1].name);
                }
                j = j - 1;
            }
            String::from_str(id)
        },
    }
}

pub open spec fn agents_header_spec() -> Seq<(Seq<char>, CellColor)> {
    seq![
        ("Project"@, CellColor::Plain),
        ("PID"@, CellColor::Plain),
        ("Port"@, CellColor::Plain),
        ("Alive"@, CellColor::Plain),
        ("Idle"@, CellColor::Plain),
        ("Memory"@, CellColor::Plain),
    ]
}

/// An agent's row: its project by name, pid, port, liveness in green or red,
/// idle time and memory.
pub open spec fn agent_row_spec(a: AgentRecord, projects: Seq<ProjectRecord>) -> Seq<
    (Seq<char>, CellColor),
> {
    seq![
        (shown_name(projects, text_or_empty(a.project_id)), CellColor::Plain),
        (a.pid@, CellColor::Plain),
        (a.port@, CellColor::Plain),
        if flag(a.alive) {
            ("true"@, CellColor::Green)
        } else {
            ("false"@, CellColor::Red)
        },
        (a.idle@, CellColor::Plain),
        (format_bytes_spec(bytes_or_zero(a.rss_bytes)), CellColor::Plain),
    ]
}

fn agent_row(a: &AgentRecord, projects: &Option<Vec<ProjectRecord>>) -> (r: Vec<TableCell>)
    ensures
        row_view(r) == agent_row_spec(*a, listed(*projects)),
{
    let mut r: Vec<TableCell> = Vec::new();
    let id = string_or_empty(&a.project_id);
    r.push(owned_cell(agent_project_name(id.as_str(), projects), CellColor::Plain));
    r.push(owned_cell(a.pid.clone(), CellColor::Plain));
    r.push(owned_cell(a.port.clone(), CellColor::Plain));
    if flag_value(a.alive) {
        r.push(cell("true", CellColor::Green));
    } else {
        r.push(cell("false", CellColor::Red));
    }
    r.push(owned_cell(a.idle.clone(), CellColor::Plain));
    let memory = match a.rss_bytes {
        Some(b) => format_bytes(b),
        None => format_bytes(0),
    };
    r.push(owned_cell(memory, CellColor::Plain));
    assert(row_view(r) =~= agent_row_spec(*a, listed(*projects)));
    r
}

/// The table of project agents: a header, then one row per agent.
pub fn agents_table(agents: &Vec<AgentRecord>, projects: &Option<Vec<ProjectRecord>>) -> (t: Vec<
    Vec<TableCell>,
>)
    ensures
        t@.len() == agents@.len() + 1,
        row_view(t@[0]) == agents_header_spec(),
        forall|i: int|
            0 <= i < agents@.len() ==> row_view(#[trigger] t@[i + 1]) == agent_row_spec(
                agents@[i],
                listed(*projects),
            ),
{
    let mut t: Vec<Vec<TableCell>> = Vec::new();
    let mut header: Vec<TableCell> = Vec::new();
    header.push(cell("Project", CellColor::Plain));
    header.push(cell("PID", CellColor::Plain));
    header.push(cell("Port", CellColor::Plain));
    header.push(cell("Alive", CellColor::Plain));
    header.push(cell("Idle", CellColor::Plain));
    header.push(cell("Memory", CellColor::Plain));
    assert(row_view(header) =~= agents_header_spec());
    t.push(header);
    let n = agents.len();
    let mut i: usize = 0;
    while i < n
        invariant
            n == agents@.len(),
            i <= n,
            t@.len() == i + 1,
            row_view(t@[0]) == agents_header_spec(),
            forall|k: int|
                0 <= k < i ==> row_view(#[trigger] t@[k + 1]) == agent_row_spec(
                    agents@[k],
                    listed(*projects),
                ),
        decreases n - i,
    {
        t.push(agent_row(&agents[i], projects));
        i = i + 1;
    }
    t
}

} // verus!
