//! Projects as the service lists them, their table, and the choice of the
//! project a chat runs in.

use vstd::prelude::*;
use vstd::string::*;
use crate::text::{
    all_digits, concat2, decimal, decimal_text, flag, flag_value, lemma_decimal_parses_back,
    lemma_digits_untrimmed, parse_usize, parse_usize_spec, string_or_empty, text_or_empty, trim,
    trimmed,
};

verus! {

/// A project entry of the service's listing, as far as the client reads it:
/// each field is the string or flag found under its key, if it is one.
pub struct ProjectRecord {
    pub id: Option<String>,
    pub name: Option<String>,
    pub system: Option<bool>,
    pub current: Option<bool>,
}

/// The color a table cell is printed in.
#[derive(Clone, Copy, Debug, PartialEq, Eq, Structural)]
pub enum CellColor {
    Plain,
    Magenta,
    Green,
    Red,
}

/// One cell of a printed table.
pub struct TableCell {
    pub text: String,
    pub color: CellColor,
}

pub open spec fn cell_view(c: TableCell) -> (Seq<char>, CellColor) {
    (c.text@, c.color)
}

pub open spec fn row_view(r: Vec<TableCell>) -> Seq<(Seq<char>, CellColor)> {
    r@.map_values(|c: TableCell| cell_view(c))
}

pub fn cell(text: &str, color: CellColor) -> (r: TableCell)
    ensures
        cell_view(r) == (text@, color),
{
    TableCell { text: String::from_str(text), color }
}

pub fn owned_cell(text: String, color: CellColor) -> (r: TableCell)
    ensures
        cell_view(r) == (text@, color),
{
    TableCell { text, color }
}

pub open spec fn project_header_spec() -> Seq<(Seq<char>, CellColor)> {
    seq![("ID"@, CellColor::Plain), ("Name"@, CellColor::Plain), ("System"@, CellColor::Plain)]
}

/// A project's row: its id, its name, and whether it is a system project,
/// `true` standing out in magenta.
pub open spec fn project_row_spec(p: ProjectRecord) -> Seq<(Seq<char>, CellColor)> {
    seq![
        (text_or_empty(p.id), CellColor::Plain),
        (text_or_empty(p.name), CellColor::Plain),
        if flag(p.system) {
            ("true"@, CellColor::Magenta)
        } else {
            ("false"@, CellColor::Plain)
        },
    ]
}

/// A project's row shows its id and its name, then `true` in magenta
/// exactly when its `system` flag is true and `false` otherwise; whether it is
/// the current project plays no part.
pub proof fn lemma_system_cell(p: ProjectRecord, current: Option<bool>)
    ensures
        project_row_spec(p).len() == 3,
        project_row_spec(p)[0] == (text_or_empty(p.id), CellColor::Plain),
        project_row_spec(p)[1] == (text_or_empty(p.name), CellColor::Plain),
        p.system == Some(true) ==> project_row_spec(p)[2] == ("true"@, CellColor::Magenta),
        p.system != Some(true) ==> project_row_spec(p)[2] == ("false"@, CellColor::Plain),
        project_row_spec((ProjectRecord { id: p.id, name: p.name, system: p.system, current }))
            == project_row_spec(p),
{
    let q = ProjectRecord { id: p.id, name: p.name, system: p.system, current };
    assert(project_row_spec(q) =~= project_row_spec(p));
}

/// The id a project goes by, empty when the listing has none.
pub fn project_id(p: &ProjectRecord) -> (r: String)
    ensures
        r@ == text_or_empty(p.id),
{
    string_or_empty(&p.id)
}

/// The name a project goes by, empty when the listing has none.
pub fn project_name(p: &ProjectRecord) -> (r: String)
    ensures
        r@ == text_or_empty(p.name),
{
    string_or_empty(&p.name)
}

fn project_row(p: &ProjectRecord) -> (r: Vec<TableCell>)
    ensures
        row_view(r) == project_row_spec(*p),
{
    let mut r: Vec<TableCell> = Vec::new();
    r.push(owned_cell(project_id(p), CellColor::Plain));
    r.push(owned_cell(project_name(p), CellColor::Plain));
    if flag_value(p.system) {
        r.push(cell("true", CellColor::Magenta));
    } else {
        r.push(cell("false", CellColor::Plain));
    }
    assert(row_view(r) =~= project_row_spec(*p));
    r
}

/// The project table: a header, then one row per project in listing order.
pub fn projects_table(projects: &Vec<ProjectRecord>) -> (t: Vec<Vec<TableCell>>)
    ensures
        t@.len() == projects@.len() + 1,
        row_view(t@[0]) == project_header_spec(),
        forall|i: int|
            0 <= i < projects@.len() ==> row_view(#[trigger] t@[i + 1]) == project_row_spec(
                projects@[i],
            ),
{
    let mut t: Vec<Vec<TableCell>> = Vec::new();
    let mut header: Vec<TableCell> = Vec::new();
    header.push(cell("ID", CellColor::Plain));
    header.push(cell("Name", CellColor::Plain));
    header.push(cell("System", CellColor::Plain));
    assert(row_view(header) =~= project_header_spec());
    t.push(header);
    let n = projects.len();
    let mut i: usize = 0;
    while i < n
        invariant
            n == projects@.len(),
            i <= n,
            t@.len() == i + 1,
            row_view(t@[0]) == project_header_spec(),
            forall|k: int|
                0 <= k < i ==> row_view(#[trigger] t@[k + 1]) == project_row_spec(projects@[k]),
        decreases n - i,
    {
        t.push(project_row(&projects[i]));
        i = i + 1;
    }
    t
}

pub const NOT_AN_ARRAY: &'static str = "Expected projects to be an array";

/// The listing's `projects` field must be an array.
pub fn listed_projects(projects: Option<Vec<ProjectRecord>>) -> (r: Result<
    Vec<ProjectRecord>,
    String,
>)
    ensures
        match projects {
            Some(ps) => r == Ok::<Vec<ProjectRecord>, String>(ps),
            None => r is Err && r->Err_0@ == NOT_AN_ARRAY@,
        },
{
    match projects {
        Some(ps) => Ok(ps),
        None => Err(String::from_str(NOT_AN_ARRAY)),
    }
}

pub open spec fn is_current(p: ProjectRecord) -> bool {
    flag(p.current)
}

/// The project offered by default: the first one the service marks as
/// current, or the first one when none is.
pub open spec fn is_default_index(ps: Seq<ProjectRecord>, d: nat) -> bool {
    ||| d < ps.len() && is_current(ps[d as int]) && forall|j: int|
        0 <= j < d ==> !is_current(#[trigger] ps[j])
    ||| d == 0 && forall|j: int| 0 <= j < ps.len() ==> !is_current(#[trigger] ps[j])
}

pub fn default_project_index(projects: &Vec<ProjectRecord>) -> (d: usize)
    ensures
        is_default_index(projects@, d as nat),
{
    let n = projects.len();
    let mut i: usize = 0;
    while i < n
        invariant
            n == projects@.len(),
            i <= n,
            forall|j: int| 0 <= j < i ==> !is_current(#[trigger] projects@[j]),
        decreases n - i,
    {
        if flag_value(projects[i].current) {
            return i;
        }
        i = i + 1;
    }
    0
}

/// The default index of a nonempty listing is one of its projects.
pub proof fn lemma_default_in_range(ps: Seq<ProjectRecord>, d: nat)
    requires
        ps.len() > 0,
        is_default_index(ps, d),
    ensures
        d < ps.len(),
{
}

pub const NO_PROJECTS: &'static str = "No projects found; create one with `smartloop project create`";

/// How the project of a chat is chosen.
pub enum SelectionStart {
    /// Taken without asking; the announcement names it on stderr.
    Chosen { index: usize, announcement: String },
    /// Asked on the terminal: the menu is printed once, the prompt before each
    /// answer.
    Ask { default: usize, menu: Vec<String>, prompt: String },
}

pub open spec fn announcement_spec(name: Seq<char>) -> Seq<char> {
    "project: "@ + name
}

pub open spec fn menu_line_spec(i: nat, name: Seq<char>, is_default: bool) -> Seq<char> {
    "  "@ + decimal(i + 1) + ". "@ + name + if is_default {
        " (current)"@
    } else {
        ""@
    }
}

pub open spec fn prompt_spec(default: nat) -> Seq<char> {
    "Select a project ["@ + decimal(default + 1) + "]: "@
}

/// Menu line `i` starts with two spaces, then the number `i + 1` in decimal
/// digits, then `. `; typed back at the prompt, that number (already trimmed)
/// parses to `i + 1`, which `answer_selection` maps to index `i`.
pub proof fn lemma_menu_number(i: nat, name: Seq<char>, is_default: bool, count: nat)
    requires
        i < count,
        count <= usize::MAX,
    ensures
        ({
            let line = menu_line_spec(i, name, is_default);
            let k = decimal(i + 1).len() as int;
            &&& line.len() >= 4 + k
            &&& line.subrange(0, 2) == "  "@
            &&& all_digits(line.subrange(2, 2 + k))
            &&& trimmed(line.subrange(2, 2 + k)) == line.subrange(2, 2 + k)
            &&& parse_usize_spec(line.subrange(2, 2 + k)) == Some(i + 1)
            &&& line.subrange(2 + k, 4 + k) == ". "@
            &&& 1 <= i + 1 <= count
        }),
{
    reveal_strlit("  ");
    reveal_strlit(". ");
    let d = decimal(i + 1);
    let k = d.len() as int;
    let line = menu_line_spec(i, name, is_default);
    lemma_decimal_parses_back(i + 1);
    lemma_digits_untrimmed(d);
    assert(line.subrange(0, 2) =~= "  "@);
    assert(line.subrange(2, 2 + k) =~= d);
    assert(line.subrange(2 + k, 4 + k) =~= ". "@);
}

fn menu_line(i: usize, name: &str, is_default: bool) -> (r: String)
    requires
        i < usize::MAX,
    ensures
        r@ == menu_line_spec(i as nat, name@, is_default),
{
    let mut r = String::from_str("  ");
    let number = decimal_text(i as u128 + 1);
    r.append(number.as_str());
    r.append(". ");
    r.append(name);
    if is_default {
        r.append(" (current)");
    } else {
        r.append("");
    }
    r
}

fn selection_prompt(default: usize) -> (r: String)
    requires
        default < usize::MAX,
    ensures
        r@ == prompt_spec(default as nat),
{
    let mut r = String::from_str("Select a project [");
    let number = decimal_text(default as u128 + 1);
    r.append(number.as_str());
    r.append("]: ");
    r
}

/// The start of the project choice: none to choose from is an error; one
/// project, or no terminal to ask on, takes the default; otherwise the
/// numbered menu is shown, the default marked `(current)`.
pub fn start_selection(projects: &Vec<ProjectRecord>, interactive: bool) -> (r: Result<
    SelectionStart,
    String,
>)
    ensures
        projects@.len() == 0 <==> r is Err,
        r is Err ==> r->Err_0@ == NO_PROJECTS@,
        r matches Ok(SelectionStart::Chosen { index, announcement }) ==> {
            &&& projects@.len() == 1 || !interactive
            &&& is_default_index(projects@, index as nat)
            &&& index < projects@.len()
            &&& announcement@ == announcement_spec(text_or_empty(projects@[index as int].name))
        },
        r matches Ok(SelectionStart::Ask { default, menu, prompt }) ==> {
            &&& projects@.len() > 1 && interactive
            &&& is_default_index(projects@, default as nat)
            &&& default < projects@.len()
            &&& menu@.len() == projects@.len()
            &&& forall|i: int|
                0 <= i < menu@.len() ==> (#[trigger] menu@[i])@ == menu_line_spec(
                    i as nat,
                    text_or_empty(projects@[i].name),
                    i == default,
                )
            &&& prompt@ == prompt_spec(default as nat)
        },
{
    let n = projects.len();
    if n == 0 {
        return Err(String::from_str(NO_PROJECTS));
    }
    let default = default_project_index(projects);
    if n == 1 || !interactive {
        let name = project_name(&projects[default]);
        return Ok(
            SelectionStart::Chosen { index: default, announcement: concat2("project: ", name.as_str()) },
        );
    }
    let mut menu: Vec<String> = Vec::new();
    let mut i: usize = 0;
    while i < n
        invariant
            n == projects@.len(),
            i <= n,
            menu@.len() == i,
            forall|k: int|
                0 <= k < i ==> (#[trigger] menu@[k])@ == menu_line_spec(
                    k as nat,
                    text_or_empty(projects@[k].name),
                    k == default,
                ),
        decreases n - i,
    {
        let name = project_name(&projects[i]);
        menu.push(menu_line(i, name.as_str(), i == default));
        i = i + 1;
    }
    Ok(SelectionStart::Ask { default, menu, prompt: selection_prompt(default) })
}

/// What an answer at the project prompt leads to.
pub enum Answer {
    /// End of input: the client stops quietly.
    Exit,
    /// The project at this index.
    Pick(usize),
    /// Not a number of the menu: say so and ask again.
    Retry(String),
}

pub open spec fn retry_spec(count: nat) -> Seq<char> {
    "Enter a number from 1 to "@ + decimal(count)
}

/// The answer to the project prompt: end of input stops, a blank line takes
/// the default, a menu number picks that project, anything else asks again.
pub fn answer_selection(count: usize, default: usize, line: Option<&str>) -> (r: Answer)
    requires
        default < count,
    ensures
        line is None ==> r is Exit,
        line matches Some(l) ==> {
            let t = trimmed(l@);
            let p = parse_usize_spec(t);
            let in_menu = p is Some && 1 <= p->0 <= count;
            &&& t.len() == 0 ==> r == Answer::Pick(default)
            &&& (t.len() != 0 && in_menu) ==> r == Answer::Pick((p->0 - 1) as usize)
            &&& (t.len() != 0 && !in_menu) ==> r is Retry && r->Retry_0@ == retry_spec(
                count as nat,
            )
        },
        r matches Answer::Pick(i) ==> i < count,
{
    match line {
        None => Answer::Exit,
        Some(l) => {
            let t = trim(l);
            if t.unicode_len() == 0 {
                return Answer::Pick(default);
            }
            match parse_usize(t) {
                Some(v) => {
                    if 1 <= v && v <= count {
                        return Answer::Pick(v - 1);
                    }
                },
                None => {},
            }
            let number = decimal_text(count as u128);
            Answer::Retry(concat2("Enter a number from 1 to ", number.as_str()))
        },
    }
}

} // verus!
