//! What the `project` subcommands send and report.

use vstd::prelude::*;
use vstd::string::*;
use crate::text::concat2;

verus! {

/// How `project create` goes about its work.
pub enum CreatePlan {
    /// Upload the archive at `path`, renaming the project to `rename` if given.
    Import { path: String, rename: Option<String> },
    /// Create a project from the blank template.
    Blank { name: String, description: Option<String> },
}

pub const NAME_REQUIRED: &'static str = "--name is required when creating a project without --import";

/// `project create`: an archive to import wins; without one a name is needed.
/// The description goes only with a blank project (the argument parser
/// already refuses it together with an archive).
pub fn plan_create(name: Option<String>, description: Option<String>, import: Option<String>) -> (r:
    Result<CreatePlan, String>)
    ensures
        match import {
            Some(path) => r == Ok::<CreatePlan, String>(CreatePlan::Import { path, rename: name }),
            None => match name {
                Some(n) => r == Ok::<CreatePlan, String>(
                    CreatePlan::Blank { name: n, description },
                ),
                None => r is Err && r->Err_0@ == NAME_REQUIRED@,
            },
        },
{
    match import {
        Some(path) => Ok(CreatePlan::Import { path, rename: name }),
        None => match name {
            Some(n) => Ok(CreatePlan::Blank { name: n, description }),
            None => Err(String::from_str(NAME_REQUIRED)),
        },
    }
}

/// The body of a blank-template project: no skills, so the service seeds the
/// workspace defaults, and never a system project.
pub struct NewProject {
    pub name: String,
    pub description: Option<String>,
    pub system: bool,
    pub skills: Vec<String>,
}

pub fn new_project(name: String, description: Option<String>) -> (r: NewProject)
    ensures
        r.name == name,
        r.description == description,
        !r.system,
        r.skills@.len() == 0,
{
    NewProject { name, description, system: false, skills: Vec::new() }
}

pub open spec fn created_line_spec(action: Seq<char>) -> Seq<char> {
    action + " successfully"@
}

/// The confirmation printed above the new project's table.
pub fn created_line(action: &str) -> (r: String)
    ensures
        r@ == created_line_spec(action@),
{
    concat2(action, " successfully")
}

pub const PROJECT_CREATED: &'static str = "Project created";

pub const PROJECT_IMPORTED: &'static str = "Project imported";

pub const PROJECT_DELETED: &'static str = "Project deleted successfully";

} // verus!
