//! The endpoints of the local Smartloop service, all derived from one base URL.

use vstd::prelude::*;
use vstd::string::*;
use crate::text::concat2;

verus! {

/// Where the service listens when `SMARTLOOP_API_URL` is not set.
pub const DEFAULT_API_URL: &'static str = "http://localhost:38540";

/// `s` without the slashes it ends with (`trim_end_matches('/')`).
pub open spec fn without_trailing_slashes(s: Seq<char>) -> Seq<char>
    decreases s.len(),
{
    if s.len() > 0 && s.last() == '/' {
        without_trailing_slashes(s.drop_last())
    } else {
        s
    }
}

/// The base URL: the configured one when there is one, else the default,
/// with trailing slashes removed.
pub open spec fn base_url_spec(configured: Option<Seq<char>>) -> Seq<char> {
    match configured {
        Some(s) => without_trailing_slashes(s),
        None => without_trailing_slashes(DEFAULT_API_URL@),
    }
}

pub open spec fn api_url_spec(base: Seq<char>) -> Seq<char> {
    base + "/v1"@
}

pub open spec fn projects_url_spec(base: Seq<char>) -> Seq<char> {
    api_url_spec(base) + "/projects"@
}

pub open spec fn import_url_spec(base: Seq<char>) -> Seq<char> {
    projects_url_spec(base) + "/import"@
}

pub open spec fn project_url_spec(base: Seq<char>, id: Seq<char>) -> Seq<char> {
    projects_url_spec(base) + "/"@ + id
}

pub open spec fn health_url_spec(base: Seq<char>) -> Seq<char> {
    base + "/health"@
}

pub open spec fn agents_url_spec(base: Seq<char>) -> Seq<char> {
    base + "/agents"@
}

/// `trim_end_matches('/')` on `s`.
pub fn strip_trailing_slashes(s: &str) -> (r: String)
    ensures
        r@ == without_trailing_slashes(s@),
{
    let n = s.unicode_len();
    let mut j: usize = n;
    assert(s@.subrange(0, n as int) =~= s@);
    while j > 0 && s.get_char(j - 1) == '/'
        invariant
            n == s@.len(),
            j <= n,
            without_trailing_slashes(s@) == without_trailing_slashes(s@.subrange(0, j as int)),
        decreases j,
    {
        assert(s@.subrange(0, j as int).drop_last() =~= s@.subrange(0, j - 1));
        j = j - 1;
    }
    String::from_str(s.substring_char(0, j))
}

/// The base URL of the service, from the value of `SMARTLOOP_API_URL` when it
/// is set: the configured or default URL with trailing slashes removed.
pub fn base_url(configured: Option<String>) -> (r: String)
    ensures
        r@ == base_url_spec(
            match configured {
                Some(s) => Some(s@),
                None => None,
            },
        ),
{
    match configured {
        Some(s) => strip_trailing_slashes(s.as_str()),
        None => strip_trailing_slashes(DEFAULT_API_URL),
    }
}

/// The OpenAI-compatible API root, `{base}/v1`.
pub fn api_url(base: &str) -> (r: String)
    ensures
        r@ == api_url_spec(base@),
{
    concat2(base, "/v1")
}

/// The project collection, `{base}/v1/projects`.
pub fn projects_url(base: &str) -> (r: String)
    ensures
        r@ == projects_url_spec(base@),
{
    let mut r = api_url(base);
    r.append("/projects");
    r
}

/// Where archives are imported, `{base}/v1/projects/import`.
pub fn import_url(base: &str) -> (r: String)
    ensures
        r@ == import_url_spec(base@),
{
    let mut r = projects_url(base);
    r.append("/import");
    r
}

/// One project, `{base}/v1/projects/{id}`.
pub fn project_url(base: &str, id: &str) -> (r: String)
    ensures
        r@ == project_url_spec(base@, id@),
{
    let mut r = projects_url(base);
    r.append("/");
    r.append(id);
    r
}

/// The health report, `{base}/health`.
pub fn health_url(base: &str) -> (r: String)
    ensures
        r@ == health_url_spec(base@),
{
    concat2(base, "/health")
}

/// The agent processes, `{base}/agents`.
pub fn agents_url(base: &str) -> (r: String)
    ensures
        r@ == agents_url_spec(base@),
{
    concat2(base, "/agents")
}

/// The base URL never ends with a slash, and it is the configured text with
/// only slashes taken off its end.
pub proof fn lemma_base_url_shape(s: Seq<char>)
    ensures
        without_trailing_slashes(s).len() == 0 || without_trailing_slashes(s).last() != '/',
        without_trailing_slashes(s).len() <= s.len(),
        s.subrange(0, without_trailing_slashes(s).len() as int) == without_trailing_slashes(s),
        forall|i: int|
            without_trailing_slashes(s).len() <= i < s.len() ==> #[trigger] s[i] == '/',
    decreases s.len(),
{
    if s.len() > 0 && s.last() == '/' {
        lemma_base_url_shape(s.drop_last());
        let r = without_trailing_slashes(s);
        assert(s.subrange(0, r.len() as int) =~= s.drop_last().subrange(0, r.len() as int));
        assert forall|i: int| r.len() <= i < s.len() implies #[trigger] s[i] == '/' by {
            if i < s.len() - 1 {
                assert(s[i] == s.drop_last()[i]);
            }
        }
    } else {
        assert(s.subrange(0, s.len() as int) =~= s);
    }
}

/// Stripping is idempotent: a base URL taken again as configuration gives
/// itself back.
pub proof fn lemma_base_url_idempotent(s: Seq<char>)
    ensures
        without_trailing_slashes(without_trailing_slashes(s)) == without_trailing_slashes(s),
{
    lemma_base_url_shape(s);
}

/// Every endpoint is the base URL followed by its own path, and every project
/// endpoint lies under the API root and under the project collection.
pub proof fn lemma_endpoints_under_base(base: Seq<char>, id: Seq<char>)
    ensures
        projects_url_spec(base) == api_url_spec(base) + "/projects"@,
        api_url_spec(base).subrange(0, base.len() as int) == base,
        projects_url_spec(base).subrange(0, api_url_spec(base).len() as int) == api_url_spec(base),
        import_url_spec(base).subrange(0, projects_url_spec(base).len() as int)
            == projects_url_spec(base),
        project_url_spec(base, id).subrange(0, projects_url_spec(base).len() as int)
            == projects_url_spec(base),
        health_url_spec(base).subrange(0, base.len() as int) == base,
        agents_url_spec(base).subrange(0, base.len() as int) == base,
{
    assert(api_url_spec(base).subrange(0, base.len() as int) =~= base);
    assert(projects_url_spec(base).subrange(0, api_url_spec(base).len() as int)
        =~= api_url_spec(base));
    assert(import_url_spec(base).subrange(0, projects_url_spec(base).len() as int)
        =~= projects_url_spec(base));
    assert(project_url_spec(base, id).subrange(0, projects_url_spec(base).len() as int)
        =~= projects_url_spec(base));
    assert(health_url_spec(base).subrange(0, base.len() as int) =~= base);
    assert(agents_url_spec(base).subrange(0, base.len() as int) =~= base);
}

} // verus!
