//! The Harvest API calls the client makes: method, path and query of each,
//! and the message each failure is reported with.
use crate::client::{bearer_text, credential_headers, path_request, ClientView, HarvestClient, APP_USER_AGENT, BASE_URL};
use crate::http::{with_query, HttpRequest, RequestView};
use crate::text::{int_text, int_to_text};
use vstd::prelude::*;

verus! {

#[derive(Debug, Clone, Copy, PartialEq, Eq)]
pub enum HttpMethod {
    Get,
    Post,
    Patch,
    Delete,
}

/// One API call: its method, its path below the API root and its query pairs.
#[derive(Debug, Clone, PartialEq, Eq)]
pub struct ApiRequest {
    pub method: HttpMethod,
    pub path: String,
    pub query: Vec<(String, String)>,
}

/// The query pairs of a request as text.
pub open spec fn query_text(q: Seq<(String, String)>) -> Seq<(Seq<char>, Seq<char>)> {
    q.map_values(|p: (String, String)| (p.0@, p.1@))
}

/// The query that lists only active records, up to 2000 of them.
pub open spec fn active_page_query() -> Seq<(Seq<char>, Seq<char>)> {
    seq![("is_active"@, "true"@), ("per_page"@, "2000"@)]
}

/// The path of one time entry.
pub open spec fn entry_path(entry_id: int) -> Seq<char> {
    "/time_entries/"@ + int_text(entry_id)
}

fn pair(k: &str, v: &str) -> (p: (String, String))
    ensures
        p.0@ == k@,
        p.1@ == v@,
{
    (String::from_str(k), String::from_str(v))
}

fn active_page_pairs() -> (q: Vec<(String, String)>)
    ensures
        query_text(q@) == active_page_query(),
{
    let mut q: Vec<(String, String)> = Vec::new();
    q.push(pair("is_active", "true"));
    q.push(pair("per_page", "2000"));
    assert(query_text(q@) =~= active_page_query());
    q
}

fn entry_path_text(entry_id: i64) -> (s: String)
    ensures
        s@ == entry_path(entry_id as int),
{
    let id = int_to_text(entry_id as i128);
    String::from_str("/time_entries/").concat(id.as_str())
}

/// `GET /users/me`: the signed-in user.
pub fn me_request() -> (r: ApiRequest)
    ensures
        r.method == HttpMethod::Get,
        r.path@ == "/users/me"@,
        r.query@.len() == 0,
{
    ApiRequest { method: HttpMethod::Get, path: String::from_str("/users/me"), query: Vec::new() }
}

/// `GET /projects?is_active=true&per_page=2000`: the active projects.
pub fn list_projects_request() -> (r: ApiRequest)
    ensures
        r.method == HttpMethod::Get,
        r.path@ == "/projects"@,
        query_text(r.query@) == active_page_query(),
{
    ApiRequest { method: HttpMethod::Get, path: String::from_str("/projects"), query: active_page_pairs() }
}

/// `GET /projects/{id}/task_assignments?is_active=true&per_page=2000`: the
/// active tasks of a project.
pub fn list_task_assignments_request(project_id: i64) -> (r: ApiRequest)
    ensures
        r.method == HttpMethod::Get,
        r.path@ == "/projects/"@ + int_text(project_id as int) + "/task_assignments"@,
        query_text(r.query@) == active_page_query(),
{
    let id = int_to_text(project_id as i128);
    let path = String::from_str("/projects/").concat(id.as_str()).concat("/task_assignments");
    ApiRequest { method: HttpMethod::Get, path, query: active_page_pairs() }
}

/// `GET /time_entries?from={date}&to={date}[&user_id={id}]`: the entries of
/// one day, of one user when a user is given.
pub fn list_time_entries_request(date: &str, user_id: Option<i64>) -> (r: ApiRequest)
    ensures
        r.method == HttpMethod::Get,
        r.path@ == "/time_entries"@,
        query_text(r.query@) == (match user_id {
            Some(uid) => seq![("from"@, date@), ("to"@, date@), ("user_id"@, int_text(uid as int))],
            None => seq![("from"@, date@), ("to"@, date@)],
        }),
{
    let mut q: Vec<(String, String)> = Vec::new();
    q.push(pair("from", date));
    q.push(pair("to", date));
    match user_id {
        Some(uid) => {
            let id = int_to_text(uid as i128);
            q.push((String::from_str("user_id"), id));
        },
        None => {},
    }
    assert(query_text(q@) =~= (match user_id {
        Some(uid) => seq![("from"@, date@), ("to"@, date@), ("user_id"@, int_text(uid as int))],
        None => seq![("from"@, date@), ("to"@, date@)],
    }));
    ApiRequest { method: HttpMethod::Get, path: String::from_str("/time_entries"), query: q }
}

/// `POST /time_entries`: create an entry (the body is a `CreateTimeEntry`).
pub fn create_time_entry_request() -> (r: ApiRequest)
    ensures
        r.method == HttpMethod::Post,
        r.path@ == "/time_entries"@,
        r.query@.len() == 0,
{
    ApiRequest { method: HttpMethod::Post, path: String::from_str("/time_entries"), query: Vec::new() }
}

/// `PATCH /time_entries/{id}`: update an entry (the body is an `UpdateTimeEntry`).
pub fn update_time_entry_request(entry_id: i64) -> (r: ApiRequest)
    ensures
        r.method == HttpMethod::Patch,
        r.path@ == entry_path(entry_id as int),
        r.query@.len() == 0,
{
    ApiRequest { method: HttpMethod::Patch, path: entry_path_text(entry_id), query: Vec::new() }
}

/// `PATCH /time_entries/{id}/stop`: stop a running entry.
pub fn stop_time_entry_request(entry_id: i64) -> (r: ApiRequest)
    ensures
        r.method == HttpMethod::Patch,
        r.path@ == entry_path(entry_id as int) + "/stop"@,
        r.query@.len() == 0,
{
    let path = entry_path_text(entry_id).concat("/stop");
    ApiRequest { method: HttpMethod::Patch, path, query: Vec::new() }
}

/// `PATCH /time_entries/{id}/restart`: restart a stopped entry.
pub fn restart_time_entry_request(entry_id: i64) -> (r: ApiRequest)
    ensures
        r.method == HttpMethod::Patch,
        r.path@ == entry_path(entry_id as int) + "/restart"@,
        r.query@.len() == 0,
{
    let path = entry_path_text(entry_id).concat("/restart");
    ApiRequest { method: HttpMethod::Patch, path, query: Vec::new() }
}

/// `DELETE /time_entries/{id}`: delete an entry.
pub fn delete_time_entry_request(entry_id: i64) -> (r: ApiRequest)
    ensures
        r.method == HttpMethod::Delete,
        r.path@ == entry_path(entry_id as int),
        r.query@.len() == 0,
{
    ApiRequest { method: HttpMethod::Delete, path: entry_path_text(entry_id), query: Vec::new() }
}

/// The HTTP request a client makes for an API call.
pub open spec fn api_request(c: ClientView, req: ApiRequest) -> RequestView {
    RequestView { query: query_text(req.query@), ..path_request(c, req.method, req.path@) }
}

impl HarvestClient {
    /// The HTTP request for an API call: the call's method on the URL of its
    /// path, with its query pairs when it has any, and the client's headers.
    pub fn request(&self, req: &ApiRequest) -> (r: HttpRequest)
        ensures
            r@ == api_request(self@, *req),
    {
        let builder = match req.method {
            HttpMethod::Get => self.get(req.path.as_str()),
            HttpMethod::Post => self.post(req.path.as_str()),
            HttpMethod::Patch => self.patch(req.path.as_str()),
            HttpMethod::Delete => self.delete(req.path.as_str()),
        };
        if req.query.len() == 0 {
            assert(query_text(req.query@) =~= Seq::empty());
            builder
        } else {
            let r = with_query(builder, &req.query);
            assert(Seq::<(Seq<char>, Seq<char>)>::empty() + query_text(req.query@) =~= query_text(req.query@));
            r
        }
    }
}

/// Every request of a client made for an access token and an account ID has
/// the call's method, the API root followed by the call's path, the call's
/// query, and carries `Authorization: Bearer <token>`, the account ID in
/// `Harvest-Account-Id` and the application's `User-Agent`.
pub proof fn law_requests_carry_credentials(c: ClientView, access_token: Seq<char>, account_id: Seq<char>, req: ApiRequest)
    requires
        c.base_url == BASE_URL@,
        c.headers == credential_headers(access_token, account_id),
    ensures
        api_request(c, req).method == req.method,
        api_request(c, req).url == BASE_URL@ + req.path@,
        api_request(c, req).query == query_text(req.query@),
        api_request(c, req).headers["authorization"@] == bearer_text(access_token),
        api_request(c, req).headers["harvest-account-id"@] == account_id,
        api_request(c, req).headers["user-agent"@] == APP_USER_AGENT@,
        api_request(c, req).headers.dom().contains("authorization"@),
        api_request(c, req).headers.dom().contains("harvest-account-id"@),
        api_request(c, req).headers.dom().contains("user-agent"@),
{
    reveal_strlit("authorization");
    reveal_strlit("harvest-account-id");
    reveal_strlit("user-agent");
    assert("authorization"@.len() != "user-agent"@.len());
    assert("harvest-account-id"@.len() != "user-agent"@.len());
    assert("authorization"@.len() != "harvest-account-id"@.len());
}

/// The API calls the application makes.
#[derive(Debug, Clone, Copy, PartialEq, Eq)]
pub enum ApiOperation {
    FetchCurrentUser,
    FetchProjects,
    FetchTaskAssignments,
    FetchTimeEntries,
    CreateTimeEntry,
    UpdateTimeEntry,
    StopTimeEntry,
    RestartTimeEntry,
    DeleteTimeEntry,
}

/// Where a call failed: sending it, an error status in the reply, or reading
/// the reply's body.
#[derive(Debug, Clone, Copy, PartialEq, Eq)]
pub enum FailureStage {
    Send,
    Status,
    Parse,
}

/// The message a failure is reported with; `None` for reading the body of a
/// delete, which has no body to read.
pub open spec fn failure_text(op: ApiOperation, stage: FailureStage) -> Option<Seq<char>> {
    match stage {
        FailureStage::Send => Some(
            match op {
                ApiOperation::FetchCurrentUser => "Failed to fetch current user"@,
                ApiOperation::FetchProjects => "Failed to fetch projects"@,
                ApiOperation::FetchTaskAssignments => "Failed to fetch task assignments"@,
                ApiOperation::FetchTimeEntries => "Failed to fetch time entries"@,
                ApiOperation::CreateTimeEntry => "Failed to create time entry"@,
                ApiOperation::UpdateTimeEntry => "Failed to update time entry"@,
                ApiOperation::StopTimeEntry => "Failed to stop time entry"@,
                ApiOperation::RestartTimeEntry => "Failed to restart time entry"@,
                ApiOperation::DeleteTimeEntry => "Failed to delete time entry"@,
            },
        ),
        FailureStage::Status => Some(
            match op {
                ApiOperation::FetchCurrentUser => "API error fetching current user"@,
                ApiOperation::FetchProjects => "API error fetching projects"@,
                ApiOperation::FetchTaskAssignments => "API error fetching task assignments"@,
                ApiOperation::FetchTimeEntries => "API error fetching time entries"@,
                ApiOperation::CreateTimeEntry => "API error creating time entry"@,
                ApiOperation::UpdateTimeEntry => "API error updating time entry"@,
                ApiOperation::StopTimeEntry => "API error stopping time entry"@,
                ApiOperation::RestartTimeEntry => "API error restarting time entry"@,
                ApiOperation::DeleteTimeEntry => "API error deleting time entry"@,
            },
        ),
        FailureStage::Parse => match op {
            ApiOperation::FetchCurrentUser => Some("Failed to parse user response"@),
            ApiOperation::FetchProjects => Some("Failed to parse projects response"@),
            ApiOperation::FetchTaskAssignments => Some("Failed to parse task assignments response"@),
            ApiOperation::FetchTimeEntries => Some("Failed to parse time entries response"@),
            ApiOperation::CreateTimeEntry => Some("Failed to parse created time entry"@),
            ApiOperation::UpdateTimeEntry => Some("Failed to parse updated time entry"@),
            ApiOperation::StopTimeEntry => Some("Failed to parse stopped time entry"@),
            ApiOperation::RestartTimeEntry => Some("Failed to parse restarted time entry"@),
            ApiOperation::DeleteTimeEntry => None,
        },
    }
}

fn text(s: &str) -> (r: Option<String>)
    ensures
        r matches Some(t) && t@ == s@,
{
    Some(String::from_str(s))
}

/// The message a failure of `op` at `stage` is reported with.
pub fn failure_message(op: ApiOperation, stage: FailureStage) -> (m: Option<String>)
    ensures
        match failure_text(op, stage) {
            Some(t) => m matches Some(s) && s@ == t,
            None => m is None,
        },
{
    match stage {
        FailureStage::Send => match op {
            ApiOperation::FetchCurrentUser => text("Failed to fetch current user"),
            ApiOperation::FetchProjects => text("Failed to fetch projects"),
            ApiOperation::FetchTaskAssignments => text("Failed to fetch task assignments"),
            ApiOperation::FetchTimeEntries => text("Failed to fetch time entries"),
            ApiOperation::CreateTimeEntry => text("Failed to create time entry"),
            ApiOperation::UpdateTimeEntry => text("Failed to update time entry"),
            ApiOperation::StopTimeEntry => text("Failed to stop time entry"),
            ApiOperation::RestartTimeEntry => text("Failed to restart time entry"),
            ApiOperation::DeleteTimeEntry => text("Failed to delete time entry"),
        },
        FailureStage::Status => match op {
            ApiOperation::FetchCurrentUser => text("API error fetching current user"),
            ApiOperation::FetchProjects => text("API error fetching projects"),
            ApiOperation::FetchTaskAssignments => text("API error fetching task assignments"),
            ApiOperation::FetchTimeEntries => text("API error fetching time entries"),
            ApiOperation::CreateTimeEntry => text("API error creating time entry"),
            ApiOperation::UpdateTimeEntry => text("API error updating time entry"),
            ApiOperation::StopTimeEntry => text("API error stopping time entry"),
            ApiOperation::RestartTimeEntry => text("API error restarting time entry"),
            ApiOperation::DeleteTimeEntry => text("API error deleting time entry"),
        },
        FailureStage::Parse => match op {
            ApiOperation::FetchCurrentUser => text("Failed to parse user response"),
            ApiOperation::FetchProjects => text("Failed to parse projects response"),
            ApiOperation::FetchTaskAssignments => text("Failed to parse task assignments response"),
            ApiOperation::FetchTimeEntries => text("Failed to parse time entries response"),
            ApiOperation::CreateTimeEntry => text("Failed to parse created time entry"),
            ApiOperation::UpdateTimeEntry => text("Failed to parse updated time entry"),
            ApiOperation::StopTimeEntry => text("Failed to parse stopped time entry"),
            ApiOperation::RestartTimeEntry => text("Failed to parse restarted time entry"),
            ApiOperation::DeleteTimeEntry => None,
        },
    }
}

} // verus!
