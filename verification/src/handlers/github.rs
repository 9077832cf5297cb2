//! What is sent to the issue tracker for a reported issue, and what the
//! client is told afterwards. The HTTP exchange itself is the caller's.

use crate::models::{
    CreateIssueRequest, CreateIssueResponse, GitHubIssueRequest, GitHubIssueResponse,
};
use crate::text::str_eq;
use vstd::prelude::*;

verus! {

/// The repository that issues go to where none is configured.
pub const DEFAULT_REPOSITORY: &'static str = "ButterflyEA/treatments_manager";

/// What stands between the description and the details in an issue's body.
pub const DETAILS_HEADING: &'static str = "\n\n---\n\n**Issue Details:**\n- Type: ";

/// What stands before the priority in an issue's body.
pub const PRIORITY_HEADING: &'static str = "\n- Priority: ";

/// The last line of an issue's body.
pub const REPORTED_VIA: &'static str = "\n- Reported via: Treatment Manager System";

/// What a client is told when its issue was opened.
pub const ISSUE_CREATED_MESSAGE: &'static str = "Issue created successfully";

/// The body of an issue: the description, then the type and the priority under a heading.
pub open spec fn issue_body(
    description: Seq<char>,
    issue_type: Seq<char>,
    priority: Seq<char>,
) -> Seq<char> {
    description + DETAILS_HEADING@ + issue_type + PRIORITY_HEADING@ + priority + REPORTED_VIA@
}

/// The label that the issue tracker itself knows for a type of issue, where it knows one.
pub open spec fn tracker_label(issue_type: Seq<char>) -> Option<Seq<char>> {
    if issue_type == "bug"@ {
        Some("bug"@)
    } else if issue_type == "feature"@ || issue_type == "enhancement"@ {
        Some("enhancement"@)
    } else {
        None
    }
}

/// The labels of an issue: its type, its priority, the mark of a user's
/// report and, where the tracker knows one for the type, the tracker's own label.
pub open spec fn issue_labels(issue_type: Seq<char>, priority: Seq<char>) -> Seq<Seq<char>> {
    let labels = seq!["type:"@ + issue_type, "priority:"@ + priority, "user-reported"@];
    match tracker_label(issue_type) {
        Some(label) => labels.push(label),
        None => labels,
    }
}

/// Builds what is sent to the issue tracker for a reported issue.
pub fn create_issue(issue_data: &CreateIssueRequest) -> (request: GitHubIssueRequest)
    ensures
        request.title@ == issue_data.title@,
        request.body@ == issue_body(issue_data.description@, issue_data.issue_type@, issue_data.priority@),
        request.labels.deep_view() == issue_labels(issue_data.issue_type@, issue_data.priority@),
{
    let mut body = issue_data.description.clone();
    body.append(DETAILS_HEADING);
    body.append(issue_data.issue_type.as_str());
    body.append(PRIORITY_HEADING);
    body.append(issue_data.priority.as_str());
    body.append(REPORTED_VIA);

    let mut type_label = "type:".to_owned();
    type_label.append(issue_data.issue_type.as_str());
    let mut priority_label = "priority:".to_owned();
    priority_label.append(issue_data.priority.as_str());
    let mut labels: Vec<String> = Vec::new();
    labels.push(type_label);
    labels.push(priority_label);
    labels.push("user-reported".to_owned());
    if str_eq(issue_data.issue_type.as_str(), "bug") {
        labels.push("bug".to_owned());
    } else if str_eq(issue_data.issue_type.as_str(), "feature") || str_eq(
        issue_data.issue_type.as_str(),
        "enhancement",
    ) {
        labels.push("enhancement".to_owned());
    }
    assert(labels.deep_view() =~= issue_labels(issue_data.issue_type@, issue_data.priority@));
    GitHubIssueRequest { title: issue_data.title.clone(), body, labels }
}

/// What the client is told when the issue tracker has opened the issue.
pub fn issue_created(response: &GitHubIssueResponse) -> (answer: CreateIssueResponse)
    ensures
        answer.success,
        answer.message@ == ISSUE_CREATED_MESSAGE@,
        answer.html_url matches Some(url) && url@ == response.html_url@,
        answer.issue_number == Some(response.number),
{
    CreateIssueResponse {
        success: true,
        message: ISSUE_CREATED_MESSAGE.to_owned(),
        html_url: Some(response.html_url.clone()),
        issue_number: Some(response.number),
    }
}

/// The repository that issues go to: the configured one, or [`DEFAULT_REPOSITORY`].
pub fn github_repo(configured: Option<String>) -> (repository: String)
    ensures
        repository@ == match configured {
            Some(name) => name@,
            None => DEFAULT_REPOSITORY@,
        },
{
    match configured {
        Some(name) => name,
        None => DEFAULT_REPOSITORY.to_owned(),
    }
}

/// The address under which the issues of a repository are opened.
pub fn issues_url(repository: &str) -> (url: String)
    ensures
        url@ == "https://api.github.com/repos/"@ + repository@ + "/issues"@,
{
    let mut url = "https://api.github.com/repos/".to_owned();
    url.append(repository);
    url.append("/issues");
    url
}

/// The address under which the open issues of a repository are listed,
/// newest first and twenty at most.
pub fn open_issues_url(repository: &str) -> (url: String)
    ensures
        url@ == "https://api.github.com/repos/"@ + repository@ + "/issues"@
            + "?state=open&sort=created&direction=desc&per_page=20"@,
{
    let mut url = issues_url(repository);
    url.append("?state=open&sort=created&direction=desc&per_page=20");
    url
}

/// The value of the `Authorization` header of a request to the issue tracker.
pub fn authorization_value(token: &str) -> (value: String)
    ensures
        value@ == "token "@ + token@,
{
    let mut value = "token ".to_owned();
    value.append(token);
    value
}

/// The state of the link to the issue tracker, as reported to an operator.
#[derive(Debug, Clone, PartialEq, Eq)]
pub struct GitHubHealth {
    pub github_integration: &'static str,
    pub repository: String,
    pub status: &'static str,
    pub message: Option<&'static str>,
}

/// Reports whether issues can be opened: they can where a token for the
/// issue tracker is configured.
pub fn github_health(token_configured: bool, repository: String) -> (health: GitHubHealth)
    ensures
        health.repository@ == repository@,
        token_configured ==> health.github_integration@ == "configured"@ && health.status@ == "ready"@
            && health.message is None,
        !token_configured ==> health.github_integration@ == "not_configured"@ && health.status@
            == "missing_token"@ && (health.message matches Some(text) && text@
            == "Set GITHUB_TOKEN environment variable to enable issue creation"@),
{
    if token_configured {
        GitHubHealth { github_integration: "configured", repository, status: "ready", message: None }
    } else {
        GitHubHealth {
            github_integration: "not_configured",
            repository,
            status: "missing_token",
            message: Some("Set GITHUB_TOKEN environment variable to enable issue creation"),
        }
    }
}

} // verus!
