use treatment_manager::handlers::github::{
    authorization_value, create_issue, github_health, github_repo, issue_created, issues_url, open_issues_url,
    GitHubHealth, DEFAULT_REPOSITORY,
};
use treatment_manager::models::{
    CreateIssueRequest, CreateIssueResponse, GitHubIssueRequest, GitHubIssueResponse, GitHubLabel,
};

fn report(issue_type: &str, priority: &str) -> CreateIssueRequest {
    CreateIssueRequest {
        title: "Export fails".to_string(),
        description: "The export of a patient ends in an error.".to_string(),
        issue_type: issue_type.to_string(),
        priority: priority.to_string(),
    }
}

fn labels(list: &[&str]) -> Vec<String> {
    list.iter().map(|label| label.to_string()).collect()
}

#[test]
fn issue_of_a_bug() {
    let request = create_issue(&report("bug", "high"));
    assert_eq!(
        request,
        GitHubIssueRequest {
            title: "Export fails".to_string(),
            body: "The export of a patient ends in an error.\n\n---\n\n**Issue Details:**\n- Type: bug\n- Priority: high\n- Reported via: Treatment Manager System"
                .to_string(),
            labels: labels(&["type:bug", "priority:high", "user-reported", "bug"]),
        }
    );
}

#[test]
fn features_and_enhancements_share_the_tracker_s_label() {
    assert_eq!(
        create_issue(&report("feature", "low")).labels,
        labels(&["type:feature", "priority:low", "user-reported", "enhancement"])
    );
    assert_eq!(
        create_issue(&report("enhancement", "medium")).labels,
        labels(&["type:enhancement", "priority:medium", "user-reported", "enhancement"])
    );
}

#[test]
fn other_types_get_no_label_of_the_tracker() {
    for issue_type in ["question", "", "Bug", "bug ", "BUG", "features"] {
        let request = create_issue(&report(issue_type, "low"));
        assert_eq!(request.labels, labels(&[&format!("type:{issue_type}"), "priority:low", "user-reported"]));
        assert_eq!(
            request.body,
            format!(
                "{}\n\n---\n\n**Issue Details:**\n- Type: {}\n- Priority: {}\n- Reported via: Treatment Manager System",
                "The export of a patient ends in an error.", issue_type, "low"
            )
        );
    }
}

#[test]
fn answer_for_an_opened_issue() {
    let response = GitHubIssueResponse {
        id: 99,
        number: 17,
        title: "Export fails".to_string(),
        body: None,
        html_url: "https://github.com/o/r/issues/17".to_string(),
        state: "open".to_string(),
        labels: vec![GitHubLabel { id: 1, name: "bug".to_string(), color: "d73a4a".to_string() }],
    };
    assert_eq!(
        issue_created(&response),
        CreateIssueResponse {
            success: true,
            message: "Issue created successfully".to_string(),
            html_url: Some("https://github.com/o/r/issues/17".to_string()),
            issue_number: Some(17),
        }
    );
}

#[test]
fn repository_and_addresses() {
    assert_eq!(DEFAULT_REPOSITORY, "ButterflyEA/treatments_manager");
    assert_eq!(github_repo(None), "ButterflyEA/treatments_manager");
    assert_eq!(github_repo(Some("o/r".to_string())), "o/r");
    assert_eq!(issues_url("o/r"), "https://api.github.com/repos/o/r/issues");
    assert_eq!(
        open_issues_url("o/r"),
        "https://api.github.com/repos/o/r/issues?state=open&sort=created&direction=desc&per_page=20"
    );
    assert_eq!(authorization_value("abc"), "token abc");
    assert_eq!(authorization_value(""), "token ");
}

#[test]
fn health_of_the_link_to_the_tracker() {
    assert_eq!(
        github_health(true, "o/r".to_string()),
        GitHubHealth { github_integration: "configured", repository: "o/r".to_string(), status: "ready", message: None }
    );
    assert_eq!(
        github_health(false, "o/r".to_string()),
        GitHubHealth {
            github_integration: "not_configured",
            repository: "o/r".to_string(),
            status: "missing_token",
            message: Some("Set GITHUB_TOKEN environment variable to enable issue creation"),
        }
    );
}
