use steel_proxy::config::{GitHubConfig, JenkinsConfig};
use steel_proxy::db::models::{Bind, PrBuild, Statement};
use steel_proxy::db::{database_url, run_migrations, MAX_CONNECTIONS};
use steel_proxy::github::GitHubClient;
use steel_proxy::http::{is_success, HttpReply, Method};
use steel_proxy::jenkins::{BuildStatus, JenkinsClient, JenkinsError};

fn jenkins() -> JenkinsClient {
    JenkinsClient::new(JenkinsConfig {
        url: "https://jenkins.example.com".to_string(),
        job_name: "steel-pr".to_string(),
        username: "bot".to_string(),
        api_token: "token".to_string(),
        build_timeout_minutes: 15,
    })
}

fn reply(status: u16, status_text: &str, location: Option<&str>, body: &str) -> HttpReply {
    HttpReply {
        status,
        status_text: status_text.to_string(),
        location: location.map(str::to_string),
        body: body.to_string(),
    }
}

#[test]
fn success_is_two_hundred_to_three_hundred() {
    assert!(!is_success(199));
    assert!(is_success(200));
    assert!(is_success(299));
    assert!(!is_success(300));
}

#[test]
fn triggering_a_build() {
    let r = jenkins().trigger_build(42, "abc1234");
    assert_eq!(r.method, Method::Post);
    assert_eq!(r.url, "https://jenkins.example.com/job/steel-pr/buildWithParameters");
    assert_eq!(r.basic_auth, Some(("bot".to_string(), "token".to_string())));
    assert_eq!(
        r.form,
        vec![
            ("PR_NUMBER".to_string(), "42".to_string()),
            ("COMMIT_HASH".to_string(), "abc1234".to_string()),
        ]
    );
    assert!(r.headers.is_empty());
}

#[test]
fn a_triggered_build_waits_where_jenkins_says() {
    let j = jenkins();
    assert_eq!(
        j.queued_at(&reply(201, "201 Created", Some("https://j/queue/item/7/"), "")),
        Ok("https://j/queue/item/7/".to_string())
    );
    assert_eq!(
        j.queued_at(&reply(201, "201 Created", None, "")),
        Ok("https://jenkins.example.com/queue/".to_string())
    );
    assert_eq!(
        j.queued_at(&reply(403, "403 Forbidden", None, "no crumb")),
        Err("Jenkins returned error: 403 Forbidden no crumb".to_string())
    );
}

#[test]
fn asking_for_the_queue_and_the_build() {
    let j = jenkins();
    let q = j.get_build_url("https://j/queue/item/7/");
    assert_eq!((q.method, q.url.as_str()), (Method::Get, "https://j/queue/item/7/api/json"));
    assert_eq!(q.basic_auth, Some(("bot".to_string(), "token".to_string())));
    let b = j.get_build_status("https://j/job/steel-pr/9/");
    assert_eq!(b.url, "https://j/job/steel-pr/9/api/json");
}

#[test]
fn the_queue_tells_where_the_build_is() {
    let started = br#"{"executable": {"number": 9, "url": "https://j/job/steel-pr/9/"}}"#;
    assert_eq!(
        JenkinsClient::build_url_in(200, started).unwrap(),
        Some("https://j/job/steel-pr/9/".to_string())
    );
    assert_eq!(JenkinsClient::build_url_in(404, started).unwrap(), None);
    assert_eq!(JenkinsClient::build_url_in(200, br#"{"why": "waiting"}"#).unwrap(), None);
    assert_eq!(JenkinsClient::build_url_in(200, br#"{"executable": null}"#).unwrap(), None);
    assert_eq!(JenkinsClient::build_url_in(200, br#"{"executable": {"url": 7}}"#).unwrap(), None);
    assert!(matches!(
        JenkinsClient::build_url_in(200, b"<html>"),
        Err(JenkinsError::Malformed)
    ));
}

fn status(body: &str) -> BuildStatus {
    JenkinsClient::build_status_in(200, "200 OK", body.as_bytes()).unwrap()
}

#[test]
fn reports_of_builds() {
    assert_eq!(status(r#"{"building": true, "result": "SUCCESS"}"#), BuildStatus::Building);
    assert_eq!(status(r#"{"building": false, "result": "SUCCESS"}"#), BuildStatus::Success);
    assert_eq!(status(r#"{"result": "SUCCESS"}"#), BuildStatus::Success);
    for word in ["FAILURE", "ABORTED", "UNSTABLE"] {
        assert_eq!(
            status(&format!(r#"{{"building": false, "result": "{}"}}"#, word)),
            BuildStatus::Failed { reason: word.to_string() }
        );
    }
    assert_eq!(status(r#"{"building": false, "result": null}"#), BuildStatus::Queued);
    assert_eq!(status(r#"{"building": "yes"}"#), BuildStatus::Queued);
    assert_eq!(
        status(r#"{"result": "NOT_BUILT"}"#),
        BuildStatus::Failed { reason: "Unknown result: NOT_BUILT".to_string() }
    );
}

#[test]
fn reports_that_are_missing_or_broken() {
    assert_eq!(
        JenkinsClient::build_status_in(404, "404 Not Found", b"").unwrap(),
        BuildStatus::NotFound
    );
    assert!(matches!(
        JenkinsClient::build_status_in(500, "500 Internal Server Error", b""),
        Err(JenkinsError::Refused { text })
            if text == "Jenkins returned error: 500 Internal Server Error"
    ));
    assert!(matches!(
        JenkinsClient::build_status_in(200, "200 OK", b"{"),
        Err(JenkinsError::Malformed)
    ));
}

#[test]
fn builds_time_out_after_their_minutes() {
    assert_eq!(jenkins().build_timeout(), 900);
}

#[test]
fn asking_github_for_a_pull_request() {
    let open = GitHubClient::new(GitHubConfig {
        owner: "octocat".to_string(),
        repo: "hello-world".to_string(),
        token: None,
    });
    let r = open.get_pr_head_commit(7);
    assert_eq!(r.method, Method::Get);
    assert_eq!(r.url, "https://api.github.com/repos/octocat/hello-world/pulls/7");
    assert_eq!(
        r.headers,
        vec![
            ("User-Agent".to_string(), "steel-proxy".to_string()),
            ("Accept".to_string(), "application/vnd.github+json".to_string()),
        ]
    );
    assert!(r.basic_auth.is_none());
    let closed = GitHubClient::new(GitHubConfig {
        owner: "o".to_string(),
        repo: "r".to_string(),
        token: Some("t".to_string()),
    });
    assert_eq!(
        closed.get_pr_head_commit(7).headers[2],
        ("Authorization".to_string(), "Bearer t".to_string())
    );
}

#[test]
fn refusals_of_github_in_words() {
    assert_eq!(GitHubClient::accepted(&reply(200, "200 OK", None, "{}")), Ok(()));
    assert_eq!(
        GitHubClient::accepted(&reply(404, "404 Not Found", None, "gone")),
        Err("GitHub API error 404 Not Found: gone".to_string())
    );
}

#[test]
fn hashes_are_cut_to_seven_characters() {
    let full = "0123456789abcdef0123456789abcdef01234567".to_string();
    assert_eq!(GitHubClient::head_commit(full.clone()), (full, "0123456".to_string()));
    assert_eq!(GitHubClient::head_commit("abc".to_string()).1, "abc");
    assert_eq!(GitHubClient::head_commit("äöüßéèêx".to_string()).1, "äöüßéèê");
}

fn binds(s: &Statement) -> Vec<String> {
    s.binds
        .iter()
        .map(|b| match b {
            Bind::Integer(n) => format!("i {}", n),
            Bind::Text(t) => format!("t {}", t),
            Bind::OptionalText(t) => format!("o {:?}", t),
        })
        .collect()
}

#[test]
fn statements_take_their_values_in_order() {
    let s = PrBuild::upsert(42, "full", "short", "pr-42-short", "Ready", None);
    assert!(s.sql.starts_with("INSERT INTO pr_builds"));
    assert!(s.sql.contains("ON CONFLICT(pr_number) DO UPDATE"));
    assert_eq!(s.sql.matches('?').count(), s.binds.len());
    assert_eq!(
        binds(&s),
        vec!["i 42", "t full", "t short", "t pr-42-short", "t Ready", "o None"]
    );
    let s = PrBuild::update_state(4294967295, "Failed", Some("why"));
    assert_eq!(s.sql.matches('?').count(), s.binds.len());
    assert_eq!(binds(&s), vec!["t Failed", "o Some(\"why\")", "i 4294967295"]);
    let s = PrBuild::exists_with_commit(7, "abc");
    assert_eq!(s.sql.matches('?').count(), 2);
    assert_eq!(binds(&s), vec!["i 7", "t abc"]);
    assert_eq!(binds(&PrBuild::get_by_pr(7)), vec!["i 7"]);
    assert_eq!(PrBuild::get_by_pr(7).sql, "SELECT * FROM pr_builds WHERE pr_number = ?");
    assert_eq!(PrBuild::delete(7).sql, "DELETE FROM pr_builds WHERE pr_number = ?");
    assert_eq!(binds(&PrBuild::delete(7)), vec!["i 7"]);
    assert_eq!(
        PrBuild::get_active_builds().sql,
        "SELECT * FROM pr_builds WHERE state NOT IN ('Failed', 'ShuttingDown')"
    );
    assert!(PrBuild::get_active_builds().binds.is_empty());
    assert!(PrBuild::get_last_ready_commit(7).sql.ends_with("ORDER BY updated_at DESC LIMIT 1"));
}

#[test]
fn a_count_tells_whether_a_build_is_there() {
    assert!(!PrBuild::any_counted(0));
    assert!(PrBuild::any_counted(1));
}

#[test]
fn the_database_is_made_where_there_is_none() {
    assert_eq!(database_url("data/proxy.db"), "sqlite:data/proxy.db?mode=rwc");
    assert_eq!(MAX_CONNECTIONS, 5);
    let steps = run_migrations();
    assert_eq!(steps.len(), 2);
    assert!(steps[0].starts_with("CREATE TABLE IF NOT EXISTS pr_builds ("));
    assert!(steps[1].starts_with("CREATE INDEX IF NOT EXISTS idx_pr_builds_pr_number"));
}
