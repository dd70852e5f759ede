//! Builds on Jenkins.
use crate::config::{optional_text, JenkinsConfig};
use crate::http::{
    is_success, pairs_view, push_pair, succeeded, HttpReply, HttpRequest, HttpRequestView, Method,
    Pairs,
};
use crate::json::{bool_at, json_bool, json_text, text_at};
use crate::text::{decimal, decimal_text, same_text};
use vstd::prelude::*;

verus! {

/// Jenkins build status.
#[derive(Debug, PartialEq)]
pub enum BuildStatus {
    /// Build is queued, waiting to start
    Queued,
    /// Build is running
    Building,
    /// Build completed successfully
    Success,
    /// Build failed
    Failed { reason: String },
    /// Build not found
    NotFound,
}

/// The values in a [`BuildStatus`].
pub enum BuildStatusView {
    Queued,
    Building,
    Success,
    Failed { reason: Seq<char> },
    NotFound,
}

impl View for BuildStatus {
    type V = BuildStatusView;

    open spec fn view(&self) -> BuildStatusView {
        match self {
            BuildStatus::Queued => BuildStatusView::Queued,
            BuildStatus::Building => BuildStatusView::Building,
            BuildStatus::Success => BuildStatusView::Success,
            BuildStatus::Failed { reason } => BuildStatusView::Failed { reason: reason@ },
            BuildStatus::NotFound => BuildStatusView::NotFound,
        }
    }
}

impl Clone for BuildStatus {
    fn clone(&self) -> (r: Self)
        ensures
            r == *self,
    {
        match self {
            BuildStatus::Queued => BuildStatus::Queued,
            BuildStatus::Building => BuildStatus::Building,
            BuildStatus::Success => BuildStatus::Success,
            BuildStatus::Failed { reason } => BuildStatus::Failed { reason: reason.clone() },
            BuildStatus::NotFound => BuildStatus::NotFound,
        }
    }
}

/// The status that a build report shows: a build that runs is building, whatever result stands
/// beside it; otherwise the result decides, and no result yet means that it is queued.
pub open spec fn reported_status(building: Option<bool>, result: Option<Seq<char>>) -> BuildStatusView {
    let word = match result {
        Some(w) => w,
        None => ""@,
    };
    if building == Some(true) {
        BuildStatusView::Building
    } else if word == "SUCCESS"@ {
        BuildStatusView::Success
    } else if word == "FAILURE"@ || word == "ABORTED"@ || word == "UNSTABLE"@ {
        BuildStatusView::Failed { reason: word }
    } else if word == ""@ {
        BuildStatusView::Queued
    } else {
        BuildStatusView::Failed { reason: "Unknown result: "@ + word }
    }
}

impl BuildStatus {
    /// The status that a build report shows.
    pub fn from_report(building: Option<bool>, result: Option<String>) -> (r: BuildStatus)
        ensures
            r@ == reported_status(building, optional_text(result)),
    {
        match building {
            Some(true) => return BuildStatus::Building,
            _ => {},
        }
        let word = match result {
            Some(w) => w,
            None => "".to_owned(),
        };
        if same_text(word.as_str(), "SUCCESS") {
            BuildStatus::Success
        } else if same_text(word.as_str(), "FAILURE") || same_text(word.as_str(), "ABORTED")
            || same_text(word.as_str(), "UNSTABLE") {
            BuildStatus::Failed { reason: word }
        } else if same_text(word.as_str(), "") {
            BuildStatus::Queued
        } else {
            let mut reason = "Unknown result: ".to_owned();
            reason.append(word.as_str());
            BuildStatus::Failed { reason }
        }
    }
}

/// Why Jenkins gave no answer.
#[derive(Debug)]
pub enum JenkinsError {
    /// It refused the request, in these words.
    Refused { text: String },
    /// Its answer is no JSON document.
    Malformed,
}

/// What the queue says of a build that waits in it: where the build is, once it has started.
pub open spec fn queue_answer(status: u16, url: Option<Option<Seq<char>>>) -> Option<
    Option<Seq<char>>,
> {
    if !succeeded(status) {
        Some(None)
    } else {
        url
    }
}

/// What Jenkins says of a build.
pub enum StatusAnswer {
    Status(BuildStatusView),
    Refused(Seq<char>),
    Malformed,
}

/// What Jenkins says of a build: none of that number, a refusal, or a report.
pub open spec fn status_answer(
    status: u16,
    status_text: Seq<char>,
    building: Option<Option<bool>>,
    result: Option<Option<Seq<char>>>,
) -> StatusAnswer {
    if status == 404 {
        StatusAnswer::Status(BuildStatusView::NotFound)
    } else if !succeeded(status) {
        StatusAnswer::Refused("Jenkins returned error: "@ + status_text)
    } else if building is None || result is None {
        StatusAnswer::Malformed
    } else {
        StatusAnswer::Status(reported_status(building->0, result->0))
    }
}

/// Client for interacting with the Jenkins API.
pub struct JenkinsClient {
    config: JenkinsConfig,
}

impl JenkinsClient {
    /// The settings in force.
    pub closed spec fn settings(&self) -> JenkinsConfig {
        self.config
    }

    /// A client with these settings.
    pub fn new(config: JenkinsConfig) -> (r: Self)
        ensures
            r.settings() == config,
    {
        JenkinsClient { config }
    }

    /// The request for a page of the API, with the user's credentials.
    pub open spec fn page(&self, url: Seq<char>) -> HttpRequestView {
        HttpRequestView {
            method: Method::Get,
            url: url + "api/json"@,
            headers: Pairs::empty(),
            basic_auth: Some((self.settings().username@, self.settings().api_token@)),
            form: Pairs::empty(),
        }
    }

    fn request_page(&self, url: &str) -> (r: HttpRequest)
        ensures
            r@ == self.page(url@),
    {
        let mut api_url = url.to_owned();
        api_url.append("api/json");
        let r = HttpRequest {
            method: Method::Get,
            url: api_url,
            headers: Vec::new(),
            basic_auth: Some((self.config.username.clone(), self.config.api_token.clone())),
            form: Vec::new(),
        };
        assert(r@ =~= self.page(url@));
        r
    }

    /// The request that triggers a build for a PR.
    pub fn trigger_build(&self, pr_number: u32, commit_hash_short: &str) -> (r: HttpRequest)
        ensures
            r@ == (HttpRequestView {
                method: Method::Post,
                url: self.settings().url@ + "/job/"@ + self.settings().job_name@
                    + "/buildWithParameters"@,
                headers: Pairs::empty(),
                basic_auth: Some((self.settings().username@, self.settings().api_token@)),
                form: seq![
                    ("PR_NUMBER"@, decimal(pr_number as nat)),
                    ("COMMIT_HASH"@, commit_hash_short@),
                ],
            }),
    {
        let mut url = self.config.url.clone();
        url.append("/job/");
        url.append(self.config.job_name.as_str());
        url.append("/buildWithParameters");
        let number = decimal_text(pr_number as u64);
        let mut form: Vec<(String, String)> = Vec::new();
        push_pair(&mut form, "PR_NUMBER", number.as_str());
        push_pair(&mut form, "COMMIT_HASH", commit_hash_short);
        let headers: Vec<(String, String)> = Vec::new();
        proof {
            assert(pairs_view(form@) =~= seq![
                ("PR_NUMBER"@, decimal(pr_number as nat)),
                ("COMMIT_HASH"@, commit_hash_short@),
            ]);
            assert(pairs_view(headers@) =~= Pairs::empty());
        }
        HttpRequest {
            method: Method::Post,
            url,
            headers,
            basic_auth: Some((self.config.username.clone(), self.config.api_token.clone())),
            form,
        }
    }

    /// The place in the queue that a triggered build got, or Jenkins's refusal in words.
    pub fn queued_at(&self, reply: &HttpReply) -> (r: Result<String, String>)
        ensures
            match r {
                Ok(url) => succeeded(reply.status) && url@ == (match reply.location {
                    Some(l) => l@,
                    None => self.settings().url@ + "/queue/"@,
                }),
                Err(text) => !succeeded(reply.status) && text@ == "Jenkins returned error: "@
                    + reply.status_text@ + " "@ + reply.body@,
            },
    {
        if !is_success(reply.status) {
            let mut text = "Jenkins returned error: ".to_owned();
            text.append(reply.status_text.as_str());
            text.append(" ");
            text.append(reply.body.as_str());
            return Err(text);
        }
        match &reply.location {
            Some(l) => Ok(l.clone()),
            None => {
                let mut url = self.config.url.clone();
                url.append("/queue/");
                Ok(url)
            },
        }
    }

    /// The request for the queue item at that place.
    pub fn get_build_url(&self, queue_url: &str) -> (r: HttpRequest)
        ensures
            r@ == self.page(queue_url@),
    {
        self.request_page(queue_url)
    }

    /// Where the build of a queue item is; nothing as long as it waits.
    pub fn build_url_in(status: u16, body: &[u8]) -> (r: Result<Option<String>, JenkinsError>)
        ensures
            match r {
                Ok(url) => queue_answer(status, json_text(body@, "/executable/url"@)) == Some(
                    optional_text(url),
                ),
                Err(e) => e is Malformed && queue_answer(
                    status,
                    json_text(body@, "/executable/url"@),
                ) is None,
            },
    {
        if !is_success(status) {
            return Ok(None);
        }
        match text_at(body, "/executable/url") {
            Ok(url) => Ok(url),
            Err(_) => Err(JenkinsError::Malformed),
        }
    }

    /// The request for the report of a build.
    pub fn get_build_status(&self, build_url: &str) -> (r: HttpRequest)
        ensures
            r@ == self.page(build_url@),
    {
        self.request_page(build_url)
    }

    /// The status that the reply to a request for a report shows.
    pub fn build_status_in(status: u16, status_text: &str, body: &[u8]) -> (r: Result<
        BuildStatus,
        JenkinsError,
    >)
        ensures
            (match r {
                Ok(s) => StatusAnswer::Status(s@),
                Err(JenkinsError::Refused { text }) => StatusAnswer::Refused(text@),
                Err(JenkinsError::Malformed) => StatusAnswer::Malformed,
            }) == status_answer(
                status,
                status_text@,
                json_bool(body@, "/building"@),
                json_text(body@, "/result"@),
            ),
    {
        if status == 404 {
            return Ok(BuildStatus::NotFound);
        }
        if !is_success(status) {
            let mut text = "Jenkins returned error: ".to_owned();
            text.append(status_text);
            return Err(JenkinsError::Refused { text });
        }
        let building = match bool_at(body, "/building") {
            Ok(b) => b,
            Err(_) => return Err(JenkinsError::Malformed),
        };
        let result = match text_at(body, "/result") {
            Ok(w) => w,
            Err(_) => return Err(JenkinsError::Malformed),
        };
        Ok(BuildStatus::from_report(building, result))
    }

    /// Get the build timeout in seconds
    pub fn build_timeout(&self) -> (r: u64)
        requires
            self.settings().build_timeout_minutes * 60 <= u64::MAX,
        ensures
            r == self.settings().build_timeout_minutes * 60,
    {
        self.config.build_timeout_minutes * 60
    }
}

} // verus!
