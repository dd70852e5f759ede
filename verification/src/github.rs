//! Commits of pull requests on GitHub.
use crate::config::GitHubConfig;
use crate::http::{
    is_success, pairs_view, push_pair, succeeded, HttpReply, HttpRequest, HttpRequestView, Method,
    Pairs,
};
use crate::text::{decimal, push_decimal};
use vstd::prelude::*;

verus! {

/// The characters of a commit hash that its short form keeps.
pub const SHORT_HASH_LEN: usize = 7;

/// The short form of a commit hash.
pub open spec fn short_hash(full: Seq<char>) -> Seq<char> {
    if full.len() > SHORT_HASH_LEN {
        full.take(SHORT_HASH_LEN as int)
    } else {
        full
    }
}

/// GitHub API client for fetching PR information.
pub struct GitHubClient {
    config: GitHubConfig,
}

/// The headers of a request to GitHub.
pub open spec fn github_headers(token: Option<Seq<char>>) -> Pairs {
    let common = seq![
        ("User-Agent"@, "steel-proxy"@),
        ("Accept"@, "application/vnd.github+json"@),
    ];
    match token {
        Some(t) => common.push(("Authorization"@, "Bearer "@ + t)),
        None => common,
    }
}

impl GitHubClient {
    /// The settings in force.
    pub closed spec fn settings(&self) -> GitHubConfig {
        self.config
    }

    /// A client with these settings.
    pub fn new(config: GitHubConfig) -> (r: Self)
        ensures
            r.settings() == config,
    {
        GitHubClient { config }
    }

    /// The request for a pull request.
    pub fn get_pr_head_commit(&self, pr_number: u32) -> (r: HttpRequest)
        ensures
            r@ == (HttpRequestView {
                method: Method::Get,
                url: "https://api.github.com/repos/"@ + self.settings().owner@ + "/"@
                    + self.settings().repo@ + "/pulls/"@ + decimal(pr_number as nat),
                headers: github_headers(crate::config::optional_text(self.settings().token)),
                basic_auth: None,
                form: Pairs::empty(),
            }),
    {
        let mut url = "https://api.github.com/repos/".to_owned();
        url.append(self.config.owner.as_str());
        url.append("/");
        url.append(self.config.repo.as_str());
        url.append("/pulls/");
        push_decimal(&mut url, pr_number as u64);
        let mut headers: Vec<(String, String)> = Vec::new();
        push_pair(&mut headers, "User-Agent", "steel-proxy");
        push_pair(&mut headers, "Accept", "application/vnd.github+json");
        match &self.config.token {
            Some(t) => {
                let mut value = "Bearer ".to_owned();
                value.append(t.as_str());
                push_pair(&mut headers, "Authorization", value.as_str());
            },
            None => {},
        }
        let form: Vec<(String, String)> = Vec::new();
        proof {
            assert(pairs_view(headers@) =~= github_headers(
                crate::config::optional_text(self.config.token),
            ));
            assert(pairs_view(form@) =~= Pairs::empty());
        }
        HttpRequest { method: Method::Get, url, headers, basic_auth: None, form }
    }

    /// Whether GitHub answered the request, or its refusal in words.
    pub fn accepted(reply: &HttpReply) -> (r: Result<(), String>)
        ensures
            match r {
                Ok(()) => succeeded(reply.status),
                Err(text) => !succeeded(reply.status) && text@ == "GitHub API error "@
                    + reply.status_text@ + ": "@ + reply.body@,
            },
    {
        if is_success(reply.status) {
            return Ok(());
        }
        let mut text = "GitHub API error ".to_owned();
        text.append(reply.status_text.as_str());
        text.append(": ");
        text.append(reply.body.as_str());
        Err(text)
    }

    /// The hash of a head commit, in full and short.
    pub fn head_commit(full_sha: String) -> (r: (String, String))
        ensures
            r.0 == full_sha,
            r.1@ == short_hash(full_sha@),
    {
        let n: usize = full_sha.as_str().unicode_len();
        let k: usize = if n < SHORT_HASH_LEN { n } else { SHORT_HASH_LEN };
        let short = full_sha.as_str().substring_char(0, k).to_owned();
        assert(short@ =~= short_hash(full_sha@));
        (full_sha, short)
    }
}

} // verus!
