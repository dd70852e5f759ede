//! What Jenkins and GitHub are asked, and what is made of their answers.
use crate::github::github_headers;
use crate::http::{succeeded, Method};
use crate::jenkins::{
    queue_answer, reported_status, status_answer, BuildStatusView, JenkinsClient, StatusAnswer,
};
use vstd::prelude::*;

verus! {

/// A request succeeded exactly where the hundreds of its status code are two.
pub proof fn success_is_in_the_two_hundreds(status: u16)
    ensures
        succeeded(status) <==> status / 100 == 2,
{
}

/// A build that runs is building, whatever result stands beside it. Of any other, the result
/// decides alone: the word for success is the only one that means it, no word means that it waits,
/// and every other word is a failure whose reason ends with that word.
pub proof fn result_decides_unless_building(
    building: Option<bool>,
    other: Option<bool>,
    result: Option<Seq<char>>,
)
    ensures
        building == Some(true) ==> reported_status(building, result) is Building,
        building != Some(true) ==> !(reported_status(building, result) is Building),
        building != Some(true) && other != Some(true) ==> reported_status(building, result)
            == reported_status(other, result),
        building != Some(true) ==> (reported_status(building, result) is Success <==> result
            == Some("SUCCESS"@)),
        building != Some(true) ==> (reported_status(building, result) is Queued <==> (result is None
            || (result matches Some(word) && word.len() == 0))),
        !(reported_status(building, result) is NotFound),
        reported_status(building, result) matches BuildStatusView::Failed { reason } ==> (
        result matches Some(word) && word.len() > 0 && word.is_suffix_of(reason)),
{
    reveal_strlit("");
    reveal_strlit("SUCCESS");
    reveal_strlit("FAILURE");
    reveal_strlit("ABORTED");
    reveal_strlit("UNSTABLE");
    assert("SUCCESS"@[0] != "FAILURE"@[0]);
    assert("SUCCESS"@[0] != "ABORTED"@[0]);
    assert("SUCCESS"@[0] != "UNSTABLE"@[0]);
    assert(""@.len() == 0 && "SUCCESS"@.len() == 7 && "FAILURE"@.len() == 7);
    assert("ABORTED"@.len() == 7 && "UNSTABLE"@.len() == 8);
    if let Some(word) = result {
        crate::laws::lifecycle::lemma_ends_with("Unknown result: "@, word);
        assert(word.subrange(0, word.len() as int) =~= word);
        if word.len() == 0 {
            assert(word =~= ""@);
        }
    }
}

/// The words that Jenkins has for a build that did not succeed are the reason as they stand, and
/// any other word is called unknown.
pub proof fn known_failures_stand_as_they_are(word: Seq<char>)
    ensures
        word == "FAILURE"@ || word == "ABORTED"@ || word == "UNSTABLE"@ ==> reported_status(
            None,
            Some(word),
        ) == (BuildStatusView::Failed { reason: word }),
        reported_status(None, Some(word)) matches BuildStatusView::Failed { reason } ==> reason
            == word || reason == "Unknown result: "@ + word,
        reported_status(None, Some(word)) matches BuildStatusView::Failed { reason } ==> (reason
            == word ==> word == "FAILURE"@ || word == "ABORTED"@ || word == "UNSTABLE"@),
{
    reveal_strlit("SUCCESS");
    reveal_strlit("FAILURE");
    reveal_strlit("ABORTED");
    reveal_strlit("UNSTABLE");
    reveal_strlit("");
    reveal_strlit("Unknown result: ");
    assert("SUCCESS"@[0] != "FAILURE"@[0]);
    assert("SUCCESS"@[0] != "ABORTED"@[0]);
    assert("SUCCESS"@[0] != "UNSTABLE"@[0]);
    assert(("Unknown result: "@ + word).len() > word.len());
}

/// Where the code says that there is no such build, there is none, whatever else the reply holds;
/// another refusal is told with its code at the end; and where the request succeeded, only the
/// report counts, not the code or its words.
pub proof fn code_decides_whether_the_report_counts(
    status: u16,
    words: Seq<char>,
    building: Option<Option<bool>>,
    result: Option<Option<Seq<char>>>,
    other_status: u16,
    other_words: Seq<char>,
)
    ensures
        status_answer(404, words, building, result) == StatusAnswer::Status(
            BuildStatusView::NotFound,
        ),
        status != 404 && status / 100 != 2 ==> (status_answer(status, words, building, result)
            matches StatusAnswer::Refused(text) && words.is_suffix_of(text) && text
            == "Jenkins returned error: "@ + words),
        status / 100 == 2 && other_status / 100 == 2 ==> status_answer(
            status,
            words,
            building,
            result,
        ) == status_answer(other_status, other_words, building, result),
        status / 100 == 2 ==> match (building, result) {
            (Some(b), Some(w)) => status_answer(status, words, building, result)
                == StatusAnswer::Status(reported_status(b, w)),
            _ => status_answer(status, words, building, result) is Malformed,
        },
{
    crate::laws::lifecycle::lemma_ends_with("Jenkins returned error: "@, words);
}

/// The queue tells the place of a build as its report has it, where the request succeeded; where it
/// did not, the build counts as waiting, whatever the reply holds.
pub proof fn queue_tells_the_place(status: u16, url: Option<Option<Seq<char>>>)
    ensures
        status / 100 == 2 ==> queue_answer(status, url) == url,
        status / 100 != 2 ==> queue_answer(status, url) == Some(None::<Seq<char>>),
{
}

/// A page of Jenkins is read under the address that it has, in the name of the user of the settings;
/// two addresses are two pages.
pub proof fn pages_of_jenkins(client: JenkinsClient, a: Seq<char>, b: Seq<char>)
    ensures
        client.page(a).method == Method::Get,
        a.is_prefix_of(client.page(a).url),
        "api/json"@.is_suffix_of(client.page(a).url),
        client.page(a).url.len() == a.len() + "api/json"@.len(),
        client.page(a).basic_auth == Some(
            (client.settings().username@, client.settings().api_token@),
        ),
        client.page(a).headers.len() == 0,
        client.page(a).form.len() == 0,
        client.page(a) == client.page(b) ==> a == b,
{
    crate::laws::lifecycle::lemma_ends_with(a, "api/json"@);
    assert((a + "api/json"@).subrange(0, a.len() as int) =~= a);
    assert((b + "api/json"@).subrange(0, b.len() as int) =~= b);
}

/// GitHub gets a token exactly where the settings hold one, in a header of its own behind the ones
/// that every request has, and the token stands at the end of it.
pub proof fn tokens_are_sent_where_set(token: Seq<char>)
    ensures
        github_headers(Some(token)).len() == github_headers(None).len() + 1,
        github_headers(None).is_prefix_of(github_headers(Some(token))),
        github_headers(Some(token)).last().0 == "Authorization"@,
        github_headers(Some(token)).last().1 == "Bearer "@ + token,
        github_headers(None) == seq![
            ("User-Agent"@, "steel-proxy"@),
            ("Accept"@, "application/vnd.github+json"@),
        ],
{
    let n = github_headers(None).len() as int;
    assert(github_headers(Some(token)).subrange(0, n) =~= github_headers(None));
}

} // verus!
