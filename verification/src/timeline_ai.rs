//! Commit summaries from text-generation providers, tried in a fixed order.
//!
//! The providers are asked one after the other, the local one first. The
//! first that answers with a summary decides; a provider that cannot be
//! reached, answers without success or answers without the expected field
//! is passed over. The library decides what to ask and what an answer
//! means; the caller carries the requests to the providers.

use crate::error::ErrorKind;
use crate::json::{json_string_at, json_string_literal, quote, string_at};
use vstd::prelude::*;
use vstd::string::StringExecFns;

verus! {

/// A text-generation provider.
#[derive(Clone, Copy, Debug, PartialEq, Eq, Structural)]
pub enum Provider {
    /// The inference endpoint on this machine.
    Local,
    /// The cloud endpoint, which asks for a credential.
    Cloud,
}

/// What to send to a provider: an HTTP POST of the JSON text `body` to
/// `url`, with `bearer` as bearer token where there is one.
#[derive(Debug, PartialEq, Eq)]
pub struct ProviderRequest {
    pub url: String,
    pub bearer: Option<String>,
    pub body: String,
}

/// The mathematical content of a `ProviderRequest`.
pub struct ProviderRequestView {
    pub url: Seq<char>,
    pub bearer: Option<Seq<char>>,
    pub body: Seq<char>,
}

impl View for ProviderRequest {
    type V = ProviderRequestView;

    open spec fn view(&self) -> ProviderRequestView {
        ProviderRequestView { url: self.url@, bearer: self.bearer.deep_view(), body: self.body@ }
    }
}

/// What came back from a provider.
#[derive(Debug, PartialEq, Eq)]
pub enum ProviderReply {
    /// The provider could not be reached, or its answer could not be read.
    Failed,
    /// The provider answered: whether with a status of success, and the
    /// text of the answer.
    Answered { success: bool, body: String },
}

/// The mathematical content of a `ProviderReply`.
pub enum ProviderReplyView {
    Failed,
    Answered { success: bool, body: Seq<char> },
}

impl View for ProviderReply {
    type V = ProviderReplyView;

    open spec fn view(&self) -> ProviderReplyView {
        match self {
            ProviderReply::Failed => ProviderReplyView::Failed,
            ProviderReply::Answered { success, body } => ProviderReplyView::Answered {
                success: *success,
                body: body@,
            },
        }
    }
}

impl DeepView for ProviderReply {
    type V = ProviderReplyView;

    open spec fn deep_view(&self) -> ProviderReplyView {
        self.view()
    }
}

/// The providers, in the order in which they are tried.
pub open spec fn provider_at(position: int) -> Option<Provider> {
    if position == 0 {
        Some(Provider::Local)
    } else if position == 1 {
        Some(Provider::Cloud)
    } else {
        None
    }
}

/// The number of providers.
pub open spec fn provider_count() -> int {
    2
}

/// The question put to the providers.
pub open spec fn prompt_text(project_summary: Seq<char>, commit_diff: Seq<char>) -> Seq<char> {
    "Project summary: "@ + project_summary + "\nCommit diff: "@ + commit_diff
        + "\nWrite a concise, human-readable summary of what was accomplished in this commit for a project timeline."@
}

/// The request that carries `prompt` to `provider`.
pub open spec fn request_for(
    provider: Provider,
    prompt: Seq<char>,
    credential: Seq<char>,
) -> ProviderRequestView {
    match provider {
        Provider::Local => ProviderRequestView {
            url: "http://localhost:11434/api/generate"@,
            bearer: None,
            body: "{\"model\":\"llama3.1\",\"prompt\":"@ + json_string_literal(prompt) + "}"@,
        },
        Provider::Cloud => ProviderRequestView {
            url: "https://api.openai.com/v1/chat/completions"@,
            bearer: Some(credential),
            body: "{\"messages\":[{\"content\":"@ + json_string_literal(prompt)
                + ",\"role\":\"user\"}],\"model\":\"gpt-4.1-nano\"}"@,
        },
    }
}

/// Where the answer of `provider` holds the summary, as a JSON Pointer.
pub open spec fn summary_pointer(provider: Provider) -> Seq<char> {
    match provider {
        Provider::Local => "/response"@,
        Provider::Cloud => "/choices/0/message/content"@,
    }
}

/// The summary that `reply` of `provider` gives: the string in the expected
/// field of an answer with a status of success.
pub open spec fn summary_in(provider: Provider, reply: ProviderReplyView) -> Option<Seq<char>> {
    match reply {
        ProviderReplyView::Failed => None,
        ProviderReplyView::Answered { success, body } => if success {
            json_string_at(body, summary_pointer(provider))
        } else {
            None
        },
    }
}

/// The outcome of asking the providers from position `from` on, where
/// `replies[i]` is what the provider at position `i` gives when asked, and a
/// provider without a reply fails: the summary of the first provider that
/// gives one, and `ProviderUnavailable` where none does.
pub open spec fn outcome_from(replies: Seq<ProviderReplyView>, from: int) -> Result<
    Seq<char>,
    ErrorKind,
>
    decreases provider_count() - from,
{
    if from < 0 || from >= provider_count() {
        Err(ErrorKind::ProviderUnavailable)
    } else {
        match summary_in(provider_at(from)->0, reply_at(replies, from)) {
            Some(summary) => Ok(summary),
            None => outcome_from(replies, from + 1),
        }
    }
}

/// The reply of the provider at position `position`, where a provider
/// without a reply fails.
pub open spec fn reply_at(replies: Seq<ProviderReplyView>, position: int) -> ProviderReplyView {
    if 0 <= position < replies.len() {
        replies[position]
    } else {
        ProviderReplyView::Failed
    }
}

/// The first success wins, and nothing is combined: a summary that comes
/// out is the summary of one provider, and every provider before that one
/// gave none; no summary comes out only where every provider gave none.
pub proof fn lemma_first_success_wins(replies: Seq<ProviderReplyView>)
    ensures
        match outcome_from(replies, 0) {
            Ok(summary) => exists|at: int|
                0 <= at < provider_count() && summary_in(
                    provider_at(at)->0,
                    #[trigger] reply_at(replies, at),
                ) == Some(summary) && forall|before: int|
                    0 <= before < at ==> summary_in(
                        provider_at(before)->0,
                        #[trigger] reply_at(replies, before),
                    ) is None,
            Err(e) => e == ErrorKind::ProviderUnavailable && forall|at: int|
                0 <= at < provider_count() ==> summary_in(
                    provider_at(at)->0,
                    #[trigger] reply_at(replies, at),
                ) is None,
        },
{
    let first = summary_in(Provider::Local, reply_at(replies, 0));
    let second = summary_in(Provider::Cloud, reply_at(replies, 1));
    assert(outcome_from(replies, 2) == Err::<Seq<char>, ErrorKind>(ErrorKind::ProviderUnavailable));
    assert(outcome_from(replies, 1) == match second {
        Some(s) => Ok::<Seq<char>, ErrorKind>(s),
        None => Err(ErrorKind::ProviderUnavailable),
    });
    if first is Some {
        assert(summary_in(provider_at(0)->0, reply_at(replies, 0)) == first);
    } else if second is Some {
        assert(summary_in(provider_at(1)->0, reply_at(replies, 1)) == second);
    }
}

/// A run of the summarizer: the question, the credential for the cloud
/// provider, and how far down the list of providers the run has come.
#[derive(Debug, PartialEq, Eq)]
pub struct CommitSummarizer {
    prompt: String,
    credential: String,
    tried: usize,
    finished: bool,
}

/// The mathematical content of a `CommitSummarizer`.
pub struct CommitSummarizerView {
    pub prompt: Seq<char>,
    pub credential: Seq<char>,
    /// The number of providers that have answered without a summary.
    pub tried: int,
    /// The run has given its result.
    pub finished: bool,
}

impl View for CommitSummarizer {
    type V = CommitSummarizerView;

    closed spec fn view(&self) -> CommitSummarizerView {
        CommitSummarizerView {
            prompt: self.prompt@,
            credential: self.credential@,
            tried: self.tried as int,
            finished: self.finished,
        }
    }
}

/// The request that a run in the state `run` waits to have answered; `None`
/// where the run is over.
pub open spec fn pending_request(run: CommitSummarizerView) -> Option<ProviderRequestView> {
    if run.finished {
        None
    } else {
        match provider_at(run.tried) {
            Some(provider) => Some(request_for(provider, run.prompt, run.credential)),
            None => None,
        }
    }
}

fn provider_in_turn(position: usize) -> (r: Option<Provider>)
    ensures
        r == provider_at(position as int),
{
    if position == 0 {
        Some(Provider::Local)
    } else if position == 1 {
        Some(Provider::Cloud)
    } else {
        None
    }
}

/// Reads the summary out of the reply of a provider.
pub fn read_summary(provider: Provider, reply: &ProviderReply) -> (summary: Option<String>)
    ensures
        summary.deep_view() == summary_in(provider, reply@),
{
    match reply {
        ProviderReply::Failed => None,
        ProviderReply::Answered { success, body } => {
            if *success {
                match provider {
                    Provider::Local => string_at(body.as_str(), "/response"),
                    Provider::Cloud => string_at(body.as_str(), "/choices/0/message/content"),
                }
            } else {
                None
            }
        },
    }
}

/// Builds the request that carries `prompt` to `provider`.
pub fn build_request(provider: Provider, prompt: &str, credential: &str) -> (request:
    ProviderRequest)
    ensures
        request@ == request_for(provider, prompt@, credential@),
{
    let quoted = quote(prompt);
    match provider {
        Provider::Local => {
            let mut body = String::from_str("{\"model\":\"llama3.1\",\"prompt\":");
            body.append(quoted.as_str());
            body.append("}");
            ProviderRequest {
                url: "http://localhost:11434/api/generate".to_owned(),
                bearer: None,
                body,
            }
        },
        Provider::Cloud => {
            let mut body = String::from_str("{\"messages\":[{\"content\":");
            body.append(quoted.as_str());
            body.append(",\"role\":\"user\"}],\"model\":\"gpt-4.1-nano\"}");
            ProviderRequest {
                url: "https://api.openai.com/v1/chat/completions".to_owned(),
                bearer: Some(credential.to_owned()),
                body,
            }
        },
    }
}

impl CommitSummarizer {
    /// A run that has asked no provider yet.
    pub fn new(project_summary: &str, commit_diff: &str, openai_key: &str) -> (run:
        CommitSummarizer)
        ensures
            run@ == (CommitSummarizerView {
                prompt: prompt_text(project_summary@, commit_diff@),
                credential: openai_key@,
                tried: 0,
                finished: false,
            }),
    {
        let mut prompt = String::from_str("Project summary: ");
        prompt.append(project_summary);
        prompt.append("\nCommit diff: ");
        prompt.append(commit_diff);
        prompt.append(
            "\nWrite a concise, human-readable summary of what was accomplished in this commit for a project timeline.",
        );
        CommitSummarizer { prompt, credential: openai_key.to_owned(), tried: 0, finished: false }
    }

    /// The request to make next; `None` where the run is over.
    pub fn pending(&self) -> (request: Option<ProviderRequest>)
        ensures
            match request {
                Some(r) => pending_request(self@) == Some(r@),
                None => pending_request(self@) is None,
            },
    {
        if self.finished {
            return None;
        }
        match provider_in_turn(self.tried) {
            Some(provider) => Some(
                build_request(provider, self.prompt.as_str(), self.credential.as_str()),
            ),
            None => None,
        }
    }

    /// Takes the reply to the pending request. A summary ends the run with
    /// that summary. A reply without one passes to the next provider, and
    /// ends the run with `ProviderUnavailable` where there is none. A run
    /// that is over stays over and gives `ProviderUnavailable`.
    pub fn accept(&mut self, reply: &ProviderReply) -> (done: Option<Result<String, ErrorKind>>)
        ensures
            final(self)@.prompt == old(self)@.prompt,
            final(self)@.credential == old(self)@.credential,
            match pending_request(old(self)@) {
                None => {
                    &&& done matches Some(Err(e)) && e == ErrorKind::ProviderUnavailable
                    &&& final(self)@.finished
                    &&& final(self)@.tried == old(self)@.tried
                },
                Some(_) => match summary_in(provider_at(old(self)@.tried)->0, reply@) {
                    Some(summary) => {
                        &&& done matches Some(Ok(text)) && text@ == summary
                        &&& final(self)@.finished
                        &&& final(self)@.tried == old(self)@.tried
                    },
                    None => {
                        &&& final(self)@.tried == old(self)@.tried + 1
                        &&& if old(self)@.tried + 1 < provider_count() {
                            done is None && !final(self)@.finished
                        } else {
                            (done matches Some(Err(e)) && e == ErrorKind::ProviderUnavailable)
                                && final(self)@.finished
                        }
                    },
                },
            },
    {
        if self.finished {
            return Some(Err(ErrorKind::ProviderUnavailable));
        }
        let provider = match provider_in_turn(self.tried) {
            Some(p) => p,
            None => {
                self.finished = true;
                return Some(Err(ErrorKind::ProviderUnavailable));
            },
        };
        match read_summary(provider, reply) {
            Some(text) => {
                self.finished = true;
                Some(Ok(text))
            },
            None => {
                self.tried = self.tried + 1;
                if self.tried < 2 {
                    None
                } else {
                    self.finished = true;
                    Some(Err(ErrorKind::ProviderUnavailable))
                }
            },
        }
    }
}

/// The summary of a commit, given what each provider answers when asked:
/// `replies[i]` is the reply of the provider at position `i`, and a provider
/// without a reply fails. The providers are tried in order and the first
/// summary wins; where no provider gives one the result is
/// `ProviderUnavailable`.
pub fn generate_commit_summary(
    project_summary: &str,
    commit_diff: &str,
    openai_key: &str,
    replies: &Vec<ProviderReply>,
) -> (r: Result<String, ErrorKind>)
    ensures
        match outcome_from(replies.deep_view(), 0) {
            Ok(summary) => r matches Ok(text) && text@ == summary,
            Err(e) => r matches Err(f) && f == e,
        },
{
    let mut run = CommitSummarizer::new(project_summary, commit_diff, openai_key);
    let mut position: usize = 0;
    while position < 2
        invariant
            position <= 2,
            run@.tried == position,
            !run@.finished,
            outcome_from(replies.deep_view(), 0) == outcome_from(
                replies.deep_view(),
                position as int,
            ),
        decreases 2 - position,
    {
        let failed = ProviderReply::Failed;
        let reply = if position < replies.len() {
            &replies[position]
        } else {
            &failed
        };
        proof {
            let all = replies.deep_view();
            let given = if position < all.len() {
                all[position as int]
            } else {
                ProviderReplyView::Failed
            };
            assert(reply@ == given);
            if position + 1 >= 2 {
                assert(outcome_from(all, position as int + 1) == Err::<Seq<char>, ErrorKind>(
                    ErrorKind::ProviderUnavailable,
                ));
            }
        }
        match run.accept(reply) {
            Some(result) => {
                return result;
            },
            None => {},
        }
        position = position + 1;
    }
    Err(ErrorKind::ProviderUnavailable)
}

} // verus!
