use crate::text::{copy_text, decimal, decimal_string, join2, text_of};
use vstd::prelude::*;

verus! {

/// How a bulk download runs.
#[derive(Debug, Clone, Copy, PartialEq, Eq, Structural)]
pub struct ParallelConfig {
    /// Maximum concurrent downloads
    pub max_concurrent: usize,
    /// Timeout per request in seconds
    pub timeout_secs: u64,
    /// Maximum retries per URL
    pub max_retries: usize,
}

impl Default for ParallelConfig {
    /// A hundred downloads at a time, thirty seconds for each, three retries.
    fn default() -> (config: ParallelConfig)
        ensures
            config == (ParallelConfig { max_concurrent: 100, timeout_secs: 30, max_retries: 3 }),
    {
        ParallelConfig { max_concurrent: 100, timeout_secs: 30, max_retries: 3 }
    }
}

/// How the download of one URL ended.
#[derive(Debug)]
pub struct DownloadResult {
    pub url: String,
    pub success: bool,
    pub content: Option<String>,
    pub status_code: Option<u16>,
    pub error: Option<String>,
    pub duration_ms: u64,
}

/// The mathematical content of a `DownloadResult`.
pub struct DownloadView {
    pub url: Seq<char>,
    pub success: bool,
    pub content: Option<Seq<char>>,
    pub status_code: Option<u16>,
    pub error: Option<Seq<char>>,
    pub duration_ms: u64,
}

impl View for DownloadResult {
    type V = DownloadView;

    open spec fn view(&self) -> DownloadView {
        DownloadView {
            url: self.url@,
            success: self.success,
            content: text_of(self.content),
            status_code: self.status_code,
            error: text_of(self.error),
            duration_ms: self.duration_ms,
        }
    }
}

impl DownloadResult {
    /// A copy of this result.
    pub fn duplicate(&self) -> (copy: DownloadResult)
        ensures
            copy@ == self@,
    {
        DownloadResult {
            url: self.url.clone(),
            success: self.success,
            content: copy_text(&self.content),
            status_code: self.status_code,
            error: copy_text(&self.error),
            duration_ms: self.duration_ms,
        }
    }
}

/// What one try at a URL brought back.
#[derive(Debug)]
pub enum Attempt {
    /// The server answered with `status`; `body` is what could be read of a
    /// successful answer, nothing where reading failed.
    Response { status: u16, body: Option<String> },
    /// The request could not be sent or was not answered.
    Failed { error: String },
}

/// The mathematical content of an `Attempt`.
pub enum AttemptView {
    Response { status: u16, body: Option<Seq<char>> },
    Failed { error: Seq<char> },
}

impl View for Attempt {
    type V = AttemptView;

    open spec fn view(&self) -> AttemptView {
        match self {
            Attempt::Response { status, body } => AttemptView::Response {
                status: *status,
                body: text_of(*body),
            },
            Attempt::Failed { error } => AttemptView::Failed { error: error@ },
        }
    }
}

/// Whether a status code stands for success.
pub open spec fn is_success(status: u16) -> bool {
    200 <= status < 300
}

/// The result that a failure with the message `error` gives.
pub open spec fn failure(url: Seq<char>, error: Seq<char>, duration_ms: u64) -> DownloadView {
    DownloadView {
        url: url,
        success: false,
        content: None,
        status_code: None,
        error: Some(error),
        duration_ms: duration_ms,
    }
}

/// What one try amounts to: a successful answer whose body was read is a
/// success; any other answer is a failure that carries the status; an
/// answer whose body could not be read, and a request that failed, are
/// errors.
pub open spec fn settled(url: Seq<char>, attempt: AttemptView, duration_ms: u64) -> Result<
    DownloadView,
    Seq<char>,
> {
    match attempt {
        AttemptView::Response { status, body } => if is_success(status) {
            match body {
                Some(text) => Ok(
                    DownloadView {
                        url: url,
                        success: true,
                        content: Some(text),
                        status_code: Some(status),
                        error: None,
                        duration_ms: duration_ms,
                    },
                ),
                None => Err("Failed to read response body"@),
            }
        } else {
            Ok(
                DownloadView {
                    url: url,
                    success: false,
                    content: None,
                    status_code: Some(status),
                    error: Some("HTTP "@ + decimal(status as nat)),
                    duration_ms: duration_ms,
                },
            )
        },
        AttemptView::Failed { error } => Err(error),
    }
}

/// The mathematical content of what `download_once` gives.
pub open spec fn settled_view(r: Result<DownloadResult, String>) -> Result<DownloadView, Seq<char>> {
    match r {
        Ok(result) => Ok(result@),
        Err(error) => Err(error@),
    }
}

/// Turns what one try at `url` brought back, after `duration_ms`
/// milliseconds, into a result or an error.
pub fn download_once(url: &str, attempt: Attempt, duration_ms: u64) -> (r: Result<
    DownloadResult,
    String,
>)
    ensures
        settled_view(r) == settled(url@, attempt@, duration_ms),
{
    match attempt {
        Attempt::Response { status, body } => {
            if 200 <= status && status < 300 {
                match body {
                    Some(text) => Ok(
                        DownloadResult {
                            url: String::from_str(url),
                            success: true,
                            content: Some(text),
                            status_code: Some(status),
                            error: None,
                            duration_ms,
                        },
                    ),
                    None => Err(String::from_str("Failed to read response body")),
                }
            } else {
                Ok(
                    DownloadResult {
                        url: String::from_str(url),
                        success: false,
                        content: None,
                        status_code: Some(status),
                        error: Some(join2("HTTP ", decimal_string(status as u64).as_str())),
                        duration_ms,
                    },
                )
            }
        },
        Attempt::Failed { error } => Err(error),
    }
}

/// What follows one try: the download ends with a result, or it is tried
/// again after a pause.
#[derive(Debug)]
pub enum RetryStep {
    Finish { result: DownloadResult },
    Retry { attempt: usize, delay_ms: u64 },
}

/// The mathematical content of a `RetryStep`.
pub enum RetryView {
    Finish { result: DownloadView },
    Retry { attempt: usize, delay_ms: u64 },
}

impl View for RetryStep {
    type V = RetryView;

    open spec fn view(&self) -> RetryView {
        match self {
            RetryStep::Finish { result } => RetryView::Finish { result: result@ },
            RetryStep::Retry { attempt, delay_ms } => RetryView::Retry {
                attempt: *attempt,
                delay_ms: *delay_ms,
            },
        }
    }
}

/// The pause before try number `attempt`, in milliseconds: a hundred for
/// each try made so far, and no more than a `u64` holds.
pub open spec fn pause_before(attempt: int) -> u64 {
    if 100 * attempt <= u64::MAX {
        (100 * attempt) as u64
    } else {
        u64::MAX
    }
}

/// What follows try number `attempt`, counted from zero, of at most
/// `max_retries` retries: a success ends the download; so does the last
/// try, with its result or with its error as a failure; any other try is
/// followed by the next one, after a pause.
pub open spec fn retry_decision(
    url: Seq<char>,
    attempt: usize,
    max_retries: usize,
    outcome: Result<DownloadView, Seq<char>>,
    elapsed_ms: u64,
) -> RetryView {
    match outcome {
        Ok(result) => if result.success || attempt >= max_retries {
            RetryView::Finish { result: result }
        } else {
            RetryView::Retry {
                attempt: (attempt + 1) as usize,
                delay_ms: pause_before(attempt + 1),
            }
        },
        Err(error) => if attempt >= max_retries {
            RetryView::Finish { result: failure(url, error, elapsed_ms) }
        } else {
            RetryView::Retry {
                attempt: (attempt + 1) as usize,
                delay_ms: pause_before(attempt + 1),
            }
        },
    }
}

fn pause(attempt: usize) -> (delay_ms: u64)
    ensures
        delay_ms == pause_before(attempt as int),
{
    if attempt as u64 <= u64::MAX / 100 {
        100 * (attempt as u64)
    } else {
        u64::MAX
    }
}

/// Decides what follows try number `attempt` of the download of `url`,
/// `elapsed_ms` milliseconds after the first try began.
pub fn download_with_retry(
    url: &str,
    attempt: usize,
    max_retries: usize,
    outcome: Result<DownloadResult, String>,
    elapsed_ms: u64,
) -> (step: RetryStep)
    ensures
        step@ == retry_decision(url@, attempt, max_retries, settled_view(outcome), elapsed_ms),
{
    match outcome {
        Ok(result) => {
            if result.success || attempt >= max_retries {
                RetryStep::Finish { result }
            } else {
                RetryStep::Retry { attempt: attempt + 1, delay_ms: pause(attempt + 1) }
            }
        },
        Err(error) => {
            if attempt >= max_retries {
                RetryStep::Finish {
                    result: DownloadResult {
                        url: String::from_str(url),
                        success: false,
                        content: None,
                        status_code: None,
                        error: Some(error),
                        duration_ms: elapsed_ms,
                    },
                }
            } else {
                RetryStep::Retry { attempt: attempt + 1, delay_ms: pause(attempt + 1) }
            }
        },
    }
}

/// How many of a sequence of results are successes.
pub open spec fn successes(results: Seq<DownloadResult>) -> nat
    decreases results.len(),
{
    if results.len() == 0 {
        0
    } else if results.last().success {
        successes(results.drop_last()) + 1
    } else {
        successes(results.drop_last())
    }
}

/// Counts the successes among `results`.
pub fn count_successes(results: &Vec<DownloadResult>) -> (count: usize)
    ensures
        count == successes(results@),
{
    let mut count: usize = 0;
    let mut i: usize = 0;
    while i < results.len()
        invariant
            i <= results.len(),
            count <= i,
            count == successes(results@.take(i as int)),
        decreases results.len() - i,
    {
        assert(results@.take(i + 1).drop_last() =~= results@.take(i as int));
        if results[i].success {
            count += 1;
        }
        i += 1;
    }
    assert(results@.take(i as int) =~= results@);
    count
}

} // verus!
