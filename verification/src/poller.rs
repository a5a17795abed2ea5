//! The polling state machine that turns a crawl job handle into a terminal
//! outcome. Classification of a raw status report is pinned down exactly;
//! the polling loop drives it against any service implementation, reporting
//! progress once per poll cycle.

use vstd::prelude::*;

use crate::api_service::{ApiService, CrawlProgress};
use crate::crawl_model::{CrawlState, CrawlStatusResponse};
use crate::errors::{ApiError, FirecrawlError, FirecrawlResult};
use crate::scrape_model::ScrapeData;
use crate::text::str_eq;

verus! {

/// Observer of crawl progress events.
pub trait CrawlProgressObserver {
    /// Called once per poll cycle that has not reached a terminal state.
    fn on_crawl_progress(&mut self, progress: &CrawlProgress);
}

/// Observer that records every progress event it receives, in order.
pub struct CrawlProgressLog {
    pub events: Vec<CrawlProgress>,
}

impl CrawlProgressLog {
    /// An empty log.
    pub fn new() -> (r: Self)
        ensures
            r.events@.len() == 0,
    {
        CrawlProgressLog { events: Vec::new() }
    }
}

impl CrawlProgressObserver for CrawlProgressLog {
    fn on_crawl_progress(&mut self, progress: &CrawlProgress) {
        self.events.push(progress.clone());
    }
}

/// Observer that ignores progress events.
pub struct SilentCrawlObserver;

impl CrawlProgressObserver for SilentCrawlObserver {
    fn on_crawl_progress(&mut self, progress: &CrawlProgress) {
    }
}

/// Drives crawl jobs to completion by repeated status polling.
pub struct JobPoller;

impl JobPoller {
    /// Maps a raw status report to a job state: `"completed"` is terminal
    /// success with the carried pages (or none), `"failed"` is terminal
    /// failure with the carried reason (or a stock one), and every other
    /// status string means the job is still in progress.
    pub fn classify_status(job_id: &str, response: CrawlStatusResponse) -> (r: CrawlState)
        ensures
            response.status@ == "completed"@ ==> {
                &&& r matches CrawlState::Completed { job_id: j, data }
                &&& j@ == job_id@
                &&& (response.data matches Some(d) ==> data == d)
                &&& (response.data is None ==> data@.len() == 0)
            },
            response.status@ != "completed"@ && response.status@ == "failed"@ ==> {
                &&& r matches CrawlState::Failed { job_id: j, error }
                &&& j@ == job_id@
                &&& (response.error matches Some(e) ==> error == e)
                &&& (response.error is None ==> error@ == "Unknown error"@)
            },
            response.status@ != "completed"@ && response.status@ != "failed"@ ==> {
                &&& r matches CrawlState::InProgress { job_id: j, status, completed, total }
                &&& j@ == job_id@
                &&& status == response.status
                &&& completed == (match response.completed {
                    Some(c) => c,
                    None => 0u32,
                })
                &&& total == (match response.total {
                    Some(t) => t,
                    None => 0u32,
                })
            },
    {
        if str_eq(response.status.as_str(), "completed") {
            CrawlState::Completed {
                job_id: String::from_str(job_id),
                data: match response.data {
                    Some(d) => d,
                    None => Vec::new(),
                },
            }
        } else if str_eq(response.status.as_str(), "failed") {
            CrawlState::Failed {
                job_id: String::from_str(job_id),
                error: match response.error {
                    Some(e) => e,
                    None => String::from_str("Unknown error"),
                },
            }
        } else {
            CrawlState::InProgress {
                job_id: String::from_str(job_id),
                completed: match response.completed {
                    Some(c) => c,
                    None => 0,
                },
                total: match response.total {
                    Some(t) => t,
                    None => 0,
                },
                status: response.status,
            }
        }
    }

    /// The outcome a terminal job state yields: the carried pages on
    /// completion, and on failure an error carrying the server's reason
    /// behind a fixed prefix, which keeps a reported job failure apart from
    /// a failure of the polling itself.
    pub fn terminal_outcome(state: CrawlState) -> (r: FirecrawlResult<Vec<ScrapeData>>)
        requires
            state matches CrawlState::Completed { .. } || state matches CrawlState::Failed {
                ..
            },
        ensures
            state matches CrawlState::Completed { data, .. } ==> (r matches Ok(d) && d == data),
            state matches CrawlState::Failed { error, .. } ==> (r matches Err(
                FirecrawlError::ApiError(e),
            ) && e matches ApiError::Other(m) && m@ == "Crawl failed: "@ + error@),
    {
        match state {
            CrawlState::Completed { data, .. } => Ok(data),
            CrawlState::Failed { error, .. } => Err(
                FirecrawlError::ApiError(
                    ApiError::Other(String::from_str("Crawl failed: ").concat(error.as_str())),
                ),
            ),
            CrawlState::Started { .. } => {
                proof {
                    assert(false);
                }
                Err(FirecrawlError::ApiError(ApiError::Other(String::new())))
            },
            CrawlState::InProgress { .. } => {
                proof {
                    assert(false);
                }
                Err(FirecrawlError::ApiError(ApiError::Other(String::new())))
            },
        }
    }

    /// The error a failure of the polling itself surfaces as: a
    /// transport-level request failure carrying the poll error's message
    /// behind a fixed prefix. This keeps a poll failure apart from a job
    /// failure the server reported (which carries the `Crawl failed:`
    /// prefix instead), and it stays retryable.
    pub fn poll_failure_error(e: FirecrawlError) -> (r: FirecrawlError)
        ensures
            r matches FirecrawlError::ApiError(ae) && ae matches ApiError::RequestError(m) && m@
                == "Poll failed: "@ + e.spec_message(),
    {
        let inner = e.message();
        FirecrawlError::ApiError(
            ApiError::RequestError(String::from_str("Poll failed: ").concat(inner.as_str())),
        )
    }

    /// What polling can hand back, whatever the polls returned: a success
    /// carries exactly the pages of some poll whose status was `completed`;
    /// a server-reported job failure is the `Crawl failed:`-prefixed error
    /// built from some poll whose status was `failed`; a failure of the
    /// polling itself is a `Poll failed:`-prefixed request error; the
    /// formal polling bound reports itself; and nothing else comes back.
    pub open spec fn spec_monitor_outcome(r: FirecrawlResult<Vec<ScrapeData>>) -> bool {
        match r {
            Ok(d) => exists|resp: CrawlStatusResponse|
                {
                    &&& (#[trigger] resp.status@) == "completed"@
                    &&& (resp.data matches Some(p) ==> p == d)
                    &&& (resp.data is None ==> d@.len() == 0)
                },
            Err(e) => match e {
                FirecrawlError::ApiError(ae) => match ae {
                    ApiError::Other(m) => exists|resp: CrawlStatusResponse|
                        {
                            &&& (#[trigger] resp.status@) == "failed"@
                            &&& m@ == "Crawl failed: "@ + (match resp.error {
                                Some(x) => x@,
                                None => "Unknown error"@,
                            })
                        },
                    ApiError::RequestError(m) => exists|inner: Seq<char>|
                        m@ == "Poll failed: "@ + inner,
                    _ => false,
                },
                FirecrawlError::TimeoutError(m) => m@ == "polling limit reached"@,
                _ => false,
            },
        }
    }

    /// Polls a job until it reaches a terminal state and hands back that
    /// state's outcome; each step is the contract of `classify_status`, and
    /// each terminal state yields `terminal_outcome`'s value. The result is
    /// always one of the shapes of `spec_monitor_outcome`. On every
    /// non-terminal poll the observer hears one progress event, then the
    /// service's poll interval passes. No practical retry limit is imposed;
    /// the loop's formal bound is beyond any reachable number of polls.
    pub fn monitor_crawl_job<A: ApiService, P: CrawlProgressObserver>(
        api: &mut A,
        job_id: &str,
        observer: &mut P,
    ) -> (r: FirecrawlResult<Vec<ScrapeData>>)
        ensures
            Self::spec_monitor_outcome(r),
    {
        let mut polls: u64 = 0;
        while polls < u64::MAX
            decreases u64::MAX - polls,
        {
            let response = match api.poll_status(job_id) {
                Ok(resp) => resp,
                Err(e) => {
                    let ghost inner = e.spec_message();
                    let wrapped = Self::poll_failure_error(e);
                    proof {
                        match &wrapped {
                            FirecrawlError::ApiError(ae) => match ae {
                                ApiError::RequestError(m) => {
                                    assert(m@ == "Poll failed: "@ + inner);
                                    assert(exists|x: Seq<char>| m@ == "Poll failed: "@ + x);
                                },
                                _ => {
                                    assert(false);
                                },
                            },
                            _ => {
                                assert(false);
                            },
                        }
                    }
                    return Err(wrapped);
                },
            };
            let ghost polled = response;
            match Self::classify_status(job_id, response) {
                CrawlState::Completed { job_id, data } => {
                    let outcome = Self::terminal_outcome(
                        CrawlState::Completed { job_id, data },
                    );
                    proof {
                        assert(polled.status@ == "completed"@);
                        match &outcome {
                            Ok(d) => {
                                assert((polled.data matches Some(p) ==> p == d) && (
                                polled.data is None ==> d@.len() == 0));
                            },
                            Err(_) => {
                                assert(false);
                            },
                        }
                    }
                    return outcome;
                },
                CrawlState::Failed { job_id, error } => {
                    let ghost reason = error@;
                    let outcome = Self::terminal_outcome(CrawlState::Failed { job_id, error });
                    proof {
                        assert(polled.status@ == "failed"@);
                        match &outcome {
                            Err(FirecrawlError::ApiError(ApiError::Other(m))) => {
                                assert(m@ == "Crawl failed: "@ + (match polled.error {
                                    Some(x) => x@,
                                    None => "Unknown error"@,
                                }));
                            },
                            _ => {
                                assert(false);
                            },
                        }
                    }
                    return outcome;
                },
                CrawlState::InProgress { completed, total, .. } => {
                    let progress = CrawlProgress {
                        completed,
                        total,
                        current_url: None,
                        status: String::from_str("in_progress"),
                    };
                    observer.on_crawl_progress(&progress);
                    api.wait_before_repoll();
                },
                CrawlState::Started { .. } => {
                    let progress = CrawlProgress {
                        completed: 0,
                        total: 0,
                        current_url: None,
                        status: String::from_str("started"),
                    };
                    observer.on_crawl_progress(&progress);
                    api.wait_before_repoll();
                },
            }
            polls = polls + 1;
        }
        Err(FirecrawlError::TimeoutError(String::from_str("polling limit reached")))
    }
}

} // verus!
