//! The command abstraction's shared value types: the typed result of an
//! executed command, and the observer contract for command lifecycles.

use vstd::prelude::*;

use crate::errors::FirecrawlError;

verus! {

/// Mathematical value of a `CommandResult`: all strings as character
/// sequences.
pub enum CommandResultView {
    Scrape { url: Seq<char>, file_path: Seq<char> },
    Crawl { url: Seq<char>, file_paths: Seq<Seq<char>> },
}

/// Result of executing a command: what was fetched and where it was saved.
#[derive(Debug)]
pub enum CommandResult {
    Scrape { url: String, file_path: String },
    Crawl { url: String, file_paths: Vec<String> },
}

impl View for CommandResult {
    type V = CommandResultView;

    open spec fn view(&self) -> CommandResultView {
        match self {
            CommandResult::Scrape { url, file_path } => CommandResultView::Scrape {
                url: url@,
                file_path: file_path@,
            },
            CommandResult::Crawl { url, file_paths } => CommandResultView::Crawl {
                url: url@,
                file_paths: file_paths.deep_view(),
            },
        }
    }
}

/// Copies a vector of strings, keeping every character sequence.
pub fn clone_string_vec(v: &Vec<String>) -> (r: Vec<String>)
    ensures
        r@ =~= v@,
        r.deep_view() =~= v.deep_view(),
{
    let mut out: Vec<String> = Vec::new();
    let mut i: usize = 0;
    while i < v.len()
        invariant
            i <= v@.len(),
            out@ =~= v@.subrange(0, i as int),
        decreases v@.len() - i,
    {
        out.push(v[i].clone());
        proof {
            assert(out@ =~= v@.subrange(0, i + 1 as int));
        }
        i = i + 1;
    }
    proof {
        assert(v@.subrange(0, v@.len() as int) =~= v@);
        assert(out.deep_view() =~= v.deep_view());
    }
    out
}

impl Clone for CommandResult {
    fn clone(&self) -> (r: Self)
        ensures
            r@ == self@,
    {
        match self {
            CommandResult::Scrape { url, file_path } => CommandResult::Scrape {
                url: url.clone(),
                file_path: file_path.clone(),
            },
            CommandResult::Crawl { url, file_paths } => CommandResult::Crawl {
                url: url.clone(),
                file_paths: clone_string_vec(file_paths),
            },
        }
    }
}

/// Observer contract for command lifecycle events.
pub trait CommandObserver {
    /// Called when a command starts executing.
    fn on_command_started(&self, url: &str);

    /// Called when a command reports progress, as a percentage.
    fn on_command_progress(&self, url: &str, percent: u32);

    /// Called when a command completes.
    fn on_command_completed(&self, url: &str, result: &CommandResult);

    /// Called when a command fails.
    fn on_command_failed(&self, url: &str, error: &FirecrawlError);
}

/// Observer that ignores every event.
pub struct NoOpObserver;

impl CommandObserver for NoOpObserver {
    fn on_command_started(&self, url: &str) {
    }

    fn on_command_progress(&self, url: &str, percent: u32) {
    }

    fn on_command_completed(&self, url: &str, result: &CommandResult) {
    }

    fn on_command_failed(&self, url: &str, error: &FirecrawlError) {
    }
}

} // verus!
