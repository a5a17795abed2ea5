//! State of the interactive terminal session: the task board, selection and
//! input editing. Rendering and key reading belong to the surrounding
//! program; every state change is verified here.

use vstd::prelude::*;

use crate::scrape_model::ScrapeData;
use crate::text::{pop_char, push_char, spec_trim_spaces, trim_spaces};
use vstd::arithmetic::div_mod::lemma_small_mod;

verus! {

/// Mode of the terminal session.
#[derive(Debug, Clone, Copy, PartialEq, Eq, Structural)]
pub enum Mode {
    Normal,
    Input,
    Processing,
}

/// Kind of operation a task performs.
#[derive(Debug, Clone, Copy, PartialEq, Eq, Structural)]
pub enum Operation {
    Scrape,
    Crawl,
}

/// Lifecycle status of a task on the board.
#[derive(Debug, Clone)]
pub enum TaskStatus {
    Pending,
    Processing,
    Completed,
    Failed(String),
}

/// Result of a finished task.
#[derive(Debug, Clone)]
pub enum TaskResult {
    Scrape(ScrapeData),
    Crawl(Vec<ScrapeData>),
}

/// One task on the board.
#[derive(Debug, Clone)]
pub struct Task {
    pub id: usize,
    pub operation: Operation,
    pub url: String,
    pub status: TaskStatus,
    pub progress: String,
    pub result: Option<TaskResult>,
}

/// The terminal session's state.
pub struct App {
    pub mode: Mode,
    pub tasks: Vec<Task>,
    pub current_task_id: usize,
    pub input: String,
    pub selected_task: usize,
    pub scroll_offset: usize,
}

impl App {
    /// A fresh session: normal mode, empty board, empty input.
    pub fn new() -> (r: Self)
        ensures
            r.mode == Mode::Normal,
            r.tasks@.len() == 0,
            r.current_task_id == 0,
            r.input@.len() == 0,
            r.selected_task == 0,
            r.scroll_offset == 0,
    {
        App {
            mode: Mode::Normal,
            tasks: Vec::new(),
            current_task_id: 0,
            input: String::new(),
            selected_task: 0,
            scroll_offset: 0,
        }
    }

    /// Appends a pending scrape task for the URL, under the next task id.
    pub fn add_scrape_task(&mut self, url: String)
        ensures
            final(self).tasks@.len() == old(self).tasks@.len() + 1,
            ({
                let t = final(self).tasks@.last();
                &&& t.id == old(self).current_task_id
                &&& t.operation == Operation::Scrape
                &&& t.url == url
                &&& t.status is Pending
                &&& t.result is None
            }),
            forall|i: int|
                0 <= i < old(self).tasks@.len() ==> final(self).tasks@[i] == old(self).tasks@[i],
            final(self).current_task_id == crate::task_service::bump_usize(
                old(self).current_task_id,
            ),
            final(self).mode == old(self).mode,
            final(self).input == old(self).input,
            final(self).selected_task == old(self).selected_task,
    {
        let task = Task {
            id: self.current_task_id,
            operation: Operation::Scrape,
            url,
            status: TaskStatus::Pending,
            progress: String::from_str("Pending"),
            result: None,
        };
        self.tasks.push(task);
        if self.current_task_id < usize::MAX {
            self.current_task_id = self.current_task_id + 1;
        }
    }

    /// Appends a pending crawl task for the URL, under the next task id.
    pub fn add_crawl_task(&mut self, url: String)
        ensures
            final(self).tasks@.len() == old(self).tasks@.len() + 1,
            ({
                let t = final(self).tasks@.last();
                &&& t.id == old(self).current_task_id
                &&& t.operation == Operation::Crawl
                &&& t.url == url
                &&& t.status is Pending
                &&& t.result is None
            }),
            forall|i: int|
                0 <= i < old(self).tasks@.len() ==> final(self).tasks@[i] == old(self).tasks@[i],
            final(self).current_task_id == crate::task_service::bump_usize(
                old(self).current_task_id,
            ),
            final(self).mode == old(self).mode,
            final(self).input == old(self).input,
            final(self).selected_task == old(self).selected_task,
    {
        let task = Task {
            id: self.current_task_id,
            operation: Operation::Crawl,
            url,
            status: TaskStatus::Pending,
            progress: String::from_str("Pending"),
            result: None,
        };
        self.tasks.push(task);
        if self.current_task_id < usize::MAX {
            self.current_task_id = self.current_task_id + 1;
        }
    }

    /// Moves the selection one task down, wrapping at the end; an empty
    /// board keeps the selection where it is.
    pub fn select_next_task(&mut self)
        ensures
            final(self).tasks == old(self).tasks,
            final(self).mode == old(self).mode,
            old(self).tasks@.len() == 0 ==> final(self).selected_task == old(self).selected_task,
            old(self).tasks@.len() > 0 ==> final(self).selected_task == (old(self).selected_task
                + 1) as int % (old(self).tasks@.len() as int),
    {
        if self.tasks.len() > 0 {
            let n = self.tasks.len();
            let s = self.selected_task % n;
            let next = if s == n - 1 {
                0
            } else {
                s + 1
            };
            proof {
                let ghost sel = old(self).selected_task as int;
                let ghost nn = n as int;
                assert((sel + 1) % nn == ((sel % nn) + 1) % nn) by (nonlinear_arith)
                    requires
                        nn > 0,
                        sel >= 0,
                ;
                if s == n - 1 {
                    assert(((s + 1) as int) % (n as int) == 0) by (nonlinear_arith)
                        requires
                            s == n - 1,
                            n > 0,
                    ;
                } else {
                    lemma_small_mod((s + 1) as nat, n as nat);
                }
                assert(next == (old(self).selected_task + 1) as int % (n as int));
            }
            self.selected_task = next;
        }
    }

    /// Moves the selection one task up, wrapping at the start; an empty
    /// board keeps the selection where it is.
    pub fn select_previous_task(&mut self)
        ensures
            final(self).tasks == old(self).tasks,
            final(self).mode == old(self).mode,
            old(self).tasks@.len() == 0 ==> final(self).selected_task == old(self).selected_task,
            old(self).tasks@.len() > 0 ==> final(self).selected_task == (
            if old(self).selected_task == 0 {
                (old(self).tasks@.len() - 1) as int
            } else {
                old(self).selected_task - 1
            }),
    {
        if self.tasks.len() > 0 {
            if self.selected_task == 0 {
                self.selected_task = self.tasks.len() - 1;
            } else {
                self.selected_task = self.selected_task - 1;
            }
        }
    }

    /// Handles one typed character in input mode: a newline submits the
    /// trimmed input as a scrape task and returns to normal mode (or does
    /// nothing on blank input), backspace or delete removes the last
    /// character, and anything else is appended.
    pub fn handle_input_char(&mut self, c: char)
        ensures
            c == '\n' && spec_trim_spaces(old(self).input@).len() > 0 ==> {
                &&& final(self).tasks@.len() == old(self).tasks@.len() + 1
                &&& final(self).tasks@.last().url@ == spec_trim_spaces(old(self).input@)
                &&& final(self).tasks@.last().operation == Operation::Scrape
                &&& final(self).input@.len() == 0
                &&& final(self).mode == Mode::Normal
            },
            c == '\n' && spec_trim_spaces(old(self).input@).len() == 0 ==> *final(self) == *old(
                self,
            ),
            c != '\n' && (c == '\u{8}' || c == '\u{7f}') ==> {
                &&& final(self).input@ == (if old(self).input@.len() > 0 {
                    old(self).input@.drop_last()
                } else {
                    old(self).input@
                })
                &&& final(self).tasks == old(self).tasks
                &&& final(self).mode == old(self).mode
            },
            c != '\n' && c != '\u{8}' && c != '\u{7f}' ==> {
                &&& final(self).input@ == old(self).input@.push(c)
                &&& final(self).tasks == old(self).tasks
                &&& final(self).mode == old(self).mode
            },
    {
        if c == '\n' {
            let trimmed = trim_spaces(self.input.as_str());
            if trimmed.as_str().unicode_len() > 0 {
                self.add_scrape_task(trimmed);
                self.input = String::new();
                self.mode = Mode::Normal;
            }
        } else if c == '\u{8}' || c == '\u{7f}' {
            let _ = pop_char(&mut self.input);
        } else {
            push_char(&mut self.input, c);
        }
    }
}

} // verus!
