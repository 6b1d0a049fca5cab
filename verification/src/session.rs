//! The course of one run: what it starts with, what it takes from standard
//! input, and when it ends.

use crate::config::Config;
use vstd::prelude::*;

verus! {

/// Whether the run goes on.
#[derive(Clone, Copy, Debug, PartialEq, Eq, Structural)]
pub enum Continuation {
    Continue,
    Exit,
}

/// What is done with one line of standard input.
#[derive(Clone, Debug, PartialEq, Eq)]
pub enum StdinAction {
    /// The file is there: it is entered into the collection.
    Append,
    /// The file is not there: this line is printed and the path passed over.
    Report(String),
}

/// The state of a run: how many transfers it has completed, and whether it
/// is still running.
#[derive(Clone, Copy, Debug, PartialEq, Eq, Structural)]
pub struct Session {
    pub completed: u64,
    pub running: bool,
}

/// The key value of the escape key.
pub const KEY_ESCAPE: u32 = 0xff1b;

/// The key value of the letter q.
pub const KEY_LOWER_Q: u32 = 0x71;

/// The key value of the letter Q.
pub const KEY_UPPER_Q: u32 = 0x51;

/// Whether a key ends the run: escape, `q` and `Q` do.
pub open spec fn quits(keyval: u32) -> bool {
    keyval == KEY_ESCAPE || keyval == KEY_LOWER_Q || keyval == KEY_UPPER_Q
}

impl Session {
    /// A run at its start.
    pub open spec fn initial() -> Session {
        Session { completed: 0, running: true }
    }

    /// The state after one more transfer was completed. A run that has ended
    /// completes none. A run that ends after one transfer ends with it.
    pub open spec fn after_transfer(self, and_exit: bool) -> Session {
        if !self.running {
            self
        } else {
            Session {
                completed: if self.completed < u64::MAX {
                    (self.completed + 1) as u64
                } else {
                    self.completed
                },
                running: !and_exit,
            }
        }
    }

    /// The state after `n` more transfers.
    pub open spec fn after_transfers(self, n: nat, and_exit: bool) -> Session
        decreases n,
    {
        if n == 0 {
            self
        } else {
            self.after_transfers((n - 1) as nat, and_exit).after_transfer(and_exit)
        }
    }

    /// A run at its start.
    pub fn new() -> (session: Session)
        ensures
            session == Session::initial(),
    {
        Session { completed: 0, running: true }
    }

    /// Records that a drag or an accepted drop was completed, and says
    /// whether the run ends with it.
    pub fn complete_transfer(&mut self, config: &Config) -> (next: Continuation)
        ensures
            *final(self) == old(self).after_transfer(config.and_exit),
            next == if final(self).running {
                Continuation::Continue
            } else {
                Continuation::Exit
            },
    {
        if self.running {
            if self.completed < u64::MAX {
                self.completed = self.completed + 1;
            }
            if config.and_exit {
                self.running = false;
            }
        }
        if self.running {
            Continuation::Continue
        } else {
            Continuation::Exit
        }
    }

    /// Takes a key press, and says whether the run ends with it.
    pub fn key_pressed(&mut self, keyval: u32) -> (next: Continuation)
        ensures
            final(self).completed == old(self).completed,
            final(self).running == (old(self).running && !quits(keyval)),
            next == if final(self).running {
                Continuation::Continue
            } else {
                Continuation::Exit
            },
    {
        if keyval == KEY_ESCAPE || keyval == KEY_LOWER_Q || keyval == KEY_UPPER_Q {
            self.running = false;
        }
        if self.running {
            Continuation::Continue
        } else {
            Continuation::Exit
        }
    }
}

/// The first of the files given at start that is not there, by position.
/// `exists[i]` says whether file `i` is there. A run starts only if this is
/// `None`.
pub fn first_missing(exists: &Vec<bool>) -> (missing: Option<usize>)
    ensures
        missing is None <==> forall|i: int| 0 <= i < exists@.len() ==> exists@[i],
        missing matches Some(at) ==> at < exists@.len() && !exists@[at as int] && forall|j: int|
            0 <= j < at ==> exists@[j],
{
    let mut i: usize = 0;
    while i < exists.len()
        invariant
            0 <= i <= exists.len(),
            forall|j: int| 0 <= j < i ==> exists@[j],
        decreases exists.len() - i,
    {
        if !exists[i] {
            return Some(i);
        }
        i += 1;
    }
    None
}

/// What is said of a file that was given at start and is not there.
pub fn missing_path_message(path: &str) -> (message: String)
    ensures
        message@ == path@ + " : no such file or directory"@,
{
    let mut message = path.to_owned();
    message.append(" : no such file or directory");
    message
}

/// What is done with one line of standard input that names the file
/// `parse_name`: a file that is there is entered, one that is not is
/// reported and passed over.
pub fn stdin_line(parse_name: &str, exists: bool) -> (action: StdinAction)
    ensures
        action is Append <==> exists,
        action matches StdinAction::Report(line) ==> line@ == parse_name@ + " does not exist!"@,
{
    if exists {
        StdinAction::Append
    } else {
        let mut line = parse_name.to_owned();
        line.append(" does not exist!");
        StdinAction::Report(line)
    }
}

/// With the option to end after one transfer, the first completed transfer
/// ends the run, and the run counts that one transfer however many are
/// reported after it.
pub proof fn law_and_exit_ends_run(n: nat)
    requires
        n >= 1,
    ensures
        !Session::initial().after_transfers(n, true).running,
        Session::initial().after_transfers(n, true).completed == 1,
    decreases n,
{
    if n == 1 {
        assert(Session::initial().after_transfers(0, true) == Session::initial());
    } else {
        law_and_exit_ends_run((n - 1) as nat);
    }
}

/// Without that option the run goes on after any number of transfers.
pub proof fn law_run_continues(n: nat)
    ensures
        Session::initial().after_transfers(n, false).running,
    decreases n,
{
    if n > 0 {
        law_run_continues((n - 1) as nat);
    }
}

} // verus!
