//! The Shoes child process as a state machine: the library decides, the
//! caller writes the configuration file, spawns, probes and kills.

use vstd::prelude::*;
use vstd::string::*;

verus! {

/// What probing the child (`try_wait`) found.
pub enum WaitStatus {
    /// The child has not exited.
    Running,
    /// The child has exited.
    Exited,
    /// The probe failed.
    Unknown,
}

/// Why the process could not be started.
pub enum ProcessError {
    AlreadyRunning,
}

/// The Shoes process as the panel tracks it.
pub struct ShoesProcess {
    /// The id of the child last spawned, until it is stopped.
    pub pid: Option<u32>,
    pub config_path: String,
    pub binary_path: String,
}

/// What starting Shoes takes: write `config_text` to `config_path`, then run
/// `program` with `config_path` as its one argument.
pub struct Launch {
    pub config_path: String,
    pub config_text: String,
    pub program: String,
}

pub open spec fn msg_already_running() -> Seq<char> {
    "Shoes is already running"@
}

impl ShoesProcess {
    /// A manager with no child yet.
    pub fn new(binary_path: String, config_path: String) -> (r: Self)
        ensures
            r.pid is None,
            r.binary_path == binary_path,
            r.config_path == config_path,
    {
        ShoesProcess { pid: None, config_path, binary_path }
    }

    /// Whether Shoes runs: there is a child and the probe found it alive.
    pub open spec fn running(&self, wait: WaitStatus) -> bool {
        self.pid is Some && wait is Running
    }

    /// Whether Shoes runs, given what probing the child found.
    pub fn is_running(&self, wait: WaitStatus) -> (r: bool)
        ensures
            r == self.running(wait),
    {
        match self.pid {
            Some(_) => match wait {
                WaitStatus::Running => true,
                _ => false,
            },
            None => false,
        }
    }

    /// Decides a start: refused while Shoes runs, otherwise what to write and
    /// what to run.
    pub fn start(&self, wait: WaitStatus, yaml: String) -> (r: Result<Launch, ProcessError>)
        ensures
            self.running(wait) ==> r is Err,
            !self.running(wait) ==> (r matches Ok(l) && l.config_path == self.config_path
                && l.config_text == yaml && l.program == self.binary_path),
    {
        if self.is_running(wait) {
            return Err(ProcessError::AlreadyRunning);
        }
        Ok(
            Launch {
                config_path: self.config_path.clone(),
                config_text: yaml,
                program: self.binary_path.clone(),
            },
        )
    }

    /// The state after the child `pid` was spawned.
    pub open spec fn after_spawn(self, pid: u32) -> ShoesProcess {
        ShoesProcess { pid: Some(pid), ..self }
    }

    /// The state after a stop.
    pub open spec fn after_stop(self) -> ShoesProcess {
        ShoesProcess { pid: None, ..self }
    }

    /// Records the child that was spawned.
    pub fn record_spawn(&mut self, pid: u32)
        ensures
            *final(self) == old(self).after_spawn(pid),
    {
        self.pid = Some(pid);
    }

    /// Stops Shoes: forgets the child and gives its id, to be killed and
    /// reaped; none where there is no child.
    pub fn stop(&mut self) -> (r: Option<u32>)
        ensures
            r == old(self).pid,
            *final(self) == old(self).after_stop(),
    {
        let r = self.pid;
        self.pid = None;
        r
    }

    /// Uses the binary named in the settings, where it names one.
    pub fn use_binary(&mut self, configured: String)
        ensures
            final(self).binary_path == (if configured@.len() == 0 {
                old(self).binary_path
            } else {
                configured
            }),
            final(self).pid == old(self).pid,
            final(self).config_path == old(self).config_path,
    {
        if configured.as_str().unicode_len() != 0 {
            self.binary_path = configured;
        }
    }
}

impl ProcessError {
    /// The text of the error.
    pub fn message(&self) -> (r: String)
        ensures
            r@ == msg_already_running(),
    {
        String::from_str("Shoes is already running")
    }
}

/// A spawned child runs while the probe finds it alive; once stopped, Shoes
/// is not running whatever the probe says, and a start is no longer refused.
pub proof fn lemma_spawn_then_stop(p: ShoesProcess, pid: u32, wait: WaitStatus)
    ensures
        p.after_spawn(pid).running(WaitStatus::Running),
        p.after_spawn(pid).after_stop().pid is None,
        !p.after_spawn(pid).after_stop().running(wait),
{
}

/// Stopping twice is stopping once: the second stop finds no child.
pub proof fn lemma_stop_idempotent(p: ShoesProcess)
    ensures
        p.after_stop().after_stop() == p.after_stop(),
        p.after_stop().pid is None,
{
}

} // verus!
