//! The process lifecycle as a state machine, and a driver for it.
//!
//! The daemon alternates two roles in one sequential loop: the scheduler
//! computes a randomized delay and the caller suspends for it; the dispatcher
//! selects a body, builds the envelope, and hands it to the transport. A
//! failed send is fatal. The transport itself lives outside the library: the
//! loop around the real wire calls `begin_wait`, `begin_send` and
//! `finish_send` in turn, feeding back the wire's verdicts, while
//! `run_script` drives the same machine over a finite script of verdicts so
//! that the loop's behaviour can be stated and checked.

use vstd::prelude::*;
use crate::config::{Config, ConfigError, config_ok, validation_verdict};
use crate::dispatch::{Envelope, build_envelope, select_message, selected_from};
use crate::schedule::next_delay;

verus! {

/// SMTP credentials, supplied once at startup from the process environment;
/// both values are required and read-only afterwards.
#[derive(Debug)]
pub struct Credentials {
    pub username: String,
    pub password: String,
}

/// The phases of the process lifecycle. The starting phase has no value
/// here: `Daemon::load` is the transition out of it, and a rejected
/// configuration means the process never leaves it.
#[derive(Clone, Copy, Debug, PartialEq, Eq, Structural)]
pub enum Phase {
    Loaded,
    Waiting,
    Sending,
    Terminated,
}

/// The whole read-only state of a running process, plus its current phase.
#[derive(Debug)]
pub struct Daemon {
    pub config: Config,
    pub creds: Credentials,
    pub phase: Phase,
}

/// The daemon's invariant: its configuration passed validation.
pub open spec fn daemon_ok(d: Daemon) -> bool {
    config_ok(d.config)
}

impl Daemon {
    /// The one-time startup transition: succeeds exactly when the
    /// configuration passes validation, and reports validation's own verdict
    /// otherwise — a fatal startup condition for the process.
    pub fn load(config: Config, creds: Credentials) -> (r: Result<Daemon, ConfigError>)
        ensures
            r is Ok <==> config_ok(config),
            r matches Ok(d) ==> daemon_ok(d) && d.phase == Phase::Loaded && d.config == config
                && d.creds == creds,
            r matches Err(e) ==> Result::<(), ConfigError>::Err(e) == validation_verdict(config),
    {
        match config.validate() {
            Ok(()) => Ok(Daemon { config, creds, phase: Phase::Loaded }),
            Err(e) => Err(e),
        }
    }

    /// Entering the waiting phase: computes the randomized delay for this
    /// cycle, drawn from `[1, interval)`. The caller suspends the process for
    /// exactly that many seconds; nothing else runs meanwhile.
    pub fn begin_wait(&mut self) -> (delay: u64)
        requires
            daemon_ok(*old(self)),
            old(self).phase == Phase::Loaded || old(self).phase == Phase::Waiting,
        ensures
            final(self).phase == Phase::Waiting,
            final(self).config == old(self).config,
            final(self).creds == old(self).creds,
            1 <= delay < old(self).config.interval,
    {
        self.phase = Phase::Waiting;
        next_delay(self.config.interval)
    }

    /// Waking into the sending phase: selects one body at random from the
    /// pool and builds the envelope to hand to the transport.
    pub fn begin_send(&mut self) -> (e: Envelope)
        requires
            daemon_ok(*old(self)),
            old(self).phase == Phase::Waiting,
        ensures
            final(self).phase == Phase::Sending,
            final(self).config == old(self).config,
            final(self).creds == old(self).creds,
            e.from@ == old(self).config.from@,
            e.to@ == old(self).config.to@,
            e.subject@ == old(self).config.subject@,
            selected_from(old(self).config.messages@, e.body),
    {
        self.phase = Phase::Sending;
        let body = select_message(&self.config.messages);
        build_envelope(&self.config, body)
    }

    /// The transport's verdict on the attempted send: on success the loop
    /// goes back to waiting; any failure is fatal and terminates the daemon,
    /// with no retry and no fallback.
    pub fn finish_send(&mut self, delivered: bool)
        requires
            daemon_ok(*old(self)),
            old(self).phase == Phase::Sending,
        ensures
            final(self).config == old(self).config,
            final(self).creds == old(self).creds,
            final(self).phase == (if delivered { Phase::Waiting } else { Phase::Terminated }),
    {
        if delivered {
            self.phase = Phase::Waiting;
        } else {
            self.phase = Phase::Terminated;
        }
    }
}

/// One full wait-then-send iteration, as observed from outside: the computed
/// delay, the body that was dispatched, and whether the transport accepted it.
#[derive(Debug)]
pub struct CycleRecord {
    pub delay: u64,
    pub body: String,
    pub delivered: bool,
}

/// What one run produced: the cycles that happened, in order, and whether the
/// daemon terminated on a failed send.
#[derive(Debug)]
pub struct RunReport {
    pub cycles: Vec<CycleRecord>,
    pub terminated: bool,
}

/// One recorded cycle is as the configuration and the transport's verdict
/// dictate: a delay inside `[1, interval)`, a body from the pool, and the
/// verdict reported unchanged.
pub open spec fn cycle_ok(c: Config, verdict: bool, rec: CycleRecord) -> bool {
    &&& 1 <= rec.delay < c.interval
    &&& selected_from(c.messages@, rec.body)
    &&& rec.delivered == verdict
}

/// The report a run over `script` must produce: one well-formed cycle per
/// verdict, up to and including the first failure; every cycle before the
/// last one succeeded; and the run terminates exactly when a send failed.
pub open spec fn report_ok(c: Config, script: Seq<bool>, rep: RunReport) -> bool {
    let n = rep.cycles@.len() as int;
    &&& n <= script.len()
    &&& forall|i: int| 0 <= i < n ==> cycle_ok(c, script[i], #[trigger] rep.cycles@[i])
    &&& forall|i: int| 0 <= i < n - 1 ==> #[trigger] script[i]
    &&& if rep.terminated {
            n >= 1 && !script[n - 1]
        } else {
            n == script.len() && (n == 0 || script[n - 1])
        }
}

/// Drives the daemon over a finite script of transport verdicts, one per
/// attempted send: validates the configuration once, then cycles until the
/// script is exhausted or a send fails, which is fatal. The loop around the
/// real transport behaves like this driver with the wire's verdicts in place
/// of the script, except that it never exhausts them.
pub fn run_script(config: Config, creds: Credentials, script: &Vec<bool>) -> (r: Result<
    RunReport,
    ConfigError,
>)
    ensures
        r is Ok <==> config_ok(config),
        r matches Err(e) ==> Result::<(), ConfigError>::Err(e) == validation_verdict(config),
        r matches Ok(rep) ==> report_ok(config, script@, rep),
{
    let script_len = script.len();
    match Daemon::load(config, creds) {
        Err(e) => Err(e),
        Ok(mut d) => {
            let mut cycles: Vec<CycleRecord> = Vec::new();
            let mut terminated = false;
            let mut i: usize = 0;
            while i < script_len && !terminated
                invariant
                    script_len == script@.len(),
                    daemon_ok(d),
                    d.config == config,
                    i <= script_len,
                    cycles@.len() == i,
                    forall|j: int| 0 <= j < i ==> cycle_ok(config, script@[j], #[trigger] cycles@[j]),
                    forall|j: int| 0 <= j < i - 1 ==> #[trigger] script@[j],
                    !terminated ==> (d.phase == Phase::Loaded || d.phase == Phase::Waiting),
                    !terminated ==> (forall|j: int| 0 <= j < i ==> #[trigger] script@[j]),
                    terminated ==> d.phase == Phase::Terminated,
                    terminated ==> i >= 1 && !script@[i - 1],
                decreases script_len - i,
            {
                let delay = d.begin_wait();
                let env = d.begin_send();
                let verdict = script[i];
                d.finish_send(verdict);
                cycles.push(CycleRecord { delay, body: env.body, delivered: verdict });
                if !verdict {
                    terminated = true;
                }
                i = i + 1;
            }
            Ok(RunReport { cycles, terminated })
        },
    }
}

/// A transport that fails the very first send stops the process after
/// exactly one attempt: the run terminates, having produced one cycle and no
/// further scheduler activity.
pub proof fn lemma_first_failure_stops(c: Config, script: Seq<bool>, rep: RunReport)
    requires
        report_ok(c, script, rep),
        script.len() > 0,
        !script[0],
    ensures
        rep.terminated,
        rep.cycles@.len() == 1,
{
}

/// A transport that accepts every send never stops the process on its own:
/// the run performs exactly one cycle per scripted verdict, none skipped and
/// none repeated, and every cycle reports a delivery.
pub proof fn lemma_all_success_runs_whole_script(c: Config, script: Seq<bool>, rep: RunReport)
    requires
        report_ok(c, script, rep),
        forall|i: int| 0 <= i < script.len() ==> #[trigger] script[i],
    ensures
        !rep.terminated,
        rep.cycles@.len() == script.len(),
        forall|i: int| 0 <= i < rep.cycles@.len() ==> (#[trigger] rep.cycles@[i]).delivered,
{
}

} // verus!
