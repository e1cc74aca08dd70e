//! The locally managed store instance: the command line it is started with,
//! the address it binds, and the bounded health probe that must pass before
//! the connection manager may raise the readiness signal.

use vstd::prelude::*;
use vstd::string::StringExecFns;

use crate::digits::{dec_digits, fmt_u64};
use crate::settings::Sdb;

verus! {

/// The bounded health probe: a fixed budget of attempts, each answered by
/// the instance or failed, until the first success or the budget runs out.
pub struct HealthProbe {
    pub attempts_left: u32,
    pub succeeded: bool,
}

/// The classified outcome of one probe request: a response with a success
/// status, or anything else.
#[derive(Clone, Copy, Debug, PartialEq, Eq, Structural)]
pub enum ProbeResult {
    Success,
    Failure,
}

/// What the prober does next.
#[derive(Clone, Copy, Debug, PartialEq, Eq, Structural)]
pub enum ProbeDecision {
    /// The instance is healthy; the manager may proceed to mark ready.
    Ready,
    /// Not healthy yet; wait the retry delay and probe again.
    RetryAfterDelay,
    /// The attempt budget is spent without a success: starting the store
    /// failed.
    GiveUp,
}

impl HealthProbe {
    pub fn new(attempts: u32) -> (p: HealthProbe)
        ensures
            p.attempts_left == attempts,
            !p.succeeded,
    {
        HealthProbe { attempts_left: attempts, succeeded: false }
    }

    /// Account one probe outcome. The probe reports ready exactly on the
    /// first success, retries while failures leave budget, and gives up on
    /// the failure that spends the last attempt.
    pub fn step(&mut self, r: ProbeResult) -> (d: ProbeDecision)
        requires
            !old(self).succeeded,
            old(self).attempts_left > 0,
        ensures
            r is Success ==> final(self).succeeded && final(self).attempts_left == old(
                self,
            ).attempts_left && d is Ready,
            r is Failure ==> !final(self).succeeded && final(self).attempts_left == old(
                self,
            ).attempts_left - 1,
            r is Failure && old(self).attempts_left > 1 ==> d is RetryAfterDelay,
            r is Failure && old(self).attempts_left == 1 ==> d is GiveUp,
    {
        match r {
            ProbeResult::Success => {
                self.succeeded = true;
                ProbeDecision::Ready
            },
            ProbeResult::Failure => {
                self.attempts_left = self.attempts_left - 1;
                if self.attempts_left > 0 {
                    ProbeDecision::RetryAfterDelay
                } else {
                    ProbeDecision::GiveUp
                }
            },
        }
    }
}

/// The address the locally managed instance binds.
pub fn bind_address(port: u16) -> (s: String)
    ensures
        s@ == "0.0.0.0:"@ + dec_digits(port as nat),
{
    let p = fmt_u64(port as u64);
    String::from_str("0.0.0.0:").concat(p.as_str())
}

/// The health endpoint probed before the store is marked ready.
pub fn health_url(host: &str, port: u16) -> (s: String)
    ensures
        s@ == "http://"@ + host@ + ":"@ + dec_digits(port as nat) + "/health"@,
{
    let p = fmt_u64(port as u64);
    String::from_str("http://").concat(host).concat(":").concat(p.as_str()).concat("/health")
}

/// The command line the locally managed store instance is started with: an
/// in-memory store bound to the configured port, with the configured root
/// credentials.
pub fn container_command(s: &Sdb) -> (cmd: Vec<String>)
    ensures
        cmd@.len() == 10,
        cmd@[0]@ == "start"@,
        cmd@[1]@ == "--log"@,
        cmd@[2]@ == "trace"@,
        cmd@[3]@ == "-u"@,
        cmd@[4]@ == s.username@,
        cmd@[5]@ == "-p"@,
        cmd@[6]@ == s.password@,
        cmd@[7]@ == "-b"@,
        cmd@[8]@ == "0.0.0.0:"@ + dec_digits(s.port as nat),
        cmd@[9]@ == "memory"@,
{
    let mut cmd: Vec<String> = Vec::new();
    cmd.push(String::from_str("start"));
    cmd.push(String::from_str("--log"));
    cmd.push(String::from_str("trace"));
    cmd.push(String::from_str("-u"));
    cmd.push(s.username.clone());
    cmd.push(String::from_str("-p"));
    cmd.push(s.password.clone());
    cmd.push(String::from_str("-b"));
    cmd.push(bind_address(s.port));
    cmd.push(String::from_str("memory"));
    cmd
}

} // verus!
