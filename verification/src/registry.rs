//! Process registry and shutdown coordinator.
//!
//! The registry is the single store of running kernel servers: a mapping from
//! process identifier to port and token, with both identifiers and ports
//! unique. The driver serializes access behind a lock; once a process is
//! inserted, the registry owns it until a stop removes it. Stopping computes
//! a [`ShutdownRequest`] per process — the authenticated graceful shutdown
//! call, always followed by a forced kill — and drains the registry
//! unconditionally.

use vstd::prelude::*;
use vstd::string::StringExecFns;

use crate::text::{dec_digits, u64_to_string};

verus! {

/// A tracked kernel-server instance: the subprocess identifier, the loopback
/// port it serves on, and the token that authenticates requests to it. The
/// OS process handle itself stays with the unverified driver, keyed by `pid`.
pub struct JupyterProcess {
    pub pid: u32,
    pub port: u16,
    pub token: String,
}

/// The graceful-then-forced stop of one process, as data: the driver sends
/// the authenticated shutdown request (best-effort, platform-gated) and then
/// force-kills `pid` regardless of the outcome, treating "already exited" as
/// success.
pub struct ShutdownRequest {
    pub pid: u32,
    pub port: u16,
    pub url: String,
    pub auth_header: String,
}

/// The management endpoint that asks a kernel server to shut down.
pub open spec fn spec_shutdown_url(port: u16, token: Seq<char>) -> Seq<char> {
    "http://localhost:"@ + dec_digits(port as nat) + "/api/shutdown?_xsrf="@ + token
}

/// The Authorization header value that authenticates the shutdown request.
pub open spec fn spec_auth_header(token: Seq<char>) -> Seq<char> {
    "token "@ + token
}

/// `r` is exactly the stop request for process `p`.
pub open spec fn shutdown_matches(r: ShutdownRequest, p: JupyterProcess) -> bool {
    &&& r.pid == p.pid
    &&& r.port == p.port
    &&& r.url@ == spec_shutdown_url(p.port, p.token@)
    &&& r.auth_header@ == spec_auth_header(p.token@)
}

impl JupyterProcess {
    /// Computes the stop request for this process: the graceful shutdown call
    /// and the pid to force-kill afterwards.
    pub fn stop(self) -> (r: ShutdownRequest)
        ensures
            shutdown_matches(r, self),
    {
        let mut url = String::from_str("http://localhost:");
        let port_str = u64_to_string(self.port as u64);
        url.append(port_str.as_str());
        url.append("/api/shutdown?_xsrf=");
        url.append(self.token.as_str());
        let mut auth_header = String::from_str("token ");
        auth_header.append(self.token.as_str());
        ShutdownRequest { pid: self.pid, port: self.port, url, auth_header }
    }
}

/// The registered pid `pid` occurs in `r`.
pub open spec fn contains_pid(r: Seq<JupyterProcess>, pid: u32) -> bool {
    exists|i: int| 0 <= i < r.len() && (#[trigger] r[i]).pid == pid
}

/// The port `port` is in use by some process in `r`.
pub open spec fn contains_port(r: Seq<JupyterProcess>, port: u16) -> bool {
    exists|i: int| 0 <= i < r.len() && (#[trigger] r[i]).port == port
}

/// The registry's invariant: process identifiers are unique keys, and no two
/// registered processes share a port.
pub open spec fn registry_wf(r: Seq<JupyterProcess>) -> bool {
    forall|i: int, j: int|
        0 <= i < j < r.len() ==> (#[trigger] r[i]).pid != (#[trigger] r[j]).pid && r[i].port
            != r[j].port
}

/// The store of running kernel servers.
pub struct Registry {
    entries: Vec<JupyterProcess>,
}

impl View for Registry {
    type V = Seq<JupyterProcess>;

    closed spec fn view(&self) -> Seq<JupyterProcess> {
        self.entries@
    }
}

impl Registry {
    /// An empty registry.
    pub fn new() -> (r: Registry)
        ensures
            r@.len() == 0,
            registry_wf(r@),
    {
        Registry { entries: Vec::new() }
    }

    /// How many processes are tracked.
    pub fn len(&self) -> (n: usize)
        ensures
            n == self@.len(),
    {
        self.entries.len()
    }

    /// Registers a process. The caller supplies a pid not yet tracked and a
    /// port not yet in use — the allocator only hands out ports that were
    /// free, and a tracked process keeps its port bound.
    pub fn insert(&mut self, p: JupyterProcess)
        requires
            registry_wf(old(self)@),
            !contains_pid(old(self)@, p.pid),
            !contains_port(old(self)@, p.port),
        ensures
            final(self)@ == old(self)@.push(p),
            registry_wf(final(self)@),
            final(self)@.len() == old(self)@.len() + 1,
    {
        proof {
            assert forall|i: int| 0 <= i < self@.len() implies (#[trigger] self@[i]).pid != p.pid
                && self@[i].port != p.port by {
                assert(!(self@[i].pid == p.pid));
                assert(!(self@[i].port == p.port));
            }
        }
        self.entries.push(p);
    }

    /// Removes and returns the process with the given pid, if tracked; the
    /// registry is otherwise unchanged.
    pub fn remove(&mut self, pid: u32) -> (r: Option<JupyterProcess>)
        requires
            registry_wf(old(self)@),
        ensures
            registry_wf(final(self)@),
            !contains_pid(old(self)@, pid) ==> r is None && final(self)@ == old(self)@,
            contains_pid(old(self)@, pid) ==> exists|i: int|
                0 <= i < old(self)@.len() && (#[trigger] old(self)@[i]).pid == pid && r == Some(
                    old(self)@[i],
                ) && final(self)@ == old(self)@.remove(i),
            !contains_pid(final(self)@, pid),
    {
        let mut i: usize = 0;
        while i < self.entries.len()
            invariant
                self@ == old(self)@,
                registry_wf(old(self)@),
                i <= old(self)@.len(),
                forall|k: int| 0 <= k < i ==> (#[trigger] old(self)@[k]).pid != pid,
            decreases old(self)@.len() - i,
        {
            if self.entries[i].pid == pid {
                let p = self.entries.remove(i);
                proof {
                    let ghost orig = old(self)@;
                    assert(self@ =~= orig.remove(i as int));
                    assert(contains_pid(orig, pid)) by {
                        assert((orig[i as int]).pid == pid);
                    }
                    lemma_registry_wf_remove(orig, i as int);
                    assert forall|k: int| 0 <= k < self@.len() implies (#[trigger] self@[k]).pid
                        != pid by {
                        if k < i {
                            assert(self@[k] == orig[k]);
                        } else {
                            assert(self@[k] == orig[k + 1]);
                        }
                    }
                }
                return Some(p);
            }
            i += 1;
        }
        None
    }

    /// Is a process with this identifier tracked?
    pub fn has_pid(&self, pid: u32) -> (r: bool)
        ensures
            r == contains_pid(self@, pid),
    {
        let mut i: usize = 0;
        while i < self.entries.len()
            invariant
                i <= self@.len(),
                forall|k: int| 0 <= k < i ==> (#[trigger] self@[k]).pid != pid,
            decreases self@.len() - i,
        {
            if self.entries[i].pid == pid {
                return true;
            }
            i += 1;
        }
        false
    }

    /// Is this port in use by a tracked process?
    pub fn has_port(&self, port: u16) -> (r: bool)
        ensures
            r == contains_port(self@, port),
    {
        let mut i: usize = 0;
        while i < self.entries.len()
            invariant
                i <= self@.len(),
                forall|k: int| 0 <= k < i ==> (#[trigger] self@[k]).port != port,
            decreases self@.len() - i,
        {
            if self.entries[i].port == port {
                return true;
            }
            i += 1;
        }
        false
    }

    /// The identifiers of all tracked processes, in registry order.
    pub fn list_ids(&self) -> (r: Vec<u32>)
        ensures
            r@.len() == self@.len(),
            forall|i: int| 0 <= i < r@.len() ==> r@[i] == (#[trigger] self@[i]).pid,
    {
        let mut r: Vec<u32> = Vec::new();
        let mut i: usize = 0;
        while i < self.entries.len()
            invariant
                i <= self@.len(),
                r@.len() == i,
                forall|k: int| 0 <= k < i ==> r@[k] == (#[trigger] self@[k]).pid,
            decreases self@.len() - i,
        {
            r.push(self.entries[i].pid);
            i += 1;
        }
        r
    }

    /// Stops everything: drains the registry — it is empty afterwards, no
    /// matter how any individual graceful shutdown fares — and returns the
    /// stop request for each process that was tracked.
    pub fn stop_all(&mut self) -> (r: Vec<ShutdownRequest>)
        ensures
            final(self)@.len() == 0,
            r@.len() == old(self)@.len(),
            forall|i: int|
                0 <= i < r@.len() ==> shutdown_matches(#[trigger] r@[i], old(self)@[i]),
    {
        let mut r: Vec<ShutdownRequest> = Vec::new();
        while self.entries.len() > 0
            invariant
                r@.len() + self@.len() == old(self)@.len(),
                forall|i: int|
                    0 <= i < r@.len() ==> shutdown_matches(#[trigger] r@[i], old(self)@[i]),
                forall|k: int|
                    0 <= k < self@.len() ==> #[trigger] self@[k] == old(self)@[r@.len() + k],
            decreases self@.len(),
        {
            let p = self.entries.remove(0);
            r.push(p.stop());
        }
        r
    }
}

proof fn lemma_registry_wf_remove(r: Seq<JupyterProcess>, i: int)
    requires
        registry_wf(r),
        0 <= i < r.len(),
    ensures
        registry_wf(r.remove(i)),
{
    let s = r.remove(i);
    assert forall|a: int, b: int| 0 <= a < b < s.len() implies (#[trigger] s[a]).pid
        != (#[trigger] s[b]).pid && s[a].port != s[b].port by {
        let a0 = if a < i {
            a
        } else {
            a + 1
        };
        let b0 = if b < i {
            b
        } else {
            b + 1
        };
        assert(s[a] == r[a0]);
        assert(s[b] == r[b0]);
    }
}

/// No port is shared: any two distinct processes of a well-formed registry
/// listen on different ports, so a port allocated to one launch is not reused
/// by another while the first remains registered.
pub proof fn lemma_ports_unique(r: Seq<JupyterProcess>, i: int, j: int)
    requires
        registry_wf(r),
        0 <= i < r.len(),
        0 <= j < r.len(),
        i != j,
    ensures
        r[i].port != r[j].port,
        r[i].pid != r[j].pid,
{
}

} // verus!
