//! The rebuilding backend supervisor: owns the query-language server
//! instance whose address changes over its lifetime.
//!
//! On every data-definition event it binds a fresh ephemeral address,
//! starts a new instance there, publishes the new endpoint to the proxy,
//! and only then releases the old instance for termination — strictly
//! start new, then publish, then stop old. A failed bind keeps the
//! current instance serving untouched. The loop stops when the event
//! broker closes.

use vstd::prelude::*;

verus! {

use crate::OrchestratorError;
use crate::proxy::{Proxy, graphql_generation};

/// Where one backend instance listens.
#[derive(Debug)]
pub struct InstanceAddr {
    pub host: String,
    pub port: u16,
}

/// The instance address as contracts see it.
pub struct InstanceModel {
    pub host: Seq<char>,
    pub port: u16,
}

impl View for InstanceAddr {
    type V = InstanceModel;

    open spec fn view(&self) -> InstanceModel {
        InstanceModel { host: self.host@, port: self.port }
    }
}

/// The supervisor's place in its lifecycle.
#[derive(Clone, Copy, Debug, PartialEq, Eq, Structural)]
pub enum RebuildPhase {
    /// No instance has been confirmed listening yet.
    Starting,
    /// One instance is confirmed listening and published.
    Serving,
    /// A replacement instance is being bound while the old one serves.
    Rebuilding,
    /// The event broker closed; no further rebuilds will happen.
    Stopped,
}

/// Supervises the one rebuildable backend: its phase and the address of
/// the instance currently confirmed listening, if any.
pub struct RebuildSupervisor {
    pub phase: RebuildPhase,
    pub current: Option<InstanceAddr>,
}

/// The supervisor as the lifecycle model sees it.
pub struct RebuildModel {
    pub phase: RebuildPhase,
    pub current: Option<InstanceModel>,
}

impl View for RebuildSupervisor {
    type V = RebuildModel;

    open spec fn view(&self) -> RebuildModel {
        RebuildModel {
            phase: self.phase,
            current: match self.current {
                Some(a) => Some(a@),
                None => None,
            },
        }
    }
}

/// Everything the supervisor's loop can observe.
pub enum RebuildInput {
    /// A fresh instance was bound and confirmed listening at this address.
    InstanceStarted(InstanceModel),
    /// No ephemeral address could be bound for the attempted (re)start.
    BindFailed,
    /// The event broker announced a data-definition change.
    RebuildRequested,
    /// The event broker closed.
    BrokerClosed,
}

/// The lifecycle as one total step function; inputs that make no sense
/// in the present phase change nothing.
pub open spec fn rebuild_step(s: RebuildModel, input: RebuildInput) -> RebuildModel {
    match input {
        RebuildInput::InstanceStarted(addr) => {
            if s.phase is Starting || s.phase is Rebuilding {
                RebuildModel { phase: RebuildPhase::Serving, current: Some(addr) }
            } else {
                s
            }
        },
        RebuildInput::BindFailed => {
            if s.phase is Rebuilding {
                RebuildModel { phase: RebuildPhase::Serving, ..s }
            } else {
                s
            }
        },
        RebuildInput::RebuildRequested => {
            if s.phase is Serving {
                RebuildModel { phase: RebuildPhase::Rebuilding, ..s }
            } else {
                s
            }
        },
        RebuildInput::BrokerClosed => RebuildModel { phase: RebuildPhase::Stopped, current: None },
    }
}

/// The state after a sequence of observations.
pub open spec fn rebuild_run(s: RebuildModel, inputs: Seq<RebuildInput>) -> RebuildModel
    decreases inputs.len(),
{
    if inputs.len() == 0 {
        s
    } else {
        rebuild_step(rebuild_run(s, inputs.drop_last()), inputs.last())
    }
}

impl RebuildSupervisor {
    /// A supervisor that has not yet confirmed any instance.
    pub fn new() -> (s: RebuildSupervisor)
        ensures
            s@.phase is Starting,
            s@.current is None,
    {
        RebuildSupervisor { phase: RebuildPhase::Starting, current: None }
    }

    /// A fresh instance was confirmed listening: publish its address to
    /// the proxy at the next generation, make it current, and release
    /// the previous instance — only now, after the publication — for
    /// termination.
    pub fn instance_started(&mut self, addr: InstanceAddr, proxy: &mut Proxy) -> (released: Option<
        InstanceAddr,
    >)
        requires
            old(self)@.phase is Starting || old(self)@.phase is Rebuilding,
            graphql_generation(*old(proxy)) < u64::MAX,
        ensures
            final(self)@ == rebuild_step(old(self)@, RebuildInput::InstanceStarted(addr@)),
            final(self)@.phase is Serving,
            (final(proxy).graphql matches Some(e) && e@.host == addr@.host && e@.port == addr@.port
                && e@.generation == graphql_generation(*old(proxy)) + 1),
            final(proxy).rpc == old(proxy).rpc,
            match released {
                Some(a) => old(self)@.current == Some(a@),
                None => old(self)@.current is None,
            },
    {
        let host_copy = addr.host.clone();
        proxy.set_graphql_addr(host_copy, addr.port);
        let released = self.current.take();
        self.current = Some(addr);
        self.phase = RebuildPhase::Serving;
        released
    }

    /// No fresh address could be bound: the rebuild attempt fails with
    /// a reportable error, and the instance that was serving keeps
    /// serving, untouched.
    pub fn bind_failed(&mut self) -> (e: OrchestratorError)
        requires
            old(self)@.phase is Starting || old(self)@.phase is Rebuilding,
        ensures
            final(self)@ == rebuild_step(old(self)@, RebuildInput::BindFailed),
            final(self)@.current == old(self)@.current,
            old(self)@.phase is Rebuilding ==> final(self)@.phase is Serving,
            old(self)@.phase is Starting ==> final(self)@.phase is Starting,
            e == OrchestratorError::BindFailed,
    {
        if matches!(self.phase, RebuildPhase::Rebuilding) {
            self.phase = RebuildPhase::Serving;
        }
        OrchestratorError::BindFailed
    }

    /// A data-definition event arrived while serving: begin a rebuild.
    /// The current instance keeps serving while the replacement binds.
    pub fn rebuild_requested(&mut self)
        requires
            old(self)@.phase is Serving,
        ensures
            final(self)@ == rebuild_step(old(self)@, RebuildInput::RebuildRequested),
            final(self)@.phase is Rebuilding,
            final(self)@.current == old(self)@.current,
    {
        self.phase = RebuildPhase::Rebuilding;
    }

    /// The event broker closed: no further rebuilds are possible. The
    /// current instance, if any, is released for termination and the
    /// supervisor exits cleanly.
    pub fn broker_closed(&mut self) -> (released: Option<InstanceAddr>)
        ensures
            final(self)@ == rebuild_step(old(self)@, RebuildInput::BrokerClosed),
            final(self)@.phase is Stopped,
            (released matches Some(a)) <==> old(self)@.current is Some,
    {
        self.phase = RebuildPhase::Stopped;
        self.current.take()
    }
}

/// Start-before-stop, run-wide: once an instance is confirmed serving,
/// every later observation point still has a confirmed instance — a
/// failed bind in particular leaves the old instance present and serving
/// — until the broker closes and the supervisor shuts down on purpose.
pub proof fn lemma_no_visible_outage(s: RebuildModel, inputs: Seq<RebuildInput>, k: int)
    requires
        s.current is Some,
        0 <= k <= inputs.len(),
        forall|i: int| 0 <= i < inputs.len() ==> !(inputs[i] is BrokerClosed),
    ensures
        rebuild_run(s, inputs.take(k)).current is Some,
    decreases k,
{
    if k > 0 {
        lemma_no_visible_outage(s, inputs, k - 1);
        assert(inputs.take(k).drop_last() =~= inputs.take(k - 1));
        assert(inputs.take(k).last() == inputs[k - 1]);
    } else {
        assert(inputs.take(0) =~= Seq::empty());
    }
}

} // verus!
