//! Startup of the sandbox and the per-request capability boundary.
//!
//! The engine and the proxy template are built exactly once, before serving
//! begins, and are shared read-only by every request afterwards. Startup can
//! fail in three ways — an unreadable artifact, an artifact that does not
//! validate, and a guest import outside the granted capability set — and
//! each failure keeps the process from ever listening. A fresh
//! [`CapabilityContext`] is built for every request and owned by it alone:
//! that is the isolation boundary between concurrent requests.

use vstd::prelude::*;

verus! {

/// A capability a guest import may demand and the host may grant.
#[derive(Debug, Clone, Copy, PartialEq, Eq, Structural)]
pub enum Capability {
    /// Reading the host environment.
    Environment,
    /// Inheriting standard I/O.
    Stdio,
    /// Receiving a request and delivering a response.
    HttpHandler,
    /// Opening arbitrary outbound connections.
    OutboundNetwork,
}

/// The fixed set of capabilities the host grants when linking the guest.
#[derive(Debug, Clone, Copy, PartialEq, Eq, Structural)]
pub struct CapabilitySet {
    pub environment: bool,
    pub stdio: bool,
    pub http_handler: bool,
    pub outbound_network: bool,
}

impl CapabilitySet {
    /// Whether this set grants one capability.
    pub open spec fn grants(self, c: Capability) -> bool {
        match c {
            Capability::Environment => self.environment,
            Capability::Stdio => self.stdio,
            Capability::HttpHandler => self.http_handler,
            Capability::OutboundNetwork => self.outbound_network,
        }
    }

    /// The proxy-only threat model: the guest may handle requests but never
    /// open outbound connections of its own.
    pub open spec fn proxy_only(self) -> bool {
        !self.outbound_network
    }

    /// The grant used for the guest: environment, standard I/O and request
    /// handling, and nothing that reaches the network directly.
    pub fn proxy_grant() -> (s: CapabilitySet)
        ensures
            s.environment,
            s.stdio,
            s.http_handler,
            s.proxy_only(),
    {
        CapabilitySet { environment: true, stdio: true, http_handler: true, outbound_network: false }
    }

    /// Test one capability against this grant.
    pub fn grants_capability(&self, c: Capability) -> (b: bool)
        ensures
            b == self.grants(c),
    {
        match c {
            Capability::Environment => self.environment,
            Capability::Stdio => self.stdio,
            Capability::HttpHandler => self.http_handler,
            Capability::OutboundNetwork => self.outbound_network,
        }
    }
}

/// Engine settings fixed at startup and never reconfigured per request.
#[derive(Debug, Clone, Copy, PartialEq, Eq, Structural)]
pub struct EngineConfig {
    /// Component-shaped guests are accepted.
    pub component_model: bool,
    /// Guest execution may suspend and resume.
    pub async_support: bool,
}

impl EngineConfig {
    /// What the guest requires of the engine.
    pub open spec fn supports_guest(self) -> bool {
        self.component_model && self.async_support
    }

    /// The configuration the sandbox engine is created with.
    pub fn for_guest() -> (c: EngineConfig)
        ensures
            c.supports_guest(),
    {
        EngineConfig { component_model: true, async_support: true }
    }
}

/// How reading and validating the guest artifact ended.
#[derive(Debug, Clone, Copy, PartialEq, Eq, Structural)]
pub enum ArtifactOutcome {
    /// The artifact path was missing or unreadable.
    Unreadable,
    /// The artifact was read but its structure did not validate.
    Malformed,
    /// The artifact was read and validated.
    Valid,
}

/// A startup failure. Each is fatal: without a valid, linked guest there is
/// nothing to serve.
#[derive(Debug, Clone, Copy, PartialEq, Eq, Structural)]
pub enum StartupError {
    /// The artifact could not be read.
    LoadError,
    /// The artifact could not be validated.
    CompileError,
    /// The guest demands an import outside the granted capability set.
    LinkError,
}

/// Classify how loading the guest artifact ended: an unreadable path is a
/// `LoadError`, an invalid artifact a `CompileError`.
pub fn load_component(outcome: ArtifactOutcome) -> (r: Result<(), StartupError>)
    ensures
        r is Ok <==> outcome is Valid,
        outcome is Unreadable <==> r == Err::<(), StartupError>(StartupError::LoadError),
        outcome is Malformed <==> r == Err::<(), StartupError>(StartupError::CompileError),
{
    match outcome {
        ArtifactOutcome::Unreadable => Err(StartupError::LoadError),
        ArtifactOutcome::Malformed => Err(StartupError::CompileError),
        ArtifactOutcome::Valid => Ok(()),
    }
}

/// The reusable recipe binding the loaded guest to the granted capability
/// surface. Built once, shared read-only by all requests, cheap to reuse.
#[derive(Debug, Clone, Copy, PartialEq, Eq, Structural)]
pub struct ProxyTemplate {
    pub engine: EngineConfig,
    pub granted: CapabilitySet,
}

/// All of the guest's declared imports fall inside the grant.
pub open spec fn imports_linkable(granted: CapabilitySet, imports: Seq<Capability>) -> bool {
    forall|i: int| 0 <= i < imports.len() ==> granted.grants(#[trigger] imports[i])
}

impl ProxyTemplate {
    /// Resolve the guest's declared imports against the grant. An import
    /// outside the grant fails with `LinkError`; otherwise the template is
    /// ready for any number of per-request instantiations.
    pub fn build(engine: EngineConfig, granted: CapabilitySet, imports: &Vec<Capability>) -> (r:
        Result<ProxyTemplate, StartupError>)
        requires
            engine.supports_guest(),
        ensures
            r is Ok <==> imports_linkable(granted, imports@),
            r is Err ==> r == Err::<ProxyTemplate, StartupError>(StartupError::LinkError),
            r matches Ok(t) ==> t == (ProxyTemplate { engine, granted }),
    {
        let mut i: usize = 0;
        while i < imports.len()
            invariant
                i <= imports@.len(),
                forall|j: int| 0 <= j < i ==> granted.grants(#[trigger] imports@[j]),
            decreases imports@.len() - i,
        {
            if !granted.grants_capability(imports[i]) {
                return Err(StartupError::LinkError);
            }
            i = i + 1;
        }
        Ok(ProxyTemplate { engine, granted })
    }
}

/// The whole startup pipeline: load and validate the artifact, then link it
/// against the grant. Serving begins only on `Ok`; in particular an
/// unreadable artifact yields `LoadError` and the process never listens.
pub fn startup(
    engine: EngineConfig,
    artifact: ArtifactOutcome,
    granted: CapabilitySet,
    imports: &Vec<Capability>,
) -> (r: Result<ProxyTemplate, StartupError>)
    requires
        engine.supports_guest(),
    ensures
        r is Ok <==> (artifact is Valid && imports_linkable(granted, imports@)),
        artifact is Unreadable ==> r == Err::<ProxyTemplate, StartupError>(StartupError::LoadError),
        artifact is Malformed ==> r == Err::<ProxyTemplate, StartupError>(
            StartupError::CompileError,
        ),
        r matches Ok(t) ==> t == (ProxyTemplate { engine, granted }),
{
    match load_component(artifact) {
        Err(e) => Err(e),
        Ok(()) => ProxyTemplate::build(engine, granted, imports),
    }
}

/// The per-request capability bundle: a fresh resource table and the
/// inheritance this request was granted. It is owned by exactly one request
/// and dropped with it; nothing in it is shared.
#[derive(Debug, Clone, Copy, PartialEq, Eq, Structural)]
pub struct CapabilityContext {
    /// The request this context was built for.
    pub request_id: u64,
    /// Standard I/O is inherited from the host.
    pub inherit_stdio: bool,
    /// The host environment is inherited.
    pub inherit_env: bool,
}

impl CapabilityContext {
    /// The context one request receives from the shared template.
    pub open spec fn fresh_spec(template: ProxyTemplate, request_id: u64) -> CapabilityContext {
        CapabilityContext {
            request_id,
            inherit_stdio: template.granted.stdio,
            inherit_env: template.granted.environment,
        }
    }

    /// Build the fresh context of one request from the shared template.
    pub fn fresh(template: &ProxyTemplate, request_id: u64) -> (ctx: CapabilityContext)
        ensures
            ctx == CapabilityContext::fresh_spec(*template, request_id),
            ctx.request_id == request_id,
            ctx.inherit_stdio == template.granted.stdio,
            ctx.inherit_env == template.granted.environment,
    {
        CapabilityContext {
            request_id,
            inherit_stdio: template.granted.stdio,
            inherit_env: template.granted.environment,
        }
    }
}

/// Isolation of the per-request boundary: contexts built for distinct
/// requests are distinct values, so no two in-flight requests ever share
/// one.
pub proof fn lemma_context_isolation(a: CapabilityContext, b: CapabilityContext)
    requires
        a.request_id != b.request_id,
    ensures
        a != b,
{
}

} // verus!
