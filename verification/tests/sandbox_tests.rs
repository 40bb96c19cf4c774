use shippingbridge::sandbox::ArtifactOutcome;
use shippingbridge::sandbox::Capability;
use shippingbridge::sandbox::CapabilityContext;
use shippingbridge::sandbox::CapabilitySet;
use shippingbridge::sandbox::EngineConfig;
use shippingbridge::sandbox::ProxyTemplate;
use shippingbridge::sandbox::StartupError;
use shippingbridge::sandbox::load_component;
use shippingbridge::sandbox::startup;

fn guest_imports() -> Vec<Capability> {
    vec![
        Capability::Environment,
        Capability::Stdio,
        Capability::HttpHandler,
    ]
}

#[test]
fn engine_config_enables_what_the_guest_needs() {
    let c = EngineConfig::for_guest();
    assert!(c.component_model);
    assert!(c.async_support);
}

#[test]
fn proxy_grant_never_includes_outbound_network() {
    let g = CapabilitySet::proxy_grant();
    assert!(g.environment && g.stdio && g.http_handler);
    assert!(!g.outbound_network);
}

#[test]
fn unreadable_artifact_is_a_load_error() {
    assert_eq!(
        load_component(ArtifactOutcome::Unreadable),
        Err(StartupError::LoadError)
    );
}

#[test]
fn malformed_artifact_is_a_compile_error() {
    assert_eq!(
        load_component(ArtifactOutcome::Malformed),
        Err(StartupError::CompileError)
    );
}

#[test]
fn valid_artifact_loads() {
    assert_eq!(load_component(ArtifactOutcome::Valid), Ok(()));
}

#[test]
fn startup_with_missing_artifact_never_begins_listening() {
    // A nonexistent artifact path surfaces as LoadError and startup yields
    // no template, so the serving loop is never entered.
    let r = startup(
        EngineConfig::for_guest(),
        ArtifactOutcome::Unreadable,
        CapabilitySet::proxy_grant(),
        &guest_imports(),
    );
    assert_eq!(r, Err(StartupError::LoadError));
}

#[test]
fn linking_rejects_an_import_outside_the_grant() {
    let mut imports = guest_imports();
    imports.push(Capability::OutboundNetwork);
    let r = ProxyTemplate::build(EngineConfig::for_guest(), CapabilitySet::proxy_grant(), &imports);
    assert_eq!(r, Err(StartupError::LinkError));
}

#[test]
fn startup_links_a_valid_artifact_against_the_grant() {
    let engine = EngineConfig::for_guest();
    let granted = CapabilitySet::proxy_grant();
    let t = startup(engine, ArtifactOutcome::Valid, granted, &guest_imports())
        .expect("a valid, linkable guest starts up");
    assert_eq!(t, ProxyTemplate { engine, granted });
}

#[test]
fn fresh_contexts_inherit_as_granted_and_stay_distinct() {
    let template = ProxyTemplate {
        engine: EngineConfig::for_guest(),
        granted: CapabilitySet::proxy_grant(),
    };
    let a = CapabilityContext::fresh(&template, 1);
    let b = CapabilityContext::fresh(&template, 2);
    assert!(a.inherit_stdio && a.inherit_env);
    assert_eq!(a.request_id, 1);
    assert_eq!(b.request_id, 2);
    assert_ne!(a, b);
}
