use codex_acp::models::{
    provider_activation_for_request, ProviderActivation, KODEX_BYOK_PROXY_PROVIDER_ID,
};

fn byok_configured_providers(provider: &str) -> bool {
    matches!(provider, "byok" | "timiai")
}

#[test]
fn keeps_byok_runtime_when_switching_from_byok_to_source_provider() {
    assert!(matches!(
        provider_activation_for_request("custom", "byok", byok_configured_providers).unwrap(),
        ProviderActivation::KeepCurrent
    ));
}

#[test]
fn routes_to_byok_proxy_when_switching_from_upstream_to_source_provider() {
    assert!(matches!(
        provider_activation_for_request("custom", "timiai", byok_configured_providers).unwrap(),
        ProviderActivation::Activate(ref target)
            if target == KODEX_BYOK_PROXY_PROVIDER_ID
    ));
}

#[test]
fn activates_configured_upstream_provider() {
    assert!(matches!(
        provider_activation_for_request("timiai", "byok", byok_configured_providers).unwrap(),
        ProviderActivation::Activate(ref target) if target == "timiai"
    ));
}

#[test]
fn keeps_current_provider_when_request_matches_current() {
    assert!(matches!(
        provider_activation_for_request("timiai", "timiai", byok_configured_providers).unwrap(),
        ProviderActivation::KeepCurrent
    ));
}

#[test]
fn rejects_unsupported_provider_without_byok_proxy() {
    let configured = |provider: &str| provider == "openai";
    assert!(provider_activation_for_request("custom", "openai", configured).is_err());
}
