//! Models, reasoning efforts, and the providers that serve them.
use crate::collections::{add_item, empty, one, result_view};
use crate::json::{Json, JsonView, text_value};
use crate::protocol::{Error, ErrorKind, ErrorKindView, ErrorView, ReasoningEffort};
use crate::session_config::{
    Config, ConfigView, KodexModelProviderEntry, KodexModelProviderEntryView,
};
use crate::text::{
    before_char, concat2, concat3, concat4, lemma_before_char, lemma_marked_parts, parted, same,
    split_once, starts_with, strip_prefix, trim, trimmed, trimmed_is_trimmed,
};
use vstd::prelude::*;

verus! {

/// A reasoning effort that a model supports.
#[derive(Debug, PartialEq)]
pub struct EffortPreset {
    pub effort: ReasoningEffort,
    pub description: String,
}

#[verifier::ext_equal]
pub struct EffortPresetView {
    pub effort: ReasoningEffort,
    pub description: Seq<char>,
}

impl DeepView for EffortPreset {
    type V = EffortPresetView;

    open spec fn deep_view(&self) -> EffortPresetView {
        EffortPresetView {
            effort: self.effort.deep_view(),
            description: self.description.deep_view(),
        }
    }
}

/// A model as it is offered.
#[derive(Debug, PartialEq)]
pub struct ModelPreset {
    pub id: String,
    pub model: String,
    pub display_name: String,
    pub description: String,
    pub default_reasoning_effort: ReasoningEffort,
    pub supported_reasoning_efforts: Vec<EffortPreset>,
    pub show_in_picker: bool,
}

#[verifier::ext_equal]
pub struct ModelPresetView {
    pub id: Seq<char>,
    pub model: Seq<char>,
    pub display_name: Seq<char>,
    pub description: Seq<char>,
    pub default_reasoning_effort: ReasoningEffort,
    pub supported_reasoning_efforts: Seq<EffortPresetView>,
    pub show_in_picker: bool,
}

impl DeepView for ModelPreset {
    type V = ModelPresetView;

    open spec fn deep_view(&self) -> ModelPresetView {
        ModelPresetView {
            id: self.id.deep_view(),
            model: self.model.deep_view(),
            display_name: self.display_name.deep_view(),
            description: self.description.deep_view(),
            default_reasoning_effort: self.default_reasoning_effort.deep_view(),
            supported_reasoning_efforts: self.supported_reasoning_efforts.deep_view(),
            show_in_picker: self.show_in_picker.deep_view(),
        }
    }
}

/// A model with an effort, as shown to the client.
#[derive(Debug, PartialEq)]
pub struct ModelInfo {
    pub id: String,
    pub name: String,
    pub description: Option<String>,
    pub meta: Option<Vec<(String, Json)>>,
}

#[verifier::ext_equal]
pub struct ModelInfoView {
    pub id: Seq<char>,
    pub name: Seq<char>,
    pub description: Option<Seq<char>>,
    pub meta: Option<Seq<(Seq<char>, JsonView)>>,
}

impl DeepView for ModelInfo {
    type V = ModelInfoView;

    open spec fn deep_view(&self) -> ModelInfoView {
        ModelInfoView {
            id: self.id.deep_view(),
            name: self.name.deep_view(),
            description: self.description.deep_view(),
            meta: self.meta.deep_view(),
        }
    }
}

/// The models and the current one.
#[derive(Debug, PartialEq)]
pub struct SessionModelState {
    pub current_model_id: String,
    pub available_models: Vec<ModelInfo>,
}

#[verifier::ext_equal]
pub struct SessionModelStateView {
    pub current_model_id: Seq<char>,
    pub available_models: Seq<ModelInfoView>,
}

impl DeepView for SessionModelState {
    type V = SessionModelStateView;

    open spec fn deep_view(&self) -> SessionModelStateView {
        SessionModelStateView {
            current_model_id: self.current_model_id.deep_view(),
            available_models: self.available_models.deep_view(),
        }
    }
}

/// What a model switch does with the provider.
#[derive(Debug, PartialEq)]
pub enum ProviderActivation {
    KeepCurrent,
    Activate(String),
}

#[verifier::ext_equal]
pub enum ProviderActivationView {
    KeepCurrent,
    Activate(Seq<char>),
}

impl DeepView for ProviderActivation {
    type V = ProviderActivationView;

    open spec fn deep_view(&self) -> ProviderActivationView {
        match self {
            ProviderActivation::KeepCurrent => ProviderActivationView::KeepCurrent,
            ProviderActivation::Activate(value) => ProviderActivationView::Activate(
                value.deep_view(),
            ),
        }
    }
}

/// The provider that serves every model of a bring-your-own-key source. It reads the source from
/// the model's name.
pub const KODEX_BYOK_PROXY_PROVIDER_ID: &'static str = "byok";

pub const KODEX_PROVIDER_VALUE_PREFIX: &'static str = "kodex-provider:";

impl ReasoningEffort {
    /// The name of the effort.
    pub open spec fn text(self) -> Seq<char> {
        match self {
            ReasoningEffort::Off => "none"@,
            ReasoningEffort::Minimal => "minimal"@,
            ReasoningEffort::Low => "low"@,
            ReasoningEffort::Medium => "medium"@,
            ReasoningEffort::High => "high"@,
            ReasoningEffort::XHigh => "xhigh"@,
        }
    }

    /// The name of the effort.
    pub fn name(self) -> (text: &'static str)
        ensures
            text@ == self.text(),
    {
        match self {
            ReasoningEffort::Off => "none",
            ReasoningEffort::Minimal => "minimal",
            ReasoningEffort::Low => "low",
            ReasoningEffort::Medium => "medium",
            ReasoningEffort::High => "high",
            ReasoningEffort::XHigh => "xhigh",
        }
    }
}

/// The effort with the given name.
pub open spec fn effort_named(text: Seq<char>) -> Option<ReasoningEffort> {
    if text == "none"@ {
        Some(ReasoningEffort::Off)
    } else if text == "minimal"@ {
        Some(ReasoningEffort::Minimal)
    } else if text == "low"@ {
        Some(ReasoningEffort::Low)
    } else if text == "medium"@ {
        Some(ReasoningEffort::Medium)
    } else if text == "high"@ {
        Some(ReasoningEffort::High)
    } else if text == "xhigh"@ {
        Some(ReasoningEffort::XHigh)
    } else {
        None
    }
}

pub fn parse_effort(text: &str) -> (effort: Option<ReasoningEffort>)
    ensures
        effort == effort_named(text@),
{
    if same(text, "none") {
        Some(ReasoningEffort::Off)
    } else if same(text, "minimal") {
        Some(ReasoningEffort::Minimal)
    } else if same(text, "low") {
        Some(ReasoningEffort::Low)
    } else if same(text, "medium") {
        Some(ReasoningEffort::Medium)
    } else if same(text, "high") {
        Some(ReasoningEffort::High)
    } else if same(text, "xhigh") {
        Some(ReasoningEffort::XHigh)
    } else {
        None
    }
}

/// What `heck` makes of a text in title case.
pub uninterp spec fn title_case_of(text: Seq<char>) -> Seq<char>;

/// `heck::ToTitleCase::to_title_case`: the words of the text, each with a capital, one space
/// apart. The result is named, and depends on the text alone.
#[verifier::external_body]
pub(crate) fn to_title_case(text: &str) -> (titled: String)
    ensures
        titled@ == title_case_of(text@),
{
    heck::ToTitleCase::to_title_case(text)
}

/// A value together with the provider that serves it. A value that already names its provider is
/// left as it is.
pub open spec fn encoded_value(value: Seq<char>, provider: Seq<char>) -> Seq<char> {
    if starts_with(value, KODEX_PROVIDER_VALUE_PREFIX@) || trimmed(provider).len() == 0 {
        value
    } else {
        KODEX_PROVIDER_VALUE_PREFIX@ + trimmed(provider) + ":"@ + value
    }
}

pub fn encode_provider_value(value: &str, provider: &str) -> (encoded: String)
    ensures
        encoded@ == encoded_value(value@, provider@),
{
    let provider = trim(provider);
    if strip_prefix(value, KODEX_PROVIDER_VALUE_PREFIX).is_some() || provider.is_empty() {
        value.to_owned()
    } else {
        concat4(KODEX_PROVIDER_VALUE_PREFIX, provider, ":", value)
    }
}

/// The provider that a value names, if it names one, and the bare value.
pub open spec fn decoded_value(value: Seq<char>) -> (Option<Seq<char>>, Seq<char>) {
    if starts_with(value, KODEX_PROVIDER_VALUE_PREFIX@) {
        match parted(value.skip(KODEX_PROVIDER_VALUE_PREFIX@.len() as int), ':') {
            Some((provider, model)) => if trimmed(provider).len() == 0 {
                (None, model)
            } else {
                (Some(trimmed(provider)), model)
            },
            None => (None, value),
        }
    } else {
        (None, value)
    }
}

pub fn decode_provider_value(value: &str) -> (decoded: (Option<String>, String))
    ensures
        decoded.deep_view() == decoded_value(value@),
{
    match strip_prefix(value, KODEX_PROVIDER_VALUE_PREFIX) {
        Some(rest) => match split_once(rest, ':') {
            Some((provider, model)) => {
                let provider = trim(provider);
                if provider.is_empty() {
                    (None, model.to_owned())
                } else {
                    (Some(provider.to_owned()), model.to_owned())
                }
            },
            None => (None, value.to_owned()),
        },
        None => (None, value.to_owned()),
    }
}

/// The identifier of a model with an effort at a provider.
pub open spec fn model_id_at(id: Seq<char>, effort: ReasoningEffort, provider: Seq<char>) -> Seq<
    char,
> {
    encoded_value(id + "/"@ + effort.text(), provider)
}

pub fn model_id_for_provider(id: &str, effort: ReasoningEffort, provider: &str) -> (model_id:
    String)
    ensures
        model_id@ == model_id_at(id@, effort, provider@),
{
    let value = concat3(id, "/", effort.name());
    encode_provider_value(value.as_str(), provider)
}

/// The model and the effort that an identifier names.
pub open spec fn parsed_model_id(id: Seq<char>) -> Option<(Seq<char>, ReasoningEffort)> {
    match parted(id, '/') {
        Some((model, effort)) => match effort_named(effort) {
            Some(effort) => Some((model, effort)),
            None => None,
        },
        None => None,
    }
}

pub fn parse_model_id(id: &str) -> (parsed: Option<(String, ReasoningEffort)>)
    ensures
        parsed.deep_view() == parsed_model_id(id@),
{
    match split_once(id, '/') {
        Some((model, effort)) => match parse_effort(effort) {
            Some(effort) => Some((model.to_owned(), effort)),
            None => None,
        },
        None => None,
    }
}

pub open spec fn provider_meta(provider: Seq<char>) -> Seq<(Seq<char>, JsonView)> {
    seq![("provider"@, JsonView::Text(provider))]
}

pub fn model_provider_meta(provider: &str) -> (meta: Vec<(String, Json)>)
    ensures
        meta.deep_view() == provider_meta(provider@),
{
    one(("provider".to_owned(), text_value(provider)))
}

pub open spec fn invalid_params(data: Option<JsonView>) -> ErrorView {
    ErrorView { kind: ErrorKindView::InvalidParams, data }
}

pub fn invalid_params_error(message: &str) -> (error: Error)
    ensures
        error.deep_view() == invalid_params(Some(JsonView::Text(message@))),
{
    Error { kind: ErrorKind::InvalidParams, data: Some(text_value(message)) }
}

/// The provider to run after a switch to a model of `requested`. A provider that is configured
/// is activated. One that is not is a source behind the proxy, where the proxy is configured.
pub open spec fn activation(
    requested: Seq<char>,
    current: Seq<char>,
    configured: bool,
    proxy_configured: bool,
) -> Result<ProviderActivationView, ErrorView> {
    if requested == current {
        Ok(ProviderActivationView::KeepCurrent)
    } else if configured {
        Ok(ProviderActivationView::Activate(requested))
    } else if proxy_configured {
        if current == KODEX_BYOK_PROXY_PROVIDER_ID@ {
            Ok(ProviderActivationView::KeepCurrent)
        } else {
            Ok(ProviderActivationView::Activate(KODEX_BYOK_PROXY_PROVIDER_ID@))
        }
    } else {
        Err(
            invalid_params(
                Some(
                    JsonView::Text("Unsupported provider for selected model: "@ + requested),
                ),
            ),
        )
    }
}

/// Resolves the provider to run after a switch to a model of `requested_provider`.
/// `is_provider_configured` is asked about the requested provider, and then about the proxy.
pub fn provider_activation_for_request<F: Fn(&str) -> bool>(
    requested_provider: &str,
    current_provider_id: &str,
    is_provider_configured: F,
) -> (result: Result<ProviderActivation, Error>)
    requires
        forall|provider: &str| #[trigger] call_requires(is_provider_configured, (provider,)),
    ensures
        requested_provider@ == current_provider_id@ ==> result_view(result) == activation(
            requested_provider@,
            current_provider_id@,
            false,
            false,
        ),
        requested_provider@ != current_provider_id@ ==> exists|configured: bool|
            #[trigger]
            call_ensures(is_provider_configured, (requested_provider,), configured)
                && if configured {
                result_view(result) == activation(
                    requested_provider@,
                    current_provider_id@,
                    true,
                    false,
                )
            } else {
                exists|proxied: bool| #[trigger]
                    call_ensures(
                        is_provider_configured,
                        (KODEX_BYOK_PROXY_PROVIDER_ID,),
                        proxied,
                    ) && result_view(result) == activation(
                        requested_provider@,
                        current_provider_id@,
                        false,
                        proxied,
                    )
            },
{
    if same(requested_provider, current_provider_id) {
        return Ok(ProviderActivation::KeepCurrent);
    }
    let configured = is_provider_configured(requested_provider);
    if configured {
        return Ok(ProviderActivation::Activate(requested_provider.to_owned()));
    }
    let proxied = is_provider_configured(KODEX_BYOK_PROXY_PROVIDER_ID);
    if proxied {
        if same(current_provider_id, KODEX_BYOK_PROXY_PROVIDER_ID) {
            return Ok(ProviderActivation::KeepCurrent);
        }
        return Ok(ProviderActivation::Activate(KODEX_BYOK_PROXY_PROVIDER_ID.to_owned()));
    }
    let message = concat2("Unsupported provider for selected model: ", requested_provider);
    Err(invalid_params_error(message.as_str()))
}

pub open spec fn entry_serves(
    entry: KodexModelProviderEntryView,
    model: Seq<char>,
    display_name: Seq<char>,
) -> bool {
    entry.model == model || entry.display_name == display_name
}

/// The position of the first entry that serves the model and is not used up, or the number of
/// entries.
pub open spec fn entry_index(
    entries: Seq<KodexModelProviderEntryView>,
    used: Seq<bool>,
    model: Seq<char>,
    display_name: Seq<char>,
) -> int
    decreases entries.len(),
{
    if entries.len() == 0 {
        0
    } else if used.len() > 0 && !used[0] && entry_serves(entries[0], model, display_name) {
        0
    } else {
        1 + entry_index(
            entries.drop_first(),
            if used.len() > 0 {
                used.drop_first()
            } else {
                used
            },
            model,
            display_name,
        )
    }
}

/// What `entry_index` finds: a free entry that serves the model, with none before it.
pub proof fn lemma_entry_index(
    entries: Seq<KodexModelProviderEntryView>,
    used: Seq<bool>,
    model: Seq<char>,
    display_name: Seq<char>,
)
    ensures
        0 <= entry_index(entries, used, model, display_name) <= entries.len(),
        entry_index(entries, used, model, display_name) < entries.len() ==> {
            let i = entry_index(entries, used, model, display_name);
            i < used.len() && !used[i] && entry_serves(entries[i], model, display_name)
        },
        forall|i: int|
            0 <= i < entry_index(entries, used, model, display_name) && i < used.len() && !used[i]
                ==> !entry_serves(#[trigger] entries[i], model, display_name),
    decreases entries.len(),
{
    if entries.len() > 0 && !(used.len() > 0 && !used[0] && entry_serves(
        entries[0],
        model,
        display_name,
    )) {
        let rest = entries.drop_first();
        let rest_used = if used.len() > 0 {
            used.drop_first()
        } else {
            used
        };
        lemma_entry_index(rest, rest_used, model, display_name);
        assert forall|i: int|
            0 <= i < entry_index(entries, used, model, display_name) && i < used.len()
                && !used[i] implies !entry_serves(#[trigger] entries[i], model, display_name) by {
            if i > 0 {
                assert(rest[i - 1] == entries[i]);
                assert(rest_used[i - 1] == used[i]);
            }
        }
    }
}

/// The provider of the first free entry that serves the model; the entry is used up with that.
pub fn provider_for_preset_from_entries(
    entries: &Vec<KodexModelProviderEntry>,
    used_entries: &mut Vec<bool>,
    model: &str,
    display_name: &str,
) -> (provider: Option<String>)
    ensures
        ({
            let i = entry_index(entries.deep_view(), old(used_entries)@, model@, display_name@);
            if i < entries@.len() {
                &&& provider.deep_view() == Some(entries.deep_view()[i].provider)
                &&& final(used_entries)@ == old(used_entries)@.update(i, true)
            } else {
                &&& provider is None
                &&& final(used_entries)@ == old(used_entries)@
            }
        }),
{
    let ghost all = entries.deep_view();
    let ghost used = used_entries@;
    proof {
        lemma_entry_index(all, used, model@, display_name@);
    }
    for i in 0..entries.len()
        invariant
            all == entries.deep_view(),
            used == used_entries@,
            used == old(used_entries)@,
            0 <= entry_index(all, used, model@, display_name@) <= all.len(),
            entry_index(all, used, model@, display_name@) < all.len() ==> {
                let k = entry_index(all, used, model@, display_name@);
                k < used.len() && !used[k] && entry_serves(all[k], model@, display_name@)
            },
            forall|k: int|
                0 <= k < entry_index(all, used, model@, display_name@) && k < used.len() && !used[k]
                    ==> !entry_serves(#[trigger] all[k], model@, display_name@),
            forall|k: int|
                0 <= k < i && k < used.len() && !used[k] ==> !entry_serves(
                    #[trigger] all[k],
                    model@,
                    display_name@,
                ),
    {
        if i < used_entries.len() && !used_entries[i] {
            let entry = &entries[i];
            if same(entry.model.as_str(), model) || same(
                entry.display_name.as_str(),
                display_name,
            ) {
                assert(entry_serves(all[i as int], model@, display_name@));
                used_entries.set(i, true);
                return Some(entry.provider.clone());
            }
            assert(!entry_serves(all[i as int], model@, display_name@));
        }
    }
    None
}

/// The providers of the models, in their order: each entry serves one model, and a model without
/// an entry is served by the active provider.
pub open spec fn assigned_providers(
    presets: Seq<ModelPresetView>,
    entries: Seq<KodexModelProviderEntryView>,
    used: Seq<bool>,
    active: Seq<char>,
) -> Seq<Seq<char>>
    decreases presets.len(),
{
    if presets.len() == 0 {
        seq![]
    } else {
        let i = entry_index(entries, used, presets[0].model, presets[0].display_name);
        if i < entries.len() {
            seq![entries[i].provider] + assigned_providers(
                presets.drop_first(),
                entries,
                used.update(i, true),
                active,
            )
        } else {
            seq![active] + assigned_providers(presets.drop_first(), entries, used, active)
        }
    }
}

/// The providers of the models when no entry is used up yet.
pub open spec fn providers_of(
    presets: Seq<ModelPresetView>,
    entries: Seq<KodexModelProviderEntryView>,
    active: Seq<char>,
) -> Seq<Seq<char>> {
    assigned_providers(presets, entries, Seq::new(entries.len(), |i: int| false), active)
}

pub proof fn lemma_assigned_len(
    presets: Seq<ModelPresetView>,
    entries: Seq<KodexModelProviderEntryView>,
    used: Seq<bool>,
    active: Seq<char>,
)
    ensures
        assigned_providers(presets, entries, used, active).len() == presets.len(),
    decreases presets.len(),
{
    if presets.len() > 0 {
        let i = entry_index(entries, used, presets[0].model, presets[0].display_name);
        lemma_assigned_len(presets.drop_first(), entries, used.update(i, true), active);
        lemma_assigned_len(presets.drop_first(), entries, used, active);
    }
}

pub fn assign_providers(
    presets: &Vec<ModelPreset>,
    entries: &Vec<KodexModelProviderEntry>,
    active: &str,
) -> (providers: Vec<String>)
    ensures
        providers.deep_view() == providers_of(presets.deep_view(), entries.deep_view(), active@),
        providers@.len() == presets@.len(),
{
    let ghost all = presets.deep_view();
    let ghost listed = entries.deep_view();
    let mut used: Vec<bool> = Vec::new();
    for i in 0..entries.len()
        invariant
            used@.len() == i,
            forall|k: int| 0 <= k < i ==> !used@[k],
    {
        used.push(false);
    }
    let ghost none_used = Seq::new(listed.len(), |i: int| false);
    assert(used@ =~= none_used);
    let mut providers: Vec<String> = empty();
    assert(all.skip(0) =~= all);
    for i in 0..presets.len()
        invariant
            all == presets.deep_view(),
            listed == entries.deep_view(),
            providers@.len() == i,
            providers.deep_view() + assigned_providers(all.skip(i as int), listed, used@, active@)
                == assigned_providers(all, listed, none_used, active@),
    {
        let ghost before = used@;
        let ghost done = providers.deep_view();
        let preset = &presets[i];
        assert(all.skip(i as int)[0] == preset.deep_view());
        assert(all.skip(i as int).drop_first() =~= all.skip(i + 1));
        let provider = match provider_for_preset_from_entries(
            entries,
            &mut used,
            preset.model.as_str(),
            preset.display_name.as_str(),
        ) {
            Some(provider) => provider,
            None => active.to_owned(),
        };
        let ghost chosen = provider@;
        add_item(&mut providers, provider);
        assert(done + (seq![chosen] + assigned_providers(all.skip(i + 1), listed, used@, active@))
            =~= providers.deep_view() + assigned_providers(
            all.skip(i + 1),
            listed,
            used@,
            active@,
        ));
    }
    assert(all.skip(all.len() as int) =~= seq![]);
    assert(providers.deep_view() + seq![] =~= providers.deep_view());
    providers
}

/// The position of the first preset of a model, or the number of presets.
pub open spec fn model_index(presets: Seq<ModelPresetView>, model: Seq<char>) -> int
    decreases presets.len(),
{
    if presets.len() == 0 {
        0
    } else if presets[0].model == model {
        0
    } else {
        1 + model_index(presets.drop_first(), model)
    }
}

/// The position of the first preset of a model at a provider, or the number of presets.
pub open spec fn served_index(
    presets: Seq<ModelPresetView>,
    providers: Seq<Seq<char>>,
    model: Seq<char>,
    provider: Seq<char>,
) -> int
    decreases presets.len(),
{
    if presets.len() == 0 || providers.len() == 0 {
        presets.len() as int
    } else if presets[0].model == model && providers[0] == provider {
        0
    } else {
        1 + served_index(presets.drop_first(), providers.drop_first(), model, provider)
    }
}

/// The position of the current preset: at the active provider where there is one, else the first
/// of the model.
pub open spec fn current_index(
    presets: Seq<ModelPresetView>,
    providers: Seq<Seq<char>>,
    model: Seq<char>,
    active: Seq<char>,
) -> int {
    let served = served_index(presets, providers, model, active);
    if served < presets.len() {
        served
    } else {
        model_index(presets, model)
    }
}

pub proof fn lemma_model_index(presets: Seq<ModelPresetView>, model: Seq<char>)
    ensures
        0 <= model_index(presets, model) <= presets.len(),
        model_index(presets, model) < presets.len() ==> presets[model_index(presets, model)].model
            == model,
        forall|i: int| 0 <= i < model_index(presets, model) ==> (#[trigger] presets[i]).model
            != model,
    decreases presets.len(),
{
    if presets.len() > 0 && presets[0].model != model {
        lemma_model_index(presets.drop_first(), model);
        assert forall|i: int| 0 <= i < model_index(presets, model) implies (
        #[trigger] presets[i]).model != model by {
            if i > 0 {
                assert(presets.drop_first()[i - 1] == presets[i]);
            }
        }
    }
}

pub proof fn lemma_served_index(
    presets: Seq<ModelPresetView>,
    providers: Seq<Seq<char>>,
    model: Seq<char>,
    provider: Seq<char>,
)
    requires
        presets.len() == providers.len(),
    ensures
        0 <= served_index(presets, providers, model, provider) <= presets.len(),
        served_index(presets, providers, model, provider) < presets.len() ==> {
            let i = served_index(presets, providers, model, provider);
            presets[i].model == model && providers[i] == provider
        },
        forall|i: int|
            0 <= i < served_index(presets, providers, model, provider) ==> !((
            #[trigger] presets[i]).model == model && providers[i] == provider),
    decreases presets.len(),
{
    if presets.len() > 0 && !(presets[0].model == model && providers[0] == provider) {
        lemma_served_index(presets.drop_first(), providers.drop_first(), model, provider);
        assert forall|i: int|
            0 <= i < served_index(presets, providers, model, provider) implies !((
        #[trigger] presets[i]).model == model && providers[i] == provider) by {
            if i > 0 {
                assert(presets.drop_first()[i - 1] == presets[i]);
                assert(providers.drop_first()[i - 1] == providers[i]);
            }
        }
    }
}

fn find_served(
    presets: &Vec<ModelPreset>,
    providers: &Vec<String>,
    model: &str,
    provider: &str,
) -> (found: usize)
    requires
        presets@.len() == providers@.len(),
    ensures
        found == served_index(presets.deep_view(), providers.deep_view(), model@, provider@),
        found <= presets@.len(),
{
    let ghost all = presets.deep_view();
    let ghost served = providers.deep_view();
    proof {
        lemma_served_index(all, served, model@, provider@);
    }
    for i in 0..presets.len()
        invariant
            all == presets.deep_view(),
            served == providers.deep_view(),
            presets@.len() == providers@.len(),
            0 <= served_index(all, served, model@, provider@) <= all.len(),
            served_index(all, served, model@, provider@) < all.len() ==> {
                let k = served_index(all, served, model@, provider@);
                all[k].model == model@ && served[k] == provider@
            },
            forall|k: int|
                0 <= k < served_index(all, served, model@, provider@) ==> !((
                #[trigger] all[k]).model == model@ && served[k] == provider@),
            forall|k: int|
                0 <= k < i ==> !((#[trigger] all[k]).model == model@ && served[k] == provider@),
    {
        if same(presets[i].model.as_str(), model) && same(providers[i].as_str(), provider) {
            assert(all[i as int].model == model@ && served[i as int] == provider@);
            return i;
        }
        assert(!(all[i as int].model == model@ && served[i as int] == provider@));
    }
    presets.len()
}

/// The position of the first preset of a model.
pub fn find_model(presets: &Vec<ModelPreset>, model: &str) -> (found: usize)
    ensures
        found == model_index(presets.deep_view(), model@),
        found <= presets@.len(),
{
    let ghost all = presets.deep_view();
    proof {
        lemma_model_index(all, model@);
    }
    for i in 0..presets.len()
        invariant
            all == presets.deep_view(),
            0 <= model_index(all, model@) <= all.len(),
            model_index(all, model@) < all.len() ==> all[model_index(all, model@)].model == model@,
            forall|k: int|
                0 <= k < model_index(all, model@) ==> (#[trigger] all[k]).model != model@,
            forall|k: int| 0 <= k < i ==> (#[trigger] all[k]).model != model@,
    {
        if same(presets[i].model.as_str(), model) {
            assert(all[i as int].model == model@);
            return i;
        }
        assert(all[i as int].model != model@);
    }
    presets.len()
}

pub fn find_current(
    presets: &Vec<ModelPreset>,
    providers: &Vec<String>,
    model: &str,
    active: &str,
) -> (found: usize)
    requires
        presets@.len() == providers@.len(),
    ensures
        found == current_index(presets.deep_view(), providers.deep_view(), model@, active@),
        found <= presets@.len(),
{
    let served: usize = find_served(presets, providers, model, active);
    if served < presets.len() {
        served
    } else {
        find_model(presets, model)
    }
}

/// Whether a model supports an effort.
pub open spec fn supports(efforts: Seq<EffortPresetView>, effort: ReasoningEffort) -> bool {
    exists|i: int| 0 <= i < efforts.len() && (#[trigger] efforts[i]).effort == effort
}

pub fn supports_effort(efforts: &Vec<EffortPreset>, effort: ReasoningEffort) -> (supported: bool)
    ensures
        supported == supports(efforts.deep_view(), effort),
{
    let ghost all = efforts.deep_view();
    for i in 0..efforts.len()
        invariant
            all == efforts.deep_view(),
            forall|k: int| 0 <= k < i ==> (#[trigger] all[k]).effort != effort,
    {
        assert(all[i as int].effort == efforts@[i as int].effort);
        if efforts[i].effort == effort {
            return true;
        }
    }
    false
}

/// The effort for a model: the configured one where the model supports it, else its default.
pub open spec fn effort_for(
    configured: Option<ReasoningEffort>,
    preset: ModelPresetView,
) -> ReasoningEffort {
    match configured {
        Some(effort) => if supports(preset.supported_reasoning_efforts, effort) {
            effort
        } else {
            preset.default_reasoning_effort
        },
        None => preset.default_reasoning_effort,
    }
}

pub fn current_effort(configured: Option<ReasoningEffort>, preset: &ModelPreset) -> (effort:
    ReasoningEffort)
    ensures
        effort == effort_for(configured, preset.deep_view()),
{
    match configured {
        Some(effort) => if supports_effort(&preset.supported_reasoning_efforts, effort) {
            effort
        } else {
            preset.default_reasoning_effort
        },
        None => preset.default_reasoning_effort,
    }
}

/// The identifier of the current model, where it is one of the presets.
pub open spec fn current_model_id(
    config: ConfigView,
    presets: Seq<ModelPresetView>,
    entries: Seq<KodexModelProviderEntryView>,
    current_model: Seq<char>,
) -> Option<Seq<char>> {
    let active = config.model_provider_id;
    let i = current_index(presets, providers_of(presets, entries, active), current_model, active);
    if i < presets.len() {
        Some(
            model_id_at(
                presets[i].id,
                effort_for(config.model_reasoning_effort, presets[i]),
                active,
            ),
        )
    } else {
        None
    }
}

pub fn find_current_model(
    config: &Config,
    presets: &Vec<ModelPreset>,
    entries: &Vec<KodexModelProviderEntry>,
    current_model: &str,
) -> (model_id: Option<String>)
    ensures
        model_id.deep_view() == current_model_id(
            config.deep_view(),
            presets.deep_view(),
            entries.deep_view(),
            current_model@,
        ),
{
    let active = config.model_provider_id.as_str();
    let providers = assign_providers(presets, entries, active);
    let i: usize = find_current(presets, &providers, current_model, active);
    if i < presets.len() {
        let effort = current_effort(config.model_reasoning_effort, &presets[i]);
        Some(model_id_for_provider(presets[i].id.as_str(), effort, active))
    } else {
        None
    }
}

/// The presets that are offered: those for the picker, and the current one.
pub open spec fn shown_models(presets: Seq<ModelPresetView>, current_model: Seq<char>) -> Seq<
    ModelPresetView,
>
    decreases presets.len(),
{
    if presets.len() == 0 {
        seq![]
    } else if presets.last().show_in_picker || presets.last().model == current_model {
        shown_models(presets.drop_last(), current_model).push(presets.last())
    } else {
        shown_models(presets.drop_last(), current_model)
    }
}

pub fn keep_shown(presets: Vec<ModelPreset>, current_model: &str) -> (shown: Vec<ModelPreset>)
    ensures
        shown.deep_view() == shown_models(presets.deep_view(), current_model@),
{
    let mut presets = presets;
    let mut shown: Vec<ModelPreset> = empty();
    let ghost all = presets.deep_view();
    let n: usize = presets.len();
    let mut done: usize = 0;
    assert(all.skip(0) =~= all);
    while done < n
        invariant
            n == all.len(),
            done <= n,
            presets.deep_view() == all.skip(done as int),
            presets@.len() == n - done,
            shown.deep_view() == shown_models(all.take(done as int), current_model@),
        decreases n - done,
    {
        let ghost rest = presets.deep_view();
        let preset = presets.remove(0);
        proof {
            assert(presets.deep_view() =~= rest.drop_first());
            assert(all.skip(done as int).drop_first() =~= all.skip(done + 1));
            assert(all.take(done + 1).drop_last() =~= all.take(done as int));
            assert(preset.deep_view() == rest[0]);
        }
        if preset.show_in_picker || same(preset.model.as_str(), current_model) {
            add_item(&mut shown, preset);
        }
        done += 1;
    }
    assert(all.take(n as int) =~= all);
    shown
}

/// A model with one of its efforts, as shown to the client.
pub open spec fn model_info(
    preset: ModelPresetView,
    effort: EffortPresetView,
    provider: Seq<char>,
) -> ModelInfoView {
    ModelInfoView {
        id: model_id_at(preset.id, effort.effort, provider),
        name: preset.display_name + " ("@ + effort.effort.text() + ")"@,
        description: Some(preset.description + " "@ + effort.description),
        meta: Some(provider_meta(provider)),
    }
}

/// A model with each of its efforts.
pub open spec fn model_infos(
    preset: ModelPresetView,
    efforts: Seq<EffortPresetView>,
    provider: Seq<char>,
) -> Seq<ModelInfoView> {
    efforts.map_values(|effort: EffortPresetView| model_info(preset, effort, provider))
}

/// All models, each with all its efforts.
pub open spec fn all_model_infos(presets: Seq<ModelPresetView>, providers: Seq<Seq<char>>) -> Seq<
    ModelInfoView,
>
    decreases presets.len(),
{
    if presets.len() == 0 {
        seq![]
    } else {
        all_model_infos(presets.drop_last(), providers) + model_infos(
            presets.last(),
            presets.last().supported_reasoning_efforts,
            providers[presets.len() - 1],
        )
    }
}

/// The models of a session. A current model that is no preset is listed first, as it is.
pub open spec fn session_models(
    config: ConfigView,
    presets: Seq<ModelPresetView>,
    entries: Seq<KodexModelProviderEntryView>,
    current_model: Seq<char>,
) -> SessionModelStateView {
    let active = config.model_provider_id;
    let shown = shown_models(presets, current_model);
    let listed = all_model_infos(shown, providers_of(shown, entries, active));
    match current_model_id(config, presets, entries, current_model) {
        Some(id) => SessionModelStateView { current_model_id: id, available_models: listed },
        None => {
            let id = encoded_value(current_model, active);
            SessionModelStateView {
                current_model_id: id,
                available_models: seq![
                    ModelInfoView {
                        id,
                        name: current_model,
                        description: None,
                        meta: Some(provider_meta(active)),
                    },
                ] + listed,
            }
        },
    }
}

fn add_model_infos(available: &mut Vec<ModelInfo>, preset: &ModelPreset, provider: &str)
    ensures
        final(available).deep_view() == old(available).deep_view() + model_infos(
            preset.deep_view(),
            preset.deep_view().supported_reasoning_efforts,
            provider@,
        ),
{
    let ghost view = preset.deep_view();
    let ghost efforts = view.supported_reasoning_efforts;
    let ghost start = available.deep_view();
    assert(start + model_infos(view, efforts.take(0), provider@) =~= start);
    for i in 0..preset.supported_reasoning_efforts.len()
        invariant
            view == preset.deep_view(),
            efforts == view.supported_reasoning_efforts,
            available.deep_view() == start + model_infos(view, efforts.take(i as int), provider@),
    {
        let effort = &preset.supported_reasoning_efforts[i];
        assert(model_infos(view, efforts.take(i + 1), provider@) =~= model_infos(
            view,
            efforts.take(i as int),
            provider@,
        ).push(model_info(view, efforts[i as int], provider@)));
        assert(start + model_infos(view, efforts.take(i + 1), provider@) =~= (start + model_infos(
            view,
            efforts.take(i as int),
            provider@,
        )).push(model_info(view, efforts[i as int], provider@)));
        add_item(
            available,
            ModelInfo {
                id: model_id_for_provider(preset.id.as_str(), effort.effort, provider),
                name: concat4(preset.display_name.as_str(), " (", effort.effort.name(), ")"),
                description: Some(
                    concat3(preset.description.as_str(), " ", effort.description.as_str()),
                ),
                meta: Some(model_provider_meta(provider)),
            },
        );
    }
    assert(efforts.take(efforts.len() as int) =~= efforts);
}

pub fn models(
    config: &Config,
    presets: Vec<ModelPreset>,
    entries: &Vec<KodexModelProviderEntry>,
    current_model: &str,
) -> (state: SessionModelState)
    ensures
        state.deep_view() == session_models(
            config.deep_view(),
            presets.deep_view(),
            entries.deep_view(),
            current_model@,
        ),
{
    let active = config.model_provider_id.as_str();
    let mut available: Vec<ModelInfo> = empty();
    let current = match find_current_model(config, &presets, entries, current_model) {
        Some(id) => id,
        None => {
            let id = encode_provider_value(current_model, active);
            add_item(
                &mut available,
                ModelInfo {
                    id: id.clone(),
                    name: current_model.to_owned(),
                    description: None,
                    meta: Some(model_provider_meta(active)),
                },
            );
            id
        },
    };
    let ghost start = available.deep_view();
    let shown = keep_shown(presets, current_model);
    let providers = assign_providers(&shown, entries, active);
    let ghost all = shown.deep_view();
    let ghost served = providers.deep_view();
    assert(start + all_model_infos(all.take(0), served) =~= start);
    for i in 0..shown.len()
        invariant
            all == shown.deep_view(),
            served == providers.deep_view(),
            providers@.len() == shown@.len(),
            available.deep_view() == start + all_model_infos(all.take(i as int), served),
    {
        proof {
            assert(all.take(i + 1).drop_last() =~= all.take(i as int));
            let infos = model_infos(
                all[i as int],
                all[i as int].supported_reasoning_efforts,
                served[i as int],
            );
            assert(start + (all_model_infos(all.take(i as int), served) + infos) =~= start
                + all_model_infos(all.take(i as int), served) + infos);
        }
        add_model_infos(&mut available, &shown[i], providers[i].as_str());
    }
    assert(all.take(all.len() as int) =~= all);
    assert(start.len() == 0 ==> start + all_model_infos(all, served) =~= all_model_infos(
        all,
        served,
    ));
    assert(available.deep_view() =~= start + all_model_infos(all, served));
    SessionModelState { current_model_id: current, available_models: available }
}

/// The name of an effort is read as that effort, and nothing else is.
pub proof fn effort_names_are_read_back(effort: ReasoningEffort, text: Seq<char>)
    ensures
        effort_named(effort.text()) == Some(effort),
        effort_named(text) == Some(effort) ==> text == effort.text(),
{
    reveal_strlit("none");
    reveal_strlit("minimal");
    reveal_strlit("low");
    reveal_strlit("medium");
    reveal_strlit("high");
    reveal_strlit("xhigh");
    assert("none"@.len() == 4 && "minimal"@.len() == 7 && "low"@.len() == 3);
    assert("medium"@.len() == 6 && "high"@.len() == 4 && "xhigh"@.len() == 5);
    assert("none"@[0] != "high"@[0]);
}

proof fn lemma_parted_at(head: Seq<char>, tail: Seq<char>, mark: char)
    requires
        !head.contains(mark),
    ensures
        parted(head + seq![mark] + tail, mark) == Some((head, tail)),
{
    let whole = head + seq![mark] + tail;
    lemma_before_char(whole, mark);
    assert(whole[head.len() as int] == mark);
    let found = before_char(whole, mark);
    let rest = whole.skip(found.len() as int + 1);
    assert(whole =~= found + seq![mark] + rest);
    lemma_marked_parts(found, rest, head, tail, mark);
}

/// A value and its provider are read back from what they are encoded as. The provider is trimmed
/// on the way.
pub proof fn encoded_value_is_read_back(value: Seq<char>, provider: Seq<char>)
    requires
        !starts_with(value, KODEX_PROVIDER_VALUE_PREFIX@),
        trimmed(provider).len() > 0,
        !trimmed(provider).contains(':'),
    ensures
        decoded_value(encoded_value(value, provider)) == (Some(trimmed(provider)), value),
{
    reveal_strlit(":");
    let encoded = encoded_value(value, provider);
    let rest = trimmed(provider) + seq![':'] + value;
    assert(":"@ =~= seq![':']);
    assert(encoded =~= KODEX_PROVIDER_VALUE_PREFIX@ + rest);
    assert(KODEX_PROVIDER_VALUE_PREFIX@.is_prefix_of(encoded));
    assert(encoded.skip(KODEX_PROVIDER_VALUE_PREFIX@.len() as int) =~= rest);
    lemma_parted_at(trimmed(provider), value, ':');
    trimmed_is_trimmed(provider);
}

/// A value that names its provider is not encoded again, and without a provider nothing is.
pub proof fn encoding_is_done_once(value: Seq<char>, provider: Seq<char>, other: Seq<char>)
    ensures
        trimmed(provider).len() > 0 ==> encoded_value(encoded_value(value, provider), other)
            == encoded_value(value, provider),
        trimmed(provider).len() == 0 ==> encoded_value(value, provider) == value,
{
    if trimmed(provider).len() > 0 {
        let encoded = encoded_value(value, provider);
        if !starts_with(value, KODEX_PROVIDER_VALUE_PREFIX@) {
            assert(encoded =~= KODEX_PROVIDER_VALUE_PREFIX@ + (trimmed(provider) + ":"@ + value));
            assert(KODEX_PROVIDER_VALUE_PREFIX@.is_prefix_of(encoded));
        }
    }
}

/// What names no provider is its own bare value.
pub proof fn plain_value_is_read_as_it_is(value: Seq<char>)
    requires
        !starts_with(value, KODEX_PROVIDER_VALUE_PREFIX@),
    ensures
        decoded_value(value) == (None::<Seq<char>>, value),
{
}

/// A model and its effort are read back from the identifier they are given, whichever provider
/// it names.
pub proof fn model_id_is_read_back(id: Seq<char>, effort: ReasoningEffort, provider: Seq<char>)
    requires
        !id.contains('/'),
        !starts_with(id + "/"@ + effort.text(), KODEX_PROVIDER_VALUE_PREFIX@),
        !trimmed(provider).contains(':'),
    ensures
        parsed_model_id(decoded_value(model_id_at(id, effort, provider)).1) == Some((id, effort)),
        decoded_value(model_id_at(id, effort, provider)).0 == if trimmed(provider).len() > 0 {
            Some(trimmed(provider))
        } else {
            None
        },
{
    reveal_strlit("/");
    let value = id + "/"@ + effort.text();
    assert("/"@ =~= seq!['/']);
    if trimmed(provider).len() > 0 {
        encoded_value_is_read_back(value, provider);
    }
    lemma_parted_at(id, effort.text(), '/');
    effort_names_are_read_back(effort, effort.text());
}

/// A switch of the provider ends at one that is configured, or at the one that is current; it is
/// refused exactly where neither the requested one nor the proxy is configured.
pub proof fn activation_is_configured(
    requested: Seq<char>,
    current: Seq<char>,
    configured: bool,
    proxy_configured: bool,
)
    ensures
        activation(requested, current, configured, proxy_configured) is Err <==> requested
            != current && !configured && !proxy_configured,
        activation(requested, current, configured, proxy_configured) matches Ok(
            ProviderActivationView::Activate(target),
        ) ==> target != current && (target == requested && configured || target
            == KODEX_BYOK_PROXY_PROVIDER_ID@ && proxy_configured),
{
}

/// The positions of the entries that serve the models, in their order; the number of entries
/// where none does.
pub open spec fn assigned_entries(
    presets: Seq<ModelPresetView>,
    entries: Seq<KodexModelProviderEntryView>,
    used: Seq<bool>,
) -> Seq<int>
    decreases presets.len(),
{
    if presets.len() == 0 {
        seq![]
    } else {
        let i = entry_index(entries, used, presets[0].model, presets[0].display_name);
        seq![i] + assigned_entries(
            presets.drop_first(),
            entries,
            if i < entries.len() {
                used.update(i, true)
            } else {
                used
            },
        )
    }
}

proof fn lemma_assigned_entries(
    presets: Seq<ModelPresetView>,
    entries: Seq<KodexModelProviderEntryView>,
    used: Seq<bool>,
    active: Seq<char>,
)
    requires
        used.len() == entries.len(),
    ensures
        assigned_entries(presets, entries, used).len() == presets.len(),
        assigned_providers(presets, entries, used, active).len() == presets.len(),
        forall|k: int|
            0 <= k < presets.len() ==> {
                let i = #[trigger] assigned_entries(presets, entries, used)[k];
                &&& 0 <= i <= entries.len()
                &&& i < entries.len() ==> !used[i] && entry_serves(
                    entries[i],
                    presets[k].model,
                    presets[k].display_name,
                )
                &&& assigned_providers(presets, entries, used, active)[k] == if i < entries.len() {
                    entries[i].provider
                } else {
                    active
                }
            },
        forall|j: int, k: int|
            0 <= j < k < presets.len() && #[trigger] assigned_entries(presets, entries, used)[j]
                == #[trigger] assigned_entries(presets, entries, used)[k] ==> assigned_entries(
                presets,
                entries,
                used,
            )[j] == entries.len(),
    decreases presets.len(),
{
    if presets.len() > 0 {
        let first = entry_index(entries, used, presets[0].model, presets[0].display_name);
        lemma_entry_index(entries, used, presets[0].model, presets[0].display_name);
        let then_used = if first < entries.len() {
            used.update(first, true)
        } else {
            used
        };
        let rest = presets.drop_first();
        lemma_assigned_entries(rest, entries, then_used, active);
        let all = assigned_entries(presets, entries, used);
        let tail = assigned_entries(rest, entries, then_used);
        let providers = assigned_providers(presets, entries, used, active);
        let later = assigned_providers(rest, entries, then_used, active);
        assert forall|k: int| 0 <= k < presets.len() implies {
            let i = #[trigger] all[k];
            &&& 0 <= i <= entries.len()
            &&& i < entries.len() ==> !used[i] && entry_serves(
                entries[i],
                presets[k].model,
                presets[k].display_name,
            )
            &&& providers[k] == if i < entries.len() {
                entries[i].provider
            } else {
                active
            }
        } by {
            if k > 0 {
                assert(all[k] == tail[k - 1]);
                assert(providers[k] == later[k - 1]);
                assert(rest[k - 1] == presets[k]);
            }
        }
        assert forall|j: int, k: int|
            0 <= j < k < presets.len() && #[trigger] all[j] == #[trigger] all[k] implies all[j]
            == entries.len() by {
            assert(all[k] == tail[k - 1]);
            if j > 0 {
                assert(all[j] == tail[j - 1]);
            }
        }
    }
}

/// Each entry serves at most one model, and only one that it names; a model that no entry is left
/// for is served by the active provider.
pub proof fn entries_serve_once(
    presets: Seq<ModelPresetView>,
    entries: Seq<KodexModelProviderEntryView>,
    active: Seq<char>,
) -> (assigned: Seq<int>)
    ensures
        assigned.len() == presets.len(),
        providers_of(presets, entries, active).len() == presets.len(),
        forall|k: int|
            0 <= k < presets.len() ==> {
                let i = #[trigger] assigned[k];
                &&& 0 <= i <= entries.len()
                &&& i < entries.len() ==> entry_serves(
                    entries[i],
                    presets[k].model,
                    presets[k].display_name,
                )
                &&& providers_of(presets, entries, active)[k] == if i < entries.len() {
                    entries[i].provider
                } else {
                    active
                }
            },
        forall|j: int, k: int|
            0 <= j < k < presets.len() && #[trigger] assigned[j] == #[trigger] assigned[k]
                ==> assigned[j] == entries.len(),
{
    let used = Seq::new(entries.len(), |i: int| false);
    lemma_assigned_entries(presets, entries, used, active);
    assigned_entries(presets, entries, used)
}

/// The effort for a model is one that the model supports, or its default.
pub proof fn effort_is_supported_or_default(
    configured: Option<ReasoningEffort>,
    preset: ModelPresetView,
)
    ensures
        effort_for(configured, preset) == preset.default_reasoning_effort || supports(
            preset.supported_reasoning_efforts,
            effort_for(configured, preset),
        ) && configured == Some(effort_for(configured, preset)),
{
}

/// The current model is always shown, where it is offered at all; and what is shown is offered.
pub proof fn current_model_is_shown(presets: Seq<ModelPresetView>, current_model: Seq<char>)
    ensures
        forall|i: int|
            0 <= i < presets.len() && (#[trigger] presets[i]).model == current_model
                ==> shown_models(presets, current_model).contains(presets[i]),
        forall|i: int|
            0 <= i < shown_models(presets, current_model).len() ==> presets.contains(
                #[trigger] shown_models(presets, current_model)[i],
            ),
    decreases presets.len(),
{
    if presets.len() > 0 {
        let init = presets.drop_last();
        let before = shown_models(init, current_model);
        let after = shown_models(presets, current_model);
        current_model_is_shown(init, current_model);
        assert forall|i: int|
            0 <= i < presets.len() && (#[trigger] presets[i]).model
                == current_model implies after.contains(presets[i]) by {
            if i < init.len() {
                assert(init[i] == presets[i]);
                let k = choose|k: int| 0 <= k < before.len() && before[k] == presets[i];
                assert(after[k] == presets[i]);
            } else {
                assert(after[after.len() - 1] == presets[i]);
            }
        }
        assert forall|i: int| 0 <= i < after.len() implies presets.contains(
            #[trigger] after[i],
        ) by {
            if i < before.len() {
                assert(after[i] == before[i]);
                assert(init.contains(before[i]));
                let k = choose|k: int| 0 <= k < init.len() && init[k] == before[i];
                assert(presets[k] == before[i]);
            } else {
                assert(presets[presets.len() - 1] == after[i]);
            }
        }
    }
}

} // verus!
