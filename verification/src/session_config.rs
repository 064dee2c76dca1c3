//! Session modes, and the configuration they follow from.
use crate::collections::{StringSet, add_item, empty};
use crate::protocol::{
    ApprovalPolicy, NetworkSandboxPolicy, PermissionProfile, PermissionProfileView, ProfileKind,
    ReasoningEffort,
};
use crate::text::same;
use vstd::prelude::*;

verus! {

/// A session mode: when the agent asks, and what it may do.
#[derive(Debug, PartialEq)]
pub struct ApprovalPreset {
    pub id: String,
    pub label: String,
    pub description: String,
    pub approval: ApprovalPolicy,
    pub permission_profile: PermissionProfile,
}

#[verifier::ext_equal]
pub struct ApprovalPresetView {
    pub id: Seq<char>,
    pub label: Seq<char>,
    pub description: Seq<char>,
    pub approval: ApprovalPolicy,
    pub permission_profile: PermissionProfileView,
}

impl DeepView for ApprovalPreset {
    type V = ApprovalPresetView;

    open spec fn deep_view(&self) -> ApprovalPresetView {
        ApprovalPresetView {
            id: self.id.deep_view(),
            label: self.label.deep_view(),
            description: self.description.deep_view(),
            approval: self.approval.deep_view(),
            permission_profile: self.permission_profile.deep_view(),
        }
    }
}

/// The configuration of a session. `legacy_workspace_network` is the network policy of the
/// workspace profile as it was before the preset changed it.
#[derive(Debug)]
pub struct Config {
    pub model: Option<String>,
    pub model_provider_id: String,
    pub model_providers: StringSet,
    pub model_reasoning_effort: Option<ReasoningEffort>,
    pub approval_policy: ApprovalPolicy,
    pub permission_profile: PermissionProfile,
    pub active_permission_profile: Option<String>,
    pub project_untrusted: bool,
    pub cwd: String,
    pub legacy_workspace_network: NetworkSandboxPolicy,
}

#[verifier::ext_equal]
pub struct ConfigView {
    pub model: Option<Seq<char>>,
    pub model_provider_id: Seq<char>,
    pub model_providers: Set<Seq<char>>,
    pub model_reasoning_effort: Option<ReasoningEffort>,
    pub approval_policy: ApprovalPolicy,
    pub permission_profile: PermissionProfileView,
    pub active_permission_profile: Option<Seq<char>>,
    pub project_untrusted: bool,
    pub cwd: Seq<char>,
    pub legacy_workspace_network: NetworkSandboxPolicy,
}

impl DeepView for Config {
    type V = ConfigView;

    open spec fn deep_view(&self) -> ConfigView {
        ConfigView {
            model: self.model.deep_view(),
            model_provider_id: self.model_provider_id.deep_view(),
            model_providers: self.model_providers.deep_view(),
            model_reasoning_effort: self.model_reasoning_effort.deep_view(),
            approval_policy: self.approval_policy.deep_view(),
            permission_profile: self.permission_profile.deep_view(),
            active_permission_profile: self.active_permission_profile.deep_view(),
            project_untrusted: self.project_untrusted.deep_view(),
            cwd: self.cwd.deep_view(),
            legacy_workspace_network: self.legacy_workspace_network.deep_view(),
        }
    }
}

/// A session mode as shown to the client.
#[derive(Debug, PartialEq)]
pub struct SessionMode {
    pub id: String,
    pub name: String,
    pub description: String,
}

#[verifier::ext_equal]
pub struct SessionModeView {
    pub id: Seq<char>,
    pub name: Seq<char>,
    pub description: Seq<char>,
}

impl DeepView for SessionMode {
    type V = SessionModeView;

    open spec fn deep_view(&self) -> SessionModeView {
        SessionModeView {
            id: self.id.deep_view(),
            name: self.name.deep_view(),
            description: self.description.deep_view(),
        }
    }
}

/// The session modes and the current one.
#[derive(Debug, PartialEq)]
pub struct SessionModeState {
    pub current_mode_id: String,
    pub available_modes: Vec<SessionMode>,
}

#[verifier::ext_equal]
pub struct SessionModeStateView {
    pub current_mode_id: Seq<char>,
    pub available_modes: Seq<SessionModeView>,
}

impl DeepView for SessionModeState {
    type V = SessionModeStateView;

    open spec fn deep_view(&self) -> SessionModeStateView {
        SessionModeStateView {
            current_mode_id: self.current_mode_id.deep_view(),
            available_modes: self.available_modes.deep_view(),
        }
    }
}

/// A provider that serves a model, by the model's name or its display name.
#[derive(Debug, PartialEq)]
pub struct KodexModelProviderEntry {
    pub model: String,
    pub display_name: String,
    pub provider: String,
}

#[verifier::ext_equal]
pub struct KodexModelProviderEntryView {
    pub model: Seq<char>,
    pub display_name: Seq<char>,
    pub provider: Seq<char>,
}

impl DeepView for KodexModelProviderEntry {
    type V = KodexModelProviderEntryView;

    open spec fn deep_view(&self) -> KodexModelProviderEntryView {
        KodexModelProviderEntryView {
            model: self.model.deep_view(),
            display_name: self.display_name.deep_view(),
            provider: self.provider.deep_view(),
        }
    }
}

pub const CODEX_READ_ONLY_PROFILE_ID: &'static str = ":read-only";

pub const CODEX_WORKSPACE_PROFILE_ID: &'static str = ":workspace";

pub const CODEX_DANGER_NO_SANDBOX_PROFILE_ID: &'static str = ":danger-no-sandbox";

pub const AUTO_PRESET_DESCRIPTION: &'static str =
    "Kodex can read and edit files in the current workspace, access the internet, and run commands. Approval is required to edit files outside the workspace.";

impl PermissionProfile {
    /// A copy of the profile.
    pub fn duplicate(&self) -> (copy: PermissionProfile)
        ensures
            copy.deep_view() == self.deep_view(),
    {
        PermissionProfile {
            identity: self.identity.clone(),
            kind: self.kind,
            network: self.network,
            full_disk_read: self.full_disk_read,
            full_disk_write: self.full_disk_write,
            writes_working_directory: self.writes_working_directory,
        }
    }
}

/// A preset as it is offered: the workspace preset has its own description, and its profile
/// reaches the network.
pub open spec fn offered_preset(
    preset: ApprovalPresetView,
    workspace: PermissionProfileView,
) -> ApprovalPresetView {
    if preset.id == "auto"@ {
        ApprovalPresetView {
            description: AUTO_PRESET_DESCRIPTION@,
            permission_profile: workspace,
            ..preset
        }
    } else {
        preset
    }
}

pub open spec fn offered_presets(
    presets: Seq<ApprovalPresetView>,
    workspace: PermissionProfileView,
) -> Seq<ApprovalPresetView> {
    presets.map_values(|preset: ApprovalPresetView| offered_preset(preset, workspace))
}

/// The presets that are offered, from the built-in ones and from the workspace profile with
/// network access.
pub fn kodex_approval_presets(builtin: Vec<ApprovalPreset>, workspace: &PermissionProfile) -> (
presets: Vec<ApprovalPreset>)
    ensures
        presets.deep_view() == offered_presets(builtin.deep_view(), workspace.deep_view()),
{
    let mut presets: Vec<ApprovalPreset> = empty();
    let ghost all = builtin.deep_view();
    for i in 0..builtin.len()
        invariant
            all == builtin.deep_view(),
            presets.deep_view() == offered_presets(all.take(i as int), workspace.deep_view()),
    {
        let preset = &builtin[i];
        let is_auto = same(preset.id.as_str(), "auto");
        add_item(
            &mut presets,
            ApprovalPreset {
                id: preset.id.clone(),
                label: preset.label.clone(),
                description: if is_auto {
                    AUTO_PRESET_DESCRIPTION.to_owned()
                } else {
                    preset.description.clone()
                },
                approval: preset.approval,
                permission_profile: if is_auto {
                    workspace.duplicate()
                } else {
                    preset.permission_profile.duplicate()
                },
            },
        );
        assert(offered_presets(all.take(i + 1), workspace.deep_view()) =~= offered_presets(
            all.take(i as int),
            workspace.deep_view(),
        ).push(offered_preset(all[i as int], workspace.deep_view())));
    }
    assert(all.take(all.len() as int) =~= all);
    presets
}

pub open spec fn mode_for_profile(profile_id: Seq<char>) -> Option<Seq<char>> {
    if profile_id == CODEX_READ_ONLY_PROFILE_ID@ {
        Some("read-only"@)
    } else if profile_id == CODEX_WORKSPACE_PROFILE_ID@ {
        Some("auto"@)
    } else if profile_id == CODEX_DANGER_NO_SANDBOX_PROFILE_ID@ {
        Some("full-access"@)
    } else {
        None
    }
}

pub fn session_mode_id_for_active_profile(profile_id: &str) -> (mode_id: Option<&'static str>)
    ensures
        mode_id.deep_view() == mode_for_profile(profile_id@),
{
    if same(profile_id, CODEX_READ_ONLY_PROFILE_ID) {
        Some("read-only")
    } else if same(profile_id, CODEX_WORKSPACE_PROFILE_ID) {
        Some("auto")
    } else if same(profile_id, CODEX_DANGER_NO_SANDBOX_PROFILE_ID) {
        Some("full-access")
    } else {
        None
    }
}

pub open spec fn profile_for_mode(mode_id: Seq<char>) -> Option<Seq<char>> {
    if mode_id == "read-only"@ {
        Some(CODEX_READ_ONLY_PROFILE_ID@)
    } else if mode_id == "auto"@ {
        Some(CODEX_WORKSPACE_PROFILE_ID@)
    } else if mode_id == "full-access"@ {
        Some(CODEX_DANGER_NO_SANDBOX_PROFILE_ID@)
    } else {
        None
    }
}

pub fn active_profile_id_for_session_mode(mode_id: &str) -> (profile_id: Option<&'static str>)
    ensures
        profile_id.deep_view() == profile_for_mode(mode_id@),
{
    if same(mode_id, "read-only") {
        Some(CODEX_READ_ONLY_PROFILE_ID)
    } else if same(mode_id, "auto") {
        Some(CODEX_WORKSPACE_PROFILE_ID)
    } else if same(mode_id, "full-access") {
        Some(CODEX_DANGER_NO_SANDBOX_PROFILE_ID)
    } else {
        None
    }
}

pub fn approval_matches_current_config(preset: &ApprovalPreset, config: &Config) -> (matching: bool)
    ensures
        matching == (preset.approval == config.approval_policy),
{
    preset.approval == config.approval_policy
}

/// The preset with the given identifier exists and asks as the configuration does.
pub open spec fn preset_matches(
    presets: Seq<ApprovalPresetView>,
    mode_id: Seq<char>,
    approval: ApprovalPolicy,
) -> bool {
    exists|i: int|
        0 <= i < presets.len() && (#[trigger] presets[i]).id == mode_id && presets[i].approval
            == approval
}

pub fn mode_id_if_approval_matches(
    mode_id: &'static str,
    config: &Config,
    presets: &Vec<ApprovalPreset>,
) -> (mode: Option<String>)
    ensures
        mode.deep_view() == if preset_matches(
            presets.deep_view(),
            mode_id@,
            config.approval_policy,
        ) {
            Some(mode_id@)
        } else {
            None
        },
{
    let ghost all = presets.deep_view();
    for i in 0..presets.len()
        invariant
            all == presets.deep_view(),
            forall|k: int|
                0 <= k < i ==> !((#[trigger] all[k]).id == mode_id@ && all[k].approval
                    == config.approval_policy),
    {
        let preset = &presets[i];
        if same(preset.id.as_str(), mode_id) && approval_matches_current_config(preset, config) {
            assert(all[i as int].id == mode_id@);
            return Some(preset.id.clone());
        }
    }
    None
}

pub fn untrusted_read_only_mode_id(config: &Config) -> (mode: Option<String>)
    ensures
        mode.deep_view() == if config.project_untrusted {
            Some("read-only"@)
        } else {
            None
        },
{
    if config.project_untrusted {
        Some("read-only".to_owned())
    } else {
        None
    }
}

/// The position of the first preset with the given identifier, or the number of presets.
pub open spec fn preset_index(presets: Seq<ApprovalPresetView>, mode_id: Seq<char>) -> int
    decreases presets.len(),
{
    if presets.len() == 0 {
        0
    } else if presets[0].id == mode_id {
        0
    } else {
        1 + preset_index(presets.drop_first(), mode_id)
    }
}

pub proof fn lemma_preset_index(presets: Seq<ApprovalPresetView>, mode_id: Seq<char>)
    ensures
        0 <= preset_index(presets, mode_id) <= presets.len(),
        preset_index(presets, mode_id) < presets.len() ==> presets[preset_index(
            presets,
            mode_id,
        )].id == mode_id,
        forall|i: int|
            0 <= i < preset_index(presets, mode_id) ==> (#[trigger] presets[i]).id != mode_id,
    decreases presets.len(),
{
    if presets.len() > 0 && presets[0].id != mode_id {
        lemma_preset_index(presets.drop_first(), mode_id);
        assert forall|i: int| 0 <= i < preset_index(presets, mode_id) implies (
        #[trigger] presets[i]).id != mode_id by {
            if i > 0 {
                assert(presets.drop_first()[i - 1] == presets[i]);
            }
        }
    }
}

/// The first preset with the given identifier.
pub fn find_preset<'a>(presets: &'a Vec<ApprovalPreset>, mode_id: &str) -> (preset: Option<
    &'a ApprovalPreset,
>)
    ensures
        match preset {
            Some(preset) => preset_index(presets.deep_view(), mode_id@) < presets@.len()
                && preset.deep_view() == presets.deep_view()[preset_index(
                presets.deep_view(),
                mode_id@,
            )],
            None => preset_index(presets.deep_view(), mode_id@) == presets@.len(),
        },
{
    let ghost all = presets.deep_view();
    proof {
        lemma_preset_index(all, mode_id@);
    }
    for i in 0..presets.len()
        invariant
            all == presets.deep_view(),
            forall|k: int| 0 <= k < i ==> (#[trigger] all[k]).id != mode_id@,
            0 <= preset_index(all, mode_id@) <= all.len(),
            preset_index(all, mode_id@) < all.len() ==> all[preset_index(all, mode_id@)].id
                == mode_id@,
            forall|k: int|
                0 <= k < preset_index(all, mode_id@) ==> (#[trigger] all[k]).id != mode_id@,
    {
        if same(presets[i].id.as_str(), mode_id) {
            assert(all[i as int].id == mode_id@);
            return Some(&presets[i]);
        }
        assert(all[i as int].id != mode_id@);
    }
    None
}

/// The mode that a permission profile amounts to: a managed profile that reads everything,
/// writes the working directory but not everything, and treats the network as the workspace
/// preset does now or did before, is the workspace mode.
pub open spec fn semantic_mode(
    presets: Seq<ApprovalPresetView>,
    config: ConfigView,
) -> Option<Seq<char>> {
    let profile = config.permission_profile;
    match profile.kind {
        ProfileKind::Managed => {
            let auto = preset_index(presets, "auto"@);
            if auto < presets.len() && (profile.network
                == presets[auto].permission_profile.network || profile.network
                == config.legacy_workspace_network) && profile.full_disk_read
                && !profile.full_disk_write && profile.writes_working_directory {
                Some("auto"@)
            } else {
                None
            }
        },
        ProfileKind::Disabled => Some("full-access"@),
        ProfileKind::External => None,
    }
}

pub fn semantic_session_mode_id_for_permission_profile(
    config: &Config,
    presets: &Vec<ApprovalPreset>,
) -> (mode_id: Option<&'static str>)
    ensures
        mode_id.deep_view() == semantic_mode(presets.deep_view(), config.deep_view()),
{
    let profile = &config.permission_profile;
    match profile.kind {
        ProfileKind::Managed => {
            let workspace_preset = match find_preset(presets, "auto") {
                Some(preset) => preset,
                None => return None,
            };
            let is_workspace_network_policy = profile.network
                == workspace_preset.permission_profile.network || profile.network
                == config.legacy_workspace_network;
            if !is_workspace_network_policy {
                return None;
            }
            if profile.full_disk_read && !profile.full_disk_write
                && profile.writes_working_directory {
                Some("auto")
            } else {
                None
            }
        },
        ProfileKind::Disabled => Some("full-access"),
        ProfileKind::External => None,
    }
}

/// A mode, if its preset asks as the configuration does; else read-only for an untrusted
/// project.
pub open spec fn confirmed_mode(
    presets: Seq<ApprovalPresetView>,
    config: ConfigView,
    mode_id: Option<Seq<char>>,
) -> Option<Seq<char>> {
    match mode_id {
        Some(mode_id) if preset_matches(presets, mode_id, config.approval_policy) => Some(mode_id),
        _ => if config.project_untrusted {
            Some("read-only"@)
        } else {
            None
        },
    }
}

/// Whether the preset is exactly what the configuration holds.
pub open spec fn preset_is_current(preset: ApprovalPresetView, config: ConfigView) -> bool {
    preset.approval == config.approval_policy && preset.permission_profile.identity
        == config.permission_profile.identity
}

/// The identifier of the first preset that is exactly what the configuration holds.
pub open spec fn exact_mode(presets: Seq<ApprovalPresetView>, config: ConfigView) -> Option<
    Seq<char>,
>
    decreases presets.len(),
{
    if presets.len() == 0 {
        None
    } else if preset_is_current(presets[0], config) {
        Some(presets[0].id)
    } else {
        exact_mode(presets.drop_first(), config)
    }
}

/// The current session mode: that of the active profile where there is one, else that of a
/// preset that is exactly what the configuration holds, else the mode that the permission
/// profile amounts to.
pub open spec fn current_mode(presets: Seq<ApprovalPresetView>, config: ConfigView) -> Option<
    Seq<char>,
> {
    match config.active_permission_profile {
        Some(profile_id) => confirmed_mode(presets, config, mode_for_profile(profile_id)),
        None => match exact_mode(presets, config) {
            Some(mode_id) => Some(mode_id),
            None => confirmed_mode(presets, config, semantic_mode(presets, config)),
        },
    }
}

fn confirm_mode(
    mode_id: Option<&'static str>,
    config: &Config,
    presets: &Vec<ApprovalPreset>,
) -> (mode: Option<String>)
    ensures
        mode.deep_view() == confirmed_mode(
            presets.deep_view(),
            config.deep_view(),
            mode_id.deep_view(),
        ),
{
    if let Some(mode_id) = mode_id {
        if let Some(mode) = mode_id_if_approval_matches(mode_id, config, presets) {
            return Some(mode);
        }
    }
    untrusted_read_only_mode_id(config)
}

pub fn current_session_mode_id(config: &Config, presets: &Vec<ApprovalPreset>) -> (mode: Option<
    String,
>)
    ensures
        mode.deep_view() == current_mode(presets.deep_view(), config.deep_view()),
{
    if let Some(profile_id) = &config.active_permission_profile {
        return confirm_mode(
            session_mode_id_for_active_profile(profile_id.as_str()),
            config,
            presets,
        );
    }
    let ghost all = presets.deep_view();
    assert(all.skip(0) =~= all);
    for i in 0..presets.len()
        invariant
            all == presets.deep_view(),
            config.active_permission_profile is None,
            exact_mode(all.skip(i as int), config.deep_view()) == exact_mode(
                all,
                config.deep_view(),
            ),
    {
        let preset = &presets[i];
        assert(all.skip(i as int)[0] == preset.deep_view());
        assert(all.skip(i as int).drop_first() =~= all.skip(i + 1));
        if approval_matches_current_config(preset, config) && same(
            preset.permission_profile.identity.as_str(),
            config.permission_profile.identity.as_str(),
        ) {
            return Some(preset.id.clone());
        }
    }
    confirm_mode(
        semantic_session_mode_id_for_permission_profile(config, presets),
        config,
        presets,
    )
}

/// Whether choosing a mode marks the project as trusted.
pub open spec fn trusts_project(mode_id: Seq<char>) -> bool {
    mode_id == "auto"@ || mode_id == "full-access"@
}

pub fn mode_trusts_project(mode_id: &str) -> (trusts: bool)
    ensures
        trusts == trusts_project(mode_id@),
{
    same(mode_id, "auto") || same(mode_id, "full-access")
}

proof fn lemma_mode_names()
    ensures
        "read-only"@ != "auto"@,
        "read-only"@ != "full-access"@,
        "auto"@ != "full-access"@,
        CODEX_READ_ONLY_PROFILE_ID@ != CODEX_WORKSPACE_PROFILE_ID@,
        CODEX_READ_ONLY_PROFILE_ID@ != CODEX_DANGER_NO_SANDBOX_PROFILE_ID@,
        CODEX_WORKSPACE_PROFILE_ID@ != CODEX_DANGER_NO_SANDBOX_PROFILE_ID@,
{
    reveal_strlit("read-only");
    reveal_strlit("auto");
    reveal_strlit("full-access");
    reveal_strlit(":read-only");
    reveal_strlit(":workspace");
    reveal_strlit(":danger-no-sandbox");
    assert("read-only"@.len() == 9 && "auto"@.len() == 4 && "full-access"@.len() == 11);
    assert(":read-only"@.len() == 10 && ":workspace"@.len() == 10);
    assert(":danger-no-sandbox"@.len() == 18);
    assert(":read-only"@[1] != ":workspace"@[1]);
}

/// Modes and profiles stand for each other: a mode has a profile exactly where the profile has
/// that mode.
pub proof fn modes_and_profiles_match(mode_id: Seq<char>, profile_id: Seq<char>)
    ensures
        profile_for_mode(mode_id) == Some(profile_id) <==> mode_for_profile(profile_id) == Some(
            mode_id,
        ),
{
    lemma_mode_names();
}

/// Read-only mode never marks a project as trusted; the two modes that write do.
pub proof fn read_only_never_trusts(mode_id: Seq<char>)
    ensures
        !trusts_project("read-only"@),
        trusts_project(mode_id) ==> mode_id != "read-only"@ && profile_for_mode(mode_id) is Some,
{
    lemma_mode_names();
}

/// The current mode is that of a preset which asks as the configuration does, unless the project
/// is not trusted: there it may also be read-only.
pub proof fn current_mode_is_offered(presets: Seq<ApprovalPresetView>, config: ConfigView)
    ensures
        current_mode(presets, config) matches Some(mode_id) ==> preset_matches(
            presets,
            mode_id,
            config.approval_policy,
        ) || config.project_untrusted && mode_id == "read-only"@,
{
    if config.active_permission_profile is None {
        lemma_exact_mode(presets, config);
    }
}

proof fn lemma_exact_mode(presets: Seq<ApprovalPresetView>, config: ConfigView)
    ensures
        exact_mode(presets, config) matches Some(mode_id) ==> exists|i: int|
            0 <= i < presets.len() && (#[trigger] presets[i]).id == mode_id && preset_is_current(
                presets[i],
                config,
            ),
        exact_mode(presets, config) is None ==> forall|i: int|
            0 <= i < presets.len() ==> !preset_is_current(#[trigger] presets[i], config),
    decreases presets.len(),
{
    if presets.len() > 0 && !preset_is_current(presets[0], config) {
        let rest = presets.drop_first();
        lemma_exact_mode(rest, config);
        match exact_mode(rest, config) {
            Some(mode_id) => {
                let i = choose|i: int|
                    0 <= i < rest.len() && (#[trigger] rest[i]).id == mode_id && preset_is_current(
                        rest[i],
                        config,
                    );
                assert(presets[i + 1] == rest[i]);
            },
            None => {
                assert forall|i: int| 0 <= i < presets.len() implies !preset_is_current(
                    #[trigger] presets[i],
                    config,
                ) by {
                    if i > 0 {
                        assert(rest[i - 1] == presets[i]);
                    }
                }
            },
        }
    }
}

/// Where exactly one preset is what the configuration holds, and no profile is active by name,
/// that preset's mode is the current one.
pub proof fn exact_preset_is_current(
    presets: Seq<ApprovalPresetView>,
    config: ConfigView,
    current: int,
)
    requires
        config.active_permission_profile is None,
        0 <= current < presets.len(),
        preset_is_current(presets[current], config),
        forall|i: int|
            0 <= i < presets.len() && preset_is_current(#[trigger] presets[i], config) ==> i
                == current,
    ensures
        current_mode(presets, config) == Some(presets[current].id),
{
    lemma_exact_mode(presets, config);
}

} // verus!
