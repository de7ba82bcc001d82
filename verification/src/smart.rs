//! Smart switches: planning how a session reaches another provider or model.

use vstd::prelude::*;

use crate::cli::SmartArgs;
use crate::cli::SmartArgsView;
use crate::lines;
use crate::lines::push_unique;
use crate::migrate;
use crate::numbers;
use crate::numbers::i64_text;
use crate::order;
use crate::order::sort_texts;
use crate::profile_cleanup;
use crate::profile_cleanup::read_table_keys;
use crate::progress::SmartStrategyKind;
use crate::runtime::RuntimeRequest;
use crate::runtime::RuntimeRequestView;
use crate::search;
use crate::search::has_prefix;
use crate::search::lower;
use crate::search::trim_char;
use crate::text;
use crate::text::cat4;
use crate::text::chars_of;
use crate::text::clone_opt;
use crate::text::clone_texts;
use crate::text::no_texts;
use crate::text::opt_or;
use crate::text::or_opt;
use crate::text::push_text;
use crate::text::push_texts;
use crate::text::same_text;
use crate::types::RuntimeConfig;
use crate::types::RuntimeConfigView;
use crate::types::SessionSummary;
use crate::types::SessionSummaryView;

verus! {

/// How a smart switch is carried out.
#[derive(Debug, Clone, Copy, PartialEq, Eq, Structural)]
pub enum SmartExecutionMode {
    Direct,
    DistillCodex,
    DistillDeterministic,
}

impl SmartExecutionMode {
    /// All modes, in the order in which they are offered.
    pub fn all() -> (out: [SmartExecutionMode; 3])
        ensures
            out@ == execution_modes(),
    {
        [
            SmartExecutionMode::Direct,
            SmartExecutionMode::DistillCodex,
            SmartExecutionMode::DistillDeterministic,
        ]
    }
}

pub open spec fn execution_modes() -> Seq<SmartExecutionMode> {
    seq![
        SmartExecutionMode::Direct,
        SmartExecutionMode::DistillCodex,
        SmartExecutionMode::DistillDeterministic,
    ]
}

/// How a planned switch reaches its target.
#[derive(Debug, Clone, Copy, PartialEq, Eq, Structural)]
pub enum SmartStrategy {
    SameThreadProfileOnly,
    SameThreadRepair,
    SameThreadRepairAfterCompaction,
    CrossProviderMigrate,
    CrossProviderMigrateAfterCompaction,
    DistillSuccessor,
}

/// The language of the picker.
#[derive(Debug, Clone, Copy, PartialEq, Eq, Structural)]
pub enum PickerLanguage {
    English,
    Chinese,
}

/// A locale whose language is Chinese.
pub open spec fn chinese_locale(tag: Seq<char>) -> bool {
    "zh"@.is_prefix_of(search::lowered(tag))
}

/// The locale of the user as `sys_locale::get_locale` finds it. Nothing is
/// promised of it.
#[verifier::external_body]
pub(crate) fn user_locale() -> (out: Option<String>) {
    sys_locale::get_locale()
}

impl PickerLanguage {
    /// The language for the locale of the user.
    pub fn detect() -> (out: Self) {
        let locale = user_locale();
        PickerLanguage::for_locale(&locale)
    }

    /// The language for a locale, English where none is known.
    pub fn for_locale(locale: &Option<String>) -> (out: Self)
        ensures
            out == (match *locale {
                Some(tag) => if chinese_locale(tag@) {
                    PickerLanguage::Chinese
                } else {
                    PickerLanguage::English
                },
                None => PickerLanguage::English,
            }),
    {
        match locale {
            Some(tag) => PickerLanguage::from_locale_tag(tag.as_str()),
            None => PickerLanguage::English,
        }
    }

    /// The language for a locale tag.
    pub fn from_locale_tag(tag: &str) -> (out: Self)
        ensures
            out == (if chinese_locale(tag@) {
                PickerLanguage::Chinese
            } else {
                PickerLanguage::English
            }),
    {
        let lowered = lower(tag);
        if has_prefix(lowered.as_str(), "zh") {
            PickerLanguage::Chinese
        } else {
            PickerLanguage::English
        }
    }
}

/// The target of a smart switch.
#[derive(Debug, PartialEq, Eq)]
pub struct SmartSelection {
    pub provider: String,
    pub model: String,
    pub execution_mode: SmartExecutionMode,
    pub target_config: RuntimeConfig,
    pub target_context_window: Option<i64>,
    pub target_auto_compact_token_limit: Option<i64>,
}

/// What a [`SmartSelection`] stands for.
pub struct SmartSelectionView {
    pub provider: Seq<char>,
    pub model: Seq<char>,
    pub execution_mode: SmartExecutionMode,
    pub target_config: RuntimeConfigView,
    pub target_context_window: Option<i64>,
    pub target_auto_compact_token_limit: Option<i64>,
}

impl View for SmartSelection {
    type V = SmartSelectionView;

    open spec fn view(&self) -> SmartSelectionView {
        SmartSelectionView {
            provider: self.provider@,
            model: self.model@,
            execution_mode: self.execution_mode,
            target_config: self.target_config@,
            target_context_window: self.target_context_window,
            target_auto_compact_token_limit: self.target_auto_compact_token_limit,
        }
    }
}

impl DeepView for SmartSelection {
    type V = SmartSelectionView;

    open spec fn deep_view(&self) -> SmartSelectionView {
        self@
    }
}

impl Clone for SmartSelection {
    fn clone(&self) -> (out: Self)
        ensures
            out@ == self@,
    {
        SmartSelection {
            provider: self.provider.clone(),
            model: self.model.clone(),
            execution_mode: self.execution_mode,
            target_config: self.target_config.clone(),
            target_context_window: self.target_context_window,
            target_auto_compact_token_limit: self.target_auto_compact_token_limit,
        }
    }
}

/// A planned smart switch.
#[derive(Debug, PartialEq, Eq)]
pub struct SmartPreview {
    pub selection: SmartSelection,
    pub target_profile: String,
    pub strategy: SmartStrategy,
    pub current_context_tokens: Option<i64>,
    pub current_context_window: Option<i64>,
    pub needs_compaction: bool,
    pub needs_repair_resume_state: bool,
    pub will_archive_source: bool,
    pub blocked_reason: Option<String>,
    pub max_pre_compactions: u32,
}

/// What a [`SmartPreview`] stands for.
pub struct SmartPreviewView {
    pub selection: SmartSelectionView,
    pub target_profile: Seq<char>,
    pub strategy: SmartStrategy,
    pub current_context_tokens: Option<i64>,
    pub current_context_window: Option<i64>,
    pub needs_compaction: bool,
    pub needs_repair_resume_state: bool,
    pub will_archive_source: bool,
    pub blocked_reason: Option<Seq<char>>,
    pub max_pre_compactions: u32,
}

impl View for SmartPreview {
    type V = SmartPreviewView;

    open spec fn view(&self) -> SmartPreviewView {
        SmartPreviewView {
            selection: self.selection@,
            target_profile: self.target_profile@,
            strategy: self.strategy,
            current_context_tokens: self.current_context_tokens,
            current_context_window: self.current_context_window,
            needs_compaction: self.needs_compaction,
            needs_repair_resume_state: self.needs_repair_resume_state,
            will_archive_source: self.will_archive_source,
            blocked_reason: text::opt_text(self.blocked_reason),
            max_pre_compactions: self.max_pre_compactions,
        }
    }
}

impl DeepView for SmartPreview {
    type V = SmartPreviewView;

    open spec fn deep_view(&self) -> SmartPreviewView {
        self@
    }
}

impl Clone for SmartPreview {
    fn clone(&self) -> (out: Self)
        ensures
            out@ == self@,
    {
        SmartPreview {
            selection: self.selection.clone(),
            target_profile: self.target_profile.clone(),
            strategy: self.strategy,
            current_context_tokens: self.current_context_tokens,
            current_context_window: self.current_context_window,
            needs_compaction: self.needs_compaction,
            needs_repair_resume_state: self.needs_repair_resume_state,
            will_archive_source: self.will_archive_source,
            blocked_reason: clone_opt(&self.blocked_reason),
            max_pre_compactions: self.max_pre_compactions,
        }
    }
}

/// What a smart switch came to.
#[derive(Debug, PartialEq, Eq)]
pub struct SmartExecutionOutput {
    pub title: String,
    pub lines: Vec<String>,
    pub preferred_thread_id: Option<String>,
    pub preferred_rollout_path: Option<String>,
}

/// What a [`SmartExecutionOutput`] stands for.
pub struct SmartExecutionOutputView {
    pub title: Seq<char>,
    pub lines: Seq<Seq<char>>,
    pub preferred_thread_id: Option<Seq<char>>,
    pub preferred_rollout_path: Option<Seq<char>>,
}

impl View for SmartExecutionOutput {
    type V = SmartExecutionOutputView;

    open spec fn view(&self) -> SmartExecutionOutputView {
        SmartExecutionOutputView {
            title: self.title@,
            lines: text::texts(self.lines@),
            preferred_thread_id: text::opt_text(self.preferred_thread_id),
            preferred_rollout_path: text::opt_text(self.preferred_rollout_path),
        }
    }
}

impl DeepView for SmartExecutionOutput {
    type V = SmartExecutionOutputView;

    open spec fn deep_view(&self) -> SmartExecutionOutputView {
        self@
    }
}

impl Clone for SmartExecutionOutput {
    fn clone(&self) -> (out: Self)
        ensures
            out@ == self@,
    {
        SmartExecutionOutput {
            title: self.title.clone(),
            lines: clone_texts(&self.lines),
            preferred_thread_id: clone_opt(&self.preferred_thread_id),
            preferred_rollout_path: clone_opt(&self.preferred_rollout_path),
        }
    }
}

// ------------------------------------------------------------------------ providers

/// What a configuration says of providers.
#[derive(Debug, PartialEq, Eq)]
pub struct ProviderConfig {
    pub model_provider: Option<String>,
    /// The providers that are defined.
    pub model_providers: Vec<String>,
    /// The provider of each profile.
    pub profile_providers: Vec<Option<String>>,
}

/// What a [`ProviderConfig`] stands for.
pub struct ProviderConfigView {
    pub model_provider: Option<Seq<char>>,
    pub model_providers: Seq<Seq<char>>,
    pub profile_providers: Seq<Option<Seq<char>>>,
}

impl View for ProviderConfig {
    type V = ProviderConfigView;

    open spec fn view(&self) -> ProviderConfigView {
        ProviderConfigView {
            model_provider: text::opt_text(self.model_provider),
            model_providers: text::texts(self.model_providers@),
            profile_providers: self.profile_providers.deep_view(),
        }
    }
}

impl DeepView for ProviderConfig {
    type V = ProviderConfigView;

    open spec fn deep_view(&self) -> ProviderConfigView {
        self@
    }
}

impl Clone for ProviderConfig {
    fn clone(&self) -> (out: Self)
        ensures
            out@ == self@,
    {
        let out = ProviderConfig {
            model_provider: clone_opt(&self.model_provider),
            model_providers: clone_texts(&self.model_providers),
            profile_providers: self.profile_providers.clone(),
        };
        assert(out.profile_providers.deep_view() =~= self.profile_providers.deep_view());
        out
    }
}

/// A list with a provider added, unless it is the current one or there already.
pub open spec fn with_provider(
    others: Seq<Seq<char>>,
    current: Seq<char>,
    provider: Seq<char>,
) -> Seq<Seq<char>> {
    if provider == current {
        others
    } else {
        text::with_unique(others, provider)
    }
}

pub open spec fn with_providers(
    others: Seq<Seq<char>>,
    current: Seq<char>,
    providers: Seq<Seq<char>>,
) -> Seq<Seq<char>>
    decreases providers.len(),
{
    if providers.len() == 0 {
        others
    } else {
        with_provider(
            with_providers(others, current, providers.drop_last()),
            current,
            providers.last(),
        )
    }
}

/// The texts that are there, in their order.
pub open spec fn present_texts(items: Seq<Option<Seq<char>>>) -> Seq<Seq<char>>
    decreases items.len(),
{
    if items.len() == 0 {
        Seq::empty()
    } else {
        match items.last() {
            Some(item) => present_texts(items.drop_last()).push(item),
            None => present_texts(items.drop_last()),
        }
    }
}

/// All providers that a configuration names.
pub open spec fn named_providers(config: ProviderConfigView) -> Seq<Seq<char>> {
    (match config.model_provider {
        Some(provider) => seq![provider],
        None => Seq::empty(),
    }) + config.model_providers + present_texts(config.profile_providers)
}

/// The providers to choose from: the current one first, then the others in
/// order.
pub open spec fn provider_choices(
    config: ProviderConfigView,
    current: Seq<char>,
) -> Seq<Seq<char>> {
    seq![current] + order::sorted(with_providers(Seq::empty(), current, named_providers(config)))
}

fn keep_present(items: &Vec<Option<String>>) -> (out: Vec<String>)
    ensures
        text::texts(out@) == present_texts(items.deep_view()),
{
    let mut out = no_texts();
    let ghost all = items.deep_view();
    assert(all.take(0) =~= Seq::<Option<Seq<char>>>::empty());
    for i in 0..items.len()
        invariant
            all == items.deep_view(),
            text::texts(out@) == present_texts(all.take(i as int)),
    {
        assert(all.take(i + 1).drop_last() =~= all.take(i as int));
        assert(all[i as int] == items@[i as int].deep_view());
        if let Some(item) = &items[i] {
            push_text(&mut out, item.clone());
        }
    }
    assert(all.take(all.len() as int) =~= all);
    out
}

/// The providers to choose from: the current one first, then the others that
/// the configuration names, in order.
pub fn collect_provider_choices(config: &ProviderConfig, current_provider: &str) -> (out: Vec<
    String,
>)
    ensures
        text::texts(out@) == provider_choices(config@, current_provider@),
{
    let mut named = no_texts();
    if let Some(provider) = &config.model_provider {
        push_text(&mut named, provider.clone());
    }
    push_texts(&mut named, &config.model_providers);
    push_texts(&mut named, &keep_present(&config.profile_providers));
    let ghost all = text::texts(named@);
    assert(all =~= named_providers(config@));
    let mut others = no_texts();
    assert(all.take(0) =~= Seq::<Seq<char>>::empty());
    for i in 0..named.len()
        invariant
            all == text::texts(named@),
            text::texts(others@) == with_providers(
                Seq::empty(),
                current_provider@,
                all.take(i as int),
            ),
    {
        assert(all.take(i + 1).drop_last() =~= all.take(i as int));
        assert(all[i as int] == named@[i as int]@);
        if !same_text(named[i].as_str(), current_provider) {
            push_unique(&mut others, named[i].clone());
        }
    }
    assert(all.take(all.len() as int) =~= all);
    let mut out = no_texts();
    push_text(&mut out, current_provider.to_owned());
    push_texts(&mut out, &sort_texts(&others));
    assert(text::texts(out@) =~= provider_choices(config@, current_provider@));
    out
}

/// The text under a key at the top of a TOML text, as `toml` reads it, or that
/// there is no such key; nothing where the text is no TOML, or where the key
/// holds something else than a text.
pub uninterp spec fn toml_text(contents: Seq<char>, key: Seq<char>) -> Option<Option<Seq<char>>>;

/// Calls `toml::from_str` for a `Table`, `get` with the key, and `as_str` on
/// what is there. The result is a function of the two texts.
#[verifier::external_body]
fn read_toml_text(contents: &str, key: &str) -> (out: Option<Option<String>>)
    ensures
        match out {
            Some(found) => toml_text(contents@, key@) == Some(text::opt_text(found)),
            None => toml_text(contents@, key@) is None,
        },
{
    let document = toml::from_str::<toml::Table>(contents).ok()?;
    match document.get(key) {
        Some(value) => Some(Some(value.as_str()?.to_string())),
        None => Some(None),
    }
}

/// The text under a key of an entry of a table at the top of a TOML text, as
/// `toml` reads it, or that the entry has no such key; nothing where the text
/// is no TOML, where the entry is no table, or where the key holds something
/// else than a text.
pub uninterp spec fn toml_entry_text(
    contents: Seq<char>,
    table: Seq<char>,
    entry: Seq<char>,
    key: Seq<char>,
) -> Option<Option<Seq<char>>>;

/// Calls `toml::from_str` for a `Table`, `get` with the table and the entry,
/// `as_table`, `get` with the key, and `as_str` on what is there. The result is
/// a function of the four texts.
#[verifier::external_body]
fn read_toml_entry_text(contents: &str, table: &str, entry: &str, key: &str) -> (out: Option<
    Option<String>,
>)
    ensures
        match out {
            Some(found) => toml_entry_text(contents@, table@, entry@, key@) == Some(
                text::opt_text(found),
            ),
            None => toml_entry_text(contents@, table@, entry@, key@) is None,
        },
{
    let document = toml::from_str::<toml::Table>(contents).ok()?;
    match document.get(table)?.get(entry)?.as_table()?.get(key) {
        Some(value) => Some(Some(value.as_str()?.to_string())),
        None => Some(None),
    }
}

/// The provider of a profile, or that it names none; nothing where that is no
/// text.
pub open spec fn profile_provider(contents: Seq<char>, profile: Seq<char>) -> Option<
    Option<Seq<char>>,
> {
    toml_entry_text(contents, "profiles"@, profile, "model_provider"@)
}

/// Every one of these profiles names a provider by a text, or names none.
pub open spec fn profiles_fit(contents: Seq<char>, profiles: Seq<Seq<char>>) -> bool {
    forall|i: int| 0 <= i < profiles.len() ==> #[trigger] profile_provider(contents, profiles[i])
        is Some
}

/// The provider of each of these profiles.
pub open spec fn providers_of_profiles(contents: Seq<char>, profiles: Seq<Seq<char>>) -> Seq<
    Option<Seq<char>>,
> {
    Seq::new(profiles.len(), |i: int| profile_provider(contents, profiles[i]).unwrap())
}

/// What a configuration with this text says of providers; nothing where the
/// text is no TOML, or where what it says of providers and profiles has another
/// form than it must have. Only these are looked at: that the other settings
/// have a form that the runtime takes is not asked here.
pub open spec fn provider_config(contents: Seq<char>) -> Option<ProviderConfigView> {
    match (
        profile_cleanup::toml_table_keys(contents, "model_providers"@),
        profile_cleanup::toml_table_keys(contents, "profiles"@),
        toml_text(contents, "model_provider"@),
    ) {
        (Some(model_providers), Some(profiles), Some(model_provider)) => if profiles_fit(
            contents,
            profiles,
        ) {
            Some(
                ProviderConfigView {
                    model_provider,
                    model_providers,
                    profile_providers: providers_of_profiles(contents, profiles),
                },
            )
        } else {
            None
        },
        _ => None,
    }
}

/// What a configuration file says of providers, given its text where there is
/// one; nothing where it cannot be read. The file is read as a table, and not as
/// the configuration type of the Codex runtime: a setting of another kind with a
/// wrong form is left for the runtime to refuse.
pub fn load_global_config_toml(contents: &Option<String>) -> (out: Option<ProviderConfig>)
    ensures
        match *contents {
            None => out matches Some(config) && config@ == (ProviderConfigView {
                model_provider: None,
                model_providers: Seq::empty(),
                profile_providers: Seq::empty(),
            }),
            Some(contents) => match out {
                Some(config) => provider_config(contents@) == Some(config@),
                None => provider_config(contents@) is None,
            },
        },
{
    let written = match contents {
        Some(written) => written.as_str(),
        None => {
            let profile_providers: Vec<Option<String>> = Vec::new();
            assert(profile_providers.deep_view() =~= Seq::<Option<Seq<char>>>::empty());
            return Some(
                ProviderConfig {
                    model_provider: None,
                    model_providers: no_texts(),
                    profile_providers,
                },
            );
        },
    };
    let (model_providers, profiles, model_provider) = match (
        read_table_keys(written, "model_providers"),
        read_table_keys(written, "profiles"),
        read_toml_text(written, "model_provider"),
    ) {
        (Some(model_providers), Some(profiles), Some(model_provider)) => (
            model_providers,
            profiles,
            model_provider,
        ),
        _ => return None,
    };
    let ghost names = text::texts(profiles@);
    let ghost wanted = providers_of_profiles(written@, names);
    let mut profile_providers: Vec<Option<String>> = Vec::new();
    assert(profile_providers.deep_view() =~= wanted.take(0));
    for i in 0..profiles.len()
        invariant
            contents matches Some(all) && all@ == written@,
            names == text::texts(profiles@),
            profile_cleanup::toml_table_keys(written@, "profiles"@) == Some(names),
            wanted == providers_of_profiles(written@, names),
            profile_providers.deep_view() == wanted.take(i as int),
            forall|j: int|
                0 <= j < i ==> #[trigger] profile_provider(written@, names[j]) is Some,
    {
        assert(names[i as int] == profiles@[i as int]@);
        match read_toml_entry_text(written, "profiles", profiles[i].as_str(), "model_provider") {
            Some(provider) => {
                let ghost before = profile_providers.deep_view();
                let ghost added = text::opt_text(provider);
                assert(profile_provider(written@, names[i as int]) == Some(added));
                profile_providers.push(provider);
                assert(profile_providers.deep_view() =~= before.push(added));
                assert(wanted.take(i as int).push(wanted[i as int]) =~= wanted.take(i + 1));
            },
            None => {
                assert(profile_provider(written@, names[i as int]) is None);
                return None;
            },
        }
    }
    assert(wanted.take(wanted.len() as int) =~= wanted);
    Some(ProviderConfig { model_provider, model_providers, profile_providers })
}

proof fn with_providers_facts(
    current: Seq<char>,
    providers: Seq<Seq<char>>,
)
    ensures
        ({
            let out = with_providers(Seq::empty(), current, providers);
            &&& lines::distinct(out)
            &&& forall|p: Seq<char>| #[trigger]
                out.contains(p) <==> providers.contains(p) && p != current
        }),
    decreases providers.len(),
{
    reveal(text::with_unique);
    let out = with_providers(Seq::empty(), current, providers);
    if providers.len() > 0 {
        let front = providers.drop_last();
        let before = with_providers(Seq::empty(), current, front);
        let last = providers.last();
        with_providers_facts(current, front);
        assert forall|i: int, j: int| 0 <= i < j < out.len() implies #[trigger] out[i]
            != #[trigger] out[j] by {
            if j == before.len() {
                assert(before.contains(before[i]));
            }
        }
        assert forall|p: Seq<char>| #[trigger] out.contains(p) <==> providers.contains(p) && p
            != current by {
            if out.contains(p) {
                let k = choose|k: int| 0 <= k < out.len() && out[k] == p;
                if k < before.len() {
                    assert(before[k] == p);
                    assert(before.contains(p));
                    let i = choose|i: int| 0 <= i < front.len() && front[i] == p;
                    assert(providers[i] == p);
                } else {
                    assert(providers[providers.len() - 1] == p);
                }
            }
            if providers.contains(p) && p != current {
                let i = choose|i: int| 0 <= i < providers.len() && providers[i] == p;
                if i < front.len() {
                    assert(front[i] == p);
                    assert(before.contains(p));
                    let k = choose|k: int| 0 <= k < before.len() && before[k] == p;
                    assert(out[k] == p);
                } else if before.contains(p) {
                    let k = choose|k: int| 0 <= k < before.len() && before[k] == p;
                    assert(out[k] == p);
                } else {
                    assert(out[before.len() as int] == p);
                }
            }
        }
    }
}

/// The current provider is always the first choice; the others are those that
/// the configuration names, each once and in order.
pub proof fn provider_choices_laws(
    config: ProviderConfigView,
    current: Seq<char>,
    provider: Seq<char>,
)
    ensures
        provider_choices(config, current)[0] == current,
        provider_choices(config, current).contains(provider) <==> provider == current
            || named_providers(config).contains(provider),
        lines::distinct(provider_choices(config, current)),
        order::in_order(provider_choices(config, current).skip(1)),
{
    broadcast use vstd::seq_lib::group_to_multiset_ensures;

    let named = named_providers(config);
    let others = with_providers(Seq::empty(), current, named);
    let sorted = order::sorted(others);
    let out = provider_choices(config, current);
    with_providers_facts(current, named);
    order::sorted_laws(others);
    assert(sorted.contains(provider) <==> sorted.to_multiset().count(provider) > 0);
    assert(others.contains(provider) <==> others.to_multiset().count(provider) > 0);
    assert(out.skip(1) =~= sorted);
    others.lemma_multiset_has_no_duplicates();
    sorted.lemma_multiset_has_no_duplicates_conv();
    assert forall|i: int, j: int| 0 <= i < j < out.len() implies #[trigger] out[i]
        != #[trigger] out[j] by {
        assert(out[j] == sorted[j - 1]);
        if i == 0 {
            assert(sorted.contains(out[j]));
            assert(sorted.to_multiset().count(out[j]) > 0);
            assert(others.contains(out[j]));
        } else {
            assert(out[i] == sorted[i - 1]);
        }
    }
    if out.contains(provider) {
        let i = choose|i: int| 0 <= i < out.len() && out[i] == provider;
        if i > 0 {
            assert(sorted[i - 1] == provider);
        }
    }
    if provider == current {
        assert(out[0] == provider);
    } else if sorted.contains(provider) {
        let i = choose|i: int| 0 <= i < sorted.len() && sorted[i] == provider;
        assert(out[i + 1] == provider);
    }
}

/// A model that a provider offers.
#[derive(Debug, PartialEq, Eq)]
pub struct ModelPreset {
    pub model: String,
    pub display_name: String,
    pub show_in_picker: bool,
    pub supported_in_api: bool,
}

/// What a [`ModelPreset`] stands for.
pub struct ModelPresetView {
    pub model: Seq<char>,
    pub display_name: Seq<char>,
    pub show_in_picker: bool,
    pub supported_in_api: bool,
}

impl View for ModelPreset {
    type V = ModelPresetView;

    open spec fn view(&self) -> ModelPresetView {
        ModelPresetView {
            model: self.model@,
            display_name: self.display_name@,
            show_in_picker: self.show_in_picker,
            supported_in_api: self.supported_in_api,
        }
    }
}

impl DeepView for ModelPreset {
    type V = ModelPresetView;

    open spec fn deep_view(&self) -> ModelPresetView {
        self@
    }
}

impl Clone for ModelPreset {
    fn clone(&self) -> (out: Self)
        ensures
            out@ == self@,
    {
        ModelPreset {
            model: self.model.clone(),
            display_name: self.display_name.clone(),
            show_in_picker: self.show_in_picker,
            supported_in_api: self.supported_in_api,
        }
    }
}

/// The models of a list that may be picked.
pub open spec fn pickable(models: Seq<ModelPresetView>) -> Seq<ModelPresetView>
    decreases models.len(),
{
    if models.len() == 0 {
        Seq::empty()
    } else if models.last().show_in_picker && models.last().supported_in_api {
        pickable(models.drop_last()).push(models.last())
    } else {
        pickable(models.drop_last())
    }
}

/// The models of a list that may be picked.
pub fn list_available_models(models: &Vec<ModelPreset>) -> (out: Vec<ModelPreset>)
    ensures
        out.deep_view() == pickable(models.deep_view()),
{
    let mut out: Vec<ModelPreset> = Vec::new();
    let ghost all = models.deep_view();
    assert(out.deep_view() =~= pickable(all.take(0)));
    for i in 0..models.len()
        invariant
            all == models.deep_view(),
            out.deep_view() == pickable(all.take(i as int)),
    {
        assert(all.take(i + 1).drop_last() =~= all.take(i as int));
        assert(all[i as int] == models@[i as int]@);
        if models[i].show_in_picker && models[i].supported_in_api {
            let ghost before = out.deep_view();
            out.push(models[i].clone());
            assert(out.deep_view() =~= before.push(all[i as int]));
        }
    }
    assert(all.take(all.len() as int) =~= all);
    out
}

// --------------------------------------------------------------------- profile names

/// The lowercase form of a character outside ASCII, as `char::to_lowercase`
/// gives it.
pub uninterp spec fn lowercase(ch: char) -> Seq<char>;

pub open spec fn ascii(ch: char) -> bool {
    ch <= '\u{7f}'
}

/// The lowercase form of a character: in ASCII the small letter for a capital
/// one, and any other character as it is.
pub open spec fn lower_form(ch: char) -> Seq<char> {
    if ascii(ch) {
        seq![search::ascii_lower(ch)]
    } else {
        lowercase(ch)
    }
}

/// An ASCII capital letter.
pub open spec fn capital(ch: char) -> bool {
    'A' <= ch <= 'Z'
}

/// No character of the text is an ASCII capital letter.
pub open spec fn no_capitals(value: Seq<char>) -> bool {
    forall|i: int| 0 <= i < value.len() ==> !capital(#[trigger] value[i])
}

/// Calls `char::to_lowercase`. The result is a function of the character; for
/// ASCII it is the character itself, or the small letter for a capital one. A
/// lowercase mapping never holds an ASCII capital letter.
#[verifier::external_body]
fn lowercase_chars(ch: char) -> (out: Vec<char>)
    ensures
        out@ == (if ascii(ch) {
            seq![search::ascii_lower(ch)]
        } else {
            lowercase(ch)
        }),
        no_capitals(out@),
{
    ch.to_lowercase().collect()
}

/// A text with each character in its lowercase form.
pub open spec fn lowercased(value: Seq<char>) -> Seq<char>
    decreases value.len(),
{
    if value.len() == 0 {
        Seq::empty()
    } else {
        lowercased(value.drop_last()) + lower_form(value.last())
    }
}

/// An ASCII letter or digit.
pub open spec fn alphanumeric(ch: char) -> bool {
    'a' <= ch <= 'z' || 'A' <= ch <= 'Z' || '0' <= ch <= '9'
}

fn is_alphanumeric(ch: char) -> (out: bool)
    ensures
        out == alphanumeric(ch),
{
    ('a' <= ch && ch <= 'z') || ('A' <= ch && ch <= 'Z') || ('0' <= ch && ch <= '9')
}

/// A text with every run of other characters than ASCII letters and digits made
/// one dash.
pub open spec fn dashed(value: Seq<char>) -> Seq<char>
    decreases value.len(),
{
    if value.len() == 0 {
        Seq::empty()
    } else if alphanumeric(value.last()) {
        dashed(value.drop_last()).push(value.last())
    } else if value.len() > 1 && !alphanumeric(value[value.len() - 2]) {
        dashed(value.drop_last())
    } else {
        dashed(value.drop_last()).push('-')
    }
}

/// A component of a profile name.
pub open spec fn sanitized(value: Seq<char>) -> Seq<char> {
    search::without_ends(dashed(lowercased(value)), '-')
}

fn lower_all(value: &str) -> (out: Vec<char>)
    ensures
        out@ == lowercased(value@),
        no_capitals(out@),
{
    let chars = chars_of(value);
    let mut out: Vec<char> = Vec::new();
    assert(chars@.take(0) =~= Seq::<char>::empty());
    for i in 0..chars.len()
        invariant
            chars@ == value@,
            out@ == lowercased(chars@.take(i as int)),
            no_capitals(out@),
    {
        assert(chars@.take(i + 1).drop_last() =~= chars@.take(i as int));
        let mut lowered = lowercase_chars(chars[i]);
        out.append(&mut lowered);
    }
    assert(chars@.take(chars@.len() as int) =~= chars@);
    out
}

/// A text as a component of a profile name: lowercase, with ASCII letters and
/// digits alone, and single dashes between them. Such a component is left as it
/// is.
pub fn sanitize_profile_component(value: &str) -> (out: String)
    ensures
        out@ == sanitized(value@),
        clean_component(out@),
        no_capitals(out@),
        sanitized(out@) == out@,
{
    let chars = lower_all(value);
    let mut joined = String::new();
    assert(chars@.take(0) =~= Seq::<char>::empty());
    for i in 0..chars.len()
        invariant
            joined@ == dashed(chars@.take(i as int)),
    {
        let ch = chars[i];
        assert(chars@.take(i + 1).drop_last() =~= chars@.take(i as int));
        if is_alphanumeric(ch) {
            joined.push(ch);
        } else if i == 0 || is_alphanumeric(chars[i - 1]) {
            joined.push('-');
        }
    }
    assert(chars@.take(chars@.len() as int) =~= chars@);
    proof {
        sanitized_is_clean(value@);
        dashed_without_capitals(chars@);
        trimmed_without_capitals(dashed(chars@));
        clean_components_stay(sanitized(value@));
    }
    trim_char(joined.as_str(), '-')
}

/// ASCII letters and digits with single dashes between them.
pub open spec fn clean_component(value: Seq<char>) -> bool {
    &&& forall|i: int| 0 <= i < value.len() ==> alphanumeric(#[trigger] value[i]) || value[i] == '-'
    &&& value.len() > 0 ==> value[0] != '-' && value.last() != '-'
    &&& forall|i: int| 0 <= i < value.len() - 1 && #[trigger] value[i] == '-' ==> value[i + 1] != '-'
}

/// No two dashes in a row, and no other characters than ASCII letters and
/// digits besides.
pub open spec fn single_dashes(value: Seq<char>) -> bool {
    &&& forall|i: int| 0 <= i < value.len() ==> alphanumeric(#[trigger] value[i]) || value[i] == '-'
    &&& forall|i: int| 0 <= i < value.len() - 1 && #[trigger] value[i] == '-' ==> value[i + 1] != '-'
}

proof fn dashed_has_single_dashes(value: Seq<char>)
    ensures
        single_dashes(dashed(value)),
        value.len() > 0 ==> dashed(value).len() > 0,
        value.len() > 0 && alphanumeric(value.last()) ==> dashed(value).last() == value.last(),
        value.len() > 0 && !alphanumeric(value.last()) ==> dashed(value).last() == '-',
    decreases value.len(),
{
    if value.len() > 0 {
        dashed_has_single_dashes(value.drop_last());
    }
}

proof fn trimmed_dashes(value: Seq<char>)
    requires
        single_dashes(value),
    ensures
        single_dashes(search::without_start(value, '-')),
        search::without_start(value, '-').len() > 0 ==> search::without_start(value, '-')[0] != '-',
    decreases value.len(),
{
    if value.len() > 0 && value[0] == '-' {
        let rest = value.drop_first();
        assert forall|i: int| 0 <= i < rest.len() implies alphanumeric(#[trigger] rest[i]) || rest[i]
            == '-' by {
            assert(rest[i] == value[i + 1]);
        }
        assert forall|i: int| 0 <= i < rest.len() - 1 && #[trigger] rest[i] == '-' implies rest[i
            + 1] != '-' by {
            assert(rest[i] == value[i + 1]);
            assert(rest[i + 1] == value[i + 2]);
        }
        trimmed_dashes(rest);
    }
}

proof fn trimmed_end_dashes(value: Seq<char>)
    requires
        single_dashes(value),
        value.len() > 0 ==> value[0] != '-',
    ensures
        clean_component(search::without_end(value, '-')),
    decreases value.len(),
{
    if value.len() > 0 && value.last() == '-' {
        let rest = value.drop_last();
        assert forall|i: int| 0 <= i < rest.len() implies alphanumeric(#[trigger] rest[i]) || rest[i]
            == '-' by {
            assert(rest[i] == value[i]);
        }
        assert forall|i: int| 0 <= i < rest.len() - 1 && #[trigger] rest[i] == '-' implies rest[i
            + 1] != '-' by {
            assert(rest[i] == value[i]);
            assert(rest[i + 1] == value[i + 1]);
        }
        trimmed_end_dashes(rest);
    }
}

/// Whatever a provider or a model is called, a component of a profile name has
/// ASCII letters and digits alone, with single dashes between them.
pub proof fn sanitized_is_clean(value: Seq<char>)
    ensures
        clean_component(sanitized(value)),
{
    dashed_has_single_dashes(lowercased(value));
    trimmed_dashes(dashed(lowercased(value)));
    trimmed_end_dashes(search::without_start(dashed(lowercased(value)), '-'));
}

proof fn dashed_without_capitals(value: Seq<char>)
    requires
        no_capitals(value),
    ensures
        no_capitals(dashed(value)),
    decreases value.len(),
{
    if value.len() > 0 {
        assert(!capital(value[value.len() - 1]));
        dashed_without_capitals(value.drop_last());
    }
}

proof fn start_without_capitals(value: Seq<char>)
    requires
        no_capitals(value),
    ensures
        no_capitals(search::without_start(value, '-')),
    decreases value.len(),
{
    if value.len() > 0 && value[0] == '-' {
        start_without_capitals(value.drop_first());
    }
}

proof fn end_without_capitals(value: Seq<char>)
    requires
        no_capitals(value),
    ensures
        no_capitals(search::without_end(value, '-')),
    decreases value.len(),
{
    if value.len() > 0 && value.last() == '-' {
        end_without_capitals(value.drop_last());
    }
}

proof fn trimmed_without_capitals(value: Seq<char>)
    requires
        no_capitals(value),
    ensures
        no_capitals(search::without_ends(value, '-')),
{
    start_without_capitals(value);
    end_without_capitals(search::without_start(value, '-'));
}

proof fn small_texts_stay(value: Seq<char>)
    requires
        single_dashes(value),
        no_capitals(value),
    ensures
        lowercased(value) == value,
        dashed(value) == value,
    decreases value.len(),
{
    if value.len() > 0 {
        let front = value.drop_last();
        assert forall|i: int| 0 <= i < front.len() implies alphanumeric(#[trigger] front[i])
            || front[i] == '-' by {
            assert(front[i] == value[i]);
        }
        assert forall|i: int| 0 <= i < front.len() - 1 && #[trigger] front[i] == '-' implies front[i
            + 1] != '-' by {
            assert(front[i] == value[i]);
        }
        assert(no_capitals(front));
        small_texts_stay(front);
        let last = value[value.len() - 1];
        assert(!capital(last) && (alphanumeric(last) || last == '-'));
        assert(lower_form(last) =~= seq![last]);
        assert(lowercased(value) =~= value);
        if last == '-' && value.len() > 1 {
            assert(value[value.len() - 2] != '-');
            assert(alphanumeric(value[value.len() - 2]));
        }
        assert(dashed(value) =~= value);
    }
}

/// A clean component without capital letters is left as it is. What
/// [`sanitize_profile_component`] gives is such a component, so that doing it
/// again changes nothing.
pub proof fn clean_components_stay(value: Seq<char>)
    requires
        clean_component(value),
        no_capitals(value),
    ensures
        sanitized(value) == value,
{
    small_texts_stay(value);
}

/// The name of the profile for a target.
pub open spec fn smart_profile_name(
    provider: Seq<char>,
    model: Seq<char>,
    context_window: Option<i64>,
) -> Seq<char> {
    let base = "smart-"@ + sanitized(provider) + "-"@ + sanitized(model);
    match context_window {
        Some(window) => base + "-"@ + numbers::decimal(window as int),
        None => base,
    }
}

/// The name of the profile for a target.
pub fn default_smart_profile_name(provider: &str, model: &str, context_window: Option<i64>) -> (out:
    String)
    ensures
        out@ == smart_profile_name(provider@, model@, context_window),
{
    let provider = sanitize_profile_component(provider);
    let model = sanitize_profile_component(model);
    let mut out = cat4("smart-", provider.as_str(), "-", model.as_str());
    if let Some(window) = context_window {
        out.append("-");
        out.append(i64_text(window).as_str());
    }
    out
}

/// A profile with a name made up for a target counts as generated, so that a
/// cleanup takes it away.
pub proof fn smart_profiles_are_generated(
    provider: Seq<char>,
    model: Seq<char>,
    context_window: Option<i64>,
)
    ensures
        "smart-"@.is_prefix_of(smart_profile_name(provider, model, context_window)),
{
    let name = smart_profile_name(provider, model, context_window);
    assert("smart-"@ =~= name.take("smart-"@.len() as int));
}

// ------------------------------------------------------------------------- planning

/// The profile that a switch writes.
pub open spec fn target_profile(args: SmartArgsView, selection: SmartSelectionView) -> Seq<char> {
    text::text_or(
        args.write_profile,
        smart_profile_name(selection.provider, selection.model, selection.target_context_window),
    )
}

/// The profile that a switch writes: the one given, or one named after the
/// target.
pub fn choose_target_profile(args: &SmartArgs, selection: &SmartSelection) -> (out: String)
    ensures
        out@ == target_profile(args@, selection@),
{
    match &args.write_profile {
        Some(profile) => profile.clone(),
        None => default_smart_profile_name(
            selection.provider.as_str(),
            selection.model.as_str(),
            selection.target_context_window,
        ),
    }
}

/// Whether the window hints of the session have to follow the selection.
pub open spec fn repairs_resume_state(
    selection: SmartSelectionView,
    current_model: Seq<char>,
    current_window: Option<i64>,
) -> bool {
    selection.model != current_model || (selection.target_context_window is Some
        && selection.target_context_window != current_window)
}

impl SmartSelection {
    /// Whether the window hints of the session have to follow the selection:
    /// another model, or another window.
    pub fn should_repair_resume_state(
        &self,
        current_model: &str,
        current_window: Option<i64>,
    ) -> (out:
        bool)
        ensures
            out == repairs_resume_state(self@, current_model@, current_window),
    {
        !same_text(self.model.as_str(), current_model) || (self.target_context_window.is_some()
            && self.target_context_window != current_window)
    }
}

/// The session has more tokens than the target window.
pub open spec fn too_large(selection: SmartSelectionView, context_tokens: Option<i64>) -> bool {
    migrate::exceeds(context_tokens, selection.target_context_window)
}

fn is_too_large(selection: &SmartSelection, context_tokens: Option<i64>) -> (out: bool)
    ensures
        out == too_large(selection@, context_tokens),
{
    match (selection.target_context_window, context_tokens) {
        (Some(window), Some(tokens)) => tokens > window,
        _ => false,
    }
}

/// The strategy for a selection.
pub open spec fn strategy_for(
    mode: SmartExecutionMode,
    same_provider: bool,
    needs_compaction: bool,
    needs_repair: bool,
) -> SmartStrategy {
    if mode != SmartExecutionMode::Direct {
        SmartStrategy::DistillSuccessor
    } else if same_provider {
        if needs_compaction {
            SmartStrategy::SameThreadRepairAfterCompaction
        } else if needs_repair {
            SmartStrategy::SameThreadRepair
        } else {
            SmartStrategy::SameThreadProfileOnly
        }
    } else if needs_compaction {
        SmartStrategy::CrossProviderMigrateAfterCompaction
    } else {
        SmartStrategy::CrossProviderMigrate
    }
}

fn choose_strategy(
    mode: SmartExecutionMode,
    same_provider: bool,
    needs_compaction: bool,
    needs_repair: bool,
) -> (out: SmartStrategy)
    ensures
        out == strategy_for(mode, same_provider, needs_compaction, needs_repair),
{
    match mode {
        SmartExecutionMode::Direct => match (same_provider, needs_compaction, needs_repair) {
            (true, false, false) => SmartStrategy::SameThreadProfileOnly,
            (true, false, true) => SmartStrategy::SameThreadRepair,
            (true, true, _) => SmartStrategy::SameThreadRepairAfterCompaction,
            (false, false, _) => SmartStrategy::CrossProviderMigrate,
            (false, true, _) => SmartStrategy::CrossProviderMigrateAfterCompaction,
        },
        _ => SmartStrategy::DistillSuccessor,
    }
}

/// A strategy as it is reported while it runs.
pub open spec fn kind_of(strategy: SmartStrategy) -> SmartStrategyKind {
    match strategy {
        SmartStrategy::SameThreadProfileOnly => SmartStrategyKind::SameThreadProfileOnly,
        SmartStrategy::SameThreadRepair => SmartStrategyKind::SameThreadRepair,
        SmartStrategy::SameThreadRepairAfterCompaction =>
            SmartStrategyKind::SameThreadRepairAfterCompaction,
        SmartStrategy::CrossProviderMigrate => SmartStrategyKind::CrossProviderMigrate,
        SmartStrategy::CrossProviderMigrateAfterCompaction =>
            SmartStrategyKind::CrossProviderMigrateAfterCompaction,
        SmartStrategy::DistillSuccessor => SmartStrategyKind::DistillSuccessor,
    }
}

/// The strategy for a session and a selection.
pub open spec fn session_strategy(
    summary: SessionSummaryView,
    current_provider: Seq<char>,
    current_model: Seq<char>,
    selection: SmartSelectionView,
) -> SmartStrategy {
    strategy_for(
        selection.execution_mode,
        selection.provider == current_provider,
        too_large(selection, summary.latest_context_tokens),
        repairs_resume_state(selection, current_model, summary.latest_model_context_window)
            && selection.target_context_window is Some,
    )
}

/// The strategy that a switch is carried out with.
pub fn planned_strategy(
    summary: &SessionSummary,
    current_provider: &str,
    current_model: &str,
    selection: &SmartSelection,
) -> (out: SmartStrategyKind)
    ensures
        out == kind_of(
            session_strategy(summary@, current_provider@, current_model@, selection@),
        ),
{
    let needs_compaction = is_too_large(selection, summary.latest_context_tokens);
    let needs_repair = selection.should_repair_resume_state(
        current_model,
        summary.latest_model_context_window,
    ) && selection.target_context_window.is_some();
    let same_provider = same_text(selection.provider.as_str(), current_provider);
    match choose_strategy(
        selection.execution_mode,
        same_provider,
        needs_compaction,
        needs_repair,
    ) {
        SmartStrategy::SameThreadProfileOnly => SmartStrategyKind::SameThreadProfileOnly,
        SmartStrategy::SameThreadRepair => SmartStrategyKind::SameThreadRepair,
        SmartStrategy::SameThreadRepairAfterCompaction =>
            SmartStrategyKind::SameThreadRepairAfterCompaction,
        SmartStrategy::CrossProviderMigrate => SmartStrategyKind::CrossProviderMigrate,
        SmartStrategy::CrossProviderMigrateAfterCompaction =>
            SmartStrategyKind::CrossProviderMigrateAfterCompaction,
        SmartStrategy::DistillSuccessor => SmartStrategyKind::DistillSuccessor,
    }
}

/// The warning for an archived session that is too large.
pub open spec fn blocked_text(
    same_provider: bool,
    context_tokens: i64,
    target_window: i64,
) -> Seq<char> {
    if same_provider {
        "thread is archived and current context "@
            + numbers::decimal(context_tokens as int)
            + " exceeds target window "@
            + numbers::decimal(target_window as int)
    } else {
        "source thread is archived and migration would need compaction because current context "@
            + numbers::decimal(context_tokens as int)
            + " exceeds target window "@
            + numbers::decimal(target_window as int)
    }
}

/// The warning for an archived session that is too large.
pub fn blocked_message(
    same_provider: bool,
    context_tokens: i64,
    target_window: i64,
) -> (out: String)
    ensures
        out@ == blocked_text(same_provider, context_tokens, target_window),
{
    if same_provider {
        cat4(
            "thread is archived and current context ",
            i64_text(context_tokens).as_str(),
            " exceeds target window ",
            i64_text(target_window).as_str(),
        )
    } else {
        cat4(
            "source thread is archived and migration would need compaction because current context ",
            i64_text(context_tokens).as_str(),
            " exceeds target window ",
            i64_text(target_window).as_str(),
        )
    }
}

/// The plan for a switch.
pub open spec fn preview_of(
    summary: SessionSummaryView,
    current_provider: Seq<char>,
    current_model: Seq<char>,
    args: SmartArgsView,
    selection: SmartSelectionView,
) -> SmartPreviewView {
    let needs_compaction = too_large(selection, summary.latest_context_tokens);
    let same_provider = selection.provider == current_provider;
    SmartPreviewView {
        selection,
        target_profile: target_profile(args, selection),
        strategy: session_strategy(summary, current_provider, current_model, selection),
        current_context_tokens: summary.latest_context_tokens,
        current_context_window: summary.latest_model_context_window,
        needs_compaction,
        needs_repair_resume_state: repairs_resume_state(
            selection,
            current_model,
            summary.latest_model_context_window,
        ) && selection.target_context_window is Some,
        will_archive_source: !same_provider && args.archive_source,
        blocked_reason: if summary.archived && needs_compaction && selection.execution_mode
            == SmartExecutionMode::Direct {
            Some(
                blocked_text(
                    same_provider,
                    summary.latest_context_tokens.unwrap(),
                    selection.target_context_window.unwrap(),
                ),
            )
        } else {
            None
        },
        max_pre_compactions: args.max_pre_compactions,
    }
}

/// Plans a switch.
pub fn plan_preview(
    summary: &SessionSummary,
    current_provider: &str,
    current_model: &str,
    args: &SmartArgs,
    selection: SmartSelection,
) -> (out: SmartPreview)
    ensures
        out@ == preview_of(summary@, current_provider@, current_model@, args@, selection@),
{
    let target_profile = choose_target_profile(args, &selection);
    let needs_compaction = is_too_large(&selection, summary.latest_context_tokens);
    let needs_repair_resume_state = selection.should_repair_resume_state(
        current_model,
        summary.latest_model_context_window,
    ) && selection.target_context_window.is_some();
    let same_provider = same_text(selection.provider.as_str(), current_provider);
    let strategy = choose_strategy(
        selection.execution_mode,
        same_provider,
        needs_compaction,
        needs_repair_resume_state,
    );
    let direct = matches!(selection.execution_mode, SmartExecutionMode::Direct);
    let blocked_reason: Option<String> = if summary.archived && needs_compaction && direct {
        match (summary.latest_context_tokens, selection.target_context_window) {
            (Some(tokens), Some(window)) => Some(blocked_message(same_provider, tokens, window)),
            _ => None,
        }
    } else {
        None
    };
    SmartPreview {
        selection,
        target_profile,
        strategy,
        current_context_tokens: summary.latest_context_tokens,
        current_context_window: summary.latest_model_context_window,
        needs_compaction,
        needs_repair_resume_state,
        will_archive_source: !same_provider && args.archive_source,
        blocked_reason,
        max_pre_compactions: args.max_pre_compactions,
    }
}

/// The strategy that a plan shows is the one that the switch is carried out
/// with; a plan warns exactly where a direct switch would have to compact an
/// archived session; and a distillation is never blocked.
pub proof fn plan_agrees_with_execution(
    summary: SessionSummaryView,
    current_provider: Seq<char>,
    current_model: Seq<char>,
    args: SmartArgsView,
    selection: SmartSelectionView,
)
    ensures
        ({
            let plan = preview_of(summary, current_provider, current_model, args, selection);
            &&& plan.strategy == session_strategy(
                summary,
                current_provider,
                current_model,
                selection,
            )
            &&& (plan.blocked_reason is Some) == (summary.archived && (
            plan.strategy == SmartStrategy::SameThreadRepairAfterCompaction || plan.strategy
                == SmartStrategy::CrossProviderMigrateAfterCompaction))
            &&& plan.strategy == SmartStrategy::DistillSuccessor ==> plan.blocked_reason is None
        }),
{
}

// --------------------------------------------------------------------------- labels

/// The English label of a strategy.
pub open spec fn strategy_label_text(strategy: SmartStrategy) -> Seq<char> {
    match strategy {
        SmartStrategy::SameThreadProfileOnly => "same-thread profile update"@,
        SmartStrategy::SameThreadRepair => "same-thread repair"@,
        SmartStrategy::SameThreadRepairAfterCompaction => "same-thread compact then repair"@,
        SmartStrategy::CrossProviderMigrate => "cross-provider migrate"@,
        SmartStrategy::CrossProviderMigrateAfterCompaction => "cross-provider compact then migrate"@,
        SmartStrategy::DistillSuccessor => "distill successor session"@,
    }
}

/// The English label of a strategy.
pub fn strategy_label(strategy: SmartStrategy) -> (out: &'static str)
    ensures
        out@ == strategy_label_text(strategy),
{
    match strategy {
        SmartStrategy::SameThreadProfileOnly => "same-thread profile update",
        SmartStrategy::SameThreadRepair => "same-thread repair",
        SmartStrategy::SameThreadRepairAfterCompaction => "same-thread compact then repair",
        SmartStrategy::CrossProviderMigrate => "cross-provider migrate",
        SmartStrategy::CrossProviderMigrateAfterCompaction => "cross-provider compact then migrate",
        SmartStrategy::DistillSuccessor => "distill successor session",
    }
}

/// The Chinese label of a strategy.
pub open spec fn strategy_label_zh_text(strategy: SmartStrategy) -> Seq<char> {
    match strategy {
        SmartStrategy::SameThreadProfileOnly => "同线程仅更新 profile"@,
        SmartStrategy::SameThreadRepair => "同线程修复"@,
        SmartStrategy::SameThreadRepairAfterCompaction => "同线程先压缩再修复"@,
        SmartStrategy::CrossProviderMigrate => "跨 provider 迁移"@,
        SmartStrategy::CrossProviderMigrateAfterCompaction => "跨 provider 先压缩再迁移"@,
        SmartStrategy::DistillSuccessor => "提炼轻量继任会话"@,
    }
}

/// The Chinese label of a strategy.
pub fn strategy_label_zh(strategy: SmartStrategy) -> (out: &'static str)
    ensures
        out@ == strategy_label_zh_text(strategy),
{
    match strategy {
        SmartStrategy::SameThreadProfileOnly => "同线程仅更新 profile",
        SmartStrategy::SameThreadRepair => "同线程修复",
        SmartStrategy::SameThreadRepairAfterCompaction => "同线程先压缩再修复",
        SmartStrategy::CrossProviderMigrate => "跨 provider 迁移",
        SmartStrategy::CrossProviderMigrateAfterCompaction => "跨 provider 先压缩再迁移",
        SmartStrategy::DistillSuccessor => "提炼轻量继任会话",
    }
}

/// `yes` or `no`.
pub open spec fn yes_no_text(value: bool) -> Seq<char> {
    if value {
        "yes"@
    } else {
        "no"@
    }
}

/// `yes` or `no`.
pub fn yes_no(value: bool) -> (out: &'static str)
    ensures
        out@ == yes_no_text(value),
{
    if value {
        "yes"
    } else {
        "no"
    }
}

/// `yes` or `no` in Chinese.
pub open spec fn yes_no_zh_text(value: bool) -> Seq<char> {
    if value {
        "是"@
    } else {
        "否"@
    }
}

/// `yes` or `no` in Chinese.
pub fn yes_no_zh(value: bool) -> (out: &'static str)
    ensures
        out@ == yes_no_zh_text(value),
{
    if value {
        "是"
    } else {
        "否"
    }
}

// ---------------------------------------------------------------------- preparation

/// The provider that a session runs with.
pub open spec fn provider_of(summary: SessionSummaryView, runtime: RuntimeConfigView) -> Seq<char> {
    text::text_or(summary.session_provider, runtime.model_provider_id)
}

/// The model that a session runs with.
pub open spec fn model_of(summary: SessionSummaryView, runtime: RuntimeConfigView) -> Seq<char> {
    text::text_or(text::first_present(summary.latest_model, runtime.model), ""@)
}

/// What a switch starts from.
#[derive(Debug, PartialEq, Eq)]
pub struct PreparedSmartExecution {
    pub args: SmartArgs,
    pub summary: SessionSummary,
    pub current_provider: String,
    pub current_model: String,
    pub provider_choices: Vec<String>,
}

/// What a [`PreparedSmartExecution`] stands for.
pub struct PreparedSmartExecutionView {
    pub args: SmartArgsView,
    pub summary: SessionSummaryView,
    pub current_provider: Seq<char>,
    pub current_model: Seq<char>,
    pub provider_choices: Seq<Seq<char>>,
}

impl View for PreparedSmartExecution {
    type V = PreparedSmartExecutionView;

    open spec fn view(&self) -> PreparedSmartExecutionView {
        PreparedSmartExecutionView {
            args: self.args@,
            summary: self.summary@,
            current_provider: self.current_provider@,
            current_model: self.current_model@,
            provider_choices: text::texts(self.provider_choices@),
        }
    }
}

impl DeepView for PreparedSmartExecution {
    type V = PreparedSmartExecutionView;

    open spec fn deep_view(&self) -> PreparedSmartExecutionView {
        self@
    }
}

impl Clone for PreparedSmartExecution {
    fn clone(&self) -> (out: Self)
        ensures
            out@ == self@,
    {
        PreparedSmartExecution {
            args: self.args.clone(),
            summary: self.summary.clone(),
            current_provider: self.current_provider.clone(),
            current_model: self.current_model.clone(),
            provider_choices: clone_texts(&self.provider_choices),
        }
    }
}

/// A switch that is not prepared.
#[derive(Debug, Clone, Copy, PartialEq, Eq, Structural)]
pub enum PrepareError {
    NoCompactionsAllowed,
}

/// The message for an error.
pub open spec fn prepare_error_text(error: PrepareError) -> Seq<char> {
    match error {
        PrepareError::NoCompactionsAllowed => "max_pre_compactions must be >= 1"@,
    }
}

/// The message for an error.
pub fn prepare_error_message(error: PrepareError) -> (out: &'static str)
    ensures
        out@ == prepare_error_text(error),
{
    match error {
        PrepareError::NoCompactionsAllowed => "max_pre_compactions must be >= 1",
    }
}

/// Prepares a switch.
pub fn prepare_execution(
    args: &SmartArgs,
    summary: &SessionSummary,
    source_config: &RuntimeConfig,
    providers: &ProviderConfig,
) -> (out: Result<PreparedSmartExecution, PrepareError>)
    ensures
        if args@.max_pre_compactions == 0 {
            out == Err::<PreparedSmartExecution, PrepareError>(PrepareError::NoCompactionsAllowed)
        } else {
            out matches Ok(prepared) && prepared@ == (PreparedSmartExecutionView {
                args: args@,
                summary: summary@,
                current_provider: provider_of(summary@, source_config@),
                current_model: model_of(summary@, source_config@),
                provider_choices: provider_choices(
                    providers@,
                    provider_of(summary@, source_config@),
                ),
            })
        },
{
    if args.max_pre_compactions == 0 {
        return Err(PrepareError::NoCompactionsAllowed);
    }
    let current_provider = opt_or(
        &summary.session_provider,
        source_config.model_provider_id.as_str(),
    );
    let current_model = opt_or(&or_opt(&summary.latest_model, &source_config.model), "");
    let provider_choices = collect_provider_choices(providers, current_provider.as_str());
    Ok(
        PreparedSmartExecution {
            args: args.clone(),
            summary: summary.clone(),
            current_provider,
            current_model,
            provider_choices,
        },
    )
}

/// The runtime from which the models of a provider are listed.
pub fn available_models_for_provider(summary: &SessionSummary, provider: &str) -> (out:
    RuntimeRequest)
    ensures
        out@ == (RuntimeRequestView {
            config_profile: None,
            cwd: Some(summary@.session_cwd),
            model: None,
            provider: Some(provider@),
            context_window: None,
            auto_compact_token_limit: None,
        }),
{
    RuntimeRequest {
        config_profile: None,
        cwd: Some(summary.session_cwd.clone()),
        model: None,
        provider: Some(provider.to_owned()),
        context_window: None,
        auto_compact_token_limit: None,
    }
}

/// The runtime of the target of a switch.
pub fn target_runtime_request(summary: &SessionSummary, provider: &str, model: &str) -> (out:
    RuntimeRequest)
    ensures
        out@ == (RuntimeRequestView {
            config_profile: None,
            cwd: Some(summary@.session_cwd),
            model: Some(model@),
            provider: Some(provider@),
            context_window: None,
            auto_compact_token_limit: None,
        }),
{
    RuntimeRequest {
        config_profile: None,
        cwd: Some(summary.session_cwd.clone()),
        model: Some(model.to_owned()),
        provider: Some(provider.to_owned()),
        context_window: None,
        auto_compact_token_limit: None,
    }
}

/// The selection of a target whose runtime is loaded.
pub open spec fn selection_of(
    provider: Seq<char>,
    model: Seq<char>,
    mode: SmartExecutionMode,
    runtime: RuntimeConfigView,
) -> SmartSelectionView {
    SmartSelectionView {
        provider,
        model,
        execution_mode: mode,
        target_config: runtime,
        target_context_window: runtime.model_context_window,
        target_auto_compact_token_limit: runtime.model_auto_compact_token_limit,
    }
}

/// Plans a switch to a target whose runtime is loaded.
pub fn build_preview(
    prepared: &PreparedSmartExecution,
    provider: &str,
    model: &str,
    execution_mode: SmartExecutionMode,
    target_config: RuntimeConfig,
) -> (out: SmartPreview)
    ensures
        out@ == preview_of(
            prepared@.summary,
            prepared@.current_provider,
            prepared@.current_model,
            prepared@.args,
            selection_of(provider@, model@, execution_mode, target_config@),
        ),
{
    let selection = SmartSelection {
        provider: provider.to_owned(),
        model: model.to_owned(),
        execution_mode,
        target_context_window: target_config.model_context_window,
        target_auto_compact_token_limit: target_config.model_auto_compact_token_limit,
        target_config,
    };
    plan_preview(
        &prepared.summary,
        prepared.current_provider.as_str(),
        prepared.current_model.as_str(),
        &prepared.args,
        selection,
    )
}

// ---------------------------------------------------------------------------- laws

/// A plan follows from the session and the selection. A session is too large
/// where it has more tokens than the target window, and its window hints are
/// repaired where a target window is known and the model or the window changes.
/// Another mode than the direct one distills. A direct switch stays in the
/// session for the provider that it has, and migrates it for another one; either
/// way it compacts first where the session is too large. Only an archived session
/// that would have to be compacted blocks a plan, and only a migration archives
/// its source, where that was asked for.
pub proof fn plan_follows_from_the_session(
    summary: SessionSummaryView,
    current_provider: Seq<char>,
    current_model: Seq<char>,
    args: SmartArgsView,
    selection: SmartSelectionView,
)
    ensures
        ({
            let plan = preview_of(summary, current_provider, current_model, args, selection);
            let tokens = summary.latest_context_tokens;
            let window = selection.target_context_window;
            let large = tokens is Some && window is Some && tokens.unwrap() > window.unwrap();
            let repair = window is Some && (selection.model != current_model
                || summary.latest_model_context_window != window);
            let direct = selection.execution_mode == SmartExecutionMode::Direct;
            let stays = selection.provider == current_provider;
            &&& plan.selection == selection
            &&& plan.current_context_tokens == tokens
            &&& plan.current_context_window == summary.latest_model_context_window
            &&& plan.max_pre_compactions == args.max_pre_compactions
            &&& plan.needs_compaction == large
            &&& plan.needs_repair_resume_state == repair
            &&& plan.will_archive_source == (!stays && args.archive_source)
            &&& plan.blocked_reason is Some <==> summary.archived && large && direct
            &&& plan.strategy is DistillSuccessor <==> !direct
            &&& plan.strategy is SameThreadRepairAfterCompaction <==> direct && stays && large
            &&& plan.strategy is SameThreadRepair <==> direct && stays && !large && repair
            &&& plan.strategy is SameThreadProfileOnly <==> direct && stays && !large && !repair
            &&& plan.strategy is CrossProviderMigrateAfterCompaction <==> direct && !stays && large
            &&& plan.strategy is CrossProviderMigrate <==> direct && !stays && !large
            &&& match args.write_profile {
                Some(profile) => plan.target_profile == profile,
                None => plan.target_profile == smart_profile_name(
                    selection.provider,
                    selection.model,
                    window,
                ),
            }
        }),
{
}

/// A plan that is blocked says how large the session is and how large the window.
pub proof fn blocked_plans_say_why(
    summary: SessionSummaryView,
    current_provider: Seq<char>,
    current_model: Seq<char>,
    args: SmartArgsView,
    selection: SmartSelectionView,
)
    requires
        preview_of(
            summary,
            current_provider,
            current_model,
            args,
            selection,
        ).blocked_reason is Some,
    ensures
        ({
            let reason = preview_of(
                summary,
                current_provider,
                current_model,
                args,
                selection,
            ).blocked_reason.unwrap();
            let ending = numbers::decimal(summary.latest_context_tokens.unwrap() as int)
                + " exceeds target window "@ + numbers::decimal(
                selection.target_context_window.unwrap() as int,
            );
            &&& ending.is_suffix_of(reason)
            &&& selection.provider == current_provider ==> "thread is archived "@.is_prefix_of(reason)
            &&& selection.provider != current_provider ==> "source thread is archived "@.is_prefix_of(
                reason,
            )
        }),
{
    let tokens = numbers::decimal(summary.latest_context_tokens.unwrap() as int);
    let window = numbers::decimal(selection.target_context_window.unwrap() as int);
    let ending = tokens + " exceeds target window "@ + window;
    let reason = preview_of(
        summary,
        current_provider,
        current_model,
        args,
        selection,
    ).blocked_reason.unwrap();
    reveal_strlit("thread is archived ");
    reveal_strlit("source thread is archived ");
    reveal_strlit("thread is archived and current context ");
    reveal_strlit(
        "source thread is archived and migration would need compaction because current context ",
    );
    assert(reason.skip(reason.len() - ending.len()) =~= ending);
    if selection.provider == current_provider {
        assert(reason.take("thread is archived "@.len() as int) =~= "thread is archived "@);
    } else {
        assert(reason.take("source thread is archived "@.len() as int)
            =~= "source thread is archived "@);
    }
}

/// What a switch reports while it runs is the strategy that was planned.
pub proof fn reported_strategy_is_the_planned_one(strategy: SmartStrategy)
    ensures
        kind_of(strategy) is SameThreadProfileOnly <==> strategy is SameThreadProfileOnly,
        kind_of(strategy) is SameThreadRepair <==> strategy is SameThreadRepair,
        kind_of(strategy) is SameThreadRepairAfterCompaction <==> strategy
            is SameThreadRepairAfterCompaction,
        kind_of(strategy) is CrossProviderMigrate <==> strategy is CrossProviderMigrate,
        kind_of(strategy) is CrossProviderMigrateAfterCompaction <==> strategy
            is CrossProviderMigrateAfterCompaction,
        kind_of(strategy) is DistillSuccessor <==> strategy is DistillSuccessor,
{
}

/// A session runs with the provider and the model that its rollout names; only
/// where it names none, with those of the configuration.
pub proof fn session_names_provider_and_model(
    summary: SessionSummaryView,
    runtime: RuntimeConfigView,
)
    ensures
        summary.session_provider matches Some(provider) ==> provider_of(summary, runtime)
            == provider,
        summary.session_provider is None ==> provider_of(summary, runtime)
            == runtime.model_provider_id,
        summary.latest_model matches Some(model) ==> model_of(summary, runtime) == model,
        summary.latest_model is None ==> (runtime.model matches Some(model) ==> model_of(
            summary,
            runtime,
        ) == model),
        summary.latest_model is None && runtime.model is None ==> model_of(summary, runtime)
            == ""@,
{
}

/// A selection takes its window and its limit from the runtime of the target.
pub proof fn selection_follows_its_runtime(
    provider: Seq<char>,
    model: Seq<char>,
    mode: SmartExecutionMode,
    runtime: RuntimeConfigView,
)
    ensures
        ({
            let selection = selection_of(provider, model, mode, runtime);
            &&& selection.provider == provider
            &&& selection.model == model
            &&& selection.execution_mode == mode
            &&& selection.target_config == runtime
            &&& selection.target_context_window == runtime.model_context_window
            &&& selection.target_auto_compact_token_limit == runtime.model_auto_compact_token_limit
        }),
{
}

/// The models to pick from are those that are shown in pickers and supported, in
/// their order.
pub proof fn models_to_pick_are_shown_and_supported(models: Seq<ModelPresetView>)
    ensures
        pickable(models) == models.filter(
            |model: ModelPresetView| model.show_in_picker && model.supported_in_api,
        ),
    decreases models.len(),
{
    reveal(Seq::filter);
    if models.len() > 0 {
        models_to_pick_are_shown_and_supported(models.drop_last());
    } else {
        assert(pickable(models) =~= models.filter(
            |model: ModelPresetView| model.show_in_picker && model.supported_in_api,
        ));
    }
}

proof fn present_texts_are_there(items: Seq<Option<Seq<char>>>, item: Seq<char>)
    ensures
        present_texts(items).contains(item) <==> items.contains(Some(item)),
    decreases items.len(),
{
    if items.len() > 0 {
        let front = items.drop_last();
        present_texts_are_there(front, item);
        let all = present_texts(items);
        if items.contains(Some(item)) {
            let i = choose|i: int| 0 <= i < items.len() && items[i] == Some(item);
            if i < front.len() {
                assert(front[i] == Some(item));
                let k = choose|k: int|
                    0 <= k < present_texts(front).len() && present_texts(front)[k] == item;
                assert(all[k] == item);
            } else {
                assert(all[all.len() - 1] == item);
            }
        }
        if all.contains(item) {
            let k = choose|k: int| 0 <= k < all.len() && all[k] == item;
            if k < present_texts(front).len() {
                assert(present_texts(front)[k] == item);
                let i = choose|i: int| 0 <= i < front.len() && front[i] == Some(item);
                assert(items[i] == Some(item));
            } else {
                assert(items[items.len() - 1] == Some(item));
            }
        }
    }
}

/// The providers to choose from are the current one and all that the
/// configuration names: the default one, those that are defined, and those that
/// profiles use.
pub proof fn every_named_provider_can_be_chosen(
    config: ProviderConfigView,
    current: Seq<char>,
    provider: Seq<char>,
)
    ensures
        provider_choices(config, current).contains(provider) <==> {
            ||| provider == current
            ||| config.model_provider == Some(provider)
            ||| config.model_providers.contains(provider)
            ||| config.profile_providers.contains(Some(provider))
        },
{
    provider_choices_laws(config, current, provider);
    present_texts_are_there(config.profile_providers, provider);
    let default = match config.model_provider {
        Some(name) => seq![name],
        None => Seq::empty(),
    };
    let used = present_texts(config.profile_providers);
    let named = named_providers(config);
    if named.contains(provider) {
        let i = choose|i: int| 0 <= i < named.len() && named[i] == provider;
        if i < default.len() {
        } else if i < default.len() + config.model_providers.len() {
            assert(config.model_providers[i - default.len()] == provider);
        } else {
            assert(used[i - default.len() - config.model_providers.len()] == provider);
        }
    }
    if config.model_provider == Some(provider) {
        assert(named[0] == provider);
    }
    if config.model_providers.contains(provider) {
        let i = choose|i: int|
            0 <= i < config.model_providers.len() && config.model_providers[i] == provider;
        assert(named[default.len() + i] == provider);
    }
    if used.contains(provider) {
        let i = choose|i: int| 0 <= i < used.len() && used[i] == provider;
        assert(named[default.len() + config.model_providers.len() + i] == provider);
    }
}

/// A letter or digit of ASCII.
pub open spec fn word_character(ch: char) -> bool {
    ('a' <= ch && ch <= 'z') || ('A' <= ch && ch <= 'Z') || ('0' <= ch && ch <= '9')
}

proof fn dashed_keeps_letters(value: Seq<char>)
    ensures
        dashed(value).filter(|ch: char| word_character(ch)) == value.filter(
            |ch: char| word_character(ch),
        ),
    decreases value.len(),
{
    reveal(Seq::filter);
    if value.len() > 0 {
        let front = value.drop_last();
        dashed_keeps_letters(front);
        if alphanumeric(value.last()) {
            assert(dashed(value).drop_last() =~= dashed(front));
        } else if dashed(value).len() > dashed(front).len() {
            assert(dashed(value).drop_last() =~= dashed(front));
        }
    } else {
        assert(dashed(value) =~= value);
    }
}

proof fn trimming_keeps_letters(value: Seq<char>)
    ensures
        search::without_start(value, '-').filter(|ch: char| word_character(ch)) == value.filter(
            |ch: char| word_character(ch),
        ),
        search::without_end(value, '-').filter(|ch: char| word_character(ch)) == value.filter(
            |ch: char| word_character(ch),
        ),
    decreases value.len(),
{
    reveal(Seq::filter);
    if value.len() > 0 {
        if value[0] == '-' {
            let rest = value.drop_first();
            trimming_keeps_letters(rest);
            assert(value =~= seq![value[0]] + rest);
            Seq::filter_distributes_over_add(seq![value[0]], rest, |ch: char| word_character(ch));
            assert(seq![value[0]].drop_last() =~= Seq::<char>::empty());
            assert(seq![value[0]].filter(|ch: char| word_character(ch)) =~= Seq::<char>::empty())
                by {
                reveal_with_fuel(Seq::filter, 2);
            }
            assert(value.filter(|ch: char| word_character(ch)) =~= rest.filter(
                |ch: char| word_character(ch),
            ));
        }
        if value.last() == '-' {
            trimming_keeps_letters(value.drop_last());
        }
    }
}

/// A component of a profile name keeps all letters and digits of the lowercase
/// form of a value, in their order; of an ASCII text that is the text with its
/// capital letters made small.
pub proof fn components_keep_letters_and_digits(value: Seq<char>)
    ensures
        sanitized(value).filter(|ch: char| word_character(ch)) == lowercased(value).filter(
            |ch: char| word_character(ch),
        ),
        (forall|i: int| 0 <= i < value.len() ==> #[trigger] value[i] <= '\u{7f}') ==> {
            &&& lowercased(value).len() == value.len()
            &&& forall|i: int|
                0 <= i < value.len() ==> #[trigger] lowercased(value)[i] == if 'A' <= value[i]
                    && value[i] <= 'Z' {
                    (value[i] as int + 32) as char
                } else {
                    value[i]
                }
        },
{
    dashed_keeps_letters(lowercased(value));
    let whole = dashed(lowercased(value));
    trimming_keeps_letters(whole);
    trimming_keeps_letters(search::without_start(whole, '-'));
    if forall|i: int| 0 <= i < value.len() ==> #[trigger] value[i] <= '\u{7f}' {
        lowercase_of_ascii(value);
    }
}

proof fn lowercase_of_ascii(value: Seq<char>)
    requires
        forall|i: int| 0 <= i < value.len() ==> #[trigger] value[i] <= '\u{7f}',
    ensures
        lowercased(value).len() == value.len(),
        forall|i: int|
            0 <= i < value.len() ==> #[trigger] lowercased(value)[i] == if 'A' <= value[i] && value[i]
                <= 'Z' {
                (value[i] as int + 32) as char
            } else {
                value[i]
            },
    decreases value.len(),
{
    if value.len() > 0 {
        let front = value.drop_last();
        assert forall|i: int| 0 <= i < front.len() implies #[trigger] front[i] <= '\u{7f}' by {
            assert(front[i] == value[i]);
        }
        lowercase_of_ascii(front);
        assert(value[value.len() - 1] <= '\u{7f}');
        assert forall|i: int| 0 <= i < value.len() implies #[trigger] lowercased(value)[i] == if 'A'
            <= value[i] && value[i] <= 'Z' {
            (value[i] as int + 32) as char
        } else {
            value[i]
        } by {
            if i < front.len() {
                assert(lowercased(value)[i] == lowercased(front)[i]);
            }
        }
    }
}

/// A made-up profile name tells the provider, the model and, where it is known,
/// the window.
pub proof fn profile_name_tells_the_target(
    provider: Seq<char>,
    model: Seq<char>,
    context_window: Option<i64>,
)
    ensures
        smart_profile_name(provider, model, None) == "smart-"@ + sanitized(provider) + "-"@
            + sanitized(model),
        context_window matches Some(window) ==> smart_profile_name(provider, model, context_window)
            == smart_profile_name(provider, model, None) + "-"@ + numbers::decimal(window as int),
{
}

/// A locale is taken for a Chinese one exactly where it starts with the two
/// letters of the language, small or capital.
pub proof fn chinese_locales_start_with_zh(tag: Seq<char>)
    ensures
        chinese_locale(tag) <==> tag.len() >= 2 && (tag[0] == 'z' || tag[0] == 'Z') && (tag[1] == 'h'
            || tag[1] == 'H'),
{
    reveal_strlit("zh");
    let lowered = search::lowered(tag);
    if "zh"@.is_prefix_of(lowered) {
        assert(lowered.take(2)[0] == 'z');
        assert(lowered.take(2)[1] == 'h');
    }
    if tag.len() >= 2 && (tag[0] == 'z' || tag[0] == 'Z') && (tag[1] == 'h' || tag[1] == 'H') {
        assert(lowered.take(2) =~= "zh"@);
    }
}

/// `yes` and `no` are said as what they are, in both languages.
pub proof fn answers_are_said_as_they_are()
    ensures
        yes_no_text(true) == "yes"@,
        yes_no_text(false) == "no"@,
        yes_no_zh_text(true) == "是"@,
        yes_no_zh_text(false) == "否"@,
{
}

/// A configuration says something of providers exactly where it can be read and
/// every profile names its provider by a text or names none: then it gives the
/// provider, the tables of providers, and the provider of each profile.
pub proof fn readable_configurations_name_providers(contents: Seq<char>, at: int)
    ensures
        ({
            let out = provider_config(contents);
            let tables = profile_cleanup::toml_table_keys(contents, "model_providers"@);
            let profiles = profile_cleanup::toml_table_keys(contents, "profiles"@);
            let named = toml_text(contents, "model_provider"@);
            &&& out is Some <==> tables is Some && profiles is Some && named is Some && forall|
                i: int,
            |
                0 <= i < profiles.unwrap().len() ==> toml_entry_text(
                    contents,
                    "profiles"@,
                    #[trigger] profiles.unwrap()[i],
                    "model_provider"@,
                ) is Some
            &&& out matches Some(config) ==> {
                &&& Some(config.model_provider) == named
                &&& Some(config.model_providers) == tables
                &&& config.profile_providers.len() == profiles.unwrap().len()
                &&& 0 <= at < profiles.unwrap().len() ==> Some(config.profile_providers[at])
                    == toml_entry_text(
                    contents,
                    "profiles"@,
                    profiles.unwrap()[at],
                    "model_provider"@,
                )
            }
        }),
{
    let profiles = profile_cleanup::toml_table_keys(contents, "profiles"@);
    if let Some(names) = profiles {
        if profiles_fit(contents, names) {
            assert forall|i: int| 0 <= i < names.len() implies toml_entry_text(
                contents,
                "profiles"@,
                #[trigger] names[i],
                "model_provider"@,
            ) is Some by {
                assert(profile_provider(contents, names[i]) is Some);
            }
        } else if forall|i: int|
            0 <= i < names.len() ==> toml_entry_text(
                contents,
                "profiles"@,
                #[trigger] names[i],
                "model_provider"@,
            ) is Some {
            assert forall|i: int| 0 <= i < names.len() implies #[trigger] profile_provider(
                contents,
                names[i],
            ) is Some by {
                let name = names[i];
            }
        }
    }
}

} // verus!
