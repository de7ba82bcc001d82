//! The picker for smart switches: its steps, its keys and what it shows.

use vstd::prelude::*;

use crate::numbers;
use crate::numbers::opt_i64_text;
use crate::numbers::u32_text;
use crate::smart;
use crate::smart::ModelPreset;
use crate::smart::ModelPresetView;
use crate::smart::PickerLanguage;
use crate::smart::PreparedSmartExecution;
use crate::smart::SmartExecutionMode;
use crate::smart::SmartPreview;
use crate::smart::SmartPreviewView;
use crate::smart::SmartSelection;
use crate::smart::SmartSelectionView;
use crate::smart::strategy_label;
use crate::smart::strategy_label_zh;
use crate::smart::yes_no;
use crate::smart::yes_no_zh;
use crate::text;
use crate::text::cat2;
use crate::text::cat3;
use crate::text::cat4;
use crate::text::cat7;
use crate::text::clone_texts;
use crate::text::no_texts;
use crate::text::push_text;
use crate::text::push_texts;
use crate::text::same_text;

verus! {

/// What is being picked.
#[derive(Debug, Clone, Copy, PartialEq, Eq, Structural)]
pub enum SmartStep {
    Provider,
    Model,
    Mode,
    Confirm,
}

/// A key, as far as the picker reads it.
#[derive(Debug, Clone, Copy, PartialEq, Eq, Structural)]
pub enum PickerKey {
    Quit,
    Esc,
    Up,
    Down,
    Enter,
    Other,
}

/// The state of the picker.
#[derive(Debug, PartialEq, Eq)]
pub struct SmartPicker {
    pub language: PickerLanguage,
    pub current_provider: String,
    pub current_model: String,
    pub current_window: Option<i64>,
    pub summary_path: String,
    pub providers: Vec<String>,
    pub provider_index: usize,
    pub models: Vec<ModelPreset>,
    pub model_index: usize,
    pub execution_mode_index: usize,
    pub step: SmartStep,
    pub preview: Option<SmartPreview>,
}

/// What a [`SmartPicker`] stands for.
pub struct SmartPickerView {
    pub language: PickerLanguage,
    pub current_provider: Seq<char>,
    pub current_model: Seq<char>,
    pub current_window: Option<i64>,
    pub summary_path: Seq<char>,
    pub providers: Seq<Seq<char>>,
    pub provider_index: usize,
    pub models: Seq<ModelPresetView>,
    pub model_index: usize,
    pub execution_mode_index: usize,
    pub step: SmartStep,
    pub preview: Option<SmartPreviewView>,
}

impl View for SmartPicker {
    type V = SmartPickerView;

    open spec fn view(&self) -> SmartPickerView {
        SmartPickerView {
            language: self.language,
            current_provider: self.current_provider@,
            current_model: self.current_model@,
            current_window: self.current_window,
            summary_path: self.summary_path@,
            providers: text::texts(self.providers@),
            provider_index: self.provider_index,
            models: self.models.deep_view(),
            model_index: self.model_index,
            execution_mode_index: self.execution_mode_index,
            step: self.step,
            preview: self.preview.deep_view(),
        }
    }
}

impl DeepView for SmartPicker {
    type V = SmartPickerView;

    open spec fn deep_view(&self) -> SmartPickerView {
        self@
    }
}

impl Clone for SmartPicker {
    fn clone(&self) -> (out: Self)
        ensures
            out@ == self@,
    {
        let out = SmartPicker {
            language: self.language,
            current_provider: self.current_provider.clone(),
            current_model: self.current_model.clone(),
            current_window: self.current_window,
            summary_path: self.summary_path.clone(),
            providers: clone_texts(&self.providers),
            provider_index: self.provider_index,
            models: self.models.clone(),
            model_index: self.model_index,
            execution_mode_index: self.execution_mode_index,
            step: self.step,
            preview: self.preview.clone(),
        };
        assert(out.models.deep_view() =~= self.models.deep_view());
        assert(out.preview.deep_view() =~= self.preview.deep_view());
        out
    }
}

/// What is to be done after a key.
#[derive(Debug, PartialEq, Eq)]
pub enum PickerAction {
    /// Go on.
    Stay,
    /// Leave without a selection.
    Cancel,
    /// List the models of a provider and hand them to `models_loaded`.
    LoadModels { provider: String },
    /// Load the runtime of a target, plan the switch and hand the plan to
    /// `preview_ready`.
    BuildPreview { preview_provider: String, model: String, mode: SmartExecutionMode },
    /// Leave with a selection.
    Finish { selection: SmartSelection },
}

/// What a [`PickerAction`] stands for.
pub enum PickerActionView {
    Stay,
    Cancel,
    LoadModels { provider: Seq<char> },
    BuildPreview { preview_provider: Seq<char>, model: Seq<char>, mode: SmartExecutionMode },
    Finish { selection: SmartSelectionView },
}

impl View for PickerAction {
    type V = PickerActionView;

    open spec fn view(&self) -> PickerActionView {
        match *self {
            PickerAction::Stay => PickerActionView::Stay,
            PickerAction::Cancel => PickerActionView::Cancel,
            PickerAction::LoadModels { provider } => PickerActionView::LoadModels {
                provider: provider@,
            },
            PickerAction::BuildPreview { preview_provider, model, mode } => {
                PickerActionView::BuildPreview {
                    preview_provider: preview_provider@,
                    model: model@,
                    mode,
                }
            },
            PickerAction::Finish { selection } => PickerActionView::Finish {
                selection: selection@,
            },
        }
    }
}

impl DeepView for PickerAction {
    type V = PickerActionView;

    open spec fn deep_view(&self) -> PickerActionView {
        self@
    }
}

impl Clone for PickerAction {
    fn clone(&self) -> (out: Self)
        ensures
            out@ == self@,
    {
        match self {
            PickerAction::Stay => PickerAction::Stay,
            PickerAction::Cancel => PickerAction::Cancel,
            PickerAction::LoadModels { provider } => PickerAction::LoadModels {
                provider: provider.clone(),
            },
            PickerAction::BuildPreview { preview_provider, model, mode } => {
                PickerAction::BuildPreview {
                    preview_provider: preview_provider.clone(),
                    model: model.clone(),
                    mode: *mode,
                }
            },
            PickerAction::Finish { selection } => PickerAction::Finish {
                selection: selection.clone(),
            },
        }
    }
}

/// Why picking fails.
#[derive(Debug, PartialEq, Eq)]
pub enum PickerError {
    NoModels { provider: String },
}

/// What a [`PickerError`] stands for.
pub enum PickerErrorView {
    NoModels { provider: Seq<char> },
}

impl View for PickerError {
    type V = PickerErrorView;

    open spec fn view(&self) -> PickerErrorView {
        match *self {
            PickerError::NoModels { provider } => PickerErrorView::NoModels { provider: provider@ },
        }
    }
}

impl DeepView for PickerError {
    type V = PickerErrorView;

    open spec fn deep_view(&self) -> PickerErrorView {
        self@
    }
}

impl Clone for PickerError {
    fn clone(&self) -> (out: Self)
        ensures
            out@ == self@,
    {
        match self {
            PickerError::NoModels { provider } => PickerError::NoModels {
                provider: provider.clone(),
            },
        }
    }
}

/// The message for an error.
pub open spec fn picker_error_text(error: PickerErrorView) -> Seq<char> {
    match error {
        PickerErrorView::NoModels { provider } => "selected provider `"@ + provider + "` has no picker-visible models"@,
    }
}

/// The message for an error.
pub fn picker_error_message(error: &PickerError) -> (out: String)
    ensures
        out@ == picker_error_text(error@),
{
    match error {
        PickerError::NoModels { provider } => cat3("selected provider `", provider.as_str(), "` has no picker-visible models"),
    }
}

/// The last position in a list, zero where it is empty.
pub open spec fn last_index(count: nat) -> int {
    if count == 0 {
        0
    } else {
        count - 1
    }
}

/// The picker points at things that are there, and has what its step needs.
pub open spec fn picker_ok(picker: SmartPickerView) -> bool {
    &&& picker.provider_index <= last_index(picker.providers.len())
    &&& picker.model_index <= last_index(picker.models.len())
    &&& picker.execution_mode_index < 3
    &&& picker.step != SmartStep::Provider ==> picker.models.len() > 0
    &&& picker.step == SmartStep::Confirm ==> picker.preview is Some
}

/// The first position of a text in a list, zero where it is not there.
pub open spec fn position_or_zero(items: Seq<Seq<char>>, item: Seq<char>) -> int {
    if exists|i: int| first_index(items, item, i) {
        choose|i: int| first_index(items, item, i)
    } else {
        0
    }
}

pub open spec fn first_index(items: Seq<Seq<char>>, item: Seq<char>, at: int) -> bool {
    0 <= at < items.len() && items[at] == item && forall|i: int| 0 <= i < at ==> items[i] != item
}

fn find_position(items: &Vec<String>, item: &str) -> (out: usize)
    ensures
        out == position_or_zero(text::texts(items@), item@),
        out <= last_index(items@.len()),
{
    let ghost all = text::texts(items@);
    for i in 0..items.len()
        invariant
            all == text::texts(items@),
            forall|j: int| 0 <= j < i ==> all[j] != item@,
    {
        assert(all[i as int] == items@[i as int]@);
        if same_text(items[i].as_str(), item) {
            proof {
                assert(first_index(all, item@, i as int));
                let other = choose|k: int| first_index(all, item@, k);
                assert(first_index(all, item@, other));
                if other < i {
                    assert(all[other] != item@);
                } else if other > i {
                    assert(all[i as int] != item@);
                }
            }
            return i;
        }
    }
    assert(!exists|i: int| first_index(all, item@, i));
    0
}

/// The provider that is pointed at.
pub open spec fn picked_provider(picker: SmartPickerView) -> Seq<char> {
    if picker.provider_index < picker.providers.len() {
        picker.providers[picker.provider_index as int]
    } else {
        ""@
    }
}

/// The mode that is pointed at.
pub open spec fn picked_mode(picker: SmartPickerView) -> SmartExecutionMode {
    if picker.execution_mode_index < 3 {
        smart::execution_modes()[picker.execution_mode_index as int]
    } else {
        SmartExecutionMode::Direct
    }
}

pub open spec fn one_up(index: usize) -> usize {
    if index == 0 {
        0
    } else {
        (index - 1) as usize
    }
}

pub open spec fn one_down(index: usize, count: nat) -> usize {
    if index + 1 <= last_index(count) {
        (index + 1) as usize
    } else {
        last_index(count) as usize
    }
}

fn move_down(index: usize, count: usize) -> (out: usize)
    requires
        index <= last_index(count as nat),
    ensures
        out == one_down(index, count as nat),
{
    if count > 0 && index < count - 1 {
        index + 1
    } else if count > 0 {
        count - 1
    } else {
        0
    }
}

/// The picker and the action after a key.
pub open spec fn after_key(picker: SmartPickerView, key: PickerKey) -> (
    SmartPickerView,
    PickerActionView,
) {
    let stay = PickerActionView::Stay;
    if key == PickerKey::Quit {
        (picker, PickerActionView::Cancel)
    } else {
        match (picker.step, key) {
            (SmartStep::Provider, PickerKey::Esc) => (picker, PickerActionView::Cancel),
            (SmartStep::Provider, PickerKey::Up) => (
                SmartPickerView { provider_index: one_up(picker.provider_index), ..picker },
                stay,
            ),
            (SmartStep::Provider, PickerKey::Down) => (
                SmartPickerView {
                    provider_index: one_down(picker.provider_index, picker.providers.len()),
                    ..picker
                },
                stay,
            ),
            (SmartStep::Provider, PickerKey::Enter) => (
                picker,
                PickerActionView::LoadModels { provider: picked_provider(picker) },
            ),
            (SmartStep::Model, PickerKey::Esc) => (
                SmartPickerView { preview: None, step: SmartStep::Provider, ..picker },
                stay,
            ),
            (SmartStep::Model, PickerKey::Up) => (
                SmartPickerView {
                    preview: None,
                    model_index: one_up(picker.model_index),
                    ..picker
                },
                stay,
            ),
            (SmartStep::Model, PickerKey::Down) => (
                SmartPickerView {
                    preview: None,
                    model_index: one_down(picker.model_index, picker.models.len()),
                    ..picker
                },
                stay,
            ),
            (SmartStep::Model, PickerKey::Enter) => (
                SmartPickerView {
                    execution_mode_index: 0,
                    preview: None,
                    step: SmartStep::Mode,
                    ..picker
                },
                stay,
            ),
            (SmartStep::Mode, PickerKey::Esc) => (
                SmartPickerView { step: SmartStep::Model, ..picker },
                stay,
            ),
            (SmartStep::Mode, PickerKey::Up) => (
                SmartPickerView {
                    preview: None,
                    execution_mode_index: one_up(picker.execution_mode_index),
                    ..picker
                },
                stay,
            ),
            (SmartStep::Mode, PickerKey::Down) => (
                SmartPickerView {
                    preview: None,
                    execution_mode_index: one_down(picker.execution_mode_index, 3),
                    ..picker
                },
                stay,
            ),
            (SmartStep::Mode, PickerKey::Enter) => (
                picker,
                PickerActionView::BuildPreview {
                    preview_provider: picked_provider(picker),
                    model: picker.models[picker.model_index as int].model,
                    mode: picked_mode(picker),
                },
            ),
            (SmartStep::Confirm, PickerKey::Esc) => (
                SmartPickerView { step: SmartStep::Mode, ..picker },
                stay,
            ),
            (SmartStep::Confirm, PickerKey::Enter) => (
                picker,
                PickerActionView::Finish { selection: picker.preview.unwrap().selection },
            ),
            _ => (picker, stay),
        }
    }
}

/// The picker once the models of a provider are there.
pub open spec fn with_models(
    picker: SmartPickerView,
    models: Seq<ModelPresetView>,
) -> SmartPickerView {
    SmartPickerView {
        models,
        preview: None,
        model_index: position_or_zero(model_names(models), picker.current_model) as usize,
        step: SmartStep::Model,
        ..picker
    }
}

pub open spec fn model_names(models: Seq<ModelPresetView>) -> Seq<Seq<char>> {
    Seq::new(models.len(), |i: int| models[i].model)
}

fn list_model_names(models: &Vec<ModelPreset>) -> (out: Vec<String>)
    ensures
        text::texts(out@) == model_names(models.deep_view()),
{
    let mut out = no_texts();
    let ghost all = model_names(models.deep_view());
    assert(all.take(0) =~= Seq::<Seq<char>>::empty());
    for i in 0..models.len()
        invariant
            all == model_names(models.deep_view()),
            text::texts(out@) == all.take(i as int),
    {
        assert(models.deep_view()[i as int] == models@[i as int]@);
        push_text(&mut out, models[i].model.clone());
        assert(all.take(i as int).push(all[i as int]) =~= all.take(i + 1));
    }
    assert(all.take(all.len() as int) =~= all);
    out
}

impl SmartPicker {
    /// The picker that a switch starts with: it points at the current provider.
    pub fn new(prepared: &PreparedSmartExecution, language: PickerLanguage) -> (out: Self)
        ensures
            out@ == (SmartPickerView {
                language,
                current_provider: prepared@.current_provider,
                current_model: prepared@.current_model,
                current_window: prepared@.summary.latest_model_context_window,
                summary_path: prepared@.summary.rollout_path,
                providers: prepared@.provider_choices,
                provider_index: position_or_zero(
                    prepared@.provider_choices,
                    prepared@.current_provider,
                ) as usize,
                models: Seq::empty(),
                model_index: 0,
                execution_mode_index: 0,
                step: SmartStep::Provider,
                preview: None,
            }),
            picker_ok(out@),
    {
        let provider_index = find_position(
            &prepared.provider_choices,
            prepared.current_provider.as_str(),
        );
        let models: Vec<ModelPreset> = Vec::new();
        assert(models.deep_view() =~= Seq::<ModelPresetView>::empty());
        SmartPicker {
            language,
            current_provider: prepared.current_provider.clone(),
            current_model: prepared.current_model.clone(),
            current_window: prepared.summary.latest_model_context_window,
            summary_path: prepared.summary.rollout_path.clone(),
            providers: clone_texts(&prepared.provider_choices),
            provider_index,
            models,
            model_index: 0,
            execution_mode_index: 0,
            step: SmartStep::Provider,
            preview: None,
        }
    }

    /// The provider that is pointed at.
    pub fn selected_provider(&self) -> (out: String)
        ensures
            out@ == picked_provider(self@),
    {
        if self.provider_index < self.providers.len() {
            self.providers[self.provider_index].clone()
        } else {
            "".to_owned()
        }
    }

    /// The model that is pointed at.
    pub fn selected_model(&self) -> (out: Option<String>)
        ensures
            text::opt_text(out) == (if self@.model_index < self@.models.len() {
                Some(self@.models[self@.model_index as int].model)
            } else {
                None
            }),
    {
        if self.model_index < self.models.len() {
            assert(self.models.deep_view()[self.model_index as int]
                == self.models@[self.model_index as int]@);
            Some(self.models[self.model_index].model.clone())
        } else {
            None
        }
    }

    /// The mode that is pointed at.
    pub fn selected_execution_mode(&self) -> (out: SmartExecutionMode)
        ensures
            out == picked_mode(self@),
    {
        if self.execution_mode_index == 1 {
            SmartExecutionMode::DistillCodex
        } else if self.execution_mode_index == 2 {
            SmartExecutionMode::DistillDeterministic
        } else {
            SmartExecutionMode::Direct
        }
    }

    /// Takes a key.
    pub fn run(&mut self, key: PickerKey) -> (out: PickerAction)
        requires
            picker_ok(old(self)@),
        ensures
            (final(self)@, out@) == after_key(old(self)@, key),
            picker_ok(final(self)@),
    {
        match (self.step, key) {
            (_, PickerKey::Quit) => PickerAction::Cancel,
            (SmartStep::Provider, PickerKey::Esc) => PickerAction::Cancel,
            (SmartStep::Provider, PickerKey::Up) => {
                self.provider_index = self.provider_index.saturating_sub(1);
                PickerAction::Stay
            },
            (SmartStep::Provider, PickerKey::Down) => {
                self.provider_index = move_down(self.provider_index, self.providers.len());
                PickerAction::Stay
            },
            (SmartStep::Provider, PickerKey::Enter) => PickerAction::LoadModels {
                provider: self.selected_provider(),
            },
            (SmartStep::Model, PickerKey::Esc) => {
                self.preview = None;
                self.step = SmartStep::Provider;
                PickerAction::Stay
            },
            (SmartStep::Model, PickerKey::Up) => {
                self.preview = None;
                self.model_index = self.model_index.saturating_sub(1);
                PickerAction::Stay
            },
            (SmartStep::Model, PickerKey::Down) => {
                self.preview = None;
                self.model_index = move_down(self.model_index, self.models.len());
                PickerAction::Stay
            },
            (SmartStep::Model, PickerKey::Enter) => {
                self.execution_mode_index = 0;
                self.preview = None;
                self.step = SmartStep::Mode;
                PickerAction::Stay
            },
            (SmartStep::Mode, PickerKey::Esc) => {
                self.step = SmartStep::Model;
                PickerAction::Stay
            },
            (SmartStep::Mode, PickerKey::Up) => {
                self.preview = None;
                self.execution_mode_index = self.execution_mode_index.saturating_sub(1);
                PickerAction::Stay
            },
            (SmartStep::Mode, PickerKey::Down) => {
                self.preview = None;
                self.execution_mode_index = move_down(self.execution_mode_index, 3);
                PickerAction::Stay
            },
            (SmartStep::Mode, PickerKey::Enter) => match self.selected_model() {
                Some(model) => PickerAction::BuildPreview {
                    preview_provider: self.selected_provider(),
                    model,
                    mode: self.selected_execution_mode(),
                },
                None => PickerAction::Stay,
            },
            (SmartStep::Confirm, PickerKey::Esc) => {
                self.step = SmartStep::Mode;
                PickerAction::Stay
            },
            (SmartStep::Confirm, PickerKey::Enter) => match &self.preview {
                Some(preview) => PickerAction::Finish { selection: preview.selection.clone() },
                None => PickerAction::Stay,
            },
            _ => PickerAction::Stay,
        }
    }

    /// Takes the models of the selected provider. There has to be one at least.
    pub fn models_loaded(&mut self, models: Vec<ModelPreset>) -> (out: Result<(), PickerError>)
        requires
            picker_ok(old(self)@),
        ensures
            if models.deep_view().len() == 0 {
                &&& out matches Err(error)
                &&& error@ == (PickerErrorView::NoModels { provider: picked_provider(old(self)@) })
                &&& final(self)@ == old(self)@
            } else {
                &&& out is Ok
                &&& final(self)@ == with_models(old(self)@, models.deep_view())
            },
            picker_ok(final(self)@),
    {
        if models.len() == 0 {
            return Err(PickerError::NoModels { provider: self.selected_provider() });
        }
        let names = list_model_names(&models);
        self.model_index = find_position(&names, self.current_model.as_str());
        self.models = models;
        self.preview = None;
        self.step = SmartStep::Model;
        Ok(())
    }

    /// Takes the plan for the selected target.
    pub fn preview_ready(&mut self, preview: SmartPreview)
        requires
            picker_ok(old(self)@),
            old(self)@.step == SmartStep::Mode,
        ensures
            final(self)@ == (SmartPickerView {
                preview: Some(preview@),
                step: SmartStep::Confirm,
                ..old(self)@
            }),
            picker_ok(final(self)@),
    {
        self.preview = Some(preview);
        self.step = SmartStep::Confirm;
    }
}

/// Nothing is selected without being confirmed: the picker ends with a
/// selection only at its last step, and then with the one of the plan shown.
pub proof fn only_confirmed_plans_are_selected(picker: SmartPickerView, key: PickerKey)
    requires
        picker_ok(picker),
    ensures
        after_key(picker, key).1 matches PickerActionView::Finish { selection } ==> picker.step
            == SmartStep::Confirm && key == PickerKey::Enter && picker.preview is Some && selection
            == picker.preview.unwrap().selection,
        picker_ok(after_key(picker, key).0),
{
}

/// Moving the selection or going back past the model never leaves an old plan
/// behind.
pub proof fn moving_discards_the_plan(picker: SmartPickerView, key: PickerKey)
    requires
        picker_ok(picker),
        picker.step == SmartStep::Model || picker.step == SmartStep::Mode,
        key == PickerKey::Up || key == PickerKey::Down,
    ensures
        after_key(picker, key).0.preview is None,
{
}

// ---------------------------------------------------------------------------- texts

/// The line on top.
pub open spec fn picker_title_text(language: PickerLanguage) -> Seq<char> {
    match language {
        PickerLanguage::English => "Smart switch · select provider, then model, then confirm"@,
        PickerLanguage::Chinese => "Smart 切换 · 先选 provider，再选 model，最后确认"@,
    }
}

/// The line on top.
pub fn picker_title(language: PickerLanguage) -> (out: &'static str)
    ensures
        out@ == picker_title_text(language),
{
    match language {
        PickerLanguage::English => "Smart switch · select provider, then model, then confirm",
        PickerLanguage::Chinese => "Smart 切换 · 先选 provider，再选 model，最后确认",
    }
}

/// The title of the list.
pub open spec fn list_title_text(step: SmartStep, language: PickerLanguage) -> Seq<char> {
    match (step, language) {
        (SmartStep::Provider, PickerLanguage::English) => "Select provider"@,
        (SmartStep::Provider, PickerLanguage::Chinese) => "选择 provider"@,
        (SmartStep::Model, PickerLanguage::English) => "Select model"@,
        (SmartStep::Model, PickerLanguage::Chinese) => "选择 model"@,
        (SmartStep::Mode, PickerLanguage::English) => "Select execution mode"@,
        (SmartStep::Mode, PickerLanguage::Chinese) => "选择执行模式"@,
        (SmartStep::Confirm, PickerLanguage::English) => "Confirm"@,
        (SmartStep::Confirm, PickerLanguage::Chinese) => "确认执行"@,
    }
}

/// The title of the list.
pub fn list_title(step: SmartStep, language: PickerLanguage) -> (out: &'static str)
    ensures
        out@ == list_title_text(step, language),
{
    match (step, language) {
        (SmartStep::Provider, PickerLanguage::English) => "Select provider",
        (SmartStep::Provider, PickerLanguage::Chinese) => "选择 provider",
        (SmartStep::Model, PickerLanguage::English) => "Select model",
        (SmartStep::Model, PickerLanguage::Chinese) => "选择 model",
        (SmartStep::Mode, PickerLanguage::English) => "Select execution mode",
        (SmartStep::Mode, PickerLanguage::Chinese) => "选择执行模式",
        (SmartStep::Confirm, PickerLanguage::English) => "Confirm",
        (SmartStep::Confirm, PickerLanguage::Chinese) => "确认执行",
    }
}

/// The title of the details.
pub open spec fn details_title_text(language: PickerLanguage) -> Seq<char> {
    match language {
        PickerLanguage::English => "Current thread"@,
        PickerLanguage::Chinese => "当前线程"@,
    }
}

/// The title of the details.
pub fn details_title(language: PickerLanguage) -> (out: &'static str)
    ensures
        out@ == details_title_text(language),
{
    match language {
        PickerLanguage::English => "Current thread",
        PickerLanguage::Chinese => "当前线程",
    }
}

/// The line at the bottom.
pub open spec fn picker_footer_text(language: PickerLanguage) -> Seq<char> {
    match language {
        PickerLanguage::English => "Up/Down move · Enter confirm · Esc back · q cancel"@,
        PickerLanguage::Chinese => "上下移动 · Enter 确认 · Esc 返回 · q 取消"@,
    }
}

/// The line at the bottom.
pub fn picker_footer(language: PickerLanguage) -> (out: &'static str)
    ensures
        out@ == picker_footer_text(language),
{
    match language {
        PickerLanguage::English => "Up/Down move · Enter confirm · Esc back · q cancel",
        PickerLanguage::Chinese => "上下移动 · Enter 确认 · Esc 返回 · q 取消",
    }
}

/// The mark in front of a row.
pub open spec fn row_mark_text(selected: bool) -> Seq<char> {
    if selected {
        "› "@
    } else {
        "  "@
    }
}

/// The mark in front of a row.
pub fn row_mark(selected: bool) -> (out: &'static str)
    ensures
        out@ == row_mark_text(selected),
{
    if selected {
        "› "
    } else {
        "  "
    }
}

/// The note behind the current provider or model.
pub open spec fn current_note_text(current: bool, language: PickerLanguage) -> Seq<char> {
    match (current, language) {
        (true, PickerLanguage::English) => " · current"@,
        (true, PickerLanguage::Chinese) => " · 当前"@,
        _ => ""@,
    }
}

/// The note behind the current provider or model.
pub fn current_note(current: bool, language: PickerLanguage) -> (out: &'static str)
    ensures
        out@ == current_note_text(current, language),
{
    match (current, language) {
        (true, PickerLanguage::English) => " · current",
        (true, PickerLanguage::Chinese) => " · 当前",
        _ => "",
    }
}

/// The title of a mode.
pub open spec fn mode_title_text(mode: SmartExecutionMode, language: PickerLanguage) -> Seq<char> {
    match (language, mode) {
        (PickerLanguage::English, SmartExecutionMode::Direct) => "Direct switch"@,
        (PickerLanguage::English, SmartExecutionMode::DistillCodex) => "Codex distill"@,
        (PickerLanguage::English, SmartExecutionMode::DistillDeterministic) => "Deterministic distill"@,
        (PickerLanguage::Chinese, SmartExecutionMode::Direct) => "直接切换"@,
        (PickerLanguage::Chinese, SmartExecutionMode::DistillCodex) => "Codex 提炼"@,
        (PickerLanguage::Chinese, SmartExecutionMode::DistillDeterministic) => "规则提炼"@,
    }
}

/// The title of a mode.
pub fn mode_title(mode: SmartExecutionMode, language: PickerLanguage) -> (out: &'static str)
    ensures
        out@ == mode_title_text(mode, language),
{
    match (language, mode) {
        (PickerLanguage::English, SmartExecutionMode::Direct) => "Direct switch",
        (PickerLanguage::English, SmartExecutionMode::DistillCodex) => "Codex distill",
        (PickerLanguage::English, SmartExecutionMode::DistillDeterministic) => "Deterministic distill",
        (PickerLanguage::Chinese, SmartExecutionMode::Direct) => "直接切换",
        (PickerLanguage::Chinese, SmartExecutionMode::DistillCodex) => "Codex 提炼",
        (PickerLanguage::Chinese, SmartExecutionMode::DistillDeterministic) => "规则提炼",
    }
}

/// What a mode does.
pub open spec fn mode_description_text(
    mode: SmartExecutionMode,
    language: PickerLanguage,
) -> Seq<char> {
    match (language, mode) {
        (PickerLanguage::English, SmartExecutionMode::Direct) => "Repair or migrate the selected thread directly"@,
        (PickerLanguage::English, SmartExecutionMode::DistillCodex) => "Use Codex to generate a lighter successor session"@,
        (PickerLanguage::English, SmartExecutionMode::DistillDeterministic) => "Build a lighter successor session from rule-based extraction"@,
        (PickerLanguage::Chinese, SmartExecutionMode::Direct) => "直接在当前线程上修复或迁移"@,
        (PickerLanguage::Chinese, SmartExecutionMode::DistillCodex) => "用 Codex 生成一个更轻的新会话"@,
        (PickerLanguage::Chinese, SmartExecutionMode::DistillDeterministic) => "按规则提取有效历史，生成更轻的新会话"@,
    }
}

/// What a mode does.
pub fn mode_description(mode: SmartExecutionMode, language: PickerLanguage) -> (out: &'static str)
    ensures
        out@ == mode_description_text(mode, language),
{
    match (language, mode) {
        (PickerLanguage::English, SmartExecutionMode::Direct) => "Repair or migrate the selected thread directly",
        (PickerLanguage::English, SmartExecutionMode::DistillCodex) => "Use Codex to generate a lighter successor session",
        (PickerLanguage::English, SmartExecutionMode::DistillDeterministic) => "Build a lighter successor session from rule-based extraction",
        (PickerLanguage::Chinese, SmartExecutionMode::Direct) => "直接在当前线程上修复或迁移",
        (PickerLanguage::Chinese, SmartExecutionMode::DistillCodex) => "用 Codex 生成一个更轻的新会话",
        (PickerLanguage::Chinese, SmartExecutionMode::DistillDeterministic) => "按规则提取有效历史，生成更轻的新会话",
    }
}

/// The name of a mode in a plan.
pub open spec fn mode_in_plan_text(
    mode: SmartExecutionMode,
    language: PickerLanguage,
) -> Seq<char> {
    match (language, mode) {
        (PickerLanguage::English, SmartExecutionMode::Direct) => "direct switch"@,
        (PickerLanguage::English, SmartExecutionMode::DistillCodex) => "codex distill"@,
        (PickerLanguage::English, SmartExecutionMode::DistillDeterministic) => "deterministic distill"@,
        (PickerLanguage::Chinese, SmartExecutionMode::Direct) => "直接切换"@,
        (PickerLanguage::Chinese, SmartExecutionMode::DistillCodex) => "Codex 提炼"@,
        (PickerLanguage::Chinese, SmartExecutionMode::DistillDeterministic) => "规则提炼"@,
    }
}

/// The name of a mode in a plan.
pub fn mode_in_plan(mode: SmartExecutionMode, language: PickerLanguage) -> (out: &'static str)
    ensures
        out@ == mode_in_plan_text(mode, language),
{
    match (language, mode) {
        (PickerLanguage::English, SmartExecutionMode::Direct) => "direct switch",
        (PickerLanguage::English, SmartExecutionMode::DistillCodex) => "codex distill",
        (PickerLanguage::English, SmartExecutionMode::DistillDeterministic) => "deterministic distill",
        (PickerLanguage::Chinese, SmartExecutionMode::Direct) => "直接切换",
        (PickerLanguage::Chinese, SmartExecutionMode::DistillCodex) => "Codex 提炼",
        (PickerLanguage::Chinese, SmartExecutionMode::DistillDeterministic) => "规则提炼",
    }
}

/// A row of the list.
#[derive(Debug, PartialEq, Eq)]
pub struct PickerRow {
    pub selected: bool,
    pub mark: String,
    pub title: String,
    /// Stands between title and note.
    pub separator: String,
    pub note: String,
}

/// What a [`PickerRow`] stands for.
pub struct PickerRowView {
    pub selected: bool,
    pub mark: Seq<char>,
    pub title: Seq<char>,
    pub separator: Seq<char>,
    pub note: Seq<char>,
}

impl View for PickerRow {
    type V = PickerRowView;

    open spec fn view(&self) -> PickerRowView {
        PickerRowView {
            selected: self.selected,
            mark: self.mark@,
            title: self.title@,
            separator: self.separator@,
            note: self.note@,
        }
    }
}

impl DeepView for PickerRow {
    type V = PickerRowView;

    open spec fn deep_view(&self) -> PickerRowView {
        self@
    }
}

impl Clone for PickerRow {
    fn clone(&self) -> (out: Self)
        ensures
            out@ == self@,
    {
        PickerRow {
            selected: self.selected,
            mark: self.mark.clone(),
            title: self.title.clone(),
            separator: self.separator.clone(),
            note: self.note.clone(),
        }
    }
}

/// The title of a model: its name, behind the display name where that differs.
pub open spec fn model_title_text(model: ModelPresetView) -> Seq<char> {
    if model.display_name == model.model {
        model.model
    } else {
        model.display_name + " ("@ + model.model + ")"@
    }
}

/// The title of a model: its name, behind the display name where that differs.
pub fn model_title(model: &ModelPreset) -> (out: String)
    ensures
        out@ == model_title_text(model@),
{
    if same_text(model.display_name.as_str(), model.model.as_str()) {
        model.model.clone()
    } else {
        cat4(model.display_name.as_str(), " (", model.model.as_str(), ")")
    }
}

pub open spec fn provider_row(picker: SmartPickerView, index: int) -> PickerRowView {
    PickerRowView {
        selected: index == picker.provider_index,
        mark: row_mark_text(index == picker.provider_index),
        title: picker.providers[index],
        separator: ""@,
        note: current_note_text(
            picker.providers[index] == picker.current_provider,
            picker.language,
        ),
    }
}

pub open spec fn model_row(picker: SmartPickerView, index: int) -> PickerRowView {
    PickerRowView {
        selected: index == picker.model_index,
        mark: row_mark_text(index == picker.model_index),
        title: model_title_text(picker.models[index]),
        separator: ""@,
        note: current_note_text(
            picker.models[index].model == picker.current_model,
            picker.language,
        ),
    }
}

pub open spec fn mode_row(picker: SmartPickerView, index: int) -> PickerRowView {
    let mode = smart::execution_modes()[index];
    PickerRowView {
        selected: index == picker.execution_mode_index,
        mark: row_mark_text(index == picker.execution_mode_index),
        title: mode_title_text(mode, picker.language),
        separator: " · "@,
        note: mode_description_text(mode, picker.language),
    }
}

/// The rows of the list at a step; confirming has none.
pub open spec fn picker_rows(picker: SmartPickerView) -> Seq<PickerRowView> {
    match picker.step {
        SmartStep::Provider => Seq::new(
            picker.providers.len(),
            |i: int| provider_row(picker, i),
        ),
        SmartStep::Model => Seq::new(picker.models.len(), |i: int| model_row(picker, i)),
        SmartStep::Mode => Seq::new(3, |i: int| mode_row(picker, i)),
        SmartStep::Confirm => Seq::empty(),
    }
}

fn push_row(rows: &mut Vec<PickerRow>, row: PickerRow)
    ensures
        final(rows).deep_view() == old(rows).deep_view().push(row@),
{
    let ghost added = row@;
    rows.push(row);
    assert(rows.deep_view() =~= old(rows).deep_view().push(added));
}

fn list_provider_rows(picker: &SmartPicker) -> (out: Vec<PickerRow>)
    requires
        picker.step == SmartStep::Provider,
    ensures
        out.deep_view() == picker_rows(picker@),
{
    let mut rows: Vec<PickerRow> = Vec::new();
    let ghost all = picker_rows(picker@);
    assert(rows.deep_view() =~= all.take(0));
    for i in 0..picker.providers.len()
        invariant
            picker.step == SmartStep::Provider,
            all == picker_rows(picker@),
            rows.deep_view() == all.take(i as int),
    {
        assert(picker@.providers[i as int] == picker.providers@[i as int]@);
        let current = same_text(picker.providers[i].as_str(), picker.current_provider.as_str());
        let row = PickerRow {
            selected: i == picker.provider_index,
            mark: row_mark(i == picker.provider_index).to_owned(),
            title: picker.providers[i].clone(),
            separator: "".to_owned(),
            note: current_note(current, picker.language).to_owned(),
        };
        assert(row@ == all[i as int]);
        push_row(&mut rows, row);
        assert(all.take(i as int).push(all[i as int]) =~= all.take(i + 1));
    }
    assert(all.take(all.len() as int) =~= all);
    rows
}

fn list_model_rows(picker: &SmartPicker) -> (out: Vec<PickerRow>)
    requires
        picker.step == SmartStep::Model,
    ensures
        out.deep_view() == picker_rows(picker@),
{
    let mut rows: Vec<PickerRow> = Vec::new();
    let ghost all = picker_rows(picker@);
    assert(rows.deep_view() =~= all.take(0));
    for i in 0..picker.models.len()
        invariant
            picker.step == SmartStep::Model,
            all == picker_rows(picker@),
            rows.deep_view() == all.take(i as int),
    {
        assert(picker@.models[i as int] == picker.models@[i as int]@);
        let current = same_text(picker.models[i].model.as_str(), picker.current_model.as_str());
        let row = PickerRow {
            selected: i == picker.model_index,
            mark: row_mark(i == picker.model_index).to_owned(),
            title: model_title(&picker.models[i]),
            separator: "".to_owned(),
            note: current_note(current, picker.language).to_owned(),
        };
        assert(row@ == all[i as int]);
        push_row(&mut rows, row);
        assert(all.take(i as int).push(all[i as int]) =~= all.take(i + 1));
    }
    assert(all.take(all.len() as int) =~= all);
    rows
}

fn list_mode_rows(picker: &SmartPicker) -> (out: Vec<PickerRow>)
    requires
        picker.step == SmartStep::Mode,
    ensures
        out.deep_view() == picker_rows(picker@),
{
    let modes = SmartExecutionMode::all();
    let mut rows: Vec<PickerRow> = Vec::new();
    let ghost all = picker_rows(picker@);
    assert(rows.deep_view() =~= all.take(0));
    for i in 0..3
        invariant
            picker.step == SmartStep::Mode,
            modes@ == smart::execution_modes(),
            all == picker_rows(picker@),
            rows.deep_view() == all.take(i as int),
    {
        let mode = modes[i];
        let row = PickerRow {
            selected: i == picker.execution_mode_index,
            mark: row_mark(i == picker.execution_mode_index).to_owned(),
            title: mode_title(mode, picker.language).to_owned(),
            separator: " · ".to_owned(),
            note: mode_description(mode, picker.language).to_owned(),
        };
        assert(row@ == all[i as int]);
        push_row(&mut rows, row);
        assert(all.take(i as int).push(all[i as int]) =~= all.take(i + 1));
    }
    assert(all.take(all.len() as int) =~= all);
    rows
}

/// The rows of the list at the current step.
pub fn list_rows(picker: &SmartPicker) -> (out: Vec<PickerRow>)
    ensures
        out.deep_view() == picker_rows(picker@),
{
    match picker.step {
        SmartStep::Provider => list_provider_rows(picker),
        SmartStep::Model => list_model_rows(picker),
        SmartStep::Mode => list_mode_rows(picker),
        SmartStep::Confirm => {
            let rows: Vec<PickerRow> = Vec::new();
            assert(rows.deep_view() =~= Seq::<PickerRowView>::empty());
            rows
        },
    }
}

/// The lines that name where a switch comes from, in English.
pub open spec fn source_lines_en_text(picker: SmartPickerView) -> Seq<Seq<char>> {
    let lines = Seq::<Seq<char>>::empty();
    let lines = lines.push("Press Enter to execute the smart switch."@);
    let lines = lines.push(""@);
    let lines = lines.push("From provider: "@ + picker.current_provider);
    let lines = lines.push("From model: "@ + picker.current_model);
    lines
}

/// The lines that name where a switch comes from, in English.
pub fn source_lines_en(picker: &SmartPicker) -> (out: Vec<String>)
    ensures
        text::reads(out@, source_lines_en_text(picker@)),
{
    let mut lines = no_texts();
    push_text(&mut lines, "Press Enter to execute the smart switch.".to_owned());
    push_text(&mut lines, "".to_owned());
    push_text(&mut lines, cat2("From provider: ", picker.current_provider.as_str()));
    push_text(&mut lines, cat2("From model: ", picker.current_model.as_str()));
    lines
}

/// The lines that name where a switch comes from, in Chinese.
pub open spec fn source_lines_zh_text(picker: SmartPickerView) -> Seq<Seq<char>> {
    let lines = Seq::<Seq<char>>::empty();
    let lines = lines.push("按 Enter 执行 smart 切换。"@);
    let lines = lines.push(""@);
    let lines = lines.push("当前 provider："@ + picker.current_provider);
    let lines = lines.push("当前 model："@ + picker.current_model);
    lines
}

/// The lines that name where a switch comes from, in Chinese.
pub fn source_lines_zh(picker: &SmartPicker) -> (out: Vec<String>)
    ensures
        text::reads(out@, source_lines_zh_text(picker@)),
{
    let mut lines = no_texts();
    push_text(&mut lines, "按 Enter 执行 smart 切换。".to_owned());
    push_text(&mut lines, "".to_owned());
    push_text(&mut lines, cat2("当前 provider：", picker.current_provider.as_str()));
    push_text(&mut lines, cat2("当前 model：", picker.current_model.as_str()));
    lines
}

/// Whether a plan compacts the session first, in English.
pub open spec fn compaction_line_en_text(preview: SmartPreviewView) -> Seq<char> {
    if preview.needs_compaction {
        "Pre-compaction: yes (current_context_tokens="@
            + numbers::opt_decimal(numbers::opt_int_i64(preview.current_context_tokens), ""@)
            + " > target_window="@
            + numbers::opt_decimal(numbers::opt_int_i64(preview.selection.target_context_window), ""@)
            + ", max_runs="@
            + numbers::decimal(preview.max_pre_compactions as int)
            + ")"@
    } else {
        "Pre-compaction: no"@
    }
}

/// Whether a plan compacts the session first, in English.
pub fn compaction_line_en(preview: &SmartPreview) -> (out: String)
    ensures
        out@ == compaction_line_en_text(preview@),
{
    if preview.needs_compaction {
        cat7(
            "Pre-compaction: yes (current_context_tokens=",
            opt_i64_text(preview.current_context_tokens, "").as_str(),
            " > target_window=",
            opt_i64_text(preview.selection.target_context_window, "").as_str(),
            ", max_runs=",
            u32_text(preview.max_pre_compactions).as_str(),
            ")",
        )
    } else {
        "Pre-compaction: no".to_owned()
    }
}

/// Whether a plan compacts the session first, in Chinese.
pub open spec fn compaction_line_zh_text(preview: SmartPreviewView) -> Seq<char> {
    if preview.needs_compaction {
        "预压缩：需要（current_context_tokens="@
            + numbers::opt_decimal(numbers::opt_int_i64(preview.current_context_tokens), ""@)
            + " > target_window="@
            + numbers::opt_decimal(numbers::opt_int_i64(preview.selection.target_context_window), ""@)
            + "，最多 "@
            + numbers::decimal(preview.max_pre_compactions as int)
            + " 次）"@
    } else {
        "预压缩：不需要"@
    }
}

/// Whether a plan compacts the session first, in Chinese.
pub fn compaction_line_zh(preview: &SmartPreview) -> (out: String)
    ensures
        out@ == compaction_line_zh_text(preview@),
{
    if preview.needs_compaction {
        cat7(
            "预压缩：需要（current_context_tokens=",
            opt_i64_text(preview.current_context_tokens, "").as_str(),
            " > target_window=",
            opt_i64_text(preview.selection.target_context_window, "").as_str(),
            "，最多 ",
            u32_text(preview.max_pre_compactions).as_str(),
            " 次）",
        )
    } else {
        "预压缩：不需要".to_owned()
    }
}

/// The warning of a plan, in English; empty where there is none.
pub open spec fn warning_line_en_text(preview: SmartPreviewView) -> Seq<char> {
    match preview.blocked_reason {
        Some(reason) => "Warning: "@ + reason,
        None => ""@,
    }
}

/// The warning of a plan, in English; empty where there is none.
pub fn warning_line_en(preview: &SmartPreview) -> (out: String)
    ensures
        out@ == warning_line_en_text(preview@),
{
    match &preview.blocked_reason {
        Some(reason) => cat2("Warning: ", reason.as_str()),
        None => "".to_owned(),
    }
}

/// The warning of a plan, in Chinese; empty where there is none.
pub open spec fn warning_line_zh_text(preview: SmartPreviewView) -> Seq<char> {
    match preview.blocked_reason {
        Some(reason) => "警告："@ + reason,
        None => ""@,
    }
}

/// The warning of a plan, in Chinese; empty where there is none.
pub fn warning_line_zh(preview: &SmartPreview) -> (out: String)
    ensures
        out@ == warning_line_zh_text(preview@),
{
    match &preview.blocked_reason {
        Some(reason) => cat2("警告：", reason.as_str()),
        None => "".to_owned(),
    }
}

/// The lines of a plan, in English.
pub open spec fn plan_lines_en_text(
    preview: SmartPreviewView,
    provider: Seq<char>,
) -> Seq<Seq<char>> {
    let lines = Seq::<Seq<char>>::empty();
    let lines = lines.push("From context window: "@
            + numbers::opt_decimal(numbers::opt_int_i64(preview.current_context_window), ""@));
    let lines = lines.push("To provider: "@ + provider);
    let lines = lines.push("To model: "@ + preview.selection.model);
    let lines = lines.push("Target context window: "@
            + numbers::opt_decimal(numbers::opt_int_i64(preview.selection.target_context_window), ""@));
    let lines = lines.push(""@);
    let lines = lines.push("Execution mode: "@
            + mode_in_plan_text(preview.selection.execution_mode, PickerLanguage::English));
    let lines = lines.push("Strategy: "@ + smart::strategy_label_text(preview.strategy));
    let lines = lines.push("Write profile: "@ + preview.target_profile);
    let lines = lines.push("Repair resume state: "@ + smart::yes_no_text(preview.needs_repair_resume_state));
    let lines = lines.push(compaction_line_en_text(preview));
    let lines = lines.push("Archive source after migrate: "@ + smart::yes_no_text(preview.will_archive_source));
    let lines = lines.push(warning_line_en_text(preview));
    lines
}

/// The lines of a plan, in English.
pub fn plan_lines_en(preview: &SmartPreview, provider: &str) -> (out: Vec<String>)
    ensures
        text::reads(out@, plan_lines_en_text(preview@, provider@)),
{
    let mut lines = no_texts();
    push_text(
        &mut lines,
        cat2("From context window: ", opt_i64_text(preview.current_context_window, "").as_str()),
    );
    push_text(&mut lines, cat2("To provider: ", provider));
    push_text(&mut lines, cat2("To model: ", preview.selection.model.as_str()));
    push_text(
        &mut lines,
        cat2(
            "Target context window: ",
            opt_i64_text(preview.selection.target_context_window, "").as_str(),
        ),
    );
    push_text(&mut lines, "".to_owned());
    push_text(
        &mut lines,
        cat2(
            "Execution mode: ",
            mode_in_plan(preview.selection.execution_mode, PickerLanguage::English),
        ),
    );
    push_text(&mut lines, cat2("Strategy: ", strategy_label(preview.strategy)));
    push_text(&mut lines, cat2("Write profile: ", preview.target_profile.as_str()));
    push_text(
        &mut lines,
        cat2("Repair resume state: ", yes_no(preview.needs_repair_resume_state)),
    );
    push_text(&mut lines, compaction_line_en(preview));
    push_text(
        &mut lines,
        cat2("Archive source after migrate: ", yes_no(preview.will_archive_source)),
    );
    push_text(&mut lines, warning_line_en(preview));
    lines
}

/// The lines of a plan, in Chinese.
pub open spec fn plan_lines_zh_text(
    preview: SmartPreviewView,
    provider: Seq<char>,
) -> Seq<Seq<char>> {
    let lines = Seq::<Seq<char>>::empty();
    let lines = lines.push("当前上下文窗口："@
            + numbers::opt_decimal(numbers::opt_int_i64(preview.current_context_window), ""@));
    let lines = lines.push("目标 provider："@ + provider);
    let lines = lines.push("目标 model："@ + preview.selection.model);
    let lines = lines.push("目标上下文窗口："@
            + numbers::opt_decimal(numbers::opt_int_i64(preview.selection.target_context_window), ""@));
    let lines = lines.push(""@);
    let lines = lines.push("执行模式："@ + mode_in_plan_text(preview.selection.execution_mode, PickerLanguage::Chinese));
    let lines = lines.push("策略："@ + smart::strategy_label_zh_text(preview.strategy));
    let lines = lines.push("写入 profile："@ + preview.target_profile);
    let lines = lines.push("修复 resume-state："@ + smart::yes_no_zh_text(preview.needs_repair_resume_state));
    let lines = lines.push(compaction_line_zh_text(preview));
    let lines = lines.push("迁移后归档源线程："@ + smart::yes_no_zh_text(preview.will_archive_source));
    let lines = lines.push(warning_line_zh_text(preview));
    lines
}

/// The lines of a plan, in Chinese.
pub fn plan_lines_zh(preview: &SmartPreview, provider: &str) -> (out: Vec<String>)
    ensures
        text::reads(out@, plan_lines_zh_text(preview@, provider@)),
{
    let mut lines = no_texts();
    push_text(
        &mut lines,
        cat2("当前上下文窗口：", opt_i64_text(preview.current_context_window, "").as_str()),
    );
    push_text(&mut lines, cat2("目标 provider：", provider));
    push_text(&mut lines, cat2("目标 model：", preview.selection.model.as_str()));
    push_text(
        &mut lines,
        cat2("目标上下文窗口：", opt_i64_text(preview.selection.target_context_window, "").as_str()),
    );
    push_text(&mut lines, "".to_owned());
    push_text(
        &mut lines,
        cat2("执行模式：", mode_in_plan(preview.selection.execution_mode, PickerLanguage::Chinese)),
    );
    push_text(&mut lines, cat2("策略：", strategy_label_zh(preview.strategy)));
    push_text(&mut lines, cat2("写入 profile：", preview.target_profile.as_str()));
    push_text(
        &mut lines,
        cat2("修复 resume-state：", yes_no_zh(preview.needs_repair_resume_state)),
    );
    push_text(&mut lines, compaction_line_zh(preview));
    push_text(&mut lines, cat2("迁移后归档源线程：", yes_no_zh(preview.will_archive_source)));
    push_text(&mut lines, warning_line_zh(preview));
    lines
}

/// The lines of a plan that is not there yet.
pub open spec fn empty_plan_lines_text(
    language: PickerLanguage,
    provider: Seq<char>,
) -> Seq<Seq<char>> {
    let lines = Seq::<Seq<char>>::empty();
    let lines = match language {
        PickerLanguage::English => {
            let lines = lines.push("From context window: "@);
            let lines = lines.push("To provider: "@ + provider);
            let lines = lines.push("To model: "@);
            let lines = lines.push("Target context window: "@);
            let lines = lines.push(""@);
            let lines = lines.push("Execution mode: "@);
            let lines = lines.push("Strategy: "@);
            let lines = lines.push("Write profile: "@);
            let lines = lines.push("Repair resume state: "@);
            let lines = lines.push("Pre-compaction: "@);
            let lines = lines.push("Archive source after migrate: "@);
            let lines = lines.push(""@);
            lines
        },
        PickerLanguage::Chinese => {
            let lines = lines.push("当前上下文窗口："@);
            let lines = lines.push("目标 provider："@ + provider);
            let lines = lines.push("目标 model："@);
            let lines = lines.push("目标上下文窗口："@);
            let lines = lines.push(""@);
            let lines = lines.push("执行模式："@);
            let lines = lines.push("策略："@);
            let lines = lines.push("写入 profile："@);
            let lines = lines.push("修复 resume-state："@);
            let lines = lines.push("预压缩："@);
            let lines = lines.push("迁移后归档源线程："@);
            let lines = lines.push(""@);
            lines
        },
    };
    lines
}

/// The lines of a plan that is not there yet.
pub fn empty_plan_lines(language: PickerLanguage, provider: &str) -> (out: Vec<String>)
    ensures
        text::reads(out@, empty_plan_lines_text(language, provider@)),
{
    let mut lines = no_texts();
    match language {
        PickerLanguage::English => {
            push_text(&mut lines, "From context window: ".to_owned());
            push_text(&mut lines, cat2("To provider: ", provider));
            push_text(&mut lines, "To model: ".to_owned());
            push_text(&mut lines, "Target context window: ".to_owned());
            push_text(&mut lines, "".to_owned());
            push_text(&mut lines, "Execution mode: ".to_owned());
            push_text(&mut lines, "Strategy: ".to_owned());
            push_text(&mut lines, "Write profile: ".to_owned());
            push_text(&mut lines, "Repair resume state: ".to_owned());
            push_text(&mut lines, "Pre-compaction: ".to_owned());
            push_text(&mut lines, "Archive source after migrate: ".to_owned());
            push_text(&mut lines, "".to_owned());
        },
        PickerLanguage::Chinese => {
            push_text(&mut lines, "当前上下文窗口：".to_owned());
            push_text(&mut lines, cat2("目标 provider：", provider));
            push_text(&mut lines, "目标 model：".to_owned());
            push_text(&mut lines, "目标上下文窗口：".to_owned());
            push_text(&mut lines, "".to_owned());
            push_text(&mut lines, "执行模式：".to_owned());
            push_text(&mut lines, "策略：".to_owned());
            push_text(&mut lines, "写入 profile：".to_owned());
            push_text(&mut lines, "修复 resume-state：".to_owned());
            push_text(&mut lines, "预压缩：".to_owned());
            push_text(&mut lines, "迁移后归档源线程：".to_owned());
            push_text(&mut lines, "".to_owned());
        },
    }
    lines
}

/// The lines to confirm.
pub open spec fn confirm_lines_text(picker: SmartPickerView) -> Seq<Seq<char>> {
    let lines = Seq::<Seq<char>>::empty();
    let lines = match picker.language {
        PickerLanguage::English => {
            let lines = lines + source_lines_en_text(picker);
            let lines = match picker.preview {
                Some(preview) => {
                    let lines = lines + plan_lines_en_text(preview, picked_provider(picker));
                    lines
                },
                None => {
                    let lines = lines + empty_plan_lines_text(picker.language, picked_provider(picker));
                    lines
                },
            };
            lines
        },
        PickerLanguage::Chinese => {
            let lines = lines + source_lines_zh_text(picker);
            let lines = match picker.preview {
                Some(preview) => {
                    let lines = lines + plan_lines_zh_text(preview, picked_provider(picker));
                    lines
                },
                None => {
                    let lines = lines + empty_plan_lines_text(picker.language, picked_provider(picker));
                    lines
                },
            };
            lines
        },
    };
    lines
}

/// The lines to confirm.
pub fn confirm_lines(picker: &SmartPicker) -> (out: Vec<String>)
    ensures
        text::reads(out@, confirm_lines_text(picker@)),
{
    let mut lines = no_texts();
    match picker.language {
        PickerLanguage::English => {
            push_texts(&mut lines, &source_lines_en(picker));
            match &picker.preview {
                Some(preview) => {
                    push_texts(&mut lines, &plan_lines_en(preview, picker.selected_provider().as_str()));
                },
                None => {
                    push_texts(
                        &mut lines,
                        &empty_plan_lines(picker.language, picker.selected_provider().as_str()),
                    );
                },
            }
        },
        PickerLanguage::Chinese => {
            push_texts(&mut lines, &source_lines_zh(picker));
            match &picker.preview {
                Some(preview) => {
                    push_texts(&mut lines, &plan_lines_zh(preview, picker.selected_provider().as_str()));
                },
                None => {
                    push_texts(
                        &mut lines,
                        &empty_plan_lines(picker.language, picker.selected_provider().as_str()),
                    );
                },
            }
        },
    }
    lines
}

/// The details of the current session.
pub open spec fn detail_lines_text(picker: SmartPickerView) -> Seq<Seq<char>> {
    let lines = Seq::<Seq<char>>::empty();
    let lines = match picker.language {
        PickerLanguage::English => {
            let lines = lines.push("Provider: "@ + picker.current_provider);
            let lines = lines.push("Model: "@ + picker.current_model);
            let lines = lines.push("Current context window: "@
                    + numbers::opt_decimal(numbers::opt_int_i64(picker.current_window), ""@));
            let lines = lines.push(""@);
            let lines = lines.push("Rollout: "@ + picker.summary_path);
            lines
        },
        PickerLanguage::Chinese => {
            let lines = lines.push("Provider："@ + picker.current_provider);
            let lines = lines.push("Model："@ + picker.current_model);
            let lines = lines.push("当前上下文窗口："@
                    + numbers::opt_decimal(numbers::opt_int_i64(picker.current_window), ""@));
            let lines = lines.push(""@);
            let lines = lines.push("Rollout："@ + picker.summary_path);
            lines
        },
    };
    lines
}

/// The details of the current session.
pub fn detail_lines(picker: &SmartPicker) -> (out: Vec<String>)
    ensures
        text::reads(out@, detail_lines_text(picker@)),
{
    let mut lines = no_texts();
    match picker.language {
        PickerLanguage::English => {
            push_text(&mut lines, cat2("Provider: ", picker.current_provider.as_str()));
            push_text(&mut lines, cat2("Model: ", picker.current_model.as_str()));
            push_text(
                &mut lines,
                cat2(
                    "Current context window: ",
                    opt_i64_text(picker.current_window, "").as_str(),
                ),
            );
            push_text(&mut lines, "".to_owned());
            push_text(&mut lines, cat2("Rollout: ", picker.summary_path.as_str()));
        },
        PickerLanguage::Chinese => {
            push_text(&mut lines, cat2("Provider：", picker.current_provider.as_str()));
            push_text(&mut lines, cat2("Model：", picker.current_model.as_str()));
            push_text(
                &mut lines,
                cat2("当前上下文窗口：", opt_i64_text(picker.current_window, "").as_str()),
            );
            push_text(&mut lines, "".to_owned());
            push_text(&mut lines, cat2("Rollout：", picker.summary_path.as_str()));
        },
    }
    lines
}

/// Everything that the picker shows.
#[derive(Debug, PartialEq, Eq)]
pub struct PickerScreen {
    pub title: String,
    pub list_title: String,
    pub rows: Vec<PickerRow>,
    pub confirm_lines: Vec<String>,
    pub details_title: String,
    pub detail_lines: Vec<String>,
    pub footer: String,
}

/// What a [`PickerScreen`] stands for.
pub struct PickerScreenView {
    pub title: Seq<char>,
    pub list_title: Seq<char>,
    pub rows: Seq<PickerRowView>,
    pub confirm_lines: Seq<Seq<char>>,
    pub details_title: Seq<char>,
    pub detail_lines: Seq<Seq<char>>,
    pub footer: Seq<char>,
}

impl View for PickerScreen {
    type V = PickerScreenView;

    open spec fn view(&self) -> PickerScreenView {
        PickerScreenView {
            title: self.title@,
            list_title: self.list_title@,
            rows: self.rows.deep_view(),
            confirm_lines: text::texts(self.confirm_lines@),
            details_title: self.details_title@,
            detail_lines: text::texts(self.detail_lines@),
            footer: self.footer@,
        }
    }
}

impl DeepView for PickerScreen {
    type V = PickerScreenView;

    open spec fn deep_view(&self) -> PickerScreenView {
        self@
    }
}

impl Clone for PickerScreen {
    fn clone(&self) -> (out: Self)
        ensures
            out@ == self@,
    {
        let out = PickerScreen {
            title: self.title.clone(),
            list_title: self.list_title.clone(),
            rows: self.rows.clone(),
            confirm_lines: clone_texts(&self.confirm_lines),
            details_title: self.details_title.clone(),
            detail_lines: clone_texts(&self.detail_lines),
            footer: self.footer.clone(),
        };
        assert(out.rows.deep_view() =~= self.rows.deep_view());
        out
    }
}

/// Everything that the picker shows.
pub open spec fn screen_of(picker: SmartPickerView) -> PickerScreenView {
    PickerScreenView {
        title: picker_title_text(picker.language),
        list_title: list_title_text(picker.step, picker.language),
        rows: picker_rows(picker),
        confirm_lines: if picker.step == SmartStep::Confirm {
            confirm_lines_text(picker)
        } else {
            Seq::empty()
        },
        details_title: details_title_text(picker.language),
        detail_lines: detail_lines_text(picker),
        footer: picker_footer_text(picker.language),
    }
}

/// Everything that the picker shows: rows to pick from, or lines to confirm.
pub fn draw_picker(picker: &SmartPicker) -> (out: PickerScreen)
    ensures
        out@ == screen_of(picker@),
{
    let confirming = matches!(picker.step, SmartStep::Confirm);
    PickerScreen {
        title: picker_title(picker.language).to_owned(),
        list_title: list_title(picker.step, picker.language).to_owned(),
        rows: list_rows(picker),
        confirm_lines: if confirming {
            confirm_lines(picker)
        } else {
            no_texts()
        },
        details_title: details_title(picker.language).to_owned(),
        detail_lines: detail_lines(picker),
        footer: picker_footer(picker.language).to_owned(),
    }
}

/// While something is picked, exactly one row is marked, as long as there are
/// rows.
pub proof fn one_row_is_selected(picker: SmartPickerView, index: int)
    requires
        picker_ok(picker),
        0 <= index < picker_rows(picker).len(),
    ensures
        picker_rows(picker)[index].selected <==> index == (match picker.step {
            SmartStep::Provider => picker.provider_index as int,
            SmartStep::Model => picker.model_index as int,
            SmartStep::Mode => picker.execution_mode_index as int,
            SmartStep::Confirm => -1,
        }),
{
}

/// Every step can be left: `Quit` cancels from anywhere, and `Esc` goes one step
/// back, or cancels at the first one. Neither moves what is pointed at.
pub proof fn picker_can_be_left(picker: SmartPickerView)
    ensures
        after_key(picker, PickerKey::Quit) == (picker, PickerActionView::Cancel),
        ({
            let (next, action) = after_key(picker, PickerKey::Esc);
            &&& picker.step is Provider <==> action is Cancel
            &&& !(picker.step is Provider) ==> action is Stay
            &&& picker.step is Provider ==> next.step is Provider
            &&& picker.step is Model ==> next.step is Provider && next.preview is None
            &&& picker.step is Mode ==> next.step is Model
            &&& picker.step is Confirm ==> next.step is Mode
            &&& next.provider_index == picker.provider_index && next.model_index
                == picker.model_index && next.execution_mode_index == picker.execution_mode_index
            &&& next.providers == picker.providers && next.models == picker.models
        }),
{
}

/// `Enter` asks for the models of the provider that is pointed at, then goes on to
/// the modes, then asks for the plan of what is pointed at, and at the end
/// finishes with that plan.
pub proof fn enter_goes_on_with_what_is_pointed_at(picker: SmartPickerView)
    requires
        picker_ok(picker),
        picker.providers.len() > 0,
    ensures
        ({
            let (next, action) = after_key(picker, PickerKey::Enter);
            let provider = picker.providers[picker.provider_index as int];
            let mode = if picker.execution_mode_index == 0 {
                SmartExecutionMode::Direct
            } else if picker.execution_mode_index == 1 {
                SmartExecutionMode::DistillCodex
            } else {
                SmartExecutionMode::DistillDeterministic
            };
            &&& picker.step is Provider ==> next == picker && action == (
            PickerActionView::LoadModels { provider })
            &&& picker.step is Model ==> next.step is Mode && next.execution_mode_index == 0
                && next.model_index == picker.model_index && action is Stay
            &&& picker.step is Mode ==> next == picker && action == (
            PickerActionView::BuildPreview {
                preview_provider: provider,
                model: picker.models[picker.model_index as int].model,
                mode,
            })
            &&& picker.step is Confirm ==> next == picker && action == (PickerActionView::Finish {
                selection: picker.preview.unwrap().selection,
            })
        }),
{
}

/// The arrow keys move by one in the list of the step, and stop at its ends; they
/// move nothing else.
pub proof fn arrows_move_in_the_list_of_the_step(picker: SmartPickerView)
    requires
        picker_ok(picker),
        picker.providers.len() <= usize::MAX,
        picker.models.len() <= usize::MAX,
    ensures
        ({
            let up = after_key(picker, PickerKey::Up).0;
            let down = after_key(picker, PickerKey::Down).0;
            let less = |index: usize| if index == 0 { 0int } else { index - 1 };
            let more = |index: usize, count: nat|
                if index + 1 < count { index + 1 } else { index as int };
            let (p, m, e) = (
                picker.provider_index,
                picker.model_index,
                picker.execution_mode_index,
            );
            &&& up.provider_index == if picker.step is Provider { less(p) } else { p as int }
            &&& up.model_index == if picker.step is Model { less(m) } else { m as int }
            &&& up.execution_mode_index == if picker.step is Mode { less(e) } else { e as int }
            &&& down.provider_index == if picker.step is Provider {
                more(p, picker.providers.len())
            } else {
                p as int
            }
            &&& down.model_index == if picker.step is Model {
                more(m, picker.models.len())
            } else {
                m as int
            }
            &&& down.execution_mode_index == if picker.step is Mode { more(e, 3) } else { e as int }
            &&& up.step == picker.step && down.step == picker.step
            &&& after_key(picker, PickerKey::Up).1 is Stay
            &&& after_key(picker, PickerKey::Down).1 is Stay
        }),
{
}

/// Once models are there, the one of the session is pointed at, the first of that
/// name, and without such a one the first of the list.
pub proof fn model_of_the_session_is_pointed_at(
    picker: SmartPickerView,
    models: Seq<ModelPresetView>,
    at: int,
)
    requires
        0 <= at < models.len() <= usize::MAX,
        models[at].model == picker.current_model,
        forall|i: int| 0 <= i < at ==> (#[trigger] models[i]).model != picker.current_model,
    ensures
        with_models(picker, models).model_index == at,
        with_models(picker, models).models == models,
        with_models(picker, models).step is Model,
        with_models(picker, models).preview is None,
{
    let names = model_names(models);
    assert(first_index(names, picker.current_model, at));
    let other = choose|i: int| first_index(names, picker.current_model, i);
    assert(first_index(names, picker.current_model, other));
    if other < at {
        assert(models[other].model != picker.current_model);
    } else if other > at {
        assert(names[at] == picker.current_model);
    }
}

/// Without the model of the session the first one is pointed at.
pub proof fn first_model_is_pointed_at_otherwise(
    picker: SmartPickerView,
    models: Seq<ModelPresetView>,
)
    requires
        forall|i: int|
            0 <= i < models.len() ==> (#[trigger] models[i]).model != picker.current_model,
    ensures
        with_models(picker, models).model_index == 0,
{
    let names = model_names(models);
    if exists|i: int| first_index(names, picker.current_model, i) {
        let i = choose|i: int| first_index(names, picker.current_model, i);
        assert(models[i].model != picker.current_model);
    }
}

/// The list of a step has a row for each thing to pick, under its name, and notes
/// which one the session has now.
pub proof fn rows_name_what_can_be_picked(picker: SmartPickerView, at: int)
    requires
        picker_ok(picker),
        0 <= at < picker_rows(picker).len(),
    ensures
        ({
            let row = picker_rows(picker)[at];
            &&& picker.step is Provider ==> picker_rows(picker).len() == picker.providers.len()
                && row.title == picker.providers[at] && row.note == current_note_text(
                picker.providers[at] == picker.current_provider,
                picker.language,
            )
            &&& picker.step is Model ==> {
                let model = picker.models[at];
                &&& picker_rows(picker).len() == picker.models.len()
                &&& model.display_name == model.model ==> row.title == model.model
                &&& model.display_name != model.model ==> row.title == model.display_name + " ("@
                    + model.model + ")"@
                &&& row.note == current_note_text(
                    model.model == picker.current_model,
                    picker.language,
                )
            }
            &&& picker.step is Mode ==> picker_rows(picker).len() == 3
            &&& row.mark == row_mark_text(row.selected)
            &&& !(picker.step is Confirm)
        }),
        current_note_text(false, picker.language).len() == 0,
        row_mark_text(true) != row_mark_text(false),
{
    reveal_strlit("");
    reveal_strlit("› ");
    reveal_strlit("  ");
    assert("› "@[0] == '›');
    assert("  "@[0] == ' ');
}

/// What is confirmed is told in full: where the switch comes from and goes to, and
/// everything that the plan is going to do.
pub proof fn plan_to_confirm_is_told_in_full(picker: SmartPickerView, preview: SmartPreviewView)
    requires
        picker.preview == Some(preview),
        picker.language is English,
        picker.step is Confirm,
    ensures
        ({
            let lines = screen_of(picker).confirm_lines;
            let number = |value: Option<i64>|
                match value {
                    Some(value) => numbers::decimal(value as int),
                    None => ""@,
                };
            let answer = |value: bool| if value { "yes"@ } else { "no"@ };
            &&& lines[2] == "From provider: "@ + picker.current_provider
            &&& lines[3] == "From model: "@ + picker.current_model
            &&& lines[4] == "From context window: "@ + number(preview.current_context_window)
            &&& lines[5] == "To provider: "@ + picked_provider(picker)
            &&& lines[6] == "To model: "@ + preview.selection.model
            &&& lines[7] == "Target context window: "@ + number(
                preview.selection.target_context_window,
            )
            &&& lines[9] == "Execution mode: "@ + (match preview.selection.execution_mode {
                SmartExecutionMode::Direct => "direct switch"@,
                SmartExecutionMode::DistillCodex => "codex distill"@,
                SmartExecutionMode::DistillDeterministic => "deterministic distill"@,
            })
            &&& lines[10] == "Strategy: "@ + smart::strategy_label_text(preview.strategy)
            &&& lines[11] == "Write profile: "@ + preview.target_profile
            &&& lines[12] == "Repair resume state: "@ + answer(preview.needs_repair_resume_state)
            &&& !preview.needs_compaction ==> lines[13] == "Pre-compaction: no"@
            &&& preview.needs_compaction ==> lines[13]
                == "Pre-compaction: yes (current_context_tokens="@ + number(
                preview.current_context_tokens,
            ) + " > target_window="@ + number(preview.selection.target_context_window)
                + ", max_runs="@ + numbers::decimal(preview.max_pre_compactions as int) + ")"@
            &&& lines[14] == "Archive source after migrate: "@ + answer(
                preview.will_archive_source,
            )
            &&& preview.blocked_reason matches Some(reason) ==> lines[15] == "Warning: "@ + reason
            &&& preview.blocked_reason is None ==> lines[15] == ""@
        }),
{
}

/// The screen shows the session next to what is picked, and lines to confirm at
/// the last step alone.
pub proof fn screen_shows_session_and_step(picker: SmartPickerView)
    ensures
        ({
            let screen = screen_of(picker);
            let lines = screen.detail_lines;
            &&& screen.rows == picker_rows(picker)
            &&& !(picker.step is Confirm) ==> screen.confirm_lines.len() == 0
            &&& picker.step is Confirm ==> screen.confirm_lines.len() > 0 && screen.rows.len() == 0
            &&& lines.len() == 5
            &&& picker.language is English ==> lines[0] == "Provider: "@ + picker.current_provider
                && lines[1] == "Model: "@ + picker.current_model && lines[4] == "Rollout: "@
                + picker.summary_path
            &&& picker.language is Chinese ==> lines[0] == "Provider："@
                + picker.current_provider && lines[1] == "Model："@ + picker.current_model
                && lines[4] == "Rollout："@ + picker.summary_path
        }),
{
}

} // verus!
