//! Taking generated profiles out of a configuration.

use vstd::prelude::*;

use crate::order;
use crate::order::sort_texts;
use crate::runtime::ConfigEdit;
use crate::runtime::ConfigEditView;
use crate::search::has_prefix;
use crate::smart;
use crate::smart::load_global_config_toml;
use crate::text;
use crate::text::clone_texts;
use crate::text::is_text;
use crate::text::no_texts;
use crate::text::push_text;

verus! {

/// The start of the names that are given to generated profiles.
pub const GENERATED_PROFILE_PREFIX: &'static str = "smart-";

/// What to take out of a configuration.
#[derive(Debug, PartialEq, Eq)]
pub struct ProfileCleanup {
    pub removed_profiles: Vec<String>,
    pub edits: Vec<ConfigEdit>,
}

/// What a [`ProfileCleanup`] stands for.
pub struct ProfileCleanupView {
    pub removed_profiles: Seq<Seq<char>>,
    pub edits: Seq<ConfigEditView>,
}

impl View for ProfileCleanup {
    type V = ProfileCleanupView;

    open spec fn view(&self) -> ProfileCleanupView {
        ProfileCleanupView {
            removed_profiles: text::texts(self.removed_profiles@),
            edits: self.edits.deep_view(),
        }
    }
}

impl DeepView for ProfileCleanup {
    type V = ProfileCleanupView;

    open spec fn deep_view(&self) -> ProfileCleanupView {
        self@
    }
}

impl Clone for ProfileCleanup {
    fn clone(&self) -> (out: Self)
        ensures
            out@ == self@,
    {
        let out = ProfileCleanup {
            removed_profiles: clone_texts(&self.removed_profiles),
            edits: self.edits.clone(),
        };
        assert(out.edits.deep_view() =~= self.edits.deep_view());
        out
    }
}

/// The keys of a table at the top of a TOML text, as `toml` reads it; none
/// where there is nothing under that key, and nothing where the text is no TOML
/// or the key holds something else than a table.
pub uninterp spec fn toml_table_keys(contents: Seq<char>, key: Seq<char>) -> Option<Seq<Seq<char>>>;

/// Calls `toml::from_str` for a `Table`, `get` with the key, and `as_table` on
/// what is there, and lists its keys. The result is a function of the two texts.
#[verifier::external_body]
pub(crate) fn read_table_keys(contents: &str, key: &str) -> (out: Option<Vec<String>>)
    ensures
        match out {
            Some(names) => toml_table_keys(contents@, key@) == Some(text::texts(names@)),
            None => toml_table_keys(contents@, key@) is None,
        },
{
    let document = toml::from_str::<toml::Table>(contents).ok()?;
    match document.get(key) {
        Some(value) => Some(value.as_table()?.keys().cloned().collect()),
        None => Some(Vec::new()),
    }
}

/// A generated profile that is not to be kept.
pub open spec fn disposable(name: Seq<char>, preserve: Seq<Option<Seq<char>>>) -> bool {
    "smart-"@.is_prefix_of(name) && !preserve.contains(Some(name))
}

/// The generated profiles of a list that are not to be kept.
pub open spec fn disposable_of(
    names: Seq<Seq<char>>,
    preserve: Seq<Option<Seq<char>>>,
) -> Seq<Seq<char>>
    decreases names.len(),
{
    if names.len() == 0 {
        Seq::empty()
    } else if disposable(names.last(), preserve) {
        disposable_of(names.drop_last(), preserve).push(names.last())
    } else {
        disposable_of(names.drop_last(), preserve)
    }
}

pub open spec fn clear_profile(name: Seq<char>) -> ConfigEditView {
    ConfigEditView::ClearPath { segments: seq!["profiles"@, name] }
}

/// The edits that take profiles away; with the last of them the whole table
/// goes.
pub open spec fn cleanup_edits(removed: Seq<Seq<char>>, profile_count: nat) -> Seq<ConfigEditView> {
    let clears = Seq::new(removed.len(), |i: int| clear_profile(removed[i]));
    if removed.len() > 0 && removed.len() == profile_count {
        clears.push(ConfigEditView::ClearPath { segments: seq!["profiles"@] })
    } else {
        clears
    }
}

/// The cleanup of a configuration with these profiles.
pub open spec fn cleanup_of(
    names: Seq<Seq<char>>,
    preserve: Seq<Option<Seq<char>>>,
) -> ProfileCleanupView {
    let removed = order::sorted(disposable_of(names, preserve));
    ProfileCleanupView { removed_profiles: removed, edits: cleanup_edits(removed, names.len()) }
}

fn is_preserved(name: &str, preserve: &Vec<Option<String>>) -> (out: bool)
    ensures
        out == preserve.deep_view().contains(Some(name@)),
{
    let ghost all = preserve.deep_view();
    for i in 0..preserve.len()
        invariant
            all == preserve.deep_view(),
            forall|j: int| 0 <= j < i ==> #[trigger] all[j] != Some(name@),
    {
        assert(all[i as int] == preserve@[i as int].deep_view());
        if is_text(&preserve[i], name) {
            assert(all[i as int] == Some(name@));
            return true;
        }
    }
    false
}

fn push_clear(edits: &mut Vec<ConfigEdit>, segments: Vec<String>)
    ensures
        final(edits).deep_view() == old(edits).deep_view().push(
            ConfigEditView::ClearPath { segments: text::texts(segments@) },
        ),
{
    let ghost added = ConfigEditView::ClearPath { segments: text::texts(segments@) };
    edits.push(ConfigEdit::ClearPath { segments });
    assert(edits.deep_view() =~= old(edits).deep_view().push(added));
}

/// What to take out of a configuration with these profiles: the generated ones,
/// but for those to be kept.
pub fn plan_profile_cleanup(names: &Vec<String>, preserve: &Vec<Option<String>>) -> (out:
    ProfileCleanup)
    ensures
        out@ == cleanup_of(text::texts(names@), preserve.deep_view()),
{
    let mut disposable_names = no_texts();
    let ghost all = text::texts(names@);
    let ghost kept = preserve.deep_view();
    assert(all.take(0) =~= Seq::<Seq<char>>::empty());
    for i in 0..names.len()
        invariant
            all == text::texts(names@),
            kept == preserve.deep_view(),
            text::texts(disposable_names@) == disposable_of(all.take(i as int), kept),
    {
        assert(all.take(i + 1).drop_last() =~= all.take(i as int));
        assert(all[i as int] == names@[i as int]@);
        if has_prefix(names[i].as_str(), GENERATED_PROFILE_PREFIX) && !is_preserved(
            names[i].as_str(),
            preserve,
        ) {
            push_text(&mut disposable_names, names[i].clone());
        }
    }
    assert(all.take(all.len() as int) =~= all);
    let removed_profiles = sort_texts(&disposable_names);
    let ghost removed = text::texts(removed_profiles@);
    let ghost clears = Seq::new(removed.len(), |i: int| clear_profile(removed[i]));
    let mut edits: Vec<ConfigEdit> = Vec::new();
    assert(edits.deep_view() =~= clears.take(0));
    for i in 0..removed_profiles.len()
        invariant
            removed == text::texts(removed_profiles@),
            clears == Seq::new(removed.len(), |i: int| clear_profile(removed[i])),
            edits.deep_view() == clears.take(i as int),
    {
        let mut segments = no_texts();
        push_text(&mut segments, "profiles".to_owned());
        push_text(&mut segments, removed_profiles[i].clone());
        assert(text::texts(segments@) =~= seq!["profiles"@, removed[i as int]]);
        push_clear(&mut edits, segments);
        assert(clears.take(i as int).push(clears[i as int]) =~= clears.take(i + 1));
    }
    assert(clears.take(clears.len() as int) =~= clears);
    if removed_profiles.len() > 0 && removed_profiles.len() == names.len() {
        let mut segments = no_texts();
        push_text(&mut segments, "profiles".to_owned());
        assert(text::texts(segments@) =~= seq!["profiles"@]);
        push_clear(&mut edits, segments);
    }
    ProfileCleanup { removed_profiles, edits }
}

/// What to take out of a configuration file, given its text where there is one;
/// nothing where it cannot be read. As in [`load_global_config_toml`], only what
/// the file says of providers and profiles has to have the right form; the other
/// settings are left for the Codex runtime to refuse.
pub fn cleanup_generated_profiles(
    contents: &Option<String>,
    preserve_profiles: &Vec<Option<String>>,
) -> (out: Option<ProfileCleanup>)
    ensures
        match *contents {
            None => out matches Some(cleanup) && cleanup@ == cleanup_of(
                Seq::empty(),
                preserve_profiles.deep_view(),
            ),
            Some(contents) => match (
                smart::provider_config(contents@),
                toml_table_keys(contents@, "profiles"@),
            ) {
                (Some(_), Some(names)) => out matches Some(cleanup) && cleanup@ == cleanup_of(
                    names,
                    preserve_profiles.deep_view(),
                ),
                _ => out is None,
            },
        },
{
    let text = match contents {
        None => return Some(plan_profile_cleanup(&no_texts(), preserve_profiles)),
        Some(text) => text.as_str(),
    };
    match (load_global_config_toml(contents), read_table_keys(text, "profiles")) {
        (Some(_), Some(names)) => Some(plan_profile_cleanup(&names, preserve_profiles)),
        _ => None,
    }
}

proof fn disposable_of_facts(
    names: Seq<Seq<char>>,
    preserve: Seq<Option<Seq<char>>>,
    name: Seq<char>,
)
    ensures
        disposable_of(names, preserve).contains(name) <==> names.contains(name) && disposable(
            name,
            preserve,
        ),
    decreases names.len(),
{
    if names.len() > 0 {
        let front = names.drop_last();
        let kept = disposable_of(front, preserve);
        let out = disposable_of(names, preserve);
        disposable_of_facts(front, preserve, name);
        if names.contains(name) {
            let i = choose|i: int| 0 <= i < names.len() && names[i] == name;
            if i < front.len() {
                assert(front[i] == name);
            }
            if disposable(name, preserve) {
                if kept.contains(name) {
                    let k = choose|k: int| 0 <= k < kept.len() && kept[k] == name;
                    assert(out[k] == name);
                } else {
                    assert(out[kept.len() as int] == name);
                }
            }
        }
        if out.contains(name) {
            let k = choose|k: int| 0 <= k < out.len() && out[k] == name;
            if k < kept.len() {
                assert(kept[k] == name);
                let i = choose|i: int| 0 <= i < front.len() && front[i] == name;
                assert(names[i] == name);
            } else {
                assert(names[names.len() - 1] == name);
            }
        }
    }
}

/// A cleanup removes exactly the generated profiles that are not to be kept,
/// and names them in order; a profile with another name always stays.
pub proof fn cleanup_removes_exactly_generated_profiles(
    names: Seq<Seq<char>>,
    preserve: Seq<Option<Seq<char>>>,
    name: Seq<char>,
)
    ensures
        cleanup_of(names, preserve).removed_profiles.contains(name) <==> names.contains(name)
            && "smart-"@.is_prefix_of(name) && !preserve.contains(Some(name)),
        order::in_order(cleanup_of(names, preserve).removed_profiles),
{
    broadcast use vstd::seq_lib::group_to_multiset_ensures;

    let found = disposable_of(names, preserve);
    disposable_of_facts(names, preserve, name);
    order::sorted_laws(found);
    assert(order::sorted(found).contains(name) <==> order::sorted(found).to_multiset().count(name)
        > 0);
    assert(found.contains(name) <==> found.to_multiset().count(name) > 0);
}

/// Every profile that is removed is cleared under its name. Where no other profile
/// is left, the table of profiles goes too, and only then.
pub proof fn removed_profiles_are_cleared(
    names: Seq<Seq<char>>,
    preserve: Seq<Option<Seq<char>>>,
    at: int,
)
    ensures
        ({
            let out = cleanup_of(names, preserve);
            let removed = out.removed_profiles;
            let all = removed.len() > 0 && removed.len() == names.len();
            &&& 0 <= at < removed.len() ==> out.edits[at] == (ConfigEditView::ClearPath {
                segments: seq!["profiles"@, removed[at]],
            })
            &&& all ==> out.edits.len() == removed.len() + 1 && out.edits.last() == (
            ConfigEditView::ClearPath { segments: seq!["profiles"@] })
            &&& !all ==> out.edits.len() == removed.len()
        }),
{
}

} // verus!
