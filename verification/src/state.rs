//! The document that is saved and loaded: chosen options, settings, the
//! pose, and the presets selected in each panel. The pose is carried as a
//! value of any copyable type `P`; nothing here looks inside it.

use vstd::prelude::*;
use vstd::string::*;
use crate::dict::Dict;
use crate::json::Scalar;
use crate::library::{SettingEntry, SettingsLibrary};
use crate::options::OptionsData;
use crate::text::same_text;

verus! {

/// Which canvas shows the pose.
#[derive(Clone, Copy, Debug, PartialEq, Eq)]
pub enum ViewMode {
    View2D,
    View3D,
}

/// The value of each control of one settings panel, by setting id.
#[derive(Debug)]
pub struct Settings {
    pub values: Dict<Scalar>,
}

/// One preset as the panels show it.
#[derive(Debug)]
pub struct PresetItem<P> {
    pub id: String,
    pub name: String,
    pub description: String,
    pub tags: Vec<String>,
    pub pose_data: Option<P>,
    pub prompt: Option<String>,
    pub allow_custom: bool,
}

/// The presets chosen in one panel, in the order in which they were
/// chosen, and a sequence kept for video.
#[derive(Debug)]
pub struct SelectionState {
    pub selected: Vec<String>,
    pub sequence: Vec<String>,
}

/// How the panel of one preset library behaves.
#[derive(Clone, Debug)]
pub struct PresetMetadata {
    pub has_search: Option<bool>,
    pub multiple_selection: Option<String>,
    pub use_grid: Option<bool>,
    pub allow_custom: Option<bool>,
    pub include_prompt: String,
}

/// Everything that is saved and loaded as one.
#[derive(Debug)]
pub struct AppState<P> {
    pub options: Dict<OptionsData>,
    pub settings: Dict<Settings>,
    pub pose: P,
    pub video_mode: bool,
    pub selections: Dict<SelectionState>,
    pub custom_data: Dict<String>,
}

/// A state kept under a name, with the time at which it was kept.
#[derive(Debug)]
pub struct SavedState<P> {
    pub name: String,
    pub timestamp: String,
    pub state: AppState<P>,
}

/// What an `AppState` holds, entry by entry.
pub ghost struct AppStateView<P> {
    pub options: Seq<(String, Seq<(String, String)>)>,
    pub settings: Seq<(String, Seq<(String, Scalar)>)>,
    pub pose: P,
    pub video_mode: bool,
    pub selections: Seq<(String, (Seq<String>, Seq<String>))>,
    pub custom_data: Seq<(String, String)>,
}

impl View for OptionsData {
    type V = Seq<(String, String)>;

    open spec fn view(&self) -> Seq<(String, String)> {
        self.values.entries@
    }
}

impl View for Settings {
    type V = Seq<(String, Scalar)>;

    open spec fn view(&self) -> Seq<(String, Scalar)> {
        self.values.entries@
    }
}

impl View for SelectionState {
    type V = (Seq<String>, Seq<String>);

    open spec fn view(&self) -> (Seq<String>, Seq<String>) {
        (self.selected@, self.sequence@)
    }
}

impl<P> View for AppState<P> {
    type V = AppStateView<P>;

    open spec fn view(&self) -> AppStateView<P> {
        AppStateView {
            options: Seq::new(
                self.options.entries@.len(),
                |i: int| (self.options.entries@[i].0, self.options.entries@[i].1@),
            ),
            settings: Seq::new(
                self.settings.entries@.len(),
                |i: int| (self.settings.entries@[i].0, self.settings.entries@[i].1@),
            ),
            pose: self.pose,
            video_mode: self.video_mode,
            selections: Seq::new(
                self.selections.entries@.len(),
                |i: int| (self.selections.entries@[i].0, self.selections.entries@[i].1@),
            ),
            custom_data: self.custom_data.entries@,
        }
    }
}

/// The values that a settings library starts with: each setting's default
/// under its id, a later setting replacing an earlier one of the same id.
pub open spec fn default_settings(entries: Seq<SettingEntry>) -> Map<Seq<char>, Scalar>
    decreases entries.len(),
{
    if entries.len() == 0 {
        Map::empty()
    } else {
        default_settings(entries.drop_last()).insert(entries.last().id@, entries.last().default)
    }
}

/// The policy that lets nothing be chosen beside another.
pub open spec fn multi_policy(meta: PresetMetadata) -> Seq<char> {
    match meta.multiple_selection {
        Some(s) => s@,
        None => seq!['n', 'e', 'v', 'e', 'r'],
    }
}

pub open spec fn always_word() -> Seq<char> {
    seq!['a', 'l', 'w', 'a', 'y', 's']
}

pub open spec fn video_word() -> Seq<char> {
    seq!['v', 'i', 'd', 'e', 'o']
}

pub open spec fn image_word() -> Seq<char> {
    seq!['i', 'm', 'a', 'g', 'e']
}

/// May several presets be chosen at once under the policy `policy`?
/// `always` says yes, `video` only in video mode, `image` only outside
/// it, any other word no.
pub open spec fn policy_allows_multi(policy: Seq<char>, video_mode: bool) -> bool {
    if policy == always_word() {
        true
    } else if policy == video_word() {
        video_mode
    } else if policy == image_word() {
        !video_mode
    } else {
        false
    }
}

/// A copy of a list of texts.
pub fn duplicate_texts(v: &Vec<String>) -> (r: Vec<String>)
    ensures
        r@ == v@,
{
    let mut r: Vec<String> = Vec::new();
    let mut i: usize = 0;
    while i < v.len()
        invariant
            i <= v.len(),
            r@ == v@.take(i as int),
        decreases v.len() - i,
    {
        r.push(v[i].clone());
        assert(v@.take(i as int).push(v@[i as int]) =~= v@.take(i + 1));
        i += 1;
    }
    assert(v@.take(v.len() as int) =~= v@);
    r
}

/// A copy of a map of texts.
pub fn duplicate_text_map(d: &Dict<String>) -> (r: Dict<String>)
    ensures
        r.entries@ == d.entries@,
{
    let mut entries: Vec<(String, String)> = Vec::new();
    let mut i: usize = 0;
    while i < d.entries.len()
        invariant
            i <= d.entries.len(),
            entries@ == d.entries@.take(i as int),
        decreases d.entries.len() - i,
    {
        let e = &d.entries[i];
        entries.push((e.0.clone(), e.1.clone()));
        assert(d.entries@.take(i as int).push(d.entries@[i as int]) =~= d.entries@.take(i + 1));
        i += 1;
    }
    assert(d.entries@.take(d.entries.len() as int) =~= d.entries@);
    Dict { entries }
}

impl OptionsData {
    /// A copy of the chosen values.
    pub fn duplicate(&self) -> (r: Self)
        ensures
            r@ == self@,
    {
        OptionsData { values: duplicate_text_map(&self.values) }
    }
}

impl Settings {
    /// No values set.
    pub fn new() -> (r: Self)
        ensures
            r@.len() == 0,
            r.values@ == Map::<Seq<char>, Scalar>::empty(),
    {
        Settings { values: Dict::new() }
    }

    /// The values that a library starts with.
    pub fn from_library(lib: &SettingsLibrary) -> (r: Self)
        ensures
            r.values@ == default_settings(lib.settings@),
            r.values.wf(),
    {
        let mut values: Dict<Scalar> = Dict::new();
        let mut i: usize = 0;
        while i < lib.settings.len()
            invariant
                i <= lib.settings.len(),
                values.wf(),
                values@ == default_settings(lib.settings@.take(i as int)),
            decreases lib.settings.len() - i,
        {
            let entry = &lib.settings[i];
            proof {
                let pre = lib.settings@.take(i as int + 1);
                assert(pre.drop_last() =~= lib.settings@.take(i as int));
                assert(pre.last() == lib.settings@[i as int]);
            }
            values.insert(entry.id.clone(), entry.default.duplicate());
            i += 1;
        }
        assert(lib.settings@.take(lib.settings.len() as int) =~= lib.settings@);
        Settings { values }
    }

    /// A copy of the values.
    pub fn duplicate(&self) -> (r: Self)
        ensures
            r@ == self@,
    {
        let mut entries: Vec<(String, Scalar)> = Vec::new();
        let mut i: usize = 0;
        while i < self.values.entries.len()
            invariant
                i <= self.values.entries.len(),
                entries@ == self.values.entries@.take(i as int),
            decreases self.values.entries.len() - i,
        {
            let e = &self.values.entries[i];
            entries.push((e.0.clone(), e.1.duplicate()));
            assert(self.values.entries@.take(i as int).push(self.values.entries@[i as int])
                =~= self.values.entries@.take(i + 1));
            i += 1;
        }
        assert(self.values.entries@.take(self.values.entries.len() as int)
            =~= self.values.entries@);
        Settings { values: Dict { entries } }
    }
}

impl SelectionState {
    /// Nothing chosen.
    pub fn new() -> (r: Self)
        ensures
            r.selected@.len() == 0,
            r.sequence@.len() == 0,
    {
        SelectionState { selected: Vec::new(), sequence: Vec::new() }
    }

    /// A copy of the selection.
    pub fn duplicate(&self) -> (r: Self)
        ensures
            r@ == self@,
    {
        SelectionState {
            selected: duplicate_texts(&self.selected),
            sequence: duplicate_texts(&self.sequence),
        }
    }
}

impl PresetMetadata {
    /// May several presets of this library be chosen at once?
    pub fn allow_multi(&self, video_mode: bool) -> (r: bool)
        ensures
            r == policy_allows_multi(multi_policy(*self), video_mode),
    {
        proof {
            reveal_strlit("always");
            reveal_strlit("video");
            reveal_strlit("image");
        }
        assert("always"@ =~= always_word());
        assert("video"@ =~= video_word());
        assert("image"@ =~= image_word());
        match &self.multiple_selection {
            Some(s) => {
                if same_text(s.as_str(), "always") {
                    true
                } else if same_text(s.as_str(), "video") {
                    video_mode
                } else if same_text(s.as_str(), "image") {
                    !video_mode
                } else {
                    false
                }
            },
            None => false,
        }
    }
}

impl<P: Copy> AppState<P> {
    /// A copy of the state.
    pub fn duplicate(&self) -> (r: Self)
        ensures
            r@ == self@,
    {
        let mut options: Vec<(String, OptionsData)> = Vec::new();
        let mut i: usize = 0;
        while i < self.options.entries.len()
            invariant
                i <= self.options.entries.len(),
                options@.len() == i,
                forall|j: int|
                    0 <= j < i ==> options@[j].0 == self.options.entries@[j].0 && options@[j].1@
                        == self.options.entries@[j].1@,
            decreases self.options.entries.len() - i,
        {
            let e = &self.options.entries[i];
            options.push((e.0.clone(), e.1.duplicate()));
            i += 1;
        }
        let mut settings: Vec<(String, Settings)> = Vec::new();
        let mut i: usize = 0;
        while i < self.settings.entries.len()
            invariant
                i <= self.settings.entries.len(),
                settings@.len() == i,
                forall|j: int|
                    0 <= j < i ==> settings@[j].0 == self.settings.entries@[j].0 && settings@[j].1@
                        == self.settings.entries@[j].1@,
            decreases self.settings.entries.len() - i,
        {
            let e = &self.settings.entries[i];
            settings.push((e.0.clone(), e.1.duplicate()));
            i += 1;
        }
        let mut selections: Vec<(String, SelectionState)> = Vec::new();
        let mut i: usize = 0;
        while i < self.selections.entries.len()
            invariant
                i <= self.selections.entries.len(),
                selections@.len() == i,
                forall|j: int|
                    0 <= j < i ==> selections@[j].0 == self.selections.entries@[j].0
                        && selections@[j].1@ == self.selections.entries@[j].1@,
            decreases self.selections.entries.len() - i,
        {
            let e = &self.selections.entries[i];
            selections.push((e.0.clone(), e.1.duplicate()));
            i += 1;
        }
        let r = AppState {
            options: Dict { entries: options },
            settings: Dict { entries: settings },
            pose: self.pose,
            video_mode: self.video_mode,
            selections: Dict { entries: selections },
            custom_data: duplicate_text_map(&self.custom_data),
        };
        assert(r@.options =~= self@.options);
        assert(r@.settings =~= self@.settings);
        assert(r@.selections =~= self@.selections);
        r
    }
}

} // verus!
