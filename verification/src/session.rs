//! The running application without its windows: the live state, the
//! libraries it was built from, and the named states kept by the user. Each
//! user action is one method; the caller draws, reads the clock and writes
//! files.

use vstd::prelude::*;
use vstd::string::*;
use crate::dict::{has_key, Dict};
use crate::library::{SettingsLibrary, UiConfig};
use crate::options::{contains_text, OptionsLibrary};
use crate::prompt::{PromptGenerator, PromptInput};
use crate::state::{
    duplicate_texts,
    multi_policy,
    policy_allows_multi,
    AppState,
    PresetItem,
    PresetMetadata,
    SavedState,
    SelectionState,
    ViewMode,
};
use crate::text::{same_text, views};

verus! {

/// For how long a short status message shows, in milliseconds.
pub const STATUS_SHORT: u32 = 2000;

/// For how long the message on a state kept or brought back shows, in
/// milliseconds.
pub const STATUS_LONG: u32 = 3000;

/// The state of the application that lasts from frame to frame.
pub struct PromptPuppetApp<P> {
    pub state: AppState<P>,
    pub libraries: Dict<OptionsLibrary>,
    pub settings_meta: Dict<SettingsLibrary>,
    pub preset_items: Dict<Vec<PresetItem<P>>>,
    pub preset_metadata: Dict<PresetMetadata>,
    pub default_pose: P,
    pub pose_is_manual: bool,
    pub dragging_joint_3d: Option<String>,
    pub search: Dict<String>,
    pub popup_open: Dict<bool>,
    pub generated_prompt: String,
    pub status_message: String,
    /// For how many milliseconds more the status message shows.
    pub status_millis: u32,
    pub ui_config: UiConfig,
    pub dark_mode: bool,
    pub save_dialog: Option<String>,
    pub load_dialog: bool,
    pub saves: Vec<SavedState<P>>,
    pub view_mode: ViewMode,
}

/// The pose that the first preset named `id` carries, where it carries one.
pub open spec fn find_pose<P>(items: Seq<PresetItem<P>>, id: Seq<char>) -> Option<P>
    decreases items.len(),
{
    if items.len() == 0 {
        None
    } else if items[0].id@ == id {
        items[0].pose_data
    } else {
        find_pose(items.drop_first(), id)
    }
}

/// The name of the first preset named `id`.
pub open spec fn find_name<P>(items: Seq<PresetItem<P>>, id: Seq<char>) -> Option<Seq<char>>
    decreases items.len(),
{
    if items.len() == 0 {
        None
    } else if items[0].id@ == id {
        Some(items[0].name@)
    } else {
        find_name(items.drop_first(), id)
    }
}

/// The pose that choosing `id` in panel `key` brings, where it brings one.
pub open spec fn pose_of_choice<P>(
    presets: Dict<Vec<PresetItem<P>>>,
    key: Seq<char>,
    id: Seq<char>,
) -> Option<P> {
    match presets.value_of(key) {
        Some(items) => find_pose(items@, id),
        None => None,
    }
}

/// May several presets be chosen at once in panel `key`? Not where the
/// panel has no metadata.
pub open spec fn multi_allowed(meta: Dict<PresetMetadata>, key: Seq<char>, video_mode: bool) -> bool {
    match meta.value_of(key) {
        Some(m) => policy_allows_multi(multi_policy(m), video_mode),
        None => false,
    }
}

/// The texts without those that read `id`.
pub open spec fn without_text(texts: Seq<Seq<char>>, id: Seq<char>) -> Seq<Seq<char>>
    decreases texts.len(),
{
    if texts.len() == 0 {
        Seq::empty()
    } else {
        let rest = without_text(texts.drop_last(), id);
        if texts.last() == id {
            rest
        } else {
            rest.push(texts.last())
        }
    }
}

/// The ids chosen in a panel, as texts; none where the panel has no
/// selection yet.
pub open spec fn chosen_ids(selections: Dict<SelectionState>, key: Seq<char>) -> Seq<Seq<char>> {
    match selections.value_of(key) {
        Some(sel) => views(sel.selected@),
        None => Seq::empty(),
    }
}

/// The sequence kept in a panel, as texts.
pub open spec fn kept_sequence(selections: Dict<SelectionState>, key: Seq<char>) -> Seq<Seq<char>> {
    match selections.value_of(key) {
        Some(sel) => views(sel.sequence@),
        None => Seq::empty(),
    }
}

/// The ids chosen after a click on `id`: where several may be chosen the
/// click takes `id` out if it is in and puts it last if it is not; else
/// `id` alone is chosen.
pub open spec fn ids_after_click(before: Seq<Seq<char>>, id: Seq<char>, multi: bool) -> Seq<
    Seq<char>,
> {
    if multi {
        if before.contains(id) {
            without_text(before, id)
        } else {
            before.push(id)
        }
    } else {
        seq![id]
    }
}

/// A selection of more than one preset in a panel that lets only one be
/// chosen.
pub open spec fn must_collapse(
    sel: SelectionState,
    key: Seq<char>,
    meta: Dict<PresetMetadata>,
    video_mode: bool,
) -> bool {
    sel.selected@.len() > 1 && match meta.value_of(key) {
        Some(m) => !policy_allows_multi(multi_policy(m), video_mode),
        None => false,
    }
}

/// The selections after those that hold too many were cut down to their
/// first preset.
pub open spec fn collapsed(
    before: Seq<(String, SelectionState)>,
    after: Seq<(String, SelectionState)>,
    meta: Dict<PresetMetadata>,
    video_mode: bool,
) -> bool {
    &&& after.len() == before.len()
    &&& forall|i: int|
        0 <= i < before.len() ==> {
            &&& (#[trigger] after[i]).0 == before[i].0
            &&& after[i].1.sequence == before[i].1.sequence
            &&& after[i].1.selected@ == if must_collapse(
                before[i].1,
                before[i].0@,
                meta,
                video_mode,
            ) {
                before[i].1.selected@.take(1)
            } else {
                before[i].1.selected@
            }
        }
}

/// What the user answers in a dialog.
#[derive(Clone, Copy, Debug, PartialEq, Eq)]
pub enum DialogAction {
    /// Keep the state under the name in the text field.
    Save,
    /// Make the save at this index the live state.
    Load(usize),
    /// Forget the save at this index.
    Delete(usize),
    /// Close the dialog.
    Cancel,
}

/// How a status message is shown.
#[derive(Clone, Copy, Debug, PartialEq, Eq)]
pub enum StatusKind {
    Success,
    Error,
    Neutral,
}

/// The kind of a status message: success where it begins with a check
/// mark, error where it begins with a cross.
pub open spec fn kind_of_status(msg: Seq<char>) -> StatusKind {
    if msg.len() > 0 && msg[0] == '\u{2705}' {
        StatusKind::Success
    } else if msg.len() > 0 && msg[0] == '\u{274c}' {
        StatusKind::Error
    } else {
        StatusKind::Neutral
    }
}

/// The kind of a status message.
pub fn status_kind(msg: &str) -> (r: StatusKind)
    ensures
        r == kind_of_status(msg@),
{
    if msg.unicode_len() == 0 {
        return StatusKind::Neutral;
    }
    let c = msg.get_char(0);
    if c == '\u{2705}' {
        StatusKind::Success
    } else if c == '\u{274c}' {
        StatusKind::Error
    } else {
        StatusKind::Neutral
    }
}

/// How strongly a status message shows that has `millis` milliseconds
/// left, from 0 to 230: in full until its last half second, through
/// which it fades evenly.
pub open spec fn toast_strength(millis: u32) -> int {
    if millis >= 500 {
        230
    } else {
        millis * 230 / 500
    }
}

/// How strongly a status message shows that has `millis` milliseconds
/// left.
pub fn toast_alpha(millis: u32) -> (r: u8)
    ensures
        r == toast_strength(millis),
{
    if millis >= 500 {
        230
    } else {
        let faded: u32 = millis * 230 / 500;
        faded as u8
    }
}

/// The pose that the first preset named `id` carries.
pub fn pose_in<P: Copy>(items: &Vec<PresetItem<P>>, id: &str) -> (r: Option<P>)
    ensures
        r == find_pose(items@, id@),
{
    let mut i: usize = 0;
    assert(items@.skip(0) =~= items@);
    while i < items.len()
        invariant
            i <= items.len(),
            find_pose(items@, id@) == find_pose(items@.skip(i as int), id@),
        decreases items.len() - i,
    {
        proof {
            let rest = items@.skip(i as int);
            assert(rest[0] == items@[i as int]);
            assert(rest.drop_first() =~= items@.skip(i as int + 1));
        }
        if same_text(items[i].id.as_str(), id) {
            return items[i].pose_data;
        }
        i += 1;
    }
    None
}

/// The name of the first preset named `id`.
pub fn name_in<P>(items: &Vec<PresetItem<P>>, id: &str) -> (r: Option<String>)
    ensures
        match r {
            Some(n) => find_name(items@, id@) == Some(n@),
            None => find_name(items@, id@).is_none(),
        },
{
    let mut i: usize = 0;
    assert(items@.skip(0) =~= items@);
    while i < items.len()
        invariant
            i <= items.len(),
            find_name(items@, id@) == find_name(items@.skip(i as int), id@),
        decreases items.len() - i,
    {
        proof {
            let rest = items@.skip(i as int);
            assert(rest[0] == items@[i as int]);
            assert(rest.drop_first() =~= items@.skip(i as int + 1));
        }
        if same_text(items[i].id.as_str(), id) {
            return Some(items[i].name.clone());
        }
        i += 1;
    }
    None
}

/// The texts without those that read `id`.
pub fn remove_text(texts: &Vec<String>, id: &str) -> (r: Vec<String>)
    ensures
        views(r@) == without_text(views(texts@), id@),
{
    let mut r: Vec<String> = Vec::new();
    let mut i: usize = 0;
    assert(views(texts@).take(0) =~= Seq::<Seq<char>>::empty());
    assert(views(r@) =~= Seq::<Seq<char>>::empty());
    while i < texts.len()
        invariant
            i <= texts.len(),
            views(r@) == without_text(views(texts@).take(i as int), id@),
        decreases texts.len() - i,
    {
        proof {
            let pre = views(texts@).take(i as int + 1);
            assert(pre.drop_last() =~= views(texts@).take(i as int));
            assert(pre.last() == texts@[i as int]@);
        }
        if !same_text(texts[i].as_str(), id) {
            let ghost before = views(r@);
            r.push(texts[i].clone());
            assert(views(r@) =~= before.push(texts@[i as int]@));
        }
        i += 1;
    }
    assert(views(texts@).take(texts.len() as int) =~= views(texts@));
    r
}

/// `quoted` after `lead`, between double quotes.
pub open spec fn quoted_after(lead: Seq<char>, quoted: Seq<char>) -> Seq<char> {
    lead + seq!['"'] + quoted + seq!['"']
}

/// A message that names something between double quotes.
fn message_about(lead: &str, quoted: &str) -> (r: String)
    ensures
        r@ == quoted_after(lead@, quoted@),
{
    proof {
        reveal_strlit("\"");
    }
    assert("\""@ =~= seq!['"']);
    let mut r = lead.to_owned();
    r.append("\"");
    r.append(quoted);
    r.append("\"");
    r
}

impl<P: Copy> PromptPuppetApp<P> {
    /// The prompt of the state as it stands, given the description of the
    /// pose as it stands.
    pub open spec fn prompt_now(&self, pose_description: Seq<char>) -> Seq<char> {
        (PromptInput {
            state: self.state,
            libraries: self.libraries,
            settings_meta: self.settings_meta,
            presets: self.preset_items,
            preset_metadata: self.preset_metadata,
            ui_config: self.ui_config,
            video_mode: self.state.video_mode,
            pose_is_manual: self.pose_is_manual,
            pose_description,
        }).prompt_text()
    }

    /// Shows `msg` as the status message for `millis` milliseconds.
    pub fn set_status(&mut self, msg: &str, millis: u32)
        ensures
            final(self).status_message@ == msg@,
            final(self).status_millis == millis,
            *final(self) == (PromptPuppetApp {
                status_message: final(self).status_message,
                status_millis: millis,
                ..*old(self)
            }),
    {
        self.status_message = msg.to_owned();
        self.status_millis = millis;
    }

    /// Lets `elapsed` milliseconds pass for the status message: it shows
    /// for that much less, and is cleared when its time is up. Says
    /// whether a message was showing, so that the caller draws again.
    pub fn tick_status(&mut self, elapsed: u32) -> (showing: bool)
        ensures
            showing == (old(self).status_millis > 0),
            !showing ==> *final(self) == *old(self),
            showing ==> {
                &&& final(self).status_millis == (if elapsed >= old(self).status_millis {
                    0u32
                } else {
                    (old(self).status_millis - elapsed) as u32
                })
                &&& final(self).status_message@ == (if elapsed >= old(self).status_millis {
                    Seq::<char>::empty()
                } else {
                    old(self).status_message@
                })
                &&& final(self).state == old(self).state
                &&& final(self).saves == old(self).saves
                &&& final(self).generated_prompt == old(self).generated_prompt
                &&& final(self).pose_is_manual == old(self).pose_is_manual
            },
    {
        if self.status_millis == 0 {
            return false;
        }
        if elapsed >= self.status_millis {
            self.status_millis = 0;
            self.status_message = String::new();
        } else {
            self.status_millis = self.status_millis - elapsed;
        }
        true
    }

    /// Puts the pose back to the one the application started with.
    pub fn reset_pose_to_default(&mut self)
        ensures
            final(self).state.pose == old(self).default_pose,
            final(self).state.options == old(self).state.options,
            final(self).state.settings == old(self).state.settings,
            final(self).state.selections == old(self).state.selections,
            final(self).state.custom_data == old(self).state.custom_data,
            final(self).state.video_mode == old(self).state.video_mode,
            final(self).default_pose == old(self).default_pose,
            final(self).saves == old(self).saves,
            final(self).status_message@ == "\u{2705} Reset to default pose"@,
            final(self).status_millis == STATUS_SHORT,
    {
        self.state.pose = self.default_pose;
        self.set_status("\u{2705} Reset to default pose", STATUS_SHORT);
    }

    /// Notes that the pose was moved by hand: from now on the prompt
    /// describes the pose as it stands.
    pub fn mark_pose_edited(&mut self)
        ensures
            *final(self) == (PromptPuppetApp { pose_is_manual: true, ..*old(self) }),
    {
        self.pose_is_manual = true;
    }

    /// Writes the prompt of the state as it stands.
    pub fn update_prompt(&mut self, pose_description: &str)
        ensures
            final(self).generated_prompt@ == old(self).prompt_now(pose_description@),
            *final(self) == (PromptPuppetApp {
                generated_prompt: final(self).generated_prompt,
                ..*old(self)
            }),
    {
        let text = PromptGenerator::new(
            &self.state,
            &self.libraries,
            &self.settings_meta,
            &self.preset_items,
            &self.preset_metadata,
            &self.ui_config,
            self.pose_is_manual,
            pose_description,
        ).generate();
        self.generated_prompt = text;
    }
}

/// Cuts every selection that holds more presets than its panel lets be
/// chosen down to its first preset.
pub fn collapse_selections(
    selections: &mut Dict<SelectionState>,
    meta: &Dict<PresetMetadata>,
    video_mode: bool,
)
    ensures
        collapsed(old(selections).entries@, final(selections).entries@, *meta, video_mode),
{
    let mut i: usize = 0;
    while i < selections.entries.len()
        invariant
            i <= selections.entries.len(),
            selections.entries@.len() == old(selections).entries@.len(),
            forall|j: int|
                i <= j < selections.entries@.len() ==> selections.entries@[j] == old(selections).entries@[j],
            forall|j: int|
                0 <= j < i ==> {
                    &&& (#[trigger] selections.entries@[j]).0 == old(selections).entries@[j].0
                    &&& selections.entries@[j].1.sequence == old(selections).entries@[j].1.sequence
                    &&& selections.entries@[j].1.selected@ == if must_collapse(
                        old(selections).entries@[j].1,
                        old(selections).entries@[j].0@,
                        *meta,
                        video_mode,
                    ) {
                        old(selections).entries@[j].1.selected@.take(1)
                    } else {
                        old(selections).entries@[j].1.selected@
                    }
                },
        decreases selections.entries.len() - i,
    {
        let too_many = selections.entries[i].1.selected.len() > 1 && match meta.get(
            selections.entries[i].0.as_str(),
        ) {
            Some(m) => !m.allow_multi(video_mode),
            None => false,
        };
        if too_many {
            let ghost before = selections.entries@;
            let entry = &mut selections.entries[i];
            entry.1.selected.truncate(1);
            assert(selections.entries@[i as int].1.selected@ =~= before[i as int].1.selected@.take(
                1,
            ));
            assert forall|j: int| 0 <= j < selections.entries@.len() && j != i implies selections.entries@[j]
                == before[j] by {}
        }
        i += 1;
    }
}

impl<P: Copy> PromptPuppetApp<P> {
    /// `after` is `before` with its live state kept as a new last save.
    pub open spec fn saved_from(before: Self, after: Self, name: Seq<char>, stamp: Seq<char>) -> bool {
        &&& after.saves@.len() == before.saves@.len() + 1
        &&& after.saves@.drop_last() == before.saves@
        &&& after.saves@.last().name@ == name
        &&& after.saves@.last().timestamp@ == stamp
        &&& after.saves@.last().state@ == before.state@
        &&& after.state == before.state
    }

    /// `after` is `before` with the save at `idx` as its live state.
    pub open spec fn loaded_from(before: Self, after: Self, idx: int) -> bool {
        &&& 0 <= idx < before.saves@.len()
        &&& after.state@ == before.saves@[idx].state@
        &&& after.saves == before.saves
    }

    /// Keeps the live state under `name`, as a new last save.
    pub fn do_save(&mut self, name: String, timestamp: String)
        ensures
            Self::saved_from(*old(self), *final(self), name@, timestamp@),
            final(self).pose_is_manual == old(self).pose_is_manual,
            final(self).default_pose == old(self).default_pose,
            final(self).status_message@ == quoted_after("\u{2705} Saved "@, name@),
            final(self).status_millis == STATUS_LONG,
            *final(self) == (PromptPuppetApp {
                saves: final(self).saves,
                status_message: final(self).status_message,
                status_millis: final(self).status_millis,
                ..*old(self)
            }),
    {
        let ghost before = self.saves@;
        let msg = message_about("\u{2705} Saved ", name.as_str());
        let saved = SavedState { name, timestamp, state: self.state.duplicate() };
        self.saves.push(saved);
        assert(self.saves@.drop_last() =~= before);
        self.set_status(msg.as_str(), STATUS_LONG);
    }

    /// Makes the save at `idx` the live state and writes its prompt. An
    /// index past the saves changes nothing.
    pub fn do_load(&mut self, idx: usize, pose_description: &str)
        ensures
            idx < old(self).saves@.len() ==> {
                &&& Self::loaded_from(*old(self), *final(self), idx as int)
                &&& final(self).generated_prompt@ == final(self).prompt_now(pose_description@)
                &&& final(self).status_message@ == quoted_after(
                    "\u{2705} Loaded "@,
                    old(self).saves@[idx as int].name@,
                )
                &&& final(self).status_millis == STATUS_LONG
                &&& *final(self) == (PromptPuppetApp {
                    state: final(self).state,
                    generated_prompt: final(self).generated_prompt,
                    status_message: final(self).status_message,
                    status_millis: final(self).status_millis,
                    ..*old(self)
                })
            },
            idx >= old(self).saves@.len() ==> *final(self) == *old(self),
    {
        if idx < self.saves.len() {
            let msg = message_about("\u{2705} Loaded ", self.saves[idx].name.as_str());
            let state = self.saves[idx].state.duplicate();
            self.state = state;
            self.update_prompt(pose_description);
            self.set_status(msg.as_str(), STATUS_LONG);
        }
    }

    /// Forgets the save at `idx`. An index past the saves changes nothing.
    pub fn do_delete(&mut self, idx: usize)
        ensures
            idx < old(self).saves@.len() ==> {
                &&& final(self).saves@ == old(self).saves@.remove(idx as int)
                &&& final(self).state == old(self).state
                &&& final(self).status_message@ == quoted_after(
                    "\u{1f5d1} Deleted "@,
                    old(self).saves@[idx as int].name@,
                )
                &&& final(self).status_millis == STATUS_SHORT
                &&& *final(self) == (PromptPuppetApp {
                    saves: final(self).saves,
                    status_message: final(self).status_message,
                    status_millis: final(self).status_millis,
                    ..*old(self)
                })
            },
            idx >= old(self).saves@.len() ==> *final(self) == *old(self),
    {
        if idx < self.saves.len() {
            let gone = self.saves.remove(idx);
            let msg = message_about("\u{1f5d1} Deleted ", gone.name.as_str());
            self.set_status(msg.as_str(), STATUS_SHORT);
        }
    }

    /// Cuts every selection that holds more presets than its panel now
    /// lets be chosen down to its first preset.
    pub fn clear_invalid_multiselections(&mut self)
        ensures
            collapsed(
                old(self).state.selections.entries@,
                final(self).state.selections.entries@,
                old(self).preset_metadata,
                old(self).state.video_mode,
            ),
            final(self).state.options == old(self).state.options,
            final(self).state.settings == old(self).state.settings,
            final(self).state.pose == old(self).state.pose,
            final(self).state.video_mode == old(self).state.video_mode,
            final(self).state.custom_data == old(self).state.custom_data,
            final(self).preset_metadata == old(self).preset_metadata,
            final(self).saves == old(self).saves,
    {
        let video_mode = self.state.video_mode;
        collapse_selections(&mut self.state.selections, &self.preset_metadata, video_mode);
    }

    /// Turns video mode on or off, and cuts down the selections that the
    /// new mode does not let stand.
    pub fn set_video_mode(&mut self, on: bool)
        ensures
            final(self).state.video_mode == on,
            collapsed(
                old(self).state.selections.entries@,
                final(self).state.selections.entries@,
                old(self).preset_metadata,
                on,
            ),
            final(self).state.options == old(self).state.options,
            final(self).state.settings == old(self).state.settings,
            final(self).state.pose == old(self).state.pose,
            final(self).state.custom_data == old(self).state.custom_data,
            final(self).saves == old(self).saves,
    {
        self.state.video_mode = on;
        self.clear_invalid_multiselections();
    }

    /// Takes the pose of the preset `id` of panel `key` as the live pose,
    /// where that preset carries one, and notes that the pose is no longer
    /// one made by hand.
    pub fn update_state_from_selection(&mut self, key: &str, id: &str)
        ensures
            match pose_of_choice(old(self).preset_items, key@, id@) {
                Some(p) => final(self).state.pose == p && !final(self).pose_is_manual,
                None => final(self).state.pose == old(self).state.pose && final(self).pose_is_manual == old(self).pose_is_manual,
            },
            final(self).state.options == old(self).state.options,
            final(self).state.settings == old(self).state.settings,
            final(self).state.selections == old(self).state.selections,
            final(self).state.video_mode == old(self).state.video_mode,
            final(self).state.custom_data == old(self).state.custom_data,
            final(self).preset_items == old(self).preset_items,
            final(self).preset_metadata == old(self).preset_metadata,
            final(self).saves == old(self).saves,
            final(self).status_message == old(self).status_message,
            final(self).status_millis == old(self).status_millis,
    {
        let found = match self.preset_items.get(key) {
            Some(items) => pose_in(items, id),
            None => None,
        };
        match found {
            Some(p) => {
                self.state.pose = p;
                self.pose_is_manual = false;
            },
            None => {},
        }
    }
}

/// The selection of panel `key` after a click on `id`: where several may
/// be chosen the click takes `id` out if it is in and puts it last if it
/// is not; else `id` alone is chosen.
pub fn click_selection(selections: &mut Dict<SelectionState>, key: &str, id: &str, multi: bool)
    ensures
        chosen_ids(*final(selections), key@) == ids_after_click(
            chosen_ids(*old(selections), key@),
            id@,
            multi,
        ),
        kept_sequence(*final(selections), key@) == kept_sequence(*old(selections), key@),
        forall|k: Seq<char>|
            k != key@ ==> final(selections).value_of(k) == old(selections).value_of(k),
{
    let ghost before = chosen_ids(*selections, key@);
    let mut selected: Vec<String> = Vec::new();
    let mut sequence: Vec<String> = Vec::new();
    match selections.get(key) {
        Some(sel) => {
            sequence = duplicate_texts(&sel.sequence);
            assert(before == views(sel.selected@));
            if multi {
                if contains_text(&sel.selected, id) {
                    proof {
                        let w = choose|i: int|
                            0 <= i < sel.selected@.len() && sel.selected@[i]@ == id@;
                        assert(views(sel.selected@)[w] == id@);
                    }
                    selected = remove_text(&sel.selected, id);
                } else {
                    assert(!views(sel.selected@).contains(id@)) by {
                        if views(sel.selected@).contains(id@) {
                            let w = choose|i: int|
                                0 <= i < views(sel.selected@).len() && views(sel.selected@)[i]
                                    == id@;
                            assert(sel.selected@[w]@ == id@);
                        }
                    }
                    selected = duplicate_texts(&sel.selected);
                    selected.push(id.to_owned());
                    assert(views(selected@) =~= before.push(id@));
                }
            } else {
                selected.push(id.to_owned());
                assert(views(selected@) =~= seq![id@]);
            }
        },
        None => {
            selected.push(id.to_owned());
            assert(views(selected@) =~= seq![id@]);
            assert(before.push(id@) =~= seq![id@]);
            assert(!before.contains(id@));
            assert(views(sequence@) =~= Seq::<Seq<char>>::empty());
        },
    }
    assert(views(selected@) == ids_after_click(before, id@, multi));
    assert(views(sequence@) == kept_sequence(*old(selections), key@));
    let fresh = SelectionState { selected, sequence };
    let ghost put = fresh;
    selections.insert(key.to_owned(), fresh);
    assert(selections@.dom().contains(key@));
    assert(selections@[key@] == put);
    assert(selections.value_of(key@) == Some(put));
    assert forall|k: Seq<char>| k != key@ implies selections.value_of(k) == old(selections).value_of(k) by {
        assert(selections@.dom().contains(k) == old(selections)@.dom().contains(k));
        if selections@.dom().contains(k) {
            assert(selections@[k] == old(selections)@[k]);
        }
    }
    assert(selections@.dom().contains(key@));
}

/// A check mark, a space and `name`.
pub open spec fn chosen_message(name: Seq<char>) -> Seq<char> {
    "\u{2705} "@ + name
}

/// The name of the preset `id` of panel `key`, where there is one.
pub open spec fn name_of_choice<P>(
    presets: Dict<Vec<PresetItem<P>>>,
    key: Seq<char>,
    id: Seq<char>,
) -> Option<Seq<char>> {
    match presets.value_of(key) {
        Some(items) => find_name(items@, id),
        None => None,
    }
}

impl<P: Copy> PromptPuppetApp<P> {
    /// A click on the preset `id` in panel `key`. Where the panel lets
    /// several be chosen the click puts `id` in or takes it out. Else `id`
    /// becomes the one chosen preset, its pose, if it carries one, becomes
    /// the live pose, and the status names it.
    pub fn handle_selection(&mut self, key: &str, id: &str) -> (changed: bool)
        ensures
            changed,
            ({
                let multi = multi_allowed(
                    old(self).preset_metadata,
                    key@,
                    old(self).state.video_mode,
                );
                let pose = pose_of_choice(old(self).preset_items, key@, id@);
                &&& chosen_ids(final(self).state.selections, key@) == ids_after_click(
                    chosen_ids(old(self).state.selections, key@),
                    id@,
                    multi,
                )
                &&& kept_sequence(final(self).state.selections, key@) == kept_sequence(
                    old(self).state.selections,
                    key@,
                )
                &&& forall|k: Seq<char>|
                    k != key@ ==> final(self).state.selections.value_of(k) == old(self).state.selections.value_of(k)
                &&& if !multi && pose.is_some() {
                    final(self).state.pose == pose.unwrap() && !final(self).pose_is_manual
                } else {
                    final(self).state.pose == old(self).state.pose && final(self).pose_is_manual
                        == old(self).pose_is_manual
                }
                &&& match name_of_choice(old(self).preset_items, key@, id@) {
                    Some(n) if !multi => final(self).status_message@ == chosen_message(n)
                        && final(self).status_millis == STATUS_SHORT,
                    _ => final(self).status_message == old(self).status_message
                        && final(self).status_millis == old(self).status_millis,
                }
            }),
            final(self).state.options == old(self).state.options,
            final(self).state.settings == old(self).state.settings,
            final(self).state.video_mode == old(self).state.video_mode,
            final(self).state.custom_data == old(self).state.custom_data,
            final(self).preset_items == old(self).preset_items,
            final(self).preset_metadata == old(self).preset_metadata,
            final(self).saves == old(self).saves,
    {
        let multi = match self.preset_metadata.get(key) {
            Some(m) => m.allow_multi(self.state.video_mode),
            None => false,
        };
        click_selection(&mut self.state.selections, key, id, multi);
        if !multi {
            self.update_state_from_selection(key, id);
            let name = match self.preset_items.get(key) {
                Some(items) => name_in(items, id),
                None => None,
            };
            match name {
                Some(n) => {
                    let mut msg = "\u{2705} ".to_owned();
                    msg.append(n.as_str());
                    self.set_status(msg.as_str(), STATUS_SHORT);
                },
                None => {},
            }
        }
        true
    }

    /// Keeping the live state and loading it back later brings the state
    /// back as it was kept, whatever was done to the live state in between.
    pub proof fn lemma_save_load_round_trip(
        start: Self,
        kept: Self,
        changed: Self,
        back: Self,
        name: Seq<char>,
        stamp: Seq<char>,
    )
        requires
            Self::saved_from(start, kept, name, stamp),
            changed.saves == kept.saves,
            Self::loaded_from(changed, back, kept.saves@.len() - 1),
        ensures
            back.state@ == start.state@,
    {
    }

    /// A selection of several presets under a policy that lets several be
    /// chosen only outside video mode is cut down to its first preset when
    /// video mode is turned on.
    pub proof fn lemma_video_mode_collapses(before: Self, after: Self, i: int)
        requires
            collapsed(
                before.state.selections.entries@,
                after.state.selections.entries@,
                before.preset_metadata,
                true,
            ),
            0 <= i < before.state.selections.entries@.len(),
            before.state.selections.entries@[i].1.selected@.len() >= 2,
            before.preset_metadata.value_of(before.state.selections.entries@[i].0@) matches Some(m)
                && multi_policy(m) == "image"@,
        ensures
            after.state.selections.entries@[i].1.selected@ == seq![
                before.state.selections.entries@[i].1.selected@[0],
            ],
    {
        reveal_strlit("image");
        reveal_strlit("always");
        reveal_strlit("video");
        let m = before.preset_metadata.value_of(before.state.selections.entries@[i].0@).unwrap();
        assert(multi_policy(m) != crate::state::always_word()) by {
            assert("image"@[0] == 'i');
        }
        assert(multi_policy(m) != crate::state::video_word()) by {
            assert("image"@[0] == 'i');
        }
        assert(multi_policy(m) =~= crate::state::image_word());
        assert(after.state.selections.entries@[i].0 == before.state.selections.entries@[i].0);
        assert(before.state.selections.entries@[i].1.selected@.take(1) =~= seq![
            before.state.selections.entries@[i].1.selected@[0],
        ]);
    }
}

/// Takes every entry out of the sequence of every panel.
pub fn empty_sequences(selections: &mut Dict<SelectionState>)
    ensures
        final(selections).entries@.len() == old(selections).entries@.len(),
        forall|i: int|
            0 <= i < old(selections).entries@.len() ==> {
                &&& (#[trigger] final(selections).entries@[i]).0 == old(selections).entries@[i].0
                &&& final(selections).entries@[i].1.selected == old(selections).entries@[i].1.selected
                &&& final(selections).entries@[i].1.sequence@.len() == 0
            },
{
    let mut i: usize = 0;
    while i < selections.entries.len()
        invariant
            i <= selections.entries.len(),
            selections.entries@.len() == old(selections).entries@.len(),
            forall|j: int|
                i <= j < selections.entries@.len() ==> selections.entries@[j] == old(selections).entries@[j],
            forall|j: int|
                0 <= j < i ==> {
                    &&& (#[trigger] selections.entries@[j]).0 == old(selections).entries@[j].0
                    &&& selections.entries@[j].1.selected == old(selections).entries@[j].1.selected
                    &&& selections.entries@[j].1.sequence@.len() == 0
                },
        decreases selections.entries.len() - i,
    {
        let ghost before = selections.entries@;
        let entry = &mut selections.entries[i];
        entry.1.sequence.truncate(0);
        assert forall|j: int| 0 <= j < selections.entries@.len() && j != i implies selections.entries@[j]
            == before[j] by {}
        i += 1;
    }
}

impl<P: Copy> PromptPuppetApp<P> {
    /// Takes the preset `id` out of the selection of panel `key`.
    pub fn deselect(&mut self, key: &str, id: &str) -> (changed: bool)
        ensures
            changed == has_key(old(self).state.selections.entries@, key@),
            chosen_ids(final(self).state.selections, key@) == without_text(
                chosen_ids(old(self).state.selections, key@),
                id@,
            ),
            kept_sequence(final(self).state.selections, key@) == kept_sequence(
                old(self).state.selections,
                key@,
            ),
            forall|k: Seq<char>|
                k != key@ ==> final(self).state.selections.value_of(k) == old(self).state.selections.value_of(k),
            final(self).state.options == old(self).state.options,
            final(self).state.settings == old(self).state.settings,
            final(self).state.pose == old(self).state.pose,
            final(self).state.video_mode == old(self).state.video_mode,
            final(self).state.custom_data == old(self).state.custom_data,
            final(self).saves == old(self).saves,
            final(self).pose_is_manual == old(self).pose_is_manual,
    {
        let fresh = match self.state.selections.get(key) {
            Some(sel) => Some(
                SelectionState {
                    selected: remove_text(&sel.selected, id),
                    sequence: duplicate_texts(&sel.sequence),
                },
            ),
            None => None,
        };
        match fresh {
            Some(sel) => {
                let ghost put = sel;
                let ghost before = self.state.selections;
                self.state.selections.insert(key.to_owned(), sel);
                assert(self.state.selections@[key@] == put);
                assert(self.state.selections.value_of(key@) == Some(put));
                assert forall|k: Seq<char>| k != key@ implies self.state.selections.value_of(k)
                    == before.value_of(k) by {
                    assert(self.state.selections@.dom().contains(k) == before@.dom().contains(k));
                    if before@.dom().contains(k) {
                        assert(self.state.selections@[k] == before@[k]);
                    }
                }
                true
            },
            None => {
                assert(without_text(Seq::<Seq<char>>::empty(), id@) =~= Seq::<Seq<char>>::empty());
                false
            },
        }
    }

    /// Takes the entry at `index` out of the sequence of panel `key`. A
    /// panel without a selection, or an index past its sequence, changes
    /// nothing.
    pub fn remove_from_sequence(&mut self, key: &str, index: usize) -> (changed: bool)
        ensures
            changed == (index < kept_sequence(old(self).state.selections, key@).len()),
            changed ==> kept_sequence(final(self).state.selections, key@) == kept_sequence(
                old(self).state.selections,
                key@,
            ).remove(index as int),
            !changed ==> final(self).state.selections == old(self).state.selections,
            chosen_ids(final(self).state.selections, key@) == chosen_ids(
                old(self).state.selections,
                key@,
            ),
            forall|k: Seq<char>|
                k != key@ ==> final(self).state.selections.value_of(k) == old(self).state.selections.value_of(k),
            final(self).state.options == old(self).state.options,
            final(self).state.settings == old(self).state.settings,
            final(self).state.pose == old(self).state.pose,
            final(self).state.video_mode == old(self).state.video_mode,
            final(self).state.custom_data == old(self).state.custom_data,
            final(self).saves == old(self).saves,
    {
        let fresh = match self.state.selections.get(key) {
            Some(sel) => {
                if index < sel.sequence.len() {
                    let mut sequence = duplicate_texts(&sel.sequence);
                    let gone = sequence.remove(index);
                    assert(views(sequence@) =~= views(sel.sequence@).remove(index as int));
                    Some(SelectionState { selected: duplicate_texts(&sel.selected), sequence })
                } else {
                    None
                }
            },
            None => None,
        };
        match fresh {
            Some(sel) => {
                let ghost put = sel;
                let ghost before = self.state.selections;
                self.state.selections.insert(key.to_owned(), sel);
                assert(self.state.selections@[key@] == put);
                assert(self.state.selections.value_of(key@) == Some(put));
                assert forall|k: Seq<char>| k != key@ implies self.state.selections.value_of(k)
                    == before.value_of(k) by {
                    assert(self.state.selections@.dom().contains(k) == before@.dom().contains(k));
                    if before@.dom().contains(k) {
                        assert(self.state.selections@[k] == before@[k]);
                    }
                }
                true
            },
            None => false,
        }
    }

    /// Empties the sequence of every panel.
    pub fn clear_sequences(&mut self) -> (changed: bool)
        ensures
            changed,
            final(self).state.selections.entries@.len() == old(self).state.selections.entries@.len(),
            forall|i: int|
                0 <= i < old(self).state.selections.entries@.len() ==> {
                    &&& (#[trigger] final(self).state.selections.entries@[i]).0 == old(self).state.selections.entries@[i].0
                    &&& final(self).state.selections.entries@[i].1.selected == old(self).state.selections.entries@[i].1.selected
                    &&& final(self).state.selections.entries@[i].1.sequence@.len() == 0
                },
            final(self).state.options == old(self).state.options,
            final(self).state.settings == old(self).state.settings,
            final(self).state.pose == old(self).state.pose,
            final(self).state.video_mode == old(self).state.video_mode,
            final(self).state.custom_data == old(self).state.custom_data,
            final(self).saves == old(self).saves,
    {
        empty_sequences(&mut self.state.selections);
        true
    }

    /// Is the box for a text of the user's own shown in panel `key`? It is
    /// where the panel allows such texts and the first chosen preset is one
    /// that takes them.
    pub open spec fn custom_shown(&self, key: Seq<char>) -> bool {
        match (
            self.preset_metadata.value_of(key),
            self.state.selections.value_of(key),
            self.preset_items.value_of(key),
        ) {
            (Some(m), Some(sel), Some(items)) => {
                &&& m.allow_custom == Some(true)
                &&& sel.selected@.len() > 0
                &&& exists|i: int|
                    0 <= i < items@.len() && items@[i].id@ == sel.selected@[0]@
                        && items@[i].allow_custom
            },
            _ => false,
        }
    }

    /// Is the box for a text of the user's own shown in panel `key`?
    #[verifier::loop_isolation(false)]
    pub fn custom_text_shown(&self, key: &str) -> (r: bool)
        ensures
            r == self.custom_shown(key@),
    {
        let allowed = match self.preset_metadata.get(key) {
            Some(m) => match m.allow_custom {
                Some(b) => b,
                None => false,
            },
            None => false,
        };
        if !allowed {
            return false;
        }
        let sel = match self.state.selections.get(key) {
            Some(sel) => sel,
            None => {
                return false;
            },
        };
        if sel.selected.len() == 0 {
            return false;
        }
        let items = match self.preset_items.get(key) {
            Some(items) => items,
            None => {
                return false;
            },
        };
        let id = sel.selected[0].as_str();
        let mut i: usize = 0;
        while i < items.len()
            invariant
                i <= items.len(),
                id@ == sel.selected@[0]@,
                forall|j: int|
                    0 <= j < i ==> !(items@[j].id@ == sel.selected@[0]@ && items@[j].allow_custom),
            decreases items.len() - i,
        {
            if same_text(items[i].id.as_str(), id) && items[i].allow_custom {
                assert(items@[i as int].id@ == sel.selected@[0]@ && items@[i as int].allow_custom);
                return true;
            }
            i += 1;
        }
        false
    }

    /// Turns the theme over, dark to light or light to dark.
    pub fn toggle_theme(&mut self)
        ensures
            *final(self) == (PromptPuppetApp { dark_mode: !old(self).dark_mode, ..*old(self) }),
    {
        self.dark_mode = !self.dark_mode;
    }

    /// The answer to the dialog that asks for the name of a state to keep:
    /// the state is kept under the name without the white space at its
    /// ends, and not at all where nothing is left of the name.
    pub fn confirm_save(&mut self, input: &str, timestamp: String) -> (saved: bool)
        ensures
            saved == (crate::semantics::trimmed(input@).len() > 0),
            saved ==> Self::saved_from(
                *old(self),
                *final(self),
                crate::semantics::trimmed(input@),
                timestamp@,
            ),
            saved ==> *final(self) == (PromptPuppetApp {
                saves: final(self).saves,
                status_message: final(self).status_message,
                status_millis: final(self).status_millis,
                ..*old(self)
            }),
            !saved ==> *final(self) == *old(self),
    {
        let name = crate::semantics::trim(input);
        if name.as_str().unicode_len() == 0 {
            false
        } else {
            self.do_save(name, timestamp);
            true
        }
    }

    /// The answer to the dialog that keeps a state, whose text field holds
    /// `text`. On `Save` the state is kept under the text without the
    /// white space at its ends and the dialog closes; where nothing is
    /// left of the text the dialog stays open. Any other answer closes the
    /// dialog; without an answer it stays open. Says whether the saves
    /// changed, so that the caller writes them out.
    pub fn answer_save_dialog(
        &mut self,
        text: String,
        answer: Option<DialogAction>,
        timestamp: String,
    ) -> (write: bool)
        ensures
            write == (answer == Some(DialogAction::Save) && crate::semantics::trimmed(text@).len()
                > 0),
            write ==> Self::saved_from(
                *old(self),
                *final(self),
                crate::semantics::trimmed(text@),
                timestamp@,
            ) && *final(self) == (PromptPuppetApp {
                saves: final(self).saves,
                status_message: final(self).status_message,
                status_millis: final(self).status_millis,
                save_dialog: None,
                ..*old(self)
            }),
            !write ==> *final(self) == (PromptPuppetApp {
                save_dialog: if answer.is_none() || answer == Some(DialogAction::Save) {
                    Some(text)
                } else {
                    None
                },
                ..*old(self)
            }),
    {
        match answer {
            Some(DialogAction::Save) => {
                self.save_dialog = None;
                if self.confirm_save(text.as_str(), timestamp) {
                    true
                } else {
                    self.save_dialog = Some(text);
                    false
                }
            },
            Some(_) => {
                self.save_dialog = None;
                false
            },
            None => {
                self.save_dialog = Some(text);
                false
            },
        }
    }

    /// The answer to the dialog that lists the saves. `Load` makes a save
    /// the live state and closes the dialog, `Delete` forgets a save,
    /// `Cancel` closes the dialog. Says whether the saves changed, so that
    /// the caller writes them out.
    pub fn answer_load_dialog(&mut self, answer: DialogAction, pose_description: &str) -> (write:
        bool)
        ensures
            write == match answer {
                DialogAction::Delete(i) => i < old(self).saves@.len(),
                _ => false,
            },
            match answer {
                DialogAction::Load(i) => if i < old(self).saves@.len() {
                    &&& Self::loaded_from(*old(self), *final(self), i as int)
                    &&& final(self).generated_prompt@ == final(self).prompt_now(pose_description@)
                    &&& *final(self) == (PromptPuppetApp {
                        state: final(self).state,
                        generated_prompt: final(self).generated_prompt,
                        status_message: final(self).status_message,
                        status_millis: final(self).status_millis,
                        load_dialog: false,
                        ..*old(self)
                    })
                } else {
                    *final(self) == (PromptPuppetApp { load_dialog: false, ..*old(self) })
                },
                DialogAction::Delete(i) => if i < old(self).saves@.len() {
                    &&& final(self).saves@ == old(self).saves@.remove(i as int)
                    &&& *final(self) == (PromptPuppetApp {
                        saves: final(self).saves,
                        status_message: final(self).status_message,
                        status_millis: final(self).status_millis,
                        ..*old(self)
                    })
                } else {
                    *final(self) == *old(self)
                },
                DialogAction::Cancel => *final(self) == (PromptPuppetApp {
                    load_dialog: false,
                    ..*old(self)
                }),
                DialogAction::Save => *final(self) == *old(self),
            },
    {
        match answer {
            DialogAction::Load(i) => {
                self.do_load(i, pose_description);
                self.load_dialog = false;
                false
            },
            DialogAction::Delete(i) => {
                let found = i < self.saves.len();
                self.do_delete(i);
                found
            },
            DialogAction::Cancel => {
                self.load_dialog = false;
                false
            },
            DialogAction::Save => false,
        }
    }

    /// Once the pose was edited by hand, the prompt speaks of the pose as
    /// it stands and of no preset of the poses.
    pub proof fn lemma_edited_pose_is_described(input: PromptInput<P>)
        requires
            input.pose_is_manual,
        ensures
            input.selected_texts("poses"@) == if input.pose_description.len() == 0 {
                Seq::<Seq<char>>::empty()
            } else {
                seq![input.pose_description]
            },
    {
    }

    /// While the pose is that of a preset, the prompt speaks of the poses
    /// that are chosen.
    pub proof fn lemma_preset_pose_is_quoted(input: PromptInput<P>)
        requires
            !input.pose_is_manual,
            input.state.selections.value_of("poses"@).is_some(),
            input.presets.value_of("poses"@).is_some(),
        ensures
            input.selected_texts("poses"@) == crate::prompt::chosen_prompts(
                input.state.selections.value_of("poses"@).unwrap().selected@,
                input.presets.value_of("poses"@).unwrap()@,
            ),
    {
    }

    /// The prompt is a function of what it is made from: made twice from
    /// the same state, it is the same text.
    pub proof fn lemma_prompt_is_determined(input: PromptInput<P>, first: String, second: String)
        requires
            first@ == input.prompt_text(),
            second@ == input.prompt_text(),
        ensures
            first@ == second@,
    {
    }
}

} // verus!
