//! The prompt: one walk over the panels, in their order, that writes down
//! what is chosen in each. The same state always gives the same text.

use vstd::prelude::*;
use vstd::string::*;
use crate::dict::Dict;
use crate::json::{shown_text, Scalar};
use crate::library::{ComponentConfig, PanelConfig, SettingEntry, SettingsLibrary, UiConfig};
use crate::options::{category_shown, field_text, OptionCategory, OptionsData, OptionsLibrary};
use crate::state::{AppState, PresetItem, PresetMetadata};
use crate::text::{chars_of, join, joined, same_text, trim_end_matches, views, without_suffix};

verus! {

/// A value that is left out of the prompt: the empty text and `None`.
pub open spec fn skip_text(v: Seq<char>) -> bool {
    v.len() == 0 || v == "None"@
}

/// Does the policy let values into the prompt? `video` only in video
/// mode, `image` only outside it, any other word always.
pub open spec fn included(policy: Seq<char>, video_mode: bool) -> bool {
    if policy == "video"@ {
        video_mode
    } else if policy == "image"@ {
        !video_mode
    } else {
        true
    }
}

/// A block of the prompt: the parts with a comma and a space between them
/// and a blank line after them; nothing where there are no parts.
pub open spec fn emitted(parts: Seq<Seq<char>>) -> Seq<char> {
    if parts.len() == 0 {
        Seq::empty()
    } else {
        joined(parts, ", "@) + "\n\n"@
    }
}

/// The name under which the data of `source` is kept: `source` without its
/// `.json` ending.
pub open spec fn key_of(source: Seq<char>) -> Seq<char> {
    without_suffix(source, ".json"@)
}

/// The group of a category.
pub open spec fn group_name(cat: OptionCategory) -> Option<Seq<char>> {
    match cat.group {
        Some(g) => Some(g@),
        None => None,
    }
}

/// Does the category add its value to the prompt? It must be shown, and
/// its value must not be one that is left out.
pub open spec fn contributes(cat: OptionCategory, values: Map<Seq<char>, String>) -> bool {
    category_shown(cat, values) && !skip_text(field_text(values, cat.id@))
}

/// The values of the categories of one group, in the order of the
/// categories.
pub open spec fn group_values(
    cats: Seq<OptionCategory>,
    values: Map<Seq<char>, String>,
    group: Option<Seq<char>>,
) -> Seq<Seq<char>>
    decreases cats.len(),
{
    if cats.len() == 0 {
        Seq::empty()
    } else {
        let rest = group_values(cats.drop_last(), values, group);
        let cat = cats.last();
        if group_name(cat) == group && contributes(cat, values) {
            rest.push(field_text(values, cat.id@))
        } else {
            rest
        }
    }
}

/// The groups that come first, in this order.
pub open spec fn priority_groups() -> Seq<Seq<char>> {
    seq!["Basic Info"@, "Physical Features"@, "Facial Features"@, "Body Details"@]
}

/// Is `g` one of the groups that come first?
pub open spec fn is_priority_group(g: Seq<char>) -> bool {
    g == "Basic Info"@ || g == "Physical Features"@ || g == "Facial Features"@ || g
        == "Body Details"@
}

/// `a` comes before `b` in the order of the dictionary, from position
/// `from` on: at the first place where they differ `a` has the smaller
/// character, or `a` ends there and `b` goes on.
pub open spec fn lex_lt(a: Seq<char>, b: Seq<char>, from: int) -> bool
    decreases a.len() - from,
{
    if from < 0 || from >= b.len() {
        false
    } else if from >= a.len() {
        true
    } else if a[from] == b[from] {
        lex_lt(a, b, from + 1)
    } else {
        a[from] < b[from]
    }
}

/// `a` comes before `b` in the order of the dictionary.
pub open spec fn text_lt(a: Seq<char>, b: Seq<char>) -> bool {
    lex_lt(a, b, 0)
}

/// `g` put in its place in an ascending list; a `g` that is already there
/// is not put in again.
pub open spec fn insert_sorted(s: Seq<Seq<char>>, g: Seq<char>) -> Seq<Seq<char>>
    decreases s.len(),
{
    if s.len() == 0 {
        seq![g]
    } else if s.last() == g {
        s
    } else if text_lt(s.last(), g) {
        s.push(g)
    } else {
        insert_sorted(s.drop_last(), g).push(s.last())
    }
}

/// The groups of the categories that are not among the first ones, each
/// once, in ascending order.
pub open spec fn other_groups(cats: Seq<OptionCategory>) -> Seq<Seq<char>>
    decreases cats.len(),
{
    if cats.len() == 0 {
        Seq::empty()
    } else {
        let rest = other_groups(cats.drop_last());
        match cats.last().group {
            Some(g) => if is_priority_group(g@) {
                rest
            } else {
                insert_sorted(rest, g@)
            },
            None => rest,
        }
    }
}

/// The values of the categories of several groups, group after group.
pub open spec fn groups_values(
    cats: Seq<OptionCategory>,
    values: Map<Seq<char>, String>,
    groups: Seq<Seq<char>>,
) -> Seq<Seq<char>>
    decreases groups.len(),
{
    if groups.len() == 0 {
        Seq::empty()
    } else {
        groups_values(cats, values, groups.drop_last()) + group_values(
            cats,
            values,
            Some(groups.last()),
        )
    }
}

/// The values of an option grid in the order of the prompt: first the
/// categories without a group, then the groups that come first, then the
/// other groups in ascending order.
pub open spec fn grid_values(cats: Seq<OptionCategory>, values: Map<Seq<char>, String>) -> Seq<
    Seq<char>,
> {
    group_values(cats, values, None) + groups_values(cats, values, priority_groups())
        + groups_values(cats, values, other_groups(cats))
}

/// What a setting shows as, where it has a value that is not left out.
pub open spec fn setting_text(entry: SettingEntry, values: Map<Seq<char>, Scalar>) -> Option<
    Seq<char>,
> {
    if values.dom().contains(entry.id@) {
        match shown_text(values[entry.id@]) {
            Some(d) => if skip_text(d) {
                None
            } else {
                Some(d)
            },
            None => None,
        }
    } else {
        None
    }
}

/// The settings as `label: value`, in the order of the library.
pub open spec fn labelled_pairs(entries: Seq<SettingEntry>, values: Map<Seq<char>, Scalar>) -> Seq<
    Seq<char>,
>
    decreases entries.len(),
{
    if entries.len() == 0 {
        Seq::empty()
    } else {
        let rest = labelled_pairs(entries.drop_last(), values);
        match setting_text(entries.last(), values) {
            Some(d) => rest.push(entries.last().label@ + ": "@ + d),
            None => rest,
        }
    }
}

/// The settings one to a line, in the order of the library.
pub open spec fn setting_lines(entries: Seq<SettingEntry>, values: Map<Seq<char>, Scalar>) -> Seq<
    char,
>
    decreases entries.len(),
{
    if entries.len() == 0 {
        Seq::empty()
    } else {
        let rest = setting_lines(entries.drop_last(), values);
        match setting_text(entries.last(), values) {
            Some(d) => rest + d + "\n"@,
            None => rest,
        }
    }
}

/// The two settings panels whose values are written with their labels.
pub open spec fn is_meta_key(key: Seq<char>) -> bool {
    key == "global"@ || key == "motion"@
}

/// The prompt text of the first preset named `id`, where it has one.
pub open spec fn find_prompt<P>(items: Seq<PresetItem<P>>, id: Seq<char>) -> Option<Seq<char>>
    decreases items.len(),
{
    if items.len() == 0 {
        None
    } else if items[0].id@ == id {
        match items[0].prompt {
            Some(p) => Some(p@),
            None => None,
        }
    } else {
        find_prompt(items.drop_first(), id)
    }
}

/// The prompt texts of the chosen presets, in the order in which they
/// were chosen.
pub open spec fn chosen_prompts<P>(selected: Seq<String>, items: Seq<PresetItem<P>>) -> Seq<
    Seq<char>,
>
    decreases selected.len(),
{
    if selected.len() == 0 {
        Seq::empty()
    } else {
        let rest = chosen_prompts(selected.drop_last(), items);
        match find_prompt(items, selected.last()@) {
            Some(p) => rest.push(p),
            None => rest,
        }
    }
}

/// Everything the prompt is made from.
pub struct PromptGenerator<'a, P> {
    pub state: &'a AppState<P>,
    pub libraries: &'a Dict<OptionsLibrary>,
    pub settings_meta: &'a Dict<SettingsLibrary>,
    pub presets: &'a Dict<Vec<PresetItem<P>>>,
    pub preset_metadata: &'a Dict<PresetMetadata>,
    pub ui_config: &'a UiConfig,
    pub video_mode: bool,
    pub pose_is_manual: bool,
    pub pose_description: &'a str,
}

/// What a generator reads, as values.
pub ghost struct PromptInput<P> {
    pub state: AppState<P>,
    pub libraries: Dict<OptionsLibrary>,
    pub settings_meta: Dict<SettingsLibrary>,
    pub presets: Dict<Vec<PresetItem<P>>>,
    pub preset_metadata: Dict<PresetMetadata>,
    pub ui_config: UiConfig,
    pub video_mode: bool,
    pub pose_is_manual: bool,
    pub pose_description: Seq<char>,
}

impl<P> PromptInput<P> {
    /// The prompt texts that the panel `key` adds. For the poses, once the
    /// pose was edited by hand, that is the description of the pose as it
    /// stands; else the texts of the chosen presets.
    pub open spec fn selected_texts(&self, key: Seq<char>) -> Seq<Seq<char>> {
        if key == "poses"@ && self.pose_is_manual {
            if self.pose_description.len() == 0 {
                Seq::empty()
            } else {
                seq![self.pose_description]
            }
        } else {
            match self.state.selections.value_of(key) {
                None => Seq::empty(),
                Some(sel) => match self.presets.value_of(key) {
                    None => Seq::empty(),
                    Some(items) => chosen_prompts(sel.selected@, items@),
                },
            }
        }
    }

    /// What an option grid adds to the prompt.
    pub open spec fn options_text(&self, key: Seq<char>) -> Seq<char> {
        match self.libraries.value_of(key) {
            None => Seq::empty(),
            Some(lib) => if !included(lib.include_prompt@, self.video_mode) {
                Seq::empty()
            } else {
                match self.state.options.value_of(key) {
                    None => Seq::empty(),
                    Some(data) => emitted(grid_values(lib.categories@, data.values@)),
                }
            },
        }
    }

    /// What a settings panel adds to the prompt.
    pub open spec fn controls_text(&self, key: Seq<char>) -> Seq<char> {
        match self.settings_meta.value_of(key) {
            None => Seq::empty(),
            Some(lib) => if !included(lib.include_prompt@, self.video_mode) {
                Seq::empty()
            } else {
                match self.state.settings.value_of(key) {
                    None => Seq::empty(),
                    Some(data) => if is_meta_key(key) {
                        emitted(labelled_pairs(lib.settings@, data.values@))
                    } else {
                        setting_lines(lib.settings@, data.values@)
                    },
                }
            },
        }
    }

    /// What a preset panel adds to the prompt.
    pub open spec fn preset_text(&self, key: Seq<char>) -> Seq<char> {
        match self.preset_metadata.value_of(key) {
            None => Seq::empty(),
            Some(meta) => if !included(meta.include_prompt@, self.video_mode) {
                Seq::empty()
            } else {
                emitted(self.selected_texts(key))
            },
        }
    }

    /// What one control of a composite panel adds to the prompt.
    pub open spec fn component_text(&self, comp: ComponentConfig) -> Seq<char> {
        let key = key_of(comp.data_source@);
        let let_in = match self.libraries.value_of(key) {
            None => true,
            Some(lib) => included(lib.include_prompt@, self.video_mode),
        };
        if let_in {
            emitted(self.selected_texts(key))
        } else {
            Seq::empty()
        }
    }

    /// What the controls of a composite panel add to the prompt.
    pub open spec fn components_text(&self, comps: Seq<ComponentConfig>) -> Seq<char>
        decreases comps.len(),
    {
        if comps.len() == 0 {
            Seq::empty()
        } else {
            self.components_text(comps.drop_last()) + self.component_text(comps.last())
        }
    }

    /// What one panel adds to the prompt. A panel of a type that is not
    /// known adds nothing.
    pub open spec fn panel_text(&self, panel: PanelConfig) -> Seq<char> {
        let key = key_of(panel.data_source@);
        if panel.panel_type@ == "options_grid"@ {
            self.options_text(key)
        } else if panel.panel_type@ == "controls"@ {
            self.controls_text(key)
        } else if panel.panel_type@ == "preset_selector"@ {
            self.preset_text(key)
        } else if panel.panel_type@ == "composite"@ {
            self.components_text(panel.components@)
        } else {
            Seq::empty()
        }
    }

    /// What the panels add to the prompt, panel after panel.
    pub open spec fn panels_text(&self, panels: Seq<PanelConfig>) -> Seq<char>
        decreases panels.len(),
    {
        if panels.len() == 0 {
            Seq::empty()
        } else {
            self.panels_text(panels.drop_last()) + self.panel_text(panels.last())
        }
    }

    /// The prompt.
    pub open spec fn prompt_text(&self) -> Seq<char> {
        self.panels_text(self.ui_config.panels@)
    }
}

impl<'a, P> PromptGenerator<'a, P> {
    /// What the generator reads.
    pub open spec fn input(&self) -> PromptInput<P> {
        PromptInput {
            state: *self.state,
            libraries: *self.libraries,
            settings_meta: *self.settings_meta,
            presets: *self.presets,
            preset_metadata: *self.preset_metadata,
            ui_config: *self.ui_config,
            video_mode: self.video_mode,
            pose_is_manual: self.pose_is_manual,
            pose_description: self.pose_description@,
        }
    }

    /// A generator over the given state and libraries. `pose_description`
    /// is read only where `pose_is_manual` holds.
    pub fn new(
        state: &'a AppState<P>,
        libraries: &'a Dict<OptionsLibrary>,
        settings_meta: &'a Dict<SettingsLibrary>,
        presets: &'a Dict<Vec<PresetItem<P>>>,
        preset_metadata: &'a Dict<PresetMetadata>,
        ui_config: &'a UiConfig,
        pose_is_manual: bool,
        pose_description: &'a str,
    ) -> (r: Self)
        ensures
            r.state == state,
            r.libraries == libraries,
            r.settings_meta == settings_meta,
            r.presets == presets,
            r.preset_metadata == preset_metadata,
            r.ui_config == ui_config,
            r.video_mode == state.video_mode,
            r.pose_is_manual == pose_is_manual,
            r.pose_description == pose_description,
    {
        PromptGenerator {
            state,
            libraries,
            settings_meta,
            presets,
            preset_metadata,
            ui_config,
            video_mode: state.video_mode,
            pose_is_manual,
            pose_description,
        }
    }

    /// Is the value left out of the prompt?
    pub fn skip(v: &str) -> (r: bool)
        ensures
            r == skip_text(v@),
    {
        v.unicode_len() == 0 || same_text(v, "None")
    }

    /// Does the policy let values into the prompt?
    pub fn allows(&self, policy: &str) -> (r: bool)
        ensures
            r == included(policy@, self.video_mode),
    {
        if same_text(policy, "video") {
            self.video_mode
        } else if same_text(policy, "image") {
            !self.video_mode
        } else {
            true
        }
    }

    /// Writes the parts as one block at the end of `out`.
    pub fn emit(out: &mut String, parts: &Vec<String>)
        ensures
            final(out)@ == old(out)@ + emitted(views(parts@)),
    {
        if parts.len() > 0 {
            let block = join(parts, ", ");
            out.append(block.as_str());
            out.append("\n\n");
            assert(out@ =~= old(out)@ + (joined(views(parts@), ", "@) + "\n\n"@));
        } else {
            assert(out@ =~= old(out)@ + Seq::<char>::empty());
        }
    }

    /// The prompt texts that the panel `key` adds.
    pub fn selected_prompts(&self, key: &str) -> (r: Vec<String>)
        ensures
            views(r@) == self.input().selected_texts(key@),
    {
        if same_text(key, "poses") && self.pose_is_manual {
            let mut r: Vec<String> = Vec::new();
            if self.pose_description.unicode_len() > 0 {
                r.push(self.pose_description.to_owned());
                assert(views(r@) =~= seq![self.pose_description@]);
            } else {
                assert(views(r@) =~= Seq::<Seq<char>>::empty());
            }
            return r;
        }
        let mut r: Vec<String> = Vec::new();
        assert(views(r@) =~= Seq::<Seq<char>>::empty());
        let sel = match self.state.selections.get(key) {
            Some(sel) => sel,
            None => {
                return r;
            },
        };
        let items = match self.presets.get(key) {
            Some(items) => items,
            None => {
                return r;
            },
        };
        let mut i: usize = 0;
        assert(sel.selected@.take(0) =~= Seq::<String>::empty());
        while i < sel.selected.len()
            invariant
                i <= sel.selected.len(),
                views(r@) == chosen_prompts(sel.selected@.take(i as int), items@),
            decreases sel.selected.len() - i,
        {
            proof {
                let pre = sel.selected@.take(i as int + 1);
                assert(pre.drop_last() =~= sel.selected@.take(i as int));
                assert(pre.last() == sel.selected@[i as int]);
            }
            let ghost before = views(r@);
            match prompt_of(items, sel.selected[i].as_str()) {
                Some(p) => {
                    r.push(p);
                    assert(views(r@) =~= before.push(p@));
                },
                None => {},
            }
            i += 1;
        }
        assert(sel.selected@.take(sel.selected.len() as int) =~= sel.selected@);
        r
    }

    /// What an option grid adds to the prompt.
    fn options_block(&self, key: &str, out: &mut String)
        ensures
            final(out)@ == old(out)@ + self.input().options_text(key@),
    {
        let lib = match self.libraries.get(key) {
            Some(lib) => lib,
            None => {
                assert(out@ =~= old(out)@ + Seq::<char>::empty());
                return ;
            },
        };
        if !self.allows(lib.include_prompt.as_str()) {
            assert(out@ =~= old(out)@ + Seq::<char>::empty());
            return ;
        }
        let data = match self.state.options.get(key) {
            Some(data) => data,
            None => {
                assert(out@ =~= old(out)@ + Seq::<char>::empty());
                return ;
            },
        };
        let all = ordered_values(&lib.categories, data);
        Self::emit(out, &all);
    }

    /// What a settings panel adds to the prompt.
    fn controls_block(&self, key: &str, out: &mut String)
        ensures
            final(out)@ == old(out)@ + self.input().controls_text(key@),
    {
        let lib = match self.settings_meta.get(key) {
            Some(lib) => lib,
            None => {
                assert(out@ =~= old(out)@ + Seq::<char>::empty());
                return ;
            },
        };
        if !self.allows(lib.include_prompt.as_str()) {
            assert(out@ =~= old(out)@ + Seq::<char>::empty());
            return ;
        }
        let data = match self.state.settings.get(key) {
            Some(data) => data,
            None => {
                assert(out@ =~= old(out)@ + Seq::<char>::empty());
                return ;
            },
        };
        if same_text(key, "global") || same_text(key, "motion") {
            let pairs = setting_pairs(&lib.settings, &data.values);
            Self::emit(out, &pairs);
        } else {
            write_setting_lines(&lib.settings, &data.values, out);
        }
    }

    /// What a preset panel adds to the prompt.
    fn preset_block(&self, key: &str, out: &mut String)
        ensures
            final(out)@ == old(out)@ + self.input().preset_text(key@),
    {
        let meta = match self.preset_metadata.get(key) {
            Some(meta) => meta,
            None => {
                assert(out@ =~= old(out)@ + Seq::<char>::empty());
                return ;
            },
        };
        if !self.allows(meta.include_prompt.as_str()) {
            assert(out@ =~= old(out)@ + Seq::<char>::empty());
            return ;
        }
        let parts = self.selected_prompts(key);
        Self::emit(out, &parts);
    }

    /// What the controls of a composite panel add to the prompt.
    fn components_block(&self, comps: &Vec<ComponentConfig>, out: &mut String)
        ensures
            final(out)@ == old(out)@ + self.input().components_text(comps@),
    {
        let mut i: usize = 0;
        assert(comps@.take(0) =~= Seq::<ComponentConfig>::empty());
        assert(out@ =~= old(out)@ + Seq::<char>::empty());
        while i < comps.len()
            invariant
                i <= comps.len(),
                out@ == old(out)@ + self.input().components_text(comps@.take(i as int)),
            decreases comps.len() - i,
        {
            proof {
                let pre = comps@.take(i as int + 1);
                assert(pre.drop_last() =~= comps@.take(i as int));
                assert(pre.last() == comps@[i as int]);
            }
            let ghost before = out@;
            let comp = &comps[i];
            let ckey = trim_end_matches(comp.data_source.as_str(), ".json");
            let let_in = match self.libraries.get(ckey.as_str()) {
                Some(lib) => self.allows(lib.include_prompt.as_str()),
                None => true,
            };
            if let_in {
                let parts = self.selected_prompts(ckey.as_str());
                Self::emit(out, &parts);
            }
            assert(out@ =~= before + self.input().component_text(comps@[i as int]));
            assert(out@ =~= old(out)@ + (self.input().components_text(comps@.take(i as int))
                + self.input().component_text(comps@[i as int])));
            i += 1;
        }
        assert(comps@.take(comps.len() as int) =~= comps@);
    }

    /// What one panel adds to the prompt.
    fn panel_block(&self, panel: &PanelConfig, out: &mut String)
        ensures
            final(out)@ == old(out)@ + self.input().panel_text(*panel),
    {
        let key = trim_end_matches(panel.data_source.as_str(), ".json");
        let kind = panel.panel_type.as_str();
        if same_text(kind, "options_grid") {
            self.options_block(key.as_str(), out);
        } else if same_text(kind, "controls") {
            self.controls_block(key.as_str(), out);
        } else if same_text(kind, "preset_selector") {
            self.preset_block(key.as_str(), out);
        } else if same_text(kind, "composite") {
            self.components_block(&panel.components, out);
        } else {
            assert(out@ =~= old(out)@ + Seq::<char>::empty());
        }
    }

    /// The prompt: what each panel adds, in the order of the panels.
    pub fn generate(&self) -> (out: String)
        ensures
            out@ == self.input().prompt_text(),
    {
        let mut out = String::new();
        let panels = &self.ui_config.panels;
        let mut i: usize = 0;
        assert(panels@.take(0) =~= Seq::<PanelConfig>::empty());
        while i < panels.len()
            invariant
                i <= panels.len(),
                panels == &self.ui_config.panels,
                out@ == self.input().panels_text(panels@.take(i as int)),
            decreases panels.len() - i,
        {
            proof {
                let pre = panels@.take(i as int + 1);
                assert(pre.drop_last() =~= panels@.take(i as int));
                assert(pre.last() == panels@[i as int]);
            }
            self.panel_block(&panels[i], &mut out);
            i += 1;
        }
        assert(panels@.take(panels.len() as int) =~= panels@);
        out
    }
}

/// The prompt text of the first preset named `id`, where it has one.
pub fn prompt_of<P>(items: &Vec<PresetItem<P>>, id: &str) -> (r: Option<String>)
    ensures
        match r {
            Some(p) => find_prompt(items@, id@) == Some(p@),
            None => find_prompt(items@, id@).is_none(),
        },
{
    let mut i: usize = 0;
    assert(items@.skip(0) =~= items@);
    while i < items.len()
        invariant
            i <= items.len(),
            find_prompt(items@, id@) == find_prompt(items@.skip(i as int), id@),
        decreases items.len() - i,
    {
        proof {
            let rest = items@.skip(i as int);
            assert(rest[0] == items@[i as int]);
            assert(rest.drop_first() =~= items@.skip(i as int + 1));
        }
        if same_text(items[i].id.as_str(), id) {
            return match &items[i].prompt {
                Some(p) => Some(p.clone()),
                None => None,
            };
        }
        i += 1;
    }
    None
}

/// Does `a` come before `b` in the order of the dictionary?
pub fn text_less(a: &str, b: &str) -> (r: bool)
    ensures
        r == text_lt(a@, b@),
{
    let av = chars_of(a);
    let bv = chars_of(b);
    let mut i: usize = 0;
    loop
        invariant
            i <= av.len(),
            i <= bv.len(),
            av@ == a@,
            bv@ == b@,
            text_lt(a@, b@) == lex_lt(a@, b@, i as int),
        decreases av.len() - i,
    {
        if i >= bv.len() {
            return false;
        }
        if i >= av.len() {
            return true;
        }
        if av[i] != bv[i] {
            assert(lex_lt(a@, b@, i as int) == (a@[i as int] < b@[i as int]));
            return av[i] < bv[i];
        }
        i += 1;
    }
}

/// Adds the values of the categories of one group to `out`.
fn collect_group(
    cats: &Vec<OptionCategory>,
    data: &OptionsData,
    group: Option<&str>,
    out: &mut Vec<String>,
)
    ensures
        views(final(out)@) == views(old(out)@) + group_values(
            cats@,
            data.values@,
            match group {
                Some(g) => Some(g@),
                None => None,
            },
        ),
{
    let ghost wanted: Option<Seq<char>> = match group {
        Some(g) => Some(g@),
        None => None,
    };
    let mut i: usize = 0;
    assert(cats@.take(0) =~= Seq::<OptionCategory>::empty());
    assert(views(out@) =~= views(old(out)@) + Seq::<Seq<char>>::empty());
    while i < cats.len()
        invariant
            i <= cats.len(),
            wanted == match group {
                Some(g) => Some(g@),
                None => None,
            },
            views(out@) == views(old(out)@) + group_values(
                cats@.take(i as int),
                data.values@,
                wanted,
            ),
        decreases cats.len() - i,
    {
        proof {
            let pre = cats@.take(i as int + 1);
            assert(pre.drop_last() =~= cats@.take(i as int));
            assert(pre.last() == cats@[i as int]);
        }
        let cat = &cats[i];
        let same_group = match (&cat.group, group) {
            (Some(a), Some(b)) => same_text(a.as_str(), b),
            (None, None) => true,
            _ => false,
        };
        if same_group && cat.should_show(data) {
            let v = data.get(cat.id.as_str());
            if !(v.unicode_len() == 0 || same_text(v, "None")) {
                let ghost before = views(out@);
                out.push(v.to_owned());
                assert(views(out@) =~= before.push(v@));
                assert(views(out@) =~= views(old(out)@) + group_values(
                    cats@.take(i as int),
                    data.values@,
                    wanted,
                ).push(v@));
            }
        }
        i += 1;
    }
    assert(cats@.take(cats.len() as int) =~= cats@);
}

/// Puts `g` in its place in an ascending list of names.
fn insert_group(sorted: &mut Vec<String>, g: &str)
    ensures
        views(final(sorted)@) == insert_sorted(views(old(sorted)@), g@),
{
    let ghost s = views(sorted@);
    let mut i: usize = sorted.len();
    assert(s.take(i as int) =~= s);
    assert(s.skip(i as int) =~= Seq::<Seq<char>>::empty());
    assert(insert_sorted(s, g@) =~= insert_sorted(s.take(i as int), g@) + s.skip(i as int));
    loop
        invariant
            i <= sorted.len(),
            s == views(sorted@),
            sorted@ == old(sorted)@,
            insert_sorted(s, g@) == insert_sorted(s.take(i as int), g@) + s.skip(i as int),
        ensures
            i <= sorted.len(),
            s == views(sorted@),
            sorted@ == old(sorted)@,
            insert_sorted(s, g@) == s.take(i as int).push(g@) + s.skip(i as int),
        decreases i,
    {
        if i == 0 {
            assert(s.take(0) =~= Seq::<Seq<char>>::empty());
            assert(insert_sorted(s.take(0), g@) =~= s.take(0).push(g@));
            break ;
        }
        let ghost pre = s.take(i as int);
        assert(pre.last() == s[i - 1]);
        assert(pre.drop_last() =~= s.take(i - 1));
        let last = sorted[i - 1].as_str();
        if same_text(last, g) {
            assert(insert_sorted(pre, g@) == pre);
            assert(pre + s.skip(i as int) =~= s);
            return ;
        }
        if text_less(last, g) {
            assert(insert_sorted(pre, g@) == pre.push(g@));
            break ;
        }
        assert(insert_sorted(pre, g@) == insert_sorted(s.take(i - 1), g@).push(s[i - 1]));
        assert(insert_sorted(s.take(i - 1), g@).push(s[i - 1]) + s.skip(i as int)
            =~= insert_sorted(s.take(i - 1), g@) + s.skip(i - 1));
        i -= 1;
    }
    sorted.insert(i, g.to_owned());
    assert(views(sorted@) =~= s.take(i as int).push(g@) + s.skip(i as int));
}

/// Is `g` one of the groups that come first?
fn priority_group(g: &str) -> (r: bool)
    ensures
        r == is_priority_group(g@),
{
    same_text(g, "Basic Info") || same_text(g, "Physical Features") || same_text(
        g,
        "Facial Features",
    ) || same_text(g, "Body Details")
}

/// The groups of the categories that are not among the first ones, each
/// once, in ascending order.
fn remaining_groups(cats: &Vec<OptionCategory>) -> (r: Vec<String>)
    ensures
        views(r@) == other_groups(cats@),
{
    let mut r: Vec<String> = Vec::new();
    let mut i: usize = 0;
    assert(cats@.take(0) =~= Seq::<OptionCategory>::empty());
    assert(views(r@) =~= Seq::<Seq<char>>::empty());
    while i < cats.len()
        invariant
            i <= cats.len(),
            views(r@) == other_groups(cats@.take(i as int)),
        decreases cats.len() - i,
    {
        proof {
            let pre = cats@.take(i as int + 1);
            assert(pre.drop_last() =~= cats@.take(i as int));
            assert(pre.last() == cats@[i as int]);
        }
        match &cats[i].group {
            Some(g) => {
                if !priority_group(g.as_str()) {
                    insert_group(&mut r, g.as_str());
                }
            },
            None => {},
        }
        i += 1;
    }
    assert(cats@.take(cats.len() as int) =~= cats@);
    r
}

/// Adds the values of the categories of several groups to `out`.
fn collect_groups(
    cats: &Vec<OptionCategory>,
    data: &OptionsData,
    groups: &Vec<String>,
    out: &mut Vec<String>,
)
    ensures
        views(final(out)@) == views(old(out)@) + groups_values(
            cats@,
            data.values@,
            views(groups@),
        ),
{
    let mut i: usize = 0;
    assert(views(groups@).take(0) =~= Seq::<Seq<char>>::empty());
    assert(views(out@) =~= views(old(out)@) + Seq::<Seq<char>>::empty());
    while i < groups.len()
        invariant
            i <= groups.len(),
            views(out@) == views(old(out)@) + groups_values(
                cats@,
                data.values@,
                views(groups@).take(i as int),
            ),
        decreases groups.len() - i,
    {
        proof {
            let pre = views(groups@).take(i as int + 1);
            assert(pre.drop_last() =~= views(groups@).take(i as int));
            assert(pre.last() == groups@[i as int]@);
        }
        let ghost before = views(out@);
        collect_group(cats, data, Some(groups[i].as_str()), out);
        assert(views(out@) =~= views(old(out)@) + (groups_values(
            cats@,
            data.values@,
            views(groups@).take(i as int),
        ) + group_values(cats@, data.values@, Some(groups@[i as int]@))));
        i += 1;
    }
    assert(views(groups@).take(groups.len() as int) =~= views(groups@));
}

/// The values of an option grid in the order of the prompt.
pub fn ordered_values(cats: &Vec<OptionCategory>, data: &OptionsData) -> (r: Vec<String>)
    ensures
        views(r@) == grid_values(cats@, data.values@),
{
    let mut all: Vec<String> = Vec::new();
    assert(views(all@) =~= Seq::<Seq<char>>::empty());
    collect_group(cats, data, None, &mut all);
    let ghost first = views(all@);
    assert(first =~= group_values(cats@, data.values@, None));
    let mut named: Vec<String> = Vec::new();
    named.push("Basic Info".to_owned());
    named.push("Physical Features".to_owned());
    named.push("Facial Features".to_owned());
    named.push("Body Details".to_owned());
    assert(views(named@) =~= priority_groups());
    collect_groups(cats, data, &named, &mut all);
    let rest = remaining_groups(cats);
    collect_groups(cats, data, &rest, &mut all);
    assert(views(all@) =~= grid_values(cats@, data.values@));
    all
}

/// What a setting shows as, where it has a value that is not left out.
fn setting_display(entry: &SettingEntry, values: &Dict<Scalar>) -> (r: Option<String>)
    ensures
        match r {
            Some(d) => setting_text(*entry, values@) == Some(d@),
            None => setting_text(*entry, values@).is_none(),
        },
{
    match values.get(entry.id.as_str()) {
        Some(v) => match v.val_str() {
            Some(d) => {
                if d.as_str().unicode_len() == 0 || same_text(d.as_str(), "None") {
                    None
                } else {
                    Some(d)
                }
            },
            None => None,
        },
        None => None,
    }
}

/// The settings as `label: value`, in the order of the library.
pub fn setting_pairs(entries: &Vec<SettingEntry>, values: &Dict<Scalar>) -> (r: Vec<String>)
    ensures
        views(r@) == labelled_pairs(entries@, values@),
{
    let mut r: Vec<String> = Vec::new();
    let mut i: usize = 0;
    assert(entries@.take(0) =~= Seq::<SettingEntry>::empty());
    assert(views(r@) =~= Seq::<Seq<char>>::empty());
    while i < entries.len()
        invariant
            i <= entries.len(),
            views(r@) == labelled_pairs(entries@.take(i as int), values@),
        decreases entries.len() - i,
    {
        proof {
            let pre = entries@.take(i as int + 1);
            assert(pre.drop_last() =~= entries@.take(i as int));
            assert(pre.last() == entries@[i as int]);
        }
        match setting_display(&entries[i], values) {
            Some(d) => {
                let mut pair = entries[i].label.clone();
                pair.append(": ");
                pair.append(d.as_str());
                let ghost before = views(r@);
                let ghost text = pair@;
                r.push(pair);
                assert(views(r@) =~= before.push(text));
            },
            None => {},
        }
        i += 1;
    }
    assert(entries@.take(entries.len() as int) =~= entries@);
    r
}

/// Writes the settings one to a line at the end of `out`.
pub fn write_setting_lines(entries: &Vec<SettingEntry>, values: &Dict<Scalar>, out: &mut String)
    ensures
        final(out)@ == old(out)@ + setting_lines(entries@, values@),
{
    let mut i: usize = 0;
    assert(entries@.take(0) =~= Seq::<SettingEntry>::empty());
    assert(out@ =~= old(out)@ + Seq::<char>::empty());
    while i < entries.len()
        invariant
            i <= entries.len(),
            out@ == old(out)@ + setting_lines(entries@.take(i as int), values@),
        decreases entries.len() - i,
    {
        proof {
            let pre = entries@.take(i as int + 1);
            assert(pre.drop_last() =~= entries@.take(i as int));
            assert(pre.last() == entries@[i as int]);
        }
        match setting_display(&entries[i], values) {
            Some(d) => {
                out.append(d.as_str());
                out.append("\n");
                assert(out@ =~= old(out)@ + (setting_lines(entries@.take(i as int), values@) + d@
                    + "\n"@));
            },
            None => {},
        }
        i += 1;
    }
    assert(entries@.take(entries.len() as int) =~= entries@);
}

} // verus!
