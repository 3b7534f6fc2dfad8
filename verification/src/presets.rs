//! Presets: reading them out of the JSON of a library, turning them into
//! what the panels show, and choosing what is selected when the
//! application starts.

use vstd::prelude::*;
use vstd::string::*;
use crate::dict::Dict;
use crate::json::{field_from, field_of, Json, Number};
use crate::library::{
    GenericItem,
    GenericLibrary,
    PanelConfig,
    Semantics,
    StickFigure,
    StylesLibrary,
    UiConfig,
};
use crate::prompt::key_of;
use crate::session::{find_pose, pose_in};
use crate::state::{PresetItem, PresetMetadata, SelectionState};
use crate::text::{contains, has_substring, same_text, trim_end_matches};

verus! {

/// What a preset read from JSON holds, as texts.
pub ghost struct ItemView {
    pub id: Seq<char>,
    pub name: Seq<char>,
    pub prompt: Option<Seq<char>>,
    pub points: Option<Seq<(Seq<char>, Seq<Seq<char>>)>>,
    pub semantics: Option<Seq<char>>,
}

/// The literals of the numbers.
pub open spec fn literals(v: Seq<Number>) -> Seq<Seq<char>> {
    Seq::new(v.len(), |i: int| v[i].literal@)
}

/// The points of a figure, as texts.
pub open spec fn points_view(entries: Seq<(String, Vec<Number>)>) -> Seq<
    (Seq<char>, Seq<Seq<char>>),
> {
    Seq::new(entries.len(), |i: int| (entries[i].0@, literals(entries[i].1@)))
}

impl View for GenericItem {
    type V = ItemView;

    open spec fn view(&self) -> ItemView {
        ItemView {
            id: self.id@,
            name: self.name@,
            prompt: match self.prompt {
                Some(p) => Some(p@),
                None => None,
            },
            points: match self.stick_figure {
                Some(sf) => Some(points_view(sf.points.entries@)),
                None => None,
            },
            semantics: match self.semantics {
                Some(s) => Some(s.prompt@),
                None => None,
            },
        }
    }
}

/// The views of a list of presets.
pub open spec fn item_views(items: Seq<GenericItem>) -> Seq<ItemView> {
    Seq::new(items.len(), |i: int| items[i]@)
}

/// The literals of an array of numbers; nothing where an element is no
/// number.
pub open spec fn numbers_of(a: Seq<Json>) -> Option<Seq<Seq<char>>>
    decreases a.len(),
{
    if a.len() == 0 {
        Some(Seq::empty())
    } else {
        match (numbers_of(a.drop_last()), a.last()) {
            (Some(rest), Json::Number(n)) => Some(rest.push(n.literal@)),
            _ => None,
        }
    }
}

/// The named points of a figure; nothing where a point is no array of
/// numbers.
pub open spec fn points_of(fields: Seq<(String, Json)>) -> Option<
    Seq<(Seq<char>, Seq<Seq<char>>)>,
>
    decreases fields.len(),
{
    if fields.len() == 0 {
        Some(Seq::empty())
    } else {
        match (points_of(fields.drop_last()), fields.last().1) {
            (Some(rest), Json::Array(a)) => match numbers_of(a@) {
                Some(nums) => Some(rest.push((fields.last().0@, nums))),
                None => None,
            },
            _ => None,
        }
    }
}

/// A field that may be left out or null, and must else be a text: the
/// text it holds, if any; nothing where it is of another kind.
pub open spec fn optional_text(v: Option<Json>) -> Option<Option<Seq<char>>> {
    match v {
        None => Some(None),
        Some(Json::Null) => Some(None),
        Some(Json::Text(s)) => Some(Some(s@)),
        _ => None,
    }
}

/// The name of a preset: empty where the field is left out; nothing where
/// it is no text.
pub open spec fn name_of(v: Option<Json>) -> Option<Seq<char>> {
    match v {
        None => Some(Seq::empty()),
        Some(Json::Text(s)) => Some(s@),
        _ => None,
    }
}

/// The id of a preset: the text of its `id` field or of its `term` field;
/// nothing where it has both or neither, or where the field is no text.
pub open spec fn id_of(v: Json) -> Option<Seq<char>> {
    match (field_of(v, "id"@), field_of(v, "term"@)) {
        (Some(Json::Text(s)), None) => Some(s@),
        (None, Some(Json::Text(s))) => Some(s@),
        _ => None,
    }
}

/// The stick figure of a preset: none where the field is left out or
/// null; else the points under `points`; nothing where it is not made so.
pub open spec fn figure_of(v: Option<Json>) -> Option<Option<Seq<(Seq<char>, Seq<Seq<char>>)>>> {
    match v {
        None => Some(None),
        Some(Json::Null) => Some(None),
        Some(Json::Object(fs)) => match field_from(fs@, "points"@, 0) {
            Some(Json::Object(ps)) => match points_of(ps@) {
                Some(p) => Some(Some(p)),
                None => None,
            },
            _ => None,
        },
        _ => None,
    }
}

/// The fallback prompt of a preset: none where the field is left out or
/// null; else the text under `prompt`; nothing where it is not made so.
pub open spec fn semantics_of(v: Option<Json>) -> Option<Option<Seq<char>>> {
    match v {
        None => Some(None),
        Some(Json::Null) => Some(None),
        Some(Json::Object(fs)) => match field_from(fs@, "prompt"@, 0) {
            Some(Json::Text(s)) => Some(Some(s@)),
            _ => None,
        },
        _ => None,
    }
}

/// The preset that a JSON value stands for: an object with an id, and with
/// a name, a prompt, a stick figure and a fallback prompt where it has
/// them. Nothing where the value is no object or a field is ill made.
pub open spec fn item_of(v: Json) -> Option<ItemView> {
    match v {
        Json::Object(_) => match (
            id_of(v),
            name_of(field_of(v, "name"@)),
            optional_text(field_of(v, "prompt"@)),
            figure_of(field_of(v, "stick_figure"@)),
            semantics_of(field_of(v, "semantics"@)),
        ) {
            (Some(id), Some(name), Some(prompt), Some(points), Some(semantics)) => Some(
                ItemView { id, name, prompt, points, semantics },
            ),
            _ => None,
        },
        _ => None,
    }
}

/// The presets among the elements of an array; elements that stand for no
/// preset are passed over.
pub open spec fn items_in(a: Seq<Json>) -> Seq<ItemView>
    decreases a.len(),
{
    if a.len() == 0 {
        Seq::empty()
    } else {
        match item_of(a.last()) {
            Some(it) => items_in(a.drop_last()).push(it),
            None => items_in(a.drop_last()),
        }
    }
}

/// The presets in the arrays among the fields of a category.
pub open spec fn arrays_items(fields: Seq<(String, Json)>) -> Seq<ItemView>
    decreases fields.len(),
{
    if fields.len() == 0 {
        Seq::empty()
    } else {
        match fields.last().1 {
            Json::Array(a) => arrays_items(fields.drop_last()) + items_in(a@),
            _ => arrays_items(fields.drop_last()),
        }
    }
}

/// The presets of the categories that are objects.
pub open spec fn categories_items(cats: Seq<Json>) -> Seq<ItemView>
    decreases cats.len(),
{
    if cats.len() == 0 {
        Seq::empty()
    } else {
        match cats.last() {
            Json::Object(fs) => categories_items(cats.drop_last()) + arrays_items(fs@),
            _ => categories_items(cats.drop_last()),
        }
    }
}

/// The presets under one field of a library: those of an array, or those
/// of the categories of an object that has an array of `categories`.
pub open spec fn field_items(v: Json) -> Seq<ItemView> {
    match v {
        Json::Array(a) => items_in(a@),
        Json::Object(fs) => match field_from(fs@, "categories"@, 0) {
            Some(Json::Array(cats)) => categories_items(cats@),
            _ => Seq::empty(),
        },
        _ => Seq::empty(),
    }
}

/// The fields that are looked at first: `poses`, `expressions`, `items`.
pub open spec fn is_named_key(k: Seq<char>) -> bool {
    k == "poses"@ || k == "expressions"@ || k == "items"@
}

/// The presets under the first field named `name`.
pub open spec fn named_items(fields: Seq<(String, Json)>, name: Seq<char>) -> Seq<ItemView> {
    match field_from(fields, name, 0) {
        Some(v) => field_items(v),
        None => Seq::empty(),
    }
}

/// The presets under the fields that are not looked at first, in the
/// order of the fields.
pub open spec fn other_items(fields: Seq<(String, Json)>) -> Seq<ItemView>
    decreases fields.len(),
{
    if fields.len() == 0 {
        Seq::empty()
    } else if is_named_key(fields.last().0@) {
        other_items(fields.drop_last())
    } else {
        other_items(fields.drop_last()) + field_items(fields.last().1)
    }
}

/// The presets of a library: first those under `poses`, `expressions` and
/// `items`, then those under any other field, in the order of the fields.
pub open spec fn library_items(data: Json) -> Seq<ItemView> {
    match data {
        Json::Object(fs) => named_items(fs@, "poses"@) + named_items(fs@, "expressions"@)
            + named_items(fs@, "items"@) + other_items(fs@),
        _ => Seq::empty(),
    }
}

/// The literals of an array of numbers.
fn parse_numbers(a: &Vec<Json>) -> (r: Option<Vec<Number>>)
    ensures
        match r {
            Some(v) => numbers_of(a@) == Some(literals(v@)),
            None => numbers_of(a@).is_none(),
        },
{
    let mut v: Vec<Number> = Vec::new();
    let mut i: usize = 0;
    assert(a@.take(0) =~= Seq::<Json>::empty());
    assert(literals(v@) =~= Seq::<Seq<char>>::empty());
    while i < a.len()
        invariant
            i <= a.len(),
            numbers_of(a@.take(i as int)) == Some(literals(v@)),
        decreases a.len() - i,
    {
        proof {
            let pre = a@.take(i as int + 1);
            assert(pre.drop_last() =~= a@.take(i as int));
            assert(pre.last() == a@[i as int]);
        }
        match &a[i] {
            Json::Number(n) => {
                let ghost before = literals(v@);
                v.push(Number { literal: n.literal.clone() });
                assert(literals(v@) =~= before.push(n.literal@));
            },
            _ => {
                proof {
                    lemma_numbers_stay_none(a@, i as int + 1);
                }
                return None;
            },
        }
        i += 1;
    }
    assert(a@.take(a.len() as int) =~= a@);
    Some(v)
}

/// An array with an element that is no number among its first `n` has no
/// literals.
proof fn lemma_numbers_stay_none(a: Seq<Json>, n: int)
    requires
        0 <= n <= a.len(),
        numbers_of(a.take(n)).is_none(),
    ensures
        numbers_of(a).is_none(),
    decreases a.len() - n,
{
    if n < a.len() {
        assert(a.take(n + 1).drop_last() =~= a.take(n));
        lemma_numbers_stay_none(a, n + 1);
    } else {
        assert(a.take(n) =~= a);
    }
}

/// A figure with an ill-made point among its first `n` has no points.
proof fn lemma_points_stay_none(fields: Seq<(String, Json)>, n: int)
    requires
        0 <= n <= fields.len(),
        points_of(fields.take(n)).is_none(),
    ensures
        points_of(fields).is_none(),
    decreases fields.len() - n,
{
    if n < fields.len() {
        assert(fields.take(n + 1).drop_last() =~= fields.take(n));
        lemma_points_stay_none(fields, n + 1);
    } else {
        assert(fields.take(n) =~= fields);
    }
}

/// The named points of a figure.
fn parse_points(fields: &Vec<(String, Json)>) -> (r: Option<Vec<(String, Vec<Number>)>>)
    ensures
        match r {
            Some(v) => points_of(fields@) == Some(points_view(v@)),
            None => points_of(fields@).is_none(),
        },
{
    let mut v: Vec<(String, Vec<Number>)> = Vec::new();
    let mut i: usize = 0;
    assert(fields@.take(0) =~= Seq::<(String, Json)>::empty());
    assert(points_view(v@) =~= Seq::<(Seq<char>, Seq<Seq<char>>)>::empty());
    while i < fields.len()
        invariant
            i <= fields.len(),
            points_of(fields@.take(i as int)) == Some(points_view(v@)),
        decreases fields.len() - i,
    {
        proof {
            let pre = fields@.take(i as int + 1);
            assert(pre.drop_last() =~= fields@.take(i as int));
            assert(pre.last() == fields@[i as int]);
        }
        match &fields[i].1 {
            Json::Array(a) => match parse_numbers(a) {
                Some(nums) => {
                    let ghost before = points_view(v@);
                    let ghost lits = literals(nums@);
                    v.push((fields[i].0.clone(), nums));
                    assert(points_view(v@) =~= before.push((fields@[i as int].0@, lits)));
                },
                None => {
                    proof {
                        lemma_points_stay_none(fields@, i as int + 1);
                    }
                    return None;
                },
            },
            _ => {
                proof {
                    lemma_points_stay_none(fields@, i as int + 1);
                }
                return None;
            },
        }
        i += 1;
    }
    assert(fields@.take(fields.len() as int) =~= fields@);
    Some(v)
}

/// A field that may be left out or null, and must else be a text.
fn parse_optional_text(v: Option<&Json>) -> (r: Result<Option<String>, ()>)
    ensures
        ({
            let spec_v = match v {
                Some(j) => Some(*j),
                None => None,
            };
            match r {
                Ok(Some(s)) => optional_text(spec_v) == Some(Some(s@)),
                Ok(None) => optional_text(spec_v) == Some(None::<Seq<char>>),
                Err(_) => optional_text(spec_v).is_none(),
            }
        }),
{
    match v {
        None => Ok(None),
        Some(Json::Null) => Ok(None),
        Some(Json::Text(s)) => Ok(Some(s.clone())),
        Some(_) => Err(()),
    }
}

/// The preset that a JSON value stands for.
pub fn parse_item(v: &Json) -> (r: Option<GenericItem>)
    ensures
        match r {
            Some(it) => item_of(*v) == Some(it@),
            None => item_of(*v).is_none(),
        },
{
    match v {
        Json::Object(_) => {},
        _ => {
            return None;
        },
    }
    let id = match (v.get("id"), v.get("term")) {
        (Some(Json::Text(s)), None) => s.clone(),
        (None, Some(Json::Text(s))) => s.clone(),
        _ => {
            return None;
        },
    };
    let name = match v.get("name") {
        None => String::new(),
        Some(Json::Text(s)) => s.clone(),
        Some(_) => {
            return None;
        },
    };
    let prompt = match parse_optional_text(v.get("prompt")) {
        Ok(p) => p,
        Err(_) => {
            return None;
        },
    };
    let stick_figure = match v.get("stick_figure") {
        None => None,
        Some(Json::Null) => None,
        Some(Json::Object(fs)) => {
            match field_in(fs, "points") {
                Some(Json::Object(ps)) => match parse_points(ps) {
                    Some(points) => Some(StickFigure { points: Dict { entries: points } }),
                    None => {
                        return None;
                    },
                },
                _ => {
                    return None;
                },
            }
        },
        Some(_) => {
            return None;
        },
    };
    let semantics = match v.get("semantics") {
        None => None,
        Some(Json::Null) => None,
        Some(Json::Object(fs)) => match field_in(fs, "prompt") {
            Some(Json::Text(s)) => Some(Semantics { prompt: s.clone() }),
            _ => {
                return None;
            },
        },
        Some(_) => {
            return None;
        },
    };
    Some(
        GenericItem {
            id,
            name,
            description: String::new(),
            tags: Vec::new(),
            prompt,
            stick_figure,
            semantics,
        },
    )
}

/// The first of the fields that is named `name`.
pub fn field_in<'a>(fields: &'a Vec<(String, Json)>, name: &str) -> (r: Option<&'a Json>)
    ensures
        match r {
            Some(v) => field_from(fields@, name@, 0) == Some(*v),
            None => field_from(fields@, name@, 0).is_none(),
        },
{
    let mut i: usize = 0;
    while i < fields.len()
        invariant
            i <= fields.len(),
            field_from(fields@, name@, 0) == field_from(fields@, name@, i as int),
        decreases fields.len() - i,
    {
        if same_text(fields[i].0.as_str(), name) {
            return Some(&fields[i].1);
        }
        i += 1;
    }
    None
}

/// Adds the presets among the elements of an array to `out`.
fn collect_items(a: &Vec<Json>, out: &mut Vec<GenericItem>)
    ensures
        item_views(final(out)@) == item_views(old(out)@) + items_in(a@),
{
    let mut i: usize = 0;
    assert(a@.take(0) =~= Seq::<Json>::empty());
    assert(item_views(out@) =~= item_views(old(out)@) + Seq::<ItemView>::empty());
    while i < a.len()
        invariant
            i <= a.len(),
            item_views(out@) == item_views(old(out)@) + items_in(a@.take(i as int)),
        decreases a.len() - i,
    {
        proof {
            let pre = a@.take(i as int + 1);
            assert(pre.drop_last() =~= a@.take(i as int));
            assert(pre.last() == a@[i as int]);
        }
        match parse_item(&a[i]) {
            Some(it) => {
                let ghost before = item_views(out@);
                let ghost iv = it@;
                out.push(it);
                assert(item_views(out@) =~= before.push(iv));
                assert(item_views(out@) =~= item_views(old(out)@) + items_in(
                    a@.take(i as int),
                ).push(iv));
            },
            None => {},
        }
        i += 1;
    }
    assert(a@.take(a.len() as int) =~= a@);
}

/// Adds the presets in the arrays among the fields of a category to `out`.
fn collect_arrays(fields: &Vec<(String, Json)>, out: &mut Vec<GenericItem>)
    ensures
        item_views(final(out)@) == item_views(old(out)@) + arrays_items(fields@),
{
    let mut i: usize = 0;
    assert(fields@.take(0) =~= Seq::<(String, Json)>::empty());
    assert(item_views(out@) =~= item_views(old(out)@) + Seq::<ItemView>::empty());
    while i < fields.len()
        invariant
            i <= fields.len(),
            item_views(out@) == item_views(old(out)@) + arrays_items(fields@.take(i as int)),
        decreases fields.len() - i,
    {
        proof {
            let pre = fields@.take(i as int + 1);
            assert(pre.drop_last() =~= fields@.take(i as int));
            assert(pre.last() == fields@[i as int]);
        }
        match &fields[i].1 {
            Json::Array(a) => {
                collect_items(a, out);
                assert(item_views(out@) =~= item_views(old(out)@) + (arrays_items(
                    fields@.take(i as int),
                ) + items_in(a@)));
            },
            _ => {},
        }
        i += 1;
    }
    assert(fields@.take(fields.len() as int) =~= fields@);
}

/// Adds the presets of the categories that are objects to `out`.
fn collect_categories(cats: &Vec<Json>, out: &mut Vec<GenericItem>)
    ensures
        item_views(final(out)@) == item_views(old(out)@) + categories_items(cats@),
{
    let mut i: usize = 0;
    assert(cats@.take(0) =~= Seq::<Json>::empty());
    assert(item_views(out@) =~= item_views(old(out)@) + Seq::<ItemView>::empty());
    while i < cats.len()
        invariant
            i <= cats.len(),
            item_views(out@) == item_views(old(out)@) + categories_items(cats@.take(i as int)),
        decreases cats.len() - i,
    {
        proof {
            let pre = cats@.take(i as int + 1);
            assert(pre.drop_last() =~= cats@.take(i as int));
            assert(pre.last() == cats@[i as int]);
        }
        match &cats[i] {
            Json::Object(fs) => {
                collect_arrays(fs, out);
                assert(item_views(out@) =~= item_views(old(out)@) + (categories_items(
                    cats@.take(i as int),
                ) + arrays_items(fs@)));
            },
            _ => {},
        }
        i += 1;
    }
    assert(cats@.take(cats.len() as int) =~= cats@);
}

/// Adds the presets under one field of a library to `out`.
fn collect_field(v: &Json, out: &mut Vec<GenericItem>)
    ensures
        item_views(final(out)@) == item_views(old(out)@) + field_items(*v),
{
    match v {
        Json::Array(a) => collect_items(a, out),
        Json::Object(fs) => match field_in(fs, "categories") {
            Some(Json::Array(cats)) => collect_categories(cats, out),
            _ => {
                assert(item_views(out@) =~= item_views(old(out)@) + Seq::<ItemView>::empty());
            },
        },
        _ => {
            assert(item_views(out@) =~= item_views(old(out)@) + Seq::<ItemView>::empty());
        },
    }
}

/// Adds the presets under the first field named `name` to `out`.
fn collect_named(fields: &Vec<(String, Json)>, name: &str, out: &mut Vec<GenericItem>)
    ensures
        item_views(final(out)@) == item_views(old(out)@) + named_items(fields@, name@),
{
    match field_in(fields, name) {
        Some(v) => collect_field(v, out),
        None => {
            assert(item_views(out@) =~= item_views(old(out)@) + Seq::<ItemView>::empty());
        },
    }
}

/// Is the field one of those that are looked at first?
fn named_key(k: &str) -> (r: bool)
    ensures
        r == is_named_key(k@),
{
    same_text(k, "poses") || same_text(k, "expressions") || same_text(k, "items")
}

impl GenericLibrary {
    /// The presets of the library: first those under `poses`,
    /// `expressions` and `items`, then those under any other field.
    pub fn extract_items(&self) -> (r: Vec<GenericItem>)
        ensures
            item_views(r@) == library_items(self.data),
    {
        let mut out: Vec<GenericItem> = Vec::new();
        assert(item_views(out@) =~= Seq::<ItemView>::empty());
        match &self.data {
            Json::Object(fs) => {
                collect_named(fs, "poses", &mut out);
                collect_named(fs, "expressions", &mut out);
                collect_named(fs, "items", &mut out);
                let ghost first = item_views(out@);
                let mut i: usize = 0;
                assert(fs@.take(0) =~= Seq::<(String, Json)>::empty());
                assert(item_views(out@) =~= first + Seq::<ItemView>::empty());
                while i < fs.len()
                    invariant
                        i <= fs.len(),
                        item_views(out@) == first + other_items(fs@.take(i as int)),
                    decreases fs.len() - i,
                {
                    proof {
                        let pre = fs@.take(i as int + 1);
                        assert(pre.drop_last() =~= fs@.take(i as int));
                        assert(pre.last() == fs@[i as int]);
                    }
                    if !named_key(fs[i].0.as_str()) {
                        collect_field(&fs[i].1, &mut out);
                        assert(item_views(out@) =~= first + (other_items(fs@.take(i as int))
                            + field_items(fs@[i as int].1)));
                    }
                    i += 1;
                }
                assert(fs@.take(fs.len() as int) =~= fs@);
                assert(item_views(out@) =~= library_items(self.data));
            },
            _ => {},
        }
        out
    }
}

/// The prompt text that a preset is shown with: its own, or else its
/// fallback.
pub open spec fn item_prompt(gi: GenericItem) -> Option<Seq<char>> {
    match gi.prompt {
        Some(p) => Some(p@),
        None => match gi.semantics {
            Some(s) => Some(s.prompt@),
            None => None,
        },
    }
}

/// The text of an optional text.
pub open spec fn opt_view(o: Option<String>) -> Option<Seq<char>> {
    match o {
        Some(s) => Some(s@),
        None => None,
    }
}

/// A preset as the panels show it: named by its id where it has no name,
/// with its own prompt or else its fallback, and with the pose that was
/// made from its stick figure.
pub fn preset_from_item<P>(gi: GenericItem, pose_data: Option<P>) -> (r: PresetItem<P>)
    ensures
        r.id@ == gi.id@,
        r.name@ == (if gi.name@.len() == 0 {
            gi.id@
        } else {
            gi.name@
        }),
        r.description == gi.description,
        r.tags == gi.tags,
        r.pose_data == pose_data,
        opt_view(r.prompt) == item_prompt(gi),
        !r.allow_custom,
{
    let id = gi.id.clone();
    let name = if gi.name.as_str().unicode_len() == 0 {
        gi.id
    } else {
        gi.name
    };
    let prompt = match gi.prompt {
        Some(p) => Some(p),
        None => match gi.semantics {
            Some(s) => Some(s.prompt),
            None => None,
        },
    };
    PresetItem {
        id,
        name,
        description: gi.description,
        tags: gi.tags,
        pose_data,
        prompt,
        allow_custom: false,
    }
}

/// Is the library one of styles? Its key says so.
pub fn is_style_key(key: &str) -> (r: bool)
    ensures
        r == has_substring(key@, "style"@),
{
    contains(key, "style")
}

/// The description of a style: what it adds, and on a new line what it
/// keeps out.
pub open spec fn style_description(positive: Seq<char>, negative: Seq<char>) -> Seq<char> {
    positive + "\nNegative: "@ + negative
}

/// The presets of a library of styles: one for each style, and a last one
/// named `Custom` for a text of the user's own.
pub fn style_presets<P>(lib: &StylesLibrary) -> (r: Vec<PresetItem<P>>)
    ensures
        r@.len() == lib.styles@.len() + 1,
        forall|i: int|
            0 <= i < lib.styles@.len() ==> {
                &&& (#[trigger] r@[i]).id@ == lib.styles@[i].id@
                &&& r@[i].name@ == lib.styles@[i].name@
                &&& r@[i].description@ == style_description(
                    lib.styles@[i].positive@,
                    lib.styles@[i].negative@,
                )
                &&& r@[i].tags@.len() == 0
                &&& r@[i].pose_data.is_none()
                &&& opt_view(r@[i].prompt) == Some(lib.styles@[i].positive@)
                &&& !r@[i].allow_custom
            },
        r@.last().id@ == "Custom"@,
        r@.last().name@ == "Custom"@,
        r@.last().description@.len() == 0,
        r@.last().tags@.len() == 0,
        r@.last().pose_data.is_none(),
        r@.last().prompt.is_none(),
        r@.last().allow_custom,
{
    let mut r: Vec<PresetItem<P>> = Vec::new();
    let mut i: usize = 0;
    while i < lib.styles.len()
        invariant
            i <= lib.styles.len(),
            r@.len() == i,
            forall|j: int|
                0 <= j < i ==> {
                    &&& (#[trigger] r@[j]).id@ == lib.styles@[j].id@
                    &&& r@[j].name@ == lib.styles@[j].name@
                    &&& r@[j].description@ == style_description(
                        lib.styles@[j].positive@,
                        lib.styles@[j].negative@,
                    )
                    &&& r@[j].tags@.len() == 0
                    &&& r@[j].pose_data.is_none()
                    &&& opt_view(r@[j].prompt) == Some(lib.styles@[j].positive@)
                    &&& !r@[j].allow_custom
                },
        decreases lib.styles.len() - i,
    {
        let st = &lib.styles[i];
        let mut description = st.positive.clone();
        description.append("\nNegative: ");
        description.append(st.negative.as_str());
        r.push(
            PresetItem {
                id: st.id.clone(),
                name: st.name.clone(),
                description,
                tags: Vec::new(),
                pose_data: None,
                prompt: Some(st.positive.clone()),
                allow_custom: false,
            },
        );
        i += 1;
    }
    r.push(
        PresetItem {
            id: "Custom".to_owned(),
            name: "Custom".to_owned(),
            description: String::new(),
            tags: Vec::new(),
            pose_data: None,
            prompt: None,
            allow_custom: true,
        },
    );
    r
}

/// Is there a preset named `id`?
pub open spec fn has_item<P>(items: Seq<PresetItem<P>>, id: Seq<char>) -> bool {
    exists|i: int| 0 <= i < items.len() && items[i].id@ == id
}

/// Is there a preset named `id`?
pub fn contains_item<P>(items: &Vec<PresetItem<P>>, id: &str) -> (r: bool)
    ensures
        r == has_item(items@, id@),
{
    let mut i: usize = 0;
    while i < items.len()
        invariant
            i <= items.len(),
            forall|j: int| 0 <= j < i ==> items@[j].id@ != id@,
        decreases items.len() - i,
    {
        if same_text(items[i].id.as_str(), id) {
            return true;
        }
        i += 1;
    }
    false
}

/// The default of the library, where it names a preset of the list.
pub open spec fn default_choice<P>(lib: GenericLibrary, presets: Seq<PresetItem<P>>) -> Option<
    Seq<char>,
> {
    match lib.default {
        Some(d) => if has_item(presets, d@) {
            Some(d@)
        } else {
            None
        },
        None => None,
    }
}

/// Takes a library of presets into the application under `key`: its
/// presets, how its panel behaves, and as the selection its default, where
/// that names one of the presets.
pub fn register_preset_library<P>(
    key: &str,
    lib: &GenericLibrary,
    preset_list: Vec<PresetItem<P>>,
    items: &mut Dict<Vec<PresetItem<P>>>,
    meta: &mut Dict<PresetMetadata>,
    selections: &mut Dict<SelectionState>,
)
    ensures
        final(items)@ == old(items)@.insert(key@, preset_list),
        final(meta)@.dom() == old(meta)@.dom().insert(key@),
        forall|k: Seq<char>| k != key@ && old(meta)@.dom().contains(k) ==> final(meta)@[k] == old(meta)@[k],
        final(meta)@[key@].has_search == lib.has_search,
        final(meta)@[key@].multiple_selection == lib.multiple_selection,
        final(meta)@[key@].use_grid == lib.use_grid,
        final(meta)@[key@].allow_custom.is_none(),
        final(meta)@[key@].include_prompt == lib.include_prompt,
        match default_choice(*lib, preset_list@) {
            Some(d) => {
                &&& final(selections)@.dom() == old(selections)@.dom().insert(key@)
                &&& final(selections)@[key@].selected@.len() == 1
                &&& final(selections)@[key@].selected@[0]@ == d
                &&& final(selections)@[key@].sequence@.len() == 0
                &&& forall|k: Seq<char>|
                    k != key@ && old(selections)@.dom().contains(k) ==> final(selections)@[k]
                        == old(selections)@[k]
            },
            None => *final(selections) == *old(selections),
        },
{
    match &lib.default {
        Some(d) => {
            if contains_item(&preset_list, d.as_str()) {
                let mut selected: Vec<String> = Vec::new();
                selected.push(d.clone());
                selections.insert(key.to_owned(), SelectionState { selected, sequence: Vec::new() });
            }
        },
        None => {},
    }
    let multiple_selection = match &lib.multiple_selection {
        Some(s) => Some(s.clone()),
        None => None,
    };
    meta.insert(
        key.to_owned(),
        PresetMetadata {
            has_search: lib.has_search,
            multiple_selection,
            use_grid: lib.use_grid,
            allow_custom: None,
            include_prompt: lib.include_prompt.clone(),
        },
    );
    items.insert(key.to_owned(), preset_list);
}

/// The pose of the first selection, from index `from` on, whose first
/// preset carries one.
pub open spec fn default_pose_from<P>(
    entries: Seq<(String, SelectionState)>,
    presets: Dict<Vec<PresetItem<P>>>,
    from: int,
) -> Option<P>
    decreases entries.len() - from,
{
    if from < 0 || from >= entries.len() {
        None
    } else {
        let found = if entries[from].1.selected@.len() == 0 {
            None
        } else {
            match presets.value_of(entries[from].0@) {
                Some(items) => find_pose(items@, entries[from].1.selected@[0]@),
                None => None,
            }
        };
        match found {
            Some(p) => Some(p),
            None => default_pose_from(entries, presets, from + 1),
        }
    }
}

/// The pose that the application starts with: that of the first
/// selection whose first preset carries a pose.
pub fn find_default_pose<P: Copy>(
    selections: &Dict<SelectionState>,
    presets: &Dict<Vec<PresetItem<P>>>,
) -> (r: Option<P>)
    ensures
        r == default_pose_from(selections.entries@, *presets, 0),
{
    let mut i: usize = 0;
    while i < selections.entries.len()
        invariant
            i <= selections.entries.len(),
            default_pose_from(selections.entries@, *presets, 0) == default_pose_from(
                selections.entries@,
                *presets,
                i as int,
            ),
        decreases selections.entries.len() - i,
    {
        let entry = &selections.entries[i];
        if entry.1.selected.len() > 0 {
            match presets.get(entry.0.as_str()) {
                Some(items) => match pose_in(items, entry.1.selected[0].as_str()) {
                    Some(p) => {
                        return Some(p);
                    },
                    None => {},
                },
                None => {},
            }
        }
        i += 1;
    }
    None
}

/// What a library is read as.
#[derive(Clone, Copy, Debug, PartialEq, Eq)]
pub enum LoadKind {
    Options,
    Settings,
    Presets,
}

/// A library to read when the application starts: the key it is kept
/// under, the file it comes from, and what it is read as.
#[derive(Debug)]
pub struct LoadRequest {
    pub key: String,
    pub source: String,
    pub kind: LoadKind,
}

/// A request as texts.
pub open spec fn request_view(r: LoadRequest) -> (Seq<char>, Seq<char>, LoadKind) {
    (r.key@, r.source@, r.kind)
}

/// The requests as texts.
pub open spec fn request_views(v: Seq<LoadRequest>) -> Seq<(Seq<char>, Seq<char>, LoadKind)> {
    Seq::new(v.len(), |i: int| request_view(v[i]))
}

/// Is the control one that chooses among presets?
pub open spec fn is_chooser(kind: Seq<char>) -> bool {
    kind == "dropdown"@ || kind == "searchable_dropdown"@
}

/// One request of kind `kind` for each control of the panel that chooses
/// among presets.
pub open spec fn component_requests(
    comps: Seq<crate::library::ComponentConfig>,
    kind: LoadKind,
) -> Seq<(Seq<char>, Seq<char>, LoadKind)>
    decreases comps.len(),
{
    if comps.len() == 0 {
        Seq::empty()
    } else if is_chooser(comps.last().component_type@) {
        component_requests(comps.drop_last(), kind).push(
            (key_of(comps.last().data_source@), comps.last().data_source@, kind),
        )
    } else {
        component_requests(comps.drop_last(), kind)
    }
}

/// What a panel asks for first: the options of an option grid, the
/// settings of a settings panel, or, for a panel with controls, the
/// options of each control that chooses among presets.
pub open spec fn first_requests(p: PanelConfig) -> Seq<(Seq<char>, Seq<char>, LoadKind)> {
    if p.components@.len() == 0 {
        if p.panel_type@ == "options_grid"@ {
            seq![(key_of(p.data_source@), p.data_source@, LoadKind::Options)]
        } else if p.panel_type@ == "controls"@ {
            seq![(key_of(p.data_source@), p.data_source@, LoadKind::Settings)]
        } else {
            Seq::empty()
        }
    } else {
        component_requests(p.components@, LoadKind::Options)
    }
}

/// What a panel asks for second: its presets where it is a preset
/// selector, and those of each of its controls that chooses among
/// presets.
pub open spec fn second_requests(p: PanelConfig) -> Seq<(Seq<char>, Seq<char>, LoadKind)> {
    (if p.panel_type@ == "preset_selector"@ {
        seq![(key_of(p.data_source@), p.data_source@, LoadKind::Presets)]
    } else {
        Seq::empty()
    }) + component_requests(p.components@, LoadKind::Presets)
}

/// What the panels ask for first, panel after panel.
pub open spec fn all_first(panels: Seq<PanelConfig>) -> Seq<(Seq<char>, Seq<char>, LoadKind)>
    decreases panels.len(),
{
    if panels.len() == 0 {
        Seq::empty()
    } else {
        all_first(panels.drop_last()) + first_requests(panels.last())
    }
}

/// What the panels ask for second, panel after panel.
pub open spec fn all_second(panels: Seq<PanelConfig>) -> Seq<(Seq<char>, Seq<char>, LoadKind)>
    decreases panels.len(),
{
    if panels.len() == 0 {
        Seq::empty()
    } else {
        all_second(panels.drop_last()) + second_requests(panels.last())
    }
}

/// Adds one request to `out`.
fn push_request(out: &mut Vec<LoadRequest>, source: &str, kind: LoadKind)
    ensures
        request_views(final(out)@) == request_views(old(out)@).push(
            (key_of(source@), source@, kind),
        ),
{
    let ghost before = request_views(out@);
    let key = trim_end_matches(source, ".json");
    out.push(LoadRequest { key, source: source.to_owned(), kind });
    assert(request_views(out@) =~= before.push((key_of(source@), source@, kind)));
}

/// Adds one request for each control that chooses among presets to `out`.
fn push_component_requests(
    out: &mut Vec<LoadRequest>,
    comps: &Vec<crate::library::ComponentConfig>,
    kind: LoadKind,
)
    ensures
        request_views(final(out)@) == request_views(old(out)@) + component_requests(comps@, kind),
{
    let mut i: usize = 0;
    assert(comps@.take(0) =~= Seq::<crate::library::ComponentConfig>::empty());
    assert(request_views(out@) =~= request_views(old(out)@) + Seq::<
        (Seq<char>, Seq<char>, LoadKind),
    >::empty());
    while i < comps.len()
        invariant
            i <= comps.len(),
            request_views(out@) == request_views(old(out)@) + component_requests(
                comps@.take(i as int),
                kind,
            ),
        decreases comps.len() - i,
    {
        proof {
            let pre = comps@.take(i as int + 1);
            assert(pre.drop_last() =~= comps@.take(i as int));
            assert(pre.last() == comps@[i as int]);
        }
        let c = &comps[i];
        if same_text(c.component_type.as_str(), "dropdown") || same_text(
            c.component_type.as_str(),
            "searchable_dropdown",
        ) {
            push_request(out, c.data_source.as_str(), kind);
            assert(request_views(out@) =~= request_views(old(out)@) + component_requests(
                comps@.take(i as int),
                kind,
            ).push((key_of(c.data_source@), c.data_source@, kind)));
        }
        i += 1;
    }
    assert(comps@.take(comps.len() as int) =~= comps@);
}

/// The libraries to read when the application starts, in the order in
/// which to read them: first what every panel needs of options and
/// settings, then the presets.
pub fn load_plan(config: &UiConfig) -> (r: Vec<LoadRequest>)
    ensures
        request_views(r@) == all_first(config.panels@) + all_second(config.panels@),
{
    let mut out: Vec<LoadRequest> = Vec::new();
    let panels = &config.panels;
    assert(request_views(out@) =~= Seq::<(Seq<char>, Seq<char>, LoadKind)>::empty());
    let mut i: usize = 0;
    assert(panels@.take(0) =~= Seq::<PanelConfig>::empty());
    while i < panels.len()
        invariant
            i <= panels.len(),
            request_views(out@) == all_first(panels@.take(i as int)),
        decreases panels.len() - i,
    {
        proof {
            let pre = panels@.take(i as int + 1);
            assert(pre.drop_last() =~= panels@.take(i as int));
            assert(pre.last() == panels@[i as int]);
        }
        let p = &panels[i];
        let ghost before = request_views(out@);
        if p.components.len() == 0 {
            if same_text(p.panel_type.as_str(), "options_grid") {
                push_request(&mut out, p.data_source.as_str(), LoadKind::Options);
            } else if same_text(p.panel_type.as_str(), "controls") {
                push_request(&mut out, p.data_source.as_str(), LoadKind::Settings);
            }
        } else {
            push_component_requests(&mut out, &p.components, LoadKind::Options);
        }
        assert(request_views(out@) =~= before + first_requests(*p));
        i += 1;
    }
    assert(panels@.take(panels.len() as int) =~= panels@);
    let ghost first = request_views(out@);
    let mut i: usize = 0;
    assert(request_views(out@) =~= first + Seq::<(Seq<char>, Seq<char>, LoadKind)>::empty());
    while i < panels.len()
        invariant
            i <= panels.len(),
            request_views(out@) == first + all_second(panels@.take(i as int)),
        decreases panels.len() - i,
    {
        proof {
            let pre = panels@.take(i as int + 1);
            assert(pre.drop_last() =~= panels@.take(i as int));
            assert(pre.last() == panels@[i as int]);
        }
        let p = &panels[i];
        let ghost before = request_views(out@);
        if same_text(p.panel_type.as_str(), "preset_selector") {
            push_request(&mut out, p.data_source.as_str(), LoadKind::Presets);
        }
        let ghost mid = request_views(out@);
        push_component_requests(&mut out, &p.components, LoadKind::Presets);
        assert(request_views(out@) =~= before + second_requests(*p));
        assert(request_views(out@) =~= first + (all_second(panels@.take(i as int))
            + second_requests(*p)));
        i += 1;
    }
    assert(panels@.take(panels.len() as int) =~= panels@);
    out
}

/// Is `source` the data source of one of the controls?
pub open spec fn control_names(comps: Seq<crate::library::ComponentConfig>, source: Seq<char>) -> bool {
    exists|j: int| 0 <= j < comps.len() && comps[j].data_source@ == source
}

/// Is `source` the data source of a panel of the tree, or of a control of
/// one of its panels?
pub open spec fn tree_names(panels: Seq<PanelConfig>, source: Seq<char>) -> bool {
    exists|i: int|
        0 <= i < panels.len() && (panels[i].data_source@ == source || control_names(
            panels[i].components@,
            source,
        ))
}

/// Every request for a control names the data source of a control.
proof fn lemma_component_requests_name_controls(
    comps: Seq<crate::library::ComponentConfig>,
    kind: LoadKind,
    k: int,
)
    requires
        0 <= k < component_requests(comps, kind).len(),
    ensures
        control_names(comps, component_requests(comps, kind)[k].1),
    decreases comps.len(),
{
    let head = comps.drop_last();
    let before = component_requests(head, kind);
    if k < before.len() {
        lemma_component_requests_name_controls(head, kind, k);
        let j = choose|j: int| 0 <= j < head.len() && head[j].data_source@ == before[k].1;
        assert(comps[j].data_source@ == component_requests(comps, kind)[k].1);
    } else {
        assert(comps[comps.len() - 1].data_source@ == component_requests(comps, kind)[k].1);
    }
}

/// Every request of a panel names the data source of the panel or of one
/// of its controls.
proof fn lemma_panel_requests_name_panel(p: PanelConfig, second: bool, k: int)
    requires
        0 <= k < (if second {
            second_requests(p)
        } else {
            first_requests(p)
        }).len(),
    ensures
        ({
            let source = (if second {
                second_requests(p)
            } else {
                first_requests(p)
            })[k].1;
            source == p.data_source@ || control_names(p.components@, source)
        }),
{
    if second {
        let own = second_requests(p).len() - component_requests(p.components@, LoadKind::Presets).len();
        if k >= own {
            lemma_component_requests_name_controls(p.components@, LoadKind::Presets, k - own);
        }
    } else if p.components@.len() > 0 {
        lemma_component_requests_name_controls(p.components@, LoadKind::Options, k);
    }
}

/// Every request of the panels names a data source of the tree.
proof fn lemma_requests_name_tree(panels: Seq<PanelConfig>, second: bool, k: int)
    requires
        0 <= k < (if second {
            all_second(panels)
        } else {
            all_first(panels)
        }).len(),
    ensures
        tree_names(
            panels,
            (if second {
                all_second(panels)
            } else {
                all_first(panels)
            })[k].1,
        ),
    decreases panels.len(),
{
    let head = panels.drop_last();
    let before = if second {
        all_second(head)
    } else {
        all_first(head)
    };
    if k < before.len() {
        lemma_requests_name_tree(head, second, k);
        let i = choose|i: int|
            0 <= i < head.len() && (head[i].data_source@ == before[k].1 || control_names(
                head[i].components@,
                before[k].1,
            ));
        assert(panels[i] == head[i]);
    } else {
        lemma_panel_requests_name_panel(panels.last(), second, k - before.len());
        assert(panels[panels.len() - 1] == panels.last());
    }
}

/// The libraries that are read at the start are those that the panel tree
/// names and no others: every request of the plan is for the data source
/// of a panel or of a control. So where every data source of the tree is a
/// registered asset, every library of the plan is found.
pub proof fn lemma_plan_names_only_the_tree(config: UiConfig, k: int)
    requires
        0 <= k < (all_first(config.panels@) + all_second(config.panels@)).len(),
    ensures
        tree_names(config.panels@, (all_first(config.panels@) + all_second(config.panels@))[k].1),
{
    let first = all_first(config.panels@);
    if k < first.len() {
        lemma_requests_name_tree(config.panels@, false, k);
    } else {
        lemma_requests_name_tree(config.panels@, true, k - first.len());
    }
}

} // verus!
