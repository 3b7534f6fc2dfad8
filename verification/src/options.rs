//! Option grids: categories of values to choose from, the rule that shows
//! or hides a category, and the values currently chosen.

use vstd::prelude::*;
use vstd::string::*;
use crate::dict::{first_index, has_key, is_first, Dict};
use crate::text::same_text;

verus! {

/// One choice of a category: the value that is stored and the text shown.
#[derive(Clone, Debug)]
pub struct OptionValue {
    pub value: String,
    pub display: String,
}

/// Shows a category only while another option of the same panel holds a
/// matching value. `condition` is `field_equals`, `field_in` or
/// `field_not_equals`.
#[derive(Clone, Debug)]
pub struct VisibilityRule {
    pub condition: String,
    pub field: String,
    pub value: Option<String>,
    pub values: Vec<String>,
}

/// One row of an option grid.
#[derive(Clone, Debug)]
pub struct OptionCategory {
    pub id: String,
    pub label: String,
    pub options: Vec<OptionValue>,
    pub allow_custom: bool,
    pub default: String,
    pub is_text_field: bool,
    pub group: Option<String>,
    pub has_search: Option<bool>,
    pub visibility: Option<VisibilityRule>,
}

/// The categories of one option grid, and when their values enter the
/// prompt: `always`, `video` or `image`.
#[derive(Clone, Debug)]
pub struct OptionsLibrary {
    pub categories: Vec<OptionCategory>,
    pub include_prompt: String,
}

/// The chosen value of each category of one option grid, by category id.
#[derive(Debug)]
pub struct OptionsData {
    pub values: Dict<String>,
}

/// The policy of a library that names none.
pub open spec fn always_text() -> Seq<char> {
    seq!['a', 'l', 'w', 'a', 'y', 's']
}

/// The policy of a library that names none: `always`.
pub fn default_include_prompt() -> (s: String)
    ensures
        s@ == always_text(),
{
    proof {
        reveal_strlit("always");
    }
    let s = "always".to_owned();
    assert(s@ =~= always_text());
    s
}

/// The text shown for `value`: the display text of the first option that
/// stores it, or `value` itself where no option does.
pub open spec fn display_text(options: Seq<OptionValue>, value: Seq<char>) -> Seq<char>
    decreases options.len(),
{
    if options.len() == 0 {
        value
    } else if options[0].value@ == value {
        options[0].display@
    } else {
        display_text(options.drop_first(), value)
    }
}

/// `wanted` is among the texts.
pub open spec fn among(texts: Seq<String>, wanted: Seq<char>) -> bool {
    exists|i: int| 0 <= i < texts.len() && texts[i]@ == wanted
}

/// The text of a value looked up in the chosen values: empty where the
/// field has none.
pub open spec fn field_text(values: Map<Seq<char>, String>, field: Seq<char>) -> Seq<char> {
    if values.dom().contains(field) {
        values[field]@
    } else {
        Seq::empty()
    }
}

pub open spec fn field_equals_text() -> Seq<char> {
    seq!['f', 'i', 'e', 'l', 'd', '_', 'e', 'q', 'u', 'a', 'l', 's']
}

pub open spec fn field_in_text() -> Seq<char> {
    seq!['f', 'i', 'e', 'l', 'd', '_', 'i', 'n']
}

pub open spec fn field_not_equals_text() -> Seq<char> {
    seq!['f', 'i', 'e', 'l', 'd', '_', 'n', 'o', 't', '_', 'e', 'q', 'u', 'a', 'l', 's']
}

/// Does the rule let its category show, given the chosen values? A rule
/// that compares with a value it does not name, or whose condition is not
/// one of the three, hides nothing.
pub open spec fn rule_holds(rule: VisibilityRule, values: Map<Seq<char>, String>) -> bool {
    let current = field_text(values, rule.field@);
    if rule.condition@ == field_equals_text() {
        match rule.value {
            Some(v) => current == v@,
            None => true,
        }
    } else if rule.condition@ == field_in_text() {
        among(rule.values@, current)
    } else if rule.condition@ == field_not_equals_text() {
        match rule.value {
            Some(v) => current != v@,
            None => true,
        }
    } else {
        true
    }
}

/// Is the category shown, given the chosen values?
pub open spec fn category_shown(cat: OptionCategory, values: Map<Seq<char>, String>) -> bool {
    match cat.visibility {
        Some(rule) => rule_holds(rule, values),
        None => true,
    }
}

/// The chosen values that a library starts with: each category's default
/// under its id, a later category replacing an earlier one of the same id.
pub open spec fn default_values(cats: Seq<OptionCategory>) -> Map<Seq<char>, String>
    decreases cats.len(),
{
    if cats.len() == 0 {
        Map::empty()
    } else {
        default_values(cats.drop_last()).insert(cats.last().id@, cats.last().default)
    }
}

/// Is `wanted` among the texts?
pub fn contains_text(texts: &Vec<String>, wanted: &str) -> (r: bool)
    ensures
        r == among(texts@, wanted@),
{
    let mut i: usize = 0;
    while i < texts.len()
        invariant
            i <= texts.len(),
            forall|j: int| 0 <= j < i ==> texts@[j]@ != wanted@,
        decreases texts.len() - i,
    {
        if same_text(texts[i].as_str(), wanted) {
            return true;
        }
        i += 1;
    }
    false
}

impl OptionsData {
    /// No values chosen.
    pub fn new() -> (r: Self)
        ensures
            r.values@ == Map::<Seq<char>, String>::empty(),
            r.values.wf(),
    {
        OptionsData { values: Dict::new() }
    }

    /// The values that a library starts with.
    pub fn from_library(lib: &OptionsLibrary) -> (r: Self)
        ensures
            r.values@ == default_values(lib.categories@),
            r.values.wf(),
    {
        let mut values: Dict<String> = Dict::new();
        let mut i: usize = 0;
        while i < lib.categories.len()
            invariant
                i <= lib.categories.len(),
                values.wf(),
                values@ == default_values(lib.categories@.take(i as int)),
            decreases lib.categories.len() - i,
        {
            let cat = &lib.categories[i];
            proof {
                let pre = lib.categories@.take(i as int + 1);
                assert(pre.drop_last() =~= lib.categories@.take(i as int));
                assert(pre.last() == lib.categories@[i as int]);
            }
            values.insert(cat.id.clone(), cat.default.clone());
            i += 1;
        }
        assert(lib.categories@.take(lib.categories.len() as int) =~= lib.categories@);
        OptionsData { values }
    }

    /// The value chosen for `id`, empty where none is.
    pub fn get(&self, id: &str) -> (r: &str)
        ensures
            r@ == field_text(self.values@, id@),
    {
        match self.values.get(id) {
            Some(s) => s.as_str(),
            None => {
                let e = "";
                proof {
                    reveal_strlit("");
                }
                assert(e@ =~= Seq::<char>::empty());
                e
            },
        }
    }

    /// The value chosen for `id`, to be changed in place.
    pub fn get_mut(&mut self, id: &str) -> (r: Option<&mut String>)
        ensures
            match r {
                Some(v) => {
                    let i = first_index(old(self).values.entries@, id@);
                    &&& is_first(old(self).values.entries@, id@, i)
                    &&& *v == old(self).values.entries@[i].1
                    &&& final(self).values.entries@ == old(self).values.entries@.update(
                        i,
                        (old(self).values.entries@[i].0, *final(v)),
                    )
                },
                None => !has_key(old(self).values.entries@, id@) && *final(self) == *old(self),
            },
    {
        self.values.get_mut(id)
    }
}

impl OptionCategory {
    /// The text shown for `value`: the display text of the first option
    /// that stores it, or `value` itself.
    pub fn get_display_text(&self, value: &str) -> (r: String)
        ensures
            r@ == display_text(self.options@, value@),
    {
        let mut i: usize = 0;
        assert(self.options@.skip(0) =~= self.options@);
        while i < self.options.len()
            invariant
                i <= self.options.len(),
                display_text(self.options@, value@) == display_text(
                    self.options@.skip(i as int),
                    value@,
                ),
            decreases self.options.len() - i,
        {
            proof {
                let rest = self.options@.skip(i as int);
                assert(rest[0] == self.options@[i as int]);
                assert(rest.drop_first() =~= self.options@.skip(i as int + 1));
            }
            if same_text(self.options[i].value.as_str(), value) {
                return self.options[i].display.clone();
            }
            i += 1;
        }
        value.to_owned()
    }

    /// Is the category shown, given the chosen values?
    pub fn should_show(&self, data: &OptionsData) -> (r: bool)
        ensures
            r == category_shown(*self, data.values@),
    {
        match &self.visibility {
            None => true,
            Some(rule) => {
                proof {
                    reveal_strlit("field_equals");
                    reveal_strlit("field_in");
                    reveal_strlit("field_not_equals");
                }
                assert("field_equals"@ =~= field_equals_text());
                assert("field_in"@ =~= field_in_text());
                assert("field_not_equals"@ =~= field_not_equals_text());
                let current = data.get(rule.field.as_str());
                if same_text(rule.condition.as_str(), "field_equals") {
                    match &rule.value {
                        Some(v) => same_text(current, v.as_str()),
                        None => true,
                    }
                } else if same_text(rule.condition.as_str(), "field_in") {
                    contains_text(&rule.values, current)
                } else if same_text(rule.condition.as_str(), "field_not_equals") {
                    match &rule.value {
                        Some(v) => !same_text(current, v.as_str()),
                        None => true,
                    }
                } else {
                    true
                }
            },
        }
    }
}

} // verus!
