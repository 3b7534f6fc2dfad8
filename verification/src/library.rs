//! The shapes of the data files: the panel tree, and the libraries of
//! styles, settings and presets that the panels draw on.

use vstd::prelude::*;
use crate::dict::Dict;
use crate::json::{Json, Number, Scalar};
use crate::options::OptionValue;

verus! {

/// One style: the text it adds to a prompt and the text it keeps out.
#[derive(Clone, Debug)]
pub struct StyleEntry {
    pub id: String,
    pub name: String,
    pub positive: String,
    pub negative: String,
}

/// The styles to choose from.
#[derive(Clone, Debug)]
pub struct StylesLibrary {
    pub styles: Vec<StyleEntry>,
}

/// One control of a settings panel: a `slider` between `min` and `max`, or
/// a `dropdown` over `options`.
#[derive(Debug)]
pub struct SettingEntry {
    pub id: String,
    pub label: String,
    pub setting_type: String,
    pub min: Option<Number>,
    pub max: Option<Number>,
    pub options: Vec<OptionValue>,
    pub default: Scalar,
}

/// The controls of one settings panel, and when their values enter the
/// prompt: `always`, `video` or `image`.
#[derive(Debug)]
pub struct SettingsLibrary {
    pub settings: Vec<SettingEntry>,
    pub include_prompt: String,
}

/// A prompt text kept beside a preset, used where the preset names none.
#[derive(Clone, Debug)]
pub struct Semantics {
    pub prompt: String,
}

/// A pose as named points, each with its coordinates: two or three in a
/// well-made figure. The points keep the order of the document; a name is
/// looked up as the first point that carries it.
#[derive(Debug)]
pub struct StickFigure {
    pub points: Dict<Vec<Number>>,
}

/// One preset of a library.
#[derive(Debug)]
pub struct GenericItem {
    pub id: String,
    pub name: String,
    pub description: String,
    pub tags: Vec<String>,
    pub prompt: Option<String>,
    pub stick_figure: Option<StickFigure>,
    pub semantics: Option<Semantics>,
}

/// A library of presets: how its panel behaves, and the JSON that holds
/// the presets themselves.
#[derive(Debug)]
pub struct GenericLibrary {
    pub has_search: Option<bool>,
    pub multiple_selection: Option<String>,
    pub use_grid: Option<bool>,
    pub include_prompt: String,
    pub default: Option<String>,
    pub data: Json,
}

/// One control of a composite panel: a `dropdown` or a
/// `searchable_dropdown` over the presets of `data_source`.
#[derive(Clone, Debug)]
pub struct ComponentConfig {
    pub label: String,
    pub component_type: String,
    pub data_source: String,
}

/// One panel: `options_grid`, `controls`, `preset_selector`, `composite` or
/// `sequence`.
#[derive(Clone, Debug)]
pub struct PanelConfig {
    pub title: String,
    pub panel_type: String,
    pub data_source: String,
    pub default_open: bool,
    pub components: Vec<ComponentConfig>,
}

/// The panels, in the order in which they are shown and read.
#[derive(Clone, Debug)]
pub struct UiConfig {
    pub panels: Vec<PanelConfig>,
}

} // verus!
