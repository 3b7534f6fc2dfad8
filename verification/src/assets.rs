//! The registry of the data files that are built into the program. A file
//! is found by its name; a name that is not registered is answered with a
//! message that says so.

use vstd::prelude::*;
use vstd::string::*;
use crate::text::same_text;

verus! {

/// The data files that are built in.
#[derive(Clone, Copy, Debug, PartialEq, Eq)]
pub enum Asset {
    UiConfig,
    CharacterAttributes,
    Clothing,
    Styles,
    Motion,
    Global,
    Poses,
    Expressions,
    Environments,
    Skeleton,
}

/// The name under which a file is registered.
pub open spec fn asset_name(a: Asset) -> Seq<char> {
    match a {
        Asset::UiConfig => "ui_config.json"@,
        Asset::CharacterAttributes => "character_attributes.json"@,
        Asset::Clothing => "clothing.json"@,
        Asset::Styles => "styles.json"@,
        Asset::Motion => "motion.json"@,
        Asset::Global => "global.json"@,
        Asset::Poses => "poses.json"@,
        Asset::Expressions => "expressions.json"@,
        Asset::Environments => "environments.json"@,
        Asset::Skeleton => "skeleton.json"@,
    }
}

/// Is a file registered under `name`?
pub open spec fn is_registered(name: Seq<char>) -> bool {
    exists|a: Asset| asset_name(a) == name
}

/// What is said of a name that is not registered.
pub open spec fn not_registered_message(name: Seq<char>) -> Seq<char> {
    "Asset '"@ + name + "' not registered. Add it to the embedding table."@
}

/// What is said of a file that could not be read as what it should hold.
pub open spec fn parse_error_text(name: Seq<char>, detail: Seq<char>) -> Seq<char> {
    "Parse error in "@ + name + ": "@ + detail
}

/// No two files share a name.
pub proof fn lemma_asset_names_differ(a: Asset, b: Asset)
    requires
        asset_name(a) == asset_name(b),
    ensures
        a == b,
{
    reveal_strlit("ui_config.json");
    reveal_strlit("character_attributes.json");
    reveal_strlit("clothing.json");
    reveal_strlit("styles.json");
    reveal_strlit("motion.json");
    reveal_strlit("global.json");
    reveal_strlit("poses.json");
    reveal_strlit("expressions.json");
    reveal_strlit("environments.json");
    reveal_strlit("skeleton.json");
    let x = asset_name(a);
    let y = asset_name(b);
    assert(x.len() == y.len());
    assert(x[0] == y[0]);
    assert(x[1] == y[1]);
}

/// The name under which a file is registered.
pub fn asset_file_name(a: Asset) -> (r: &'static str)
    ensures
        r@ == asset_name(a),
{
    match a {
        Asset::UiConfig => "ui_config.json",
        Asset::CharacterAttributes => "character_attributes.json",
        Asset::Clothing => "clothing.json",
        Asset::Styles => "styles.json",
        Asset::Motion => "motion.json",
        Asset::Global => "global.json",
        Asset::Poses => "poses.json",
        Asset::Expressions => "expressions.json",
        Asset::Environments => "environments.json",
        Asset::Skeleton => "skeleton.json",
    }
}

/// The file registered under `name`, or the message that none is.
pub fn asset(name: &str) -> (r: Result<Asset, String>)
    ensures
        match r {
            Ok(a) => asset_name(a) == name@,
            Err(e) => !is_registered(name@) && e@ == not_registered_message(name@),
        },
{
    if same_text(name, "ui_config.json") {
        Ok(Asset::UiConfig)
    } else if same_text(name, "character_attributes.json") {
        Ok(Asset::CharacterAttributes)
    } else if same_text(name, "clothing.json") {
        Ok(Asset::Clothing)
    } else if same_text(name, "styles.json") {
        Ok(Asset::Styles)
    } else if same_text(name, "motion.json") {
        Ok(Asset::Motion)
    } else if same_text(name, "global.json") {
        Ok(Asset::Global)
    } else if same_text(name, "poses.json") {
        Ok(Asset::Poses)
    } else if same_text(name, "expressions.json") {
        Ok(Asset::Expressions)
    } else if same_text(name, "environments.json") {
        Ok(Asset::Environments)
    } else if same_text(name, "skeleton.json") {
        Ok(Asset::Skeleton)
    } else {
        assert(!is_registered(name@)) by {
            assert forall|a: Asset| asset_name(a) != name@ by {}
        }
        let mut msg = "Asset '".to_owned();
        msg.append(name);
        msg.append("' not registered. Add it to the embedding table.");
        Err(msg)
    }
}

/// What is said of the file `name` when it could not be read: `detail` is
/// what the reader said.
pub fn parse_error_message(name: &str, detail: &str) -> (r: String)
    ensures
        r@ == parse_error_text(name@, detail@),
{
    let mut msg = "Parse error in ".to_owned();
    msg.append(name);
    msg.append(": ");
    msg.append(detail);
    msg
}

/// Looking a file up by its own name finds it.
pub proof fn lemma_registered_names_resolve(a: Asset, found: Result<Asset, String>)
    requires
        match found {
            Ok(b) => asset_name(b) == asset_name(a),
            Err(e) => !is_registered(asset_name(a)),
        },
    ensures
        found == Ok::<Asset, String>(a),
{
    match found {
        Ok(b) => {
            lemma_asset_names_differ(b, a);
        },
        Err(e) => {
            assert(asset_name(a) == asset_name(a));
        },
    }
}

} // verus!
