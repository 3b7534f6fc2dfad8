//! Where the application keeps its files: a folder of its own under the
//! user's folder for application data, which differs between systems.

use vstd::prelude::*;
use vstd::string::*;

verus! {

/// The kinds of system that keep application data in different places.
#[derive(Clone, Copy, Debug, PartialEq, Eq)]
pub enum Platform {
    Windows,
    MacOs,
    Other,
}

/// The variable of the environment that names the folder to start from.
pub open spec fn base_variable_text(p: Platform) -> Seq<char> {
    match p {
        Platform::Windows => "APPDATA"@,
        _ => "HOME"@,
    }
}

/// What is put behind the folder to start from.
pub open spec fn data_suffix(p: Platform) -> Seq<char> {
    match p {
        Platform::Windows => Seq::empty(),
        Platform::MacOs => "/Library/Application Support"@,
        Platform::Other => "/.config"@,
    }
}

/// The folder of the application: the folder for application data, which
/// is the working folder where the environment names none, and in it
/// `PromptPuppet`.
pub open spec fn app_dir_text(p: Platform, base: Option<Seq<char>>) -> Seq<char> {
    (match base {
        Some(b) => b + data_suffix(p),
        None => "."@,
    }) + "/PromptPuppet"@
}

/// The file of the saved states in the folder `dir`.
pub open spec fn saves_file_text(dir: Seq<char>) -> Seq<char> {
    dir + "/promptpuppet_saves.json"@
}

/// The file of the theme in the folder `dir`.
pub open spec fn theme_file_text(dir: Seq<char>) -> Seq<char> {
    dir + "/promptpuppet_theme.json"@
}

/// The variable of the environment that names the folder to start from.
pub fn base_variable(p: Platform) -> (r: &'static str)
    ensures
        r@ == base_variable_text(p),
{
    match p {
        Platform::Windows => "APPDATA",
        _ => "HOME",
    }
}

/// The folder of the application, given what the environment names as the
/// folder to start from.
pub fn get_app_dir(p: Platform, base: Option<&str>) -> (r: String)
    ensures
        r@ == app_dir_text(
            p,
            match base {
                Some(b) => Some(b@),
                None => None,
            },
        ),
{
    let mut out = match base {
        Some(b) => {
            let mut s = b.to_owned();
            match p {
                Platform::Windows => {
                    assert(s@ =~= b@ + Seq::<char>::empty());
                },
                Platform::MacOs => {
                    s.append("/Library/Application Support");
                },
                Platform::Other => {
                    s.append("/.config");
                },
            }
            s
        },
        None => ".".to_owned(),
    };
    out.append("/PromptPuppet");
    out
}

/// The file of the saved states in the folder `dir`.
pub fn saves_file(dir: &str) -> (r: String)
    ensures
        r@ == saves_file_text(dir@),
{
    let mut out = dir.to_owned();
    out.append("/promptpuppet_saves.json");
    out
}

/// The file of the theme in the folder `dir`.
pub fn theme_file(dir: &str) -> (r: String)
    ensures
        r@ == theme_file_text(dir@),
{
    let mut out = dir.to_owned();
    out.append("/promptpuppet_theme.json");
    out
}

} // verus!
