//! Catalog records. The catalog itself (a structured text file) is parsed by
//! an external collaborator; this module only models the records the
//! download subsystem reads.

use vstd::prelude::*;
use vstd::string::StringExecFns;

verus! {

/// Spec-level image of a catalog record.
pub struct SoundView {
    pub id: Seq<char>,
    pub name: Seq<char>,
    pub category: Seq<char>,
    pub file_path: Seq<char>,
    pub volume_permille: int,
    pub icon: Seq<char>,
    pub url: Option<Seq<char>>,
    pub error_state: bool,
}

/// One catalog record: a sound with a display name, a category, an icon
/// glyph, a target file path, an optional source URL, and a playback volume
/// kept in thousandths of linear volume.
#[derive(Debug)]
pub struct Sound {
    pub id: String,
    pub name: String,
    pub category: String,
    pub file_path: String,
    pub volume_permille: u32,
    pub icon: String,
    pub url: Option<String>,
    pub error_state: bool,
}

impl View for Sound {
    type V = SoundView;

    open spec fn view(&self) -> SoundView {
        SoundView {
            id: self.id@,
            name: self.name@,
            category: self.category@,
            file_path: self.file_path@,
            volume_permille: self.volume_permille as int,
            icon: self.icon@,
            url: match self.url {
                Some(u) => Some(u@),
                None => None,
            },
            error_state: self.error_state,
        }
    }
}

impl DeepView for Sound {
    type V = SoundView;

    open spec fn deep_view(&self) -> SoundView {
        self.view()
    }
}

/// The placeholder glyph a record gets when no icon was configured.
pub fn default_icon() -> (r: String)
    ensures
        r@ == "🎵"@,
{
    String::from_str("🎵")
}

/// The playback volume a record gets when none was configured, in
/// thousandths of linear volume.
pub fn default_volume_permille() -> (r: u32)
    ensures
        r == 500,
{
    500
}

} // verus!
