//! The schema of the presets of the settings: choices that set several
//! settings at once, and mirrors of single settings.

use std::collections::{HashMap, HashSet};
use vstd::prelude::*;

verus! {

/// The kind of control that `settings_schema` shows for a choice. Nothing of
/// its inside is known here.
#[verifier::external_type_specification]
#[verifier::external_body]
pub struct ExChoiceControlType(settings_schema::ChoiceControlType);

/// What a preset does to one setting.
#[derive(Clone)]
pub enum PresetModifierOperation {
    /// The setting takes this value.
    Assign(serde_json::Value),
}

/// One change that an option of a choice makes.
pub struct PresetModifier {
    /// The path of the setting, in the form that the session uses.
    pub target_path: String,
    pub operation: PresetModifierOperation,
}

/// One option of a choice, with the changes that it makes.
pub struct HigherOrderChoiceOption {
    pub display_name: String,
    pub modifiers: Vec<PresetModifier>,
}

/// A choice among options that each set several settings.
pub struct HigherOrderChoiceSchema {
    pub name: String,
    pub strings: HashMap<String, String>,
    pub flags: HashSet<String>,
    pub options: Vec<HigherOrderChoiceOption>,
    pub default_option_index: usize,
    pub gui: settings_schema::ChoiceControlType,
}

/// A single setting shown among the presets.
pub struct MirrorSchema {
    /// The path of the setting, in the form that the session uses.
    pub path: String,
    pub name_override: Option<String>,
    pub strings_override: HashMap<String, String>,
    pub flags_override: HashSet<String>,
}

/// An entry of the presets.
pub enum PresetSchema {
    Choice(HigherOrderChoiceSchema),
    Mirror(MirrorSchema),
    GameAudioPlaceholder,
    MicrophonePlaceholder,
}

} // verus!
