//! Values exchanged with callers: prompt sources, errors, resolved prompts and
//! preset listings, each with a view over plain sequences.
use vstd::prelude::*;

use crate::catalog::PromptId;

verus! {

/// Where a session reads its prompt bodies from.
#[derive(Debug, Clone, PartialEq, Eq)]
pub enum PromptSource {
    /// Pure built-in templates; on-disk overrides are ignored.
    Defaults,
    /// The unnamed scratch overrides.
    Scratch,
    /// A named preset.
    Preset(String),
}

/// Abstract value of a [`PromptSource`].
pub enum SourceView {
    Defaults,
    Scratch,
    Preset(Seq<char>),
}

impl View for PromptSource {
    type V = SourceView;

    open spec fn view(&self) -> SourceView {
        match self {
            PromptSource::Defaults => SourceView::Defaults,
            PromptSource::Scratch => SourceView::Scratch,
            PromptSource::Preset(n) => SourceView::Preset(n@),
        }
    }
}

/// Preset name of a source, when it is a named preset.
pub open spec fn source_preset_name(s: SourceView) -> Option<Seq<char>> {
    match s {
        SourceView::Preset(n) => Some(n),
        _ => None,
    }
}

/// Short label of a source for status lines.
pub open spec fn source_label(s: SourceView) -> Seq<char> {
    match s {
        SourceView::Defaults => "built-in defaults"@,
        SourceView::Scratch => "unnamed overrides"@,
        SourceView::Preset(n) => n,
    }
}

impl PromptSource {
    /// Preset name, when this source is a named preset.
    pub fn preset_name(&self) -> (r: Option<&str>)
        ensures
            r matches Some(n) ==> source_preset_name(self@) == Some(n@),
            r is None ==> source_preset_name(self@) is None,
    {
        match self {
            PromptSource::Preset(name) => Some(name.as_str()),
            _ => None,
        }
    }

    /// Short label for status lines / the browser subtitle.
    pub fn label(&self) -> (r: String)
        ensures
            r@ == source_label(self@),
    {
        match self {
            PromptSource::Defaults => String::from_str("built-in defaults"),
            PromptSource::Scratch => String::from_str("unnamed overrides"),
            PromptSource::Preset(name) => name.clone(),
        }
    }

    /// A copy of this source.
    pub fn duplicate(&self) -> (r: PromptSource)
        ensures
            r@ == self@,
    {
        match self {
            PromptSource::Defaults => PromptSource::Defaults,
            PromptSource::Scratch => PromptSource::Scratch,
            PromptSource::Preset(name) => PromptSource::Preset(name.clone()),
        }
    }

    /// Whether two sources are the same.
    pub fn same_as(&self, other: &PromptSource) -> (r: bool)
        ensures
            r == (self@ == other@),
    {
        match (self, other) {
            (PromptSource::Defaults, PromptSource::Defaults) => true,
            (PromptSource::Scratch, PromptSource::Scratch) => true,
            (PromptSource::Preset(a), PromptSource::Preset(b)) => crate::text::str_eq(a.as_str(), b.as_str()),
            _ => false,
        }
    }
}

/// Errors of catalog operations.
#[derive(Debug)]
pub enum PromptCatalogError {
    UnknownId(String),
    NoGrokHome,
    InvalidPresetName(String),
    PresetNotFound(String),
    PresetExists(String),
    ReadOnlySource,
    /// Reported by the storage layer that reads and writes the catalog files.
    Io(String),
}

/// Abstract value of a [`PromptCatalogError`].
pub enum CatalogErr {
    UnknownId(Seq<char>),
    NoGrokHome,
    InvalidPresetName(Seq<char>),
    PresetNotFound(Seq<char>),
    PresetExists(Seq<char>),
    ReadOnlySource,
    Io(Seq<char>),
}

impl View for PromptCatalogError {
    type V = CatalogErr;

    open spec fn view(&self) -> CatalogErr {
        match self {
            PromptCatalogError::UnknownId(s) => CatalogErr::UnknownId(s@),
            PromptCatalogError::NoGrokHome => CatalogErr::NoGrokHome,
            PromptCatalogError::InvalidPresetName(s) => CatalogErr::InvalidPresetName(s@),
            PromptCatalogError::PresetNotFound(s) => CatalogErr::PresetNotFound(s@),
            PromptCatalogError::PresetExists(s) => CatalogErr::PresetExists(s@),
            PromptCatalogError::ReadOnlySource => CatalogErr::ReadOnlySource,
            PromptCatalogError::Io(s) => CatalogErr::Io(s@),
        }
    }
}

/// Human-readable text of an error.
pub open spec fn error_message(e: CatalogErr) -> Seq<char> {
    match e {
        CatalogErr::UnknownId(s) => "unknown prompt id: "@ + s,
        CatalogErr::NoGrokHome => "could not resolve GROK_HOME for prompt overrides"@,
        CatalogErr::InvalidPresetName(s) => "invalid preset name: "@ + s,
        CatalogErr::PresetNotFound(s) => "preset not found: "@ + s,
        CatalogErr::PresetExists(s) => "preset already exists: "@ + s,
        CatalogErr::ReadOnlySource => "prompt source is read-only: built-in defaults cannot be edited in place"@,
        CatalogErr::Io(s) => "io error for prompt override: "@ + s,
    }
}

impl PromptCatalogError {
    /// Human-readable text of the error.
    pub fn message(&self) -> (r: String)
        ensures
            r@ == error_message(self@),
    {
        match self {
            PromptCatalogError::UnknownId(s) => String::from_str("unknown prompt id: ").concat(s.as_str()),
            PromptCatalogError::NoGrokHome => String::from_str("could not resolve GROK_HOME for prompt overrides"),
            PromptCatalogError::InvalidPresetName(s) => String::from_str("invalid preset name: ").concat(s.as_str()),
            PromptCatalogError::PresetNotFound(s) => String::from_str("preset not found: ").concat(s.as_str()),
            PromptCatalogError::PresetExists(s) => String::from_str("preset already exists: ").concat(s.as_str()),
            PromptCatalogError::ReadOnlySource => String::from_str("prompt source is read-only: built-in defaults cannot be edited in place"),
            PromptCatalogError::Io(s) => String::from_str("io error for prompt override: ").concat(s.as_str()),
        }
    }
}

/// Resolved prompt body plus override metadata.
#[derive(Debug, Clone, PartialEq, Eq)]
pub struct EffectivePrompt {
    pub id: PromptId,
    pub body: String,
    pub is_override: bool,
    /// Path of the override file in the session's source, when it has one.
    pub override_path: Option<String>,
}

/// Abstract value of an [`EffectivePrompt`].
pub struct EffectiveView {
    pub id: PromptId,
    pub body: Seq<char>,
    pub is_override: bool,
    pub override_path: Option<Seq<char>>,
}

impl View for EffectivePrompt {
    type V = EffectiveView;

    open spec fn view(&self) -> EffectiveView {
        EffectiveView {
            id: self.id,
            body: self.body@,
            is_override: self.is_override,
            override_path: match self.override_path {
                Some(p) => Some(p@),
                None => None,
            },
        }
    }
}

/// Metadata of a named prompt preset.
#[derive(Debug, Clone, PartialEq, Eq)]
pub struct PromptPresetInfo {
    pub name: String,
    /// Number of override files in the preset (catalog ids only).
    pub override_count: usize,
    /// Whether the current session resolves through this preset.
    pub is_active: bool,
    /// Free-form description from the preset metadata.
    pub description: Option<String>,
    /// RFC3339 timestamp of the last write, from the preset metadata.
    pub updated: Option<String>,
}

/// Abstract value of a [`PromptPresetInfo`].
pub struct PresetInfoView {
    pub name: Seq<char>,
    pub override_count: nat,
    pub is_active: bool,
    pub description: Option<Seq<char>>,
    pub updated: Option<Seq<char>>,
}

impl View for PromptPresetInfo {
    type V = PresetInfoView;

    open spec fn view(&self) -> PresetInfoView {
        PresetInfoView {
            name: self.name@,
            override_count: self.override_count as nat,
            is_active: self.is_active,
            description: match self.description {
                Some(d) => Some(d@),
                None => None,
            },
            updated: match self.updated {
                Some(u) => Some(u@),
                None => None,
            },
        }
    }
}

/// Abstract values of a preset listing.
pub open spec fn infos_view(v: Seq<PromptPresetInfo>) -> Seq<PresetInfoView> {
    v.map_values(|p: PromptPresetInfo| p@)
}

/// Whether a preset write may replace an existing preset.
#[derive(Debug, Clone, Copy, PartialEq, Eq, Structural)]
pub enum PresetWriteMode {
    /// Fail with [`PromptCatalogError::PresetExists`] when the name is taken.
    Create,
    /// Replace the preset's catalog files when the name is taken.
    Overwrite,
}

} // verus!
