//! Everything that survives a restart.
//!
//! The capture state is absent on purpose: a monitor restored paused would
//! look like a broken launch. The send screen's half is filled in by whoever
//! owns it, through [`PersistedSettings::with_send`], so that step is explicit.

use crate::appearance::AppearanceSettings;
use crate::column::ColumnVisibility;
use crate::composition::PersistedComposition;
use crate::display::{default_display, DisplaySettings};
use crate::filter::{all_kinds, ChannelMode, FilterSettings};
use crate::ids::{RequestName, RetentionLimit, SourceKey, TargetKey};
use crate::publication::Publication;
use vstd::prelude::*;

verus! {

/// One request the user saved, in the form that survives a restart.
#[derive(Debug, Clone, PartialEq, Eq)]
pub struct SavedRequest {
    /// The request's name, which is its identity.
    pub name: RequestName,
    /// Its description.
    pub description: String,
    /// The message, as stored.
    pub composition: PersistedComposition,
}

/// The send screen's half of the settings.
#[derive(Debug, Clone, PartialEq, Eq)]
pub struct SendSettings {
    /// The chosen target, by the identity that outlives the session.
    pub target: Option<TargetKey>,
    /// The published source's name, and whether it was published.
    pub publication: Publication,
    /// The user's own requests.
    pub saved_requests: Vec<SavedRequest>,
}

impl Default for SendSettings {
    /// No target, the default publication, no saved requests.
    fn default() -> (s: Self)
        ensures
            s.target is None,
            s.publication.name@ == "MIDI Monitor"@,
            !s.publication.published,
            s.saved_requests@.len() == 0,
    {
        SendSettings {
            target: None,
            publication: Publication::default(),
            saved_requests: Vec::new(),
        }
    }
}

/// Everything that survives a restart.
#[derive(Debug, Clone, PartialEq, Eq)]
pub struct PersistedSettings {
    /// The sources selected, by the identity that outlives the session.
    pub selected_sources: Vec<SourceKey>,
    /// The Filter panel's state.
    pub filter: FilterSettings,
    /// Which columns are shown.
    pub columns: ColumnVisibility,
    /// How many events are retained.
    pub retention: RetentionLimit,
    /// How the table renders events.
    pub display: DisplaySettings,
    /// How the window is painted.
    pub appearance: AppearanceSettings,
    /// The send screen's half.
    pub send: SendSettings,
}

impl Default for PersistedSettings {
    /// What a first launch starts with: no remembered sources, every filter
    /// checkbox ticked, every column shown, a cap of 1000, the default display
    /// and appearance, and the default send settings.
    fn default() -> (s: Self)
        ensures
            s.selected_sources@.len() == 0,
            s.filter.kinds@ == all_kinds(),
            s.filter.channel_mode == ChannelMode::AllChannels,
            s.filter.data_filter.rules@.len() == 0,
            forall|c| !s.columns.hides(c),
            s.retention@ == 1000,
            s.display == default_display(),
            s.appearance == AppearanceSettings::default_spec(),
            s.send.target is None,
            s.send.saved_requests@.len() == 0,
            !s.send.publication.published,
    {
        PersistedSettings {
            selected_sources: Vec::new(),
            filter: FilterSettings::default(),
            columns: ColumnVisibility::default(),
            retention: RetentionLimit::default(),
            display: DisplaySettings::default(),
            appearance: AppearanceSettings::default(),
            send: SendSettings::default(),
        }
    }
}

impl PersistedSettings {
    /// These settings with the send screen's half replaced.
    pub fn with_send(self, send: SendSettings) -> (s: Self)
        ensures
            s == (PersistedSettings { send, ..self }),
    {
        PersistedSettings { send, ..self }
    }
}

} // verus!
