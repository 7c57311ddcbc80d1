//! The shared server state: an optional temperature cell and a mandatory
//! settings cell, each a [`RevisionedCell`] with its own independent revision
//! sequence.
//!
//! Every operation on the store touches it once, under one coarse exclusion
//! domain (the embedding server holds the whole [`ServerState`] behind a
//! single lock), so composite reads are never torn and every write is
//! observed whole or not at all.

use crate::revisioned_cell::RevisionedCell;
use vstd::prelude::*;

verus! {

/// A manual override of the fan's automatic temperature activation.
#[derive(Clone, Copy, Debug, PartialEq, Eq, Structural)]
pub enum FanOverride {
    /// No override: the fan follows the activation temperature.
    NoOverride,
    /// Forced on, regardless of temperature.
    On,
    /// Forced off, regardless of temperature.
    Off,
}

/// The settings record. Both fields live under one revision counter: any
/// change to either advances the counter by exactly 1.
#[derive(Clone, Copy, Debug, PartialEq, Eq, Structural)]
pub struct SettingsRecord {
    /// The temperature in Fahrenheit at which the fan automatically turns on.
    pub fan_activation_temp: i32,
    /// A manual override of the automatic behaviour.
    pub fan_override: FanOverride,
}

/// A partial settings update: only the fields that are present are applied;
/// absent fields keep their current value. However many fields are present,
/// applying the patch is one single write of the merged record.
#[derive(Clone, Copy, Debug)]
pub struct PostSettings {
    pub fan_activation_temp: Option<i32>,
    pub fan_override: Option<FanOverride>,
}

/// The most recently reported temperature, in degrees Fahrenheit, with the
/// revision of the report that produced it.
#[derive(Clone, Copy)]
pub struct Temperature {
    cell: RevisionedCell<i32>,
}

impl Temperature {
    /// The temperature last reported.
    pub closed spec fn spec_value(&self) -> i32 {
        self.cell.spec_value()
    }

    /// The revision of the report that produced the current value.
    pub closed spec fn spec_revision(&self) -> i32 {
        self.cell.spec_revision()
    }

    /// Creates the temperature cell from the first report; the revision
    /// sequence starts at 0.
    pub fn new(value: i32) -> (t: Self)
        ensures
            t.spec_value() == value,
            t.spec_revision() == 0,
    {
        Temperature { cell: RevisionedCell::new(value) }
    }

    /// The temperature in degrees Fahrenheit.
    pub fn value(&self) -> (v: i32)
        ensures
            v == self.spec_value(),
    {
        *self.cell.value()
    }

    /// The current revision; increments every time the value is changed.
    pub fn revision_num(&self) -> (r: i32)
        ensures
            r == self.spec_revision(),
    {
        self.cell.revision_num()
    }

    /// Replaces the value and advances the revision by exactly 1; returns
    /// the new revision.
    pub fn set_value(&mut self, value: i32) -> (r: i32)
        requires
            old(self).spec_revision() < i32::MAX,
        ensures
            final(self).spec_value() == value,
            final(self).spec_revision() == old(self).spec_revision() + 1,
            r == final(self).spec_revision(),
    {
        self.cell.write(value)
    }
}

/// The fan settings, present from process start, behind one revision counter
/// that covers the whole record.
#[derive(Clone, Copy)]
pub struct Settings {
    cell: RevisionedCell<SettingsRecord>,
}

impl Settings {
    /// The current settings record.
    pub closed spec fn spec_record(&self) -> SettingsRecord {
        self.cell.spec_value()
    }

    /// The revision of the write that produced the current record.
    pub closed spec fn spec_revision(&self) -> i32 {
        self.cell.spec_revision()
    }

    /// The current activation temperature.
    pub open spec fn spec_fan_activation_temp(&self) -> i32 {
        self.spec_record().fan_activation_temp
    }

    /// The current override.
    pub open spec fn spec_fan_override(&self) -> FanOverride {
        self.spec_record().fan_override
    }

    /// Creates the settings at their defaults: activation at 80 degrees, no
    /// override, revision 0.
    pub fn new() -> (s: Self)
        ensures
            s.spec_fan_activation_temp() == 80,
            s.spec_fan_override() == FanOverride::NoOverride,
            s.spec_revision() == 0,
    {
        Settings {
            cell: RevisionedCell::new(SettingsRecord {
                fan_activation_temp: 80,
                fan_override: FanOverride::NoOverride,
            }),
        }
    }

    /// The temperature in Fahrenheit at which the fan automatically turns on.
    pub fn fan_activation_temp(&self) -> (v: i32)
        ensures
            v == self.spec_fan_activation_temp(),
    {
        self.cell.value().fan_activation_temp
    }

    /// The current manual override.
    pub fn fan_override(&self) -> (v: FanOverride)
        ensures
            v == self.spec_fan_override(),
    {
        self.cell.value().fan_override
    }

    /// The current revision; increments every time a setting is changed.
    pub fn revision_num(&self) -> (r: i32)
        ensures
            r == self.spec_revision(),
    {
        self.cell.revision_num()
    }

    /// A consistent snapshot of the record together with its revision.
    pub fn record(&self) -> (snapshot: (SettingsRecord, i32))
        ensures
            snapshot.0 == self.spec_record(),
            snapshot.1 == self.spec_revision(),
    {
        let (record, revision_num) = self.cell.read();
        (*record, revision_num)
    }

    /// Replaces the activation temperature, keeping the override, in one
    /// write that advances the revision by 1; returns the new revision.
    pub fn set_activation_temp(&mut self, value: i32) -> (r: i32)
        requires
            old(self).spec_revision() < i32::MAX,
        ensures
            final(self).spec_fan_activation_temp() == value,
            final(self).spec_fan_override() == old(self).spec_fan_override(),
            final(self).spec_revision() == old(self).spec_revision() + 1,
            r == final(self).spec_revision(),
    {
        let merged = SettingsRecord {
            fan_activation_temp: value,
            fan_override: self.fan_override(),
        };
        self.cell.write(merged)
    }

    /// Replaces the override, keeping the activation temperature, in one
    /// write that advances the revision by 1; returns the new revision.
    pub fn set_fan_override(&mut self, value: FanOverride) -> (r: i32)
        requires
            old(self).spec_revision() < i32::MAX,
        ensures
            final(self).spec_fan_override() == value,
            final(self).spec_fan_activation_temp() == old(self).spec_fan_activation_temp(),
            final(self).spec_revision() == old(self).spec_revision() + 1,
            r == final(self).spec_revision(),
    {
        let merged = SettingsRecord {
            fan_activation_temp: self.fan_activation_temp(),
            fan_override: value,
        };
        self.cell.write(merged)
    }

    /// Applies a partial update: fields present in the patch replace the
    /// current ones, absent fields are kept, and the merged record goes to
    /// the cell in exactly one write, advancing the revision by 1 however
    /// many fields the patch carried; returns the new revision.
    pub fn apply_patch(&mut self, patch: &PostSettings) -> (r: i32)
        requires
            old(self).spec_revision() < i32::MAX,
        ensures
            final(self).spec_fan_activation_temp() == (match patch.fan_activation_temp {
                Option::Some(v) => v,
                Option::None => old(self).spec_fan_activation_temp(),
            }),
            final(self).spec_fan_override() == (match patch.fan_override {
                Option::Some(v) => v,
                Option::None => old(self).spec_fan_override(),
            }),
            final(self).spec_revision() == old(self).spec_revision() + 1,
            r == final(self).spec_revision(),
    {
        let merged = SettingsRecord {
            fan_activation_temp: match patch.fan_activation_temp {
                Some(v) => v,
                None => self.fan_activation_temp(),
            },
            fan_override: match patch.fan_override {
                Some(v) => v,
                None => self.fan_override(),
            },
        };
        self.cell.write(merged)
    }
}

impl Default for Settings {
    /// The defaults the settings start at: activation at 80 degrees, no
    /// override, revision 0.
    fn default() -> (s: Self)
        ensures
            s.spec_fan_activation_temp() == 80,
            s.spec_fan_override() == FanOverride::NoOverride,
            s.spec_revision() == 0,
    {
        Self::new()
    }
}

/// The whole shared store: the optional temperature cell and the mandatory
/// settings cell. The two revision sequences are independent.
#[derive(Clone, Copy)]
pub struct ServerState {
    /// Absent until the first temperature report arrives; this absence is
    /// state of its own, distinct from "present but unchanged".
    pub fan_temperature: Option<Temperature>,
    /// Present from process start.
    pub settings: Settings,
}

impl ServerState {
    /// Creates the store as the process starts: no temperature yet, settings
    /// at their defaults.
    pub fn new() -> (s: Self)
        ensures
            s.fan_temperature is None,
            s.settings.spec_fan_activation_temp() == 80,
            s.settings.spec_fan_override() == FanOverride::NoOverride,
            s.settings.spec_revision() == 0,
    {
        ServerState { fan_temperature: None, settings: Settings::new() }
    }

    /// A consistent temperature snapshot, or `None` if no temperature has
    /// ever been reported.
    pub fn get_temperature(&self) -> (r: Option<(i32, i32)>)
        ensures
            (match self.fan_temperature {
                Option::Some(t) => r == Some((t.spec_value(), t.spec_revision())),
                Option::None => r is None,
            }),
    {
        match &self.fan_temperature {
            Some(t) => Some((t.value(), t.revision_num())),
            None => None,
        }
    }

    /// Records a temperature report. The first report creates the cell at
    /// revision 0; every later one is a normal write that advances the
    /// existing revision by exactly 1. Returns the revision of this report.
    pub fn set_temperature(&mut self, value: i32) -> (r: i32)
        requires
            (old(self).fan_temperature matches Some(t) ==> t.spec_revision() < i32::MAX),
        ensures
            final(self).fan_temperature matches Some(t) && t.spec_value() == value
                && r == t.spec_revision(),
            (old(self).fan_temperature is None ==> r == 0),
            (old(self).fan_temperature matches Some(t) ==> r == t.spec_revision() + 1),
            final(self).settings == old(self).settings,
    {
        match &mut self.fan_temperature {
            Some(t) => t.set_value(value),
            opt => {
                *opt = Some(Temperature::new(value));
                0
            },
        }
    }

    /// A consistent snapshot of the settings record and its revision; always
    /// succeeds.
    pub fn get_settings(&self) -> (r: (SettingsRecord, i32))
        ensures
            r.0 == self.settings.spec_record(),
            r.1 == self.settings.spec_revision(),
    {
        self.settings.record()
    }

    /// Applies a partial settings update as one write of the merged record;
    /// returns the new settings revision. The temperature cell is untouched.
    pub fn set_settings(&mut self, patch: &PostSettings) -> (r: i32)
        requires
            old(self).settings.spec_revision() < i32::MAX,
        ensures
            final(self).settings.spec_fan_activation_temp() == (match patch.fan_activation_temp {
                Option::Some(v) => v,
                Option::None => old(self).settings.spec_fan_activation_temp(),
            }),
            final(self).settings.spec_fan_override() == (match patch.fan_override {
                Option::Some(v) => v,
                Option::None => old(self).settings.spec_fan_override(),
            }),
            final(self).settings.spec_revision() == old(self).settings.spec_revision() + 1,
            r == final(self).settings.spec_revision(),
            final(self).fan_temperature == old(self).fan_temperature,
    {
        self.settings.apply_patch(patch)
    }
}

impl Default for ServerState {
    /// The state the store starts in: no temperature, default settings.
    fn default() -> (s: Self)
        ensures
            s.fan_temperature is None,
            s.settings.spec_fan_activation_temp() == 80,
            s.settings.spec_fan_override() == FanOverride::NoOverride,
            s.settings.spec_revision() == 0,
    {
        Self::new()
    }
}

} // verus!
