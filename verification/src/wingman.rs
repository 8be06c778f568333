//! The ride-mode table of the earlier Wingman M7 CAN contract, where a raw
//! value outside the table decodes to `Sport` rather than `Std`.

use vstd::prelude::*;

use crate::text::str_eq;

verus! {

/// Rider performance / ride mode (`VAL_ 192 PerformanceMode`).
#[derive(Debug, Clone, Copy, PartialEq, Eq, Structural)]
pub enum PerformanceMode {
    Rain,
    Std,
    Sport,
    Track,
}

/// The raw DBC value of a mode.
pub open spec fn spec_raw(m: PerformanceMode) -> u8 {
    match m {
        PerformanceMode::Rain => 0,
        PerformanceMode::Std => 1,
        PerformanceMode::Sport => 2,
        PerformanceMode::Track => 3,
    }
}

/// The mode a raw value denotes; values outside the table fall back to `Sport`.
pub open spec fn spec_from_raw(raw: u8) -> PerformanceMode {
    if raw == 0 {
        PerformanceMode::Rain
    } else if raw == 1 {
        PerformanceMode::Std
    } else if raw == 3 {
        PerformanceMode::Track
    } else {
        PerformanceMode::Sport
    }
}

/// The label of a mode, as in the DBC `VAL_` table.
pub open spec fn spec_label(m: PerformanceMode) -> Seq<char> {
    match m {
        PerformanceMode::Rain => "RAIN"@,
        PerformanceMode::Std => "STD"@,
        PerformanceMode::Sport => "SPORT"@,
        PerformanceMode::Track => "TRACK"@,
    }
}

/// The mode whose label is `label`, if any.
pub open spec fn spec_from_label(label: Seq<char>) -> Option<PerformanceMode> {
    if label == "RAIN"@ {
        Some(PerformanceMode::Rain)
    } else if label == "STD"@ {
        Some(PerformanceMode::Std)
    } else if label == "SPORT"@ {
        Some(PerformanceMode::Sport)
    } else if label == "TRACK"@ {
        Some(PerformanceMode::Track)
    } else {
        None
    }
}

impl Default for PerformanceMode {
    /// `Std` is the default mode.
    fn default() -> (r: Self)
        ensures
            r == PerformanceMode::Std,
    {
        PerformanceMode::Std
    }
}

impl PerformanceMode {
    /// Map a raw DBC value onto a mode (unknown values fall back to `Sport`).
    pub fn from_raw(raw: u8) -> (r: Self)
        ensures
            r == spec_from_raw(raw),
    {
        match raw {
            0 => PerformanceMode::Rain,
            1 => PerformanceMode::Std,
            3 => PerformanceMode::Track,
            _ => PerformanceMode::Sport,
        }
    }

    /// The raw DBC value for this mode.
    pub fn to_raw(self) -> (r: u8)
        ensures
            r == spec_raw(self),
    {
        match self {
            PerformanceMode::Rain => 0,
            PerformanceMode::Std => 1,
            PerformanceMode::Sport => 2,
            PerformanceMode::Track => 3,
        }
    }

    /// The human-readable label (matches the DBC `VAL_` table).
    pub fn as_str(self) -> (r: &'static str)
        ensures
            r@ == spec_label(self),
    {
        match self {
            PerformanceMode::Rain => "RAIN",
            PerformanceMode::Std => "STD",
            PerformanceMode::Sport => "SPORT",
            PerformanceMode::Track => "TRACK",
        }
    }

    /// Parse a label back into a mode.
    pub fn from_label(label: &str) -> (r: Option<Self>)
        ensures
            r == spec_from_label(label@),
    {
        if str_eq(label, "RAIN") {
            Some(PerformanceMode::Rain)
        } else if str_eq(label, "STD") {
            Some(PerformanceMode::Std)
        } else if str_eq(label, "SPORT") {
            Some(PerformanceMode::Sport)
        } else if str_eq(label, "TRACK") {
            Some(PerformanceMode::Track)
        } else {
            None
        }
    }
}

/// Every mode survives a trip through its raw value.
pub proof fn law_raw_round_trip(m: PerformanceMode)
    ensures
        spec_from_raw(spec_raw(m)) == m,
{
}

/// A raw value outside the table decodes to `Sport`.
pub proof fn law_raw_fallback(raw: u8)
    requires
        raw > 3,
    ensures
        spec_from_raw(raw) == PerformanceMode::Sport,
{
}

/// Every mode survives a trip through its label.
pub proof fn law_label_round_trip(m: PerformanceMode)
    ensures
        spec_from_label(spec_label(m)) == Some(m),
{
    crate::performance_mode::lemma_mode_labels_distinct();
}

/// The DBC `VAL_ 192 PerformanceMode` table: raw value 0 is labelled
/// `RAIN`, 1 `STD`, 2 `SPORT` and 3 `TRACK`. Each mode's raw value and label
/// agree with that table, and decoding a raw value gives the mode of that
/// label ("SPORT"@ for a value outside the table).
pub proof fn law_val_table(m: PerformanceMode, raw: u8)
    ensures
        (spec_raw(m) == 0) == (spec_label(m) == "RAIN"@),
        (spec_raw(m) == 1) == (spec_label(m) == "STD"@),
        (spec_raw(m) == 2) == (spec_label(m) == "SPORT"@),
        (spec_raw(m) == 3) == (spec_label(m) == "TRACK"@),
        spec_raw(m) <= 3,
        raw == 0 ==> spec_label(spec_from_raw(raw)) == "RAIN"@,
        raw == 1 ==> spec_label(spec_from_raw(raw)) == "STD"@,
        raw == 3 ==> spec_label(spec_from_raw(raw)) == "TRACK"@,
        raw == 2 || raw > 3 ==> spec_label(spec_from_raw(raw)) == "SPORT"@,
{
    crate::performance_mode::lemma_mode_labels_distinct();
}

} // verus!
