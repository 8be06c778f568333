//! Rider ride mode (`VAL_ 192 PerformanceMode`).

use vstd::prelude::*;

use crate::text::str_eq;

verus! {

/// Rider performance / ride mode (`VAL_ 192 PerformanceMode`).
#[derive(Debug, Clone, Copy, PartialEq, Eq, Structural)]
pub enum PerformanceMode {
    Rain,
    Std,
    Sport,
    Track,
}

/// The raw DBC value of a mode.
pub open spec fn spec_mode_raw(m: PerformanceMode) -> u8 {
    match m {
        PerformanceMode::Rain => 0,
        PerformanceMode::Std => 1,
        PerformanceMode::Sport => 2,
        PerformanceMode::Track => 3,
    }
}

/// The mode a raw DBC value denotes; values outside the table fall back to `Std`.
pub open spec fn spec_mode_from_raw(raw: u8) -> PerformanceMode {
    if raw == 0 {
        PerformanceMode::Rain
    } else if raw == 1 {
        PerformanceMode::Std
    } else if raw == 2 {
        PerformanceMode::Sport
    } else if raw == 3 {
        PerformanceMode::Track
    } else {
        PerformanceMode::Std
    }
}

/// The label of a mode, as in the DBC `VAL_` table.
pub open spec fn spec_mode_label(m: PerformanceMode) -> Seq<char> {
    match m {
        PerformanceMode::Rain => "RAIN"@,
        PerformanceMode::Std => "STD"@,
        PerformanceMode::Sport => "SPORT"@,
        PerformanceMode::Track => "TRACK"@,
    }
}

/// The mode whose label is `label`, if any.
pub open spec fn spec_mode_from_label(label: Seq<char>) -> Option<PerformanceMode> {
    if label == "RAIN"@ {
        Some(PerformanceMode::Rain)
    } else if label == "STD"@ {
        Some(PerformanceMode::Std)
    } else if label == "SPORT"@ {
        Some(PerformanceMode::Sport)
    } else if label == "TRACK"@ {
        Some(PerformanceMode::Track)
    } else {
        None
    }
}

impl Default for PerformanceMode {
    /// `Std` is the documented default mode.
    fn default() -> (r: Self)
        ensures
            r == PerformanceMode::Std,
    {
        PerformanceMode::Std
    }
}

impl PerformanceMode {
    /// Map a raw DBC value onto a mode. Unknown values fall back to `Std` (the
    /// documented default) rather than an aggressive mode, in case a corrupt
    /// frame carries an out-of-table value in the 3-bit field.
    pub fn from_raw(raw: u8) -> (r: Self)
        ensures
            r == spec_mode_from_raw(raw),
    {
        match raw {
            0 => PerformanceMode::Rain,
            1 => PerformanceMode::Std,
            2 => PerformanceMode::Sport,
            3 => PerformanceMode::Track,
            _ => PerformanceMode::Std,
        }
    }

    /// The raw DBC value for this mode.
    pub fn to_raw(self) -> (r: u8)
        ensures
            r == spec_mode_raw(self),
    {
        match self {
            PerformanceMode::Rain => 0,
            PerformanceMode::Std => 1,
            PerformanceMode::Sport => 2,
            PerformanceMode::Track => 3,
        }
    }

    /// The human-readable label (matches the DBC `VAL_` table).
    pub fn as_str(self) -> (r: &'static str)
        ensures
            r@ == spec_mode_label(self),
    {
        match self {
            PerformanceMode::Rain => "RAIN",
            PerformanceMode::Std => "STD",
            PerformanceMode::Sport => "SPORT",
            PerformanceMode::Track => "TRACK",
        }
    }

    /// Parse a label back into a mode.
    pub fn from_label(label: &str) -> (r: Option<Self>)
        ensures
            r == spec_mode_from_label(label@),
    {
        if str_eq(label, "RAIN") {
            Some(PerformanceMode::Rain)
        } else if str_eq(label, "STD") {
            Some(PerformanceMode::Std)
        } else if str_eq(label, "SPORT") {
            Some(PerformanceMode::Sport)
        } else if str_eq(label, "TRACK") {
            Some(PerformanceMode::Track)
        } else {
            None
        }
    }
}

/// The four labels are pairwise distinct.
pub proof fn lemma_mode_labels_distinct()
    ensures
        "RAIN"@ != "STD"@,
        "RAIN"@ != "SPORT"@,
        "RAIN"@ != "TRACK"@,
        "STD"@ != "SPORT"@,
        "STD"@ != "TRACK"@,
        "SPORT"@ != "TRACK"@,
{
    reveal_strlit("RAIN");
    reveal_strlit("STD");
    reveal_strlit("SPORT");
    reveal_strlit("TRACK");
    assert("RAIN"@.len() != "STD"@.len());
    assert("RAIN"@[0] != "SPORT"@[0]);
    assert("RAIN"@[0] != "TRACK"@[0]);
    assert("STD"@.len() != "SPORT"@.len());
    assert("STD"@.len() != "TRACK"@.len());
    assert("SPORT"@[0] != "TRACK"@[0]);
}

/// Every mode survives a trip through its raw DBC value.
pub proof fn law_mode_raw_round_trip(m: PerformanceMode)
    ensures
        spec_mode_from_raw(spec_mode_raw(m)) == m,
{
}

/// Every raw value in the table survives a trip through its mode.
pub proof fn law_mode_raw_in_table(raw: u8)
    requires
        raw <= 3,
    ensures
        spec_mode_raw(spec_mode_from_raw(raw)) == raw,
{
}

/// A raw value outside the table decodes to the default mode, `Std`.
pub proof fn law_mode_raw_fallback(raw: u8)
    requires
        raw > 3,
    ensures
        spec_mode_from_raw(raw) == PerformanceMode::Std,
{
}

/// Every mode survives a trip through its label.
pub proof fn law_mode_label_round_trip(m: PerformanceMode)
    ensures
        spec_mode_from_label(spec_mode_label(m)) == Some(m),
{
    lemma_mode_labels_distinct();
}

/// A label that parses names exactly the mode it parses to.
pub proof fn law_mode_label_exact(label: Seq<char>)
    ensures
        spec_mode_from_label(label) matches Some(m) ==> spec_mode_label(m) == label,
{
}

/// The DBC `VAL_ 192 PerformanceMode` table: raw value 0 is labelled
/// `RAIN`, 1 `STD`, 2 `SPORT` and 3 `TRACK`. Each mode's raw value and label
/// agree with that table, and decoding a raw value gives the mode of that
/// label ("STD"@ for a value outside the table).
pub proof fn law_val_table(m: PerformanceMode, raw: u8)
    ensures
        (spec_mode_raw(m) == 0) == (spec_mode_label(m) == "RAIN"@),
        (spec_mode_raw(m) == 1) == (spec_mode_label(m) == "STD"@),
        (spec_mode_raw(m) == 2) == (spec_mode_label(m) == "SPORT"@),
        (spec_mode_raw(m) == 3) == (spec_mode_label(m) == "TRACK"@),
        spec_mode_raw(m) <= 3,
        raw == 0 ==> spec_mode_label(spec_mode_from_raw(raw)) == "RAIN"@,
        raw == 1 ==> spec_mode_label(spec_mode_from_raw(raw)) == "STD"@,
        raw == 3 ==> spec_mode_label(spec_mode_from_raw(raw)) == "TRACK"@,
        raw == 2 ==> spec_mode_label(spec_mode_from_raw(raw)) == "SPORT"@,
        raw > 3 ==> spec_mode_label(spec_mode_from_raw(raw)) == "STD"@,
{
    lemma_mode_labels_distinct();
}

} // verus!
