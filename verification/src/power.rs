//! System power plan definitions and Linux `platform_profile` integration.

use vstd::prelude::*;

use crate::text::{chars_are, lemma_trim_whitespace_unchanged, trim_whitespace, trimmed_chars};

verus! {

/// Excalibur hardware power plans.
///
/// The variants carry no explicit discriminants, so `plan as u32` gives the
/// declaration index 0 to 3, not the hardware plan number; use
/// [`PowerPlan::as_u32`] for the number 1 to 4 the firmware expects.
#[derive(Debug, Clone, Copy, PartialEq, Eq, Structural)]
pub enum PowerPlan {
    /// High Power / Maximum Performance (Turbo).
    HighPower,
    /// Gaming / Balanced High Performance.
    Gaming,
    /// Text Mode / Office / Quiet Mode.
    TextMode,
    /// Low Power / Battery Saver / Eco Mode.
    LowPower,
}

impl PowerPlan {
    /// Smallest hardware plan number.
    pub const MIN: u32 = 1;
    /// Largest hardware plan number.
    pub const MAX: u32 = 4;

    /// Linux kernel `platform_profile_option` value for low power.
    pub const PLATFORM_PROFILE_LOW_POWER: i32 = 0;
    /// Linux kernel `platform_profile_option` value for quiet.
    pub const PLATFORM_PROFILE_QUIET: i32 = 2;
    /// Linux kernel `platform_profile_option` value for balanced.
    pub const PLATFORM_PROFILE_BALANCED: i32 = 3;
    /// Linux kernel `platform_profile_option` value for performance.
    pub const PLATFORM_PROFILE_PERFORMANCE: i32 = 5;

    /// The hardware plan number (1 to 4).
    pub open spec fn spec_as_u32(self) -> u32 {
        match self {
            PowerPlan::HighPower => 1,
            PowerPlan::Gaming => 2,
            PowerPlan::TextMode => 3,
            PowerPlan::LowPower => 4,
        }
    }

    /// The plan with a given hardware number, if there is one.
    pub open spec fn spec_from_u32(val: u32) -> Option<PowerPlan> {
        if val == 1 {
            Some(PowerPlan::HighPower)
        } else if val == 2 {
            Some(PowerPlan::Gaming)
        } else if val == 3 {
            Some(PowerPlan::TextMode)
        } else if val == 4 {
            Some(PowerPlan::LowPower)
        } else {
            None
        }
    }

    /// The canonical name of the plan.
    pub open spec fn spec_as_str(self) -> Seq<char> {
        match self {
            PowerPlan::HighPower => "high_power"@,
            PowerPlan::Gaming => "gaming"@,
            PowerPlan::TextMode => "text_mode"@,
            PowerPlan::LowPower => "low_power"@,
        }
    }

    /// The plan a user-supplied word names, after surrounding white space is
    /// trimmed: its canonical name, an alias, or its number.
    pub open spec fn spec_from_str(s: Seq<char>) -> Option<PowerPlan> {
        let t = trim_whitespace(s);
        if t == "high_power"@ || t == "performance"@ || t == "turbo"@ || t == "1"@ {
            Some(PowerPlan::HighPower)
        } else if t == "gaming"@ || t == "balanced"@ || t == "game"@ || t == "2"@ {
            Some(PowerPlan::Gaming)
        } else if t == "text_mode"@ || t == "office"@ || t == "quiet"@ || t == "silent"@ || t
            == "3"@ {
            Some(PowerPlan::TextMode)
        } else if t == "low_power"@ || t == "eco"@ || t == "battery"@ || t == "saver"@ || t
            == "4"@ {
            Some(PowerPlan::LowPower)
        } else {
            None
        }
    }

    /// The Linux `platform_profile_option` value the plan is exposed as.
    pub open spec fn spec_to_platform_profile(self) -> i32 {
        match self {
            PowerPlan::HighPower => Self::PLATFORM_PROFILE_PERFORMANCE,
            PowerPlan::Gaming => Self::PLATFORM_PROFILE_BALANCED,
            PowerPlan::TextMode => Self::PLATFORM_PROFILE_QUIET,
            PowerPlan::LowPower => Self::PLATFORM_PROFILE_LOW_POWER,
        }
    }

    /// The plan a Linux `platform_profile_option` value selects, if any.
    pub open spec fn spec_from_platform_profile(profile: i32) -> Option<PowerPlan> {
        if profile == Self::PLATFORM_PROFILE_LOW_POWER {
            Some(PowerPlan::LowPower)
        } else if profile == Self::PLATFORM_PROFILE_QUIET {
            Some(PowerPlan::TextMode)
        } else if profile == Self::PLATFORM_PROFILE_BALANCED {
            Some(PowerPlan::Gaming)
        } else if profile == Self::PLATFORM_PROFILE_PERFORMANCE {
            Some(PowerPlan::HighPower)
        } else {
            None
        }
    }

    /// Converts a hardware plan number into a plan.
    pub fn from_u32(val: u32) -> (r: Option<Self>)
        ensures
            r == Self::spec_from_u32(val),
    {
        match val {
            1 => Some(PowerPlan::HighPower),
            2 => Some(PowerPlan::Gaming),
            3 => Some(PowerPlan::TextMode),
            4 => Some(PowerPlan::LowPower),
            _ => None,
        }
    }

    /// Returns the hardware plan number.
    pub fn as_u32(&self) -> (v: u32)
        ensures
            v == self.spec_as_u32(),
    {
        match self {
            PowerPlan::HighPower => 1,
            PowerPlan::Gaming => 2,
            PowerPlan::TextMode => 3,
            PowerPlan::LowPower => 4,
        }
    }

    /// Returns the canonical name of the plan.
    pub fn as_str(&self) -> (s: &'static str)
        ensures
            s@ == self.spec_as_str(),
    {
        match self {
            PowerPlan::HighPower => "high_power",
            PowerPlan::Gaming => "gaming",
            PowerPlan::TextMode => "text_mode",
            PowerPlan::LowPower => "low_power",
        }
    }

    /// Parses a plan from its name, an alias or its number, ignoring
    /// surrounding white space.
    pub fn from_str(s: &str) -> (r: Option<Self>)
        ensures
            r == Self::spec_from_str(s@),
    {
        let t = trimmed_chars(s);
        let t = t.as_slice();
        if chars_are(t, "high_power") || chars_are(t, "performance") || chars_are(t, "turbo")
            || chars_are(t, "1") {
            Some(PowerPlan::HighPower)
        } else if chars_are(t, "gaming") || chars_are(t, "balanced") || chars_are(t, "game")
            || chars_are(t, "2") {
            Some(PowerPlan::Gaming)
        } else if chars_are(t, "text_mode") || chars_are(t, "office") || chars_are(t, "quiet")
            || chars_are(t, "silent") || chars_are(t, "3") {
            Some(PowerPlan::TextMode)
        } else if chars_are(t, "low_power") || chars_are(t, "eco") || chars_are(t, "battery")
            || chars_are(t, "saver") || chars_are(t, "4") {
            Some(PowerPlan::LowPower)
        } else {
            None
        }
    }

    /// Converts a Linux `platform_profile_option` value into a plan.
    pub fn from_platform_profile(profile: i32) -> (r: Option<Self>)
        ensures
            r == Self::spec_from_platform_profile(profile),
    {
        if profile == Self::PLATFORM_PROFILE_LOW_POWER {
            Some(PowerPlan::LowPower)
        } else if profile == Self::PLATFORM_PROFILE_QUIET {
            Some(PowerPlan::TextMode)
        } else if profile == Self::PLATFORM_PROFILE_BALANCED {
            Some(PowerPlan::Gaming)
        } else if profile == Self::PLATFORM_PROFILE_PERFORMANCE {
            Some(PowerPlan::HighPower)
        } else {
            None
        }
    }

    /// Converts the plan into a Linux `platform_profile_option` value.
    pub fn to_platform_profile(&self) -> (profile: i32)
        ensures
            profile == self.spec_to_platform_profile(),
    {
        match self {
            PowerPlan::HighPower => Self::PLATFORM_PROFILE_PERFORMANCE,
            PowerPlan::Gaming => Self::PLATFORM_PROFILE_BALANCED,
            PowerPlan::TextMode => Self::PLATFORM_PROFILE_QUIET,
            PowerPlan::LowPower => Self::PLATFORM_PROFILE_LOW_POWER,
        }
    }
}

/// A plan number converts back to the plan it came from, and a number that
/// converts to a plan is that plan's number.
pub proof fn lemma_plan_number_roundtrip(p: PowerPlan, val: u32)
    ensures
        PowerPlan::spec_from_u32(p.spec_as_u32()) == Some(p),
        PowerPlan::spec_from_u32(val) == Some(p) ==> p.spec_as_u32() == val,
        PowerPlan::spec_from_u32(val) is Some <==> PowerPlan::MIN <= val <= PowerPlan::MAX,
{
}

/// A plan's platform profile converts back to the plan, and a profile value
/// that converts to a plan is that plan's profile value.
pub proof fn lemma_platform_profile_roundtrip(p: PowerPlan, profile: i32)
    ensures
        PowerPlan::spec_from_platform_profile(p.spec_to_platform_profile()) == Some(p),
        PowerPlan::spec_from_platform_profile(profile) == Some(p)
            ==> p.spec_to_platform_profile() == profile,
{
}

/// Parsing a plan's canonical name gives back the plan.
pub proof fn lemma_plan_name_roundtrip(p: PowerPlan)
    ensures
        PowerPlan::spec_from_str(p.spec_as_str()) == Some(p),
{
    lemma_plan_words();
    let s = p.spec_as_str();
    assert(trim_whitespace(s) == s);
}

/// The characters of the words the plan parser matches.
proof fn lemma_plan_words()
    ensures
        "high_power"@ == seq!['h', 'i', 'g', 'h', '_', 'p', 'o', 'w', 'e', 'r'],
        "performance"@ == seq!['p', 'e', 'r', 'f', 'o', 'r', 'm', 'a', 'n', 'c', 'e'],
        "turbo"@ == seq!['t', 'u', 'r', 'b', 'o'],
        "1"@ == seq!['1'],
        "gaming"@ == seq!['g', 'a', 'm', 'i', 'n', 'g'],
        "balanced"@ == seq!['b', 'a', 'l', 'a', 'n', 'c', 'e', 'd'],
        "game"@ == seq!['g', 'a', 'm', 'e'],
        "2"@ == seq!['2'],
        "text_mode"@ == seq!['t', 'e', 'x', 't', '_', 'm', 'o', 'd', 'e'],
        "office"@ == seq!['o', 'f', 'f', 'i', 'c', 'e'],
        "quiet"@ == seq!['q', 'u', 'i', 'e', 't'],
        "silent"@ == seq!['s', 'i', 'l', 'e', 'n', 't'],
        "3"@ == seq!['3'],
        "low_power"@ == seq!['l', 'o', 'w', '_', 'p', 'o', 'w', 'e', 'r'],
        "eco"@ == seq!['e', 'c', 'o'],
        "battery"@ == seq!['b', 'a', 't', 't', 'e', 'r', 'y'],
        "saver"@ == seq!['s', 'a', 'v', 'e', 'r'],
        "4"@ == seq!['4'],
{
    reveal_strlit("high_power");
    reveal_strlit("performance");
    reveal_strlit("turbo");
    reveal_strlit("1");
    reveal_strlit("gaming");
    reveal_strlit("balanced");
    reveal_strlit("game");
    reveal_strlit("2");
    reveal_strlit("text_mode");
    reveal_strlit("office");
    reveal_strlit("quiet");
    reveal_strlit("silent");
    reveal_strlit("3");
    reveal_strlit("low_power");
    reveal_strlit("eco");
    reveal_strlit("battery");
    reveal_strlit("saver");
    reveal_strlit("4");
}

/// Every name, alias and number of a plan parses to that plan: `high_power`,
/// `performance`, `turbo`, `1` are High Power; `gaming`, `balanced`, `game`,
/// `2` are Gaming; `text_mode`, `office`, `quiet`, `silent`, `3` are Text
/// Mode; `low_power`, `eco`, `battery`, `saver`, `4` are Low Power.
pub proof fn lemma_plan_word_table()
    ensures
        PowerPlan::spec_from_str("high_power"@) == Some(PowerPlan::HighPower),
        PowerPlan::spec_from_str("performance"@) == Some(PowerPlan::HighPower),
        PowerPlan::spec_from_str("turbo"@) == Some(PowerPlan::HighPower),
        PowerPlan::spec_from_str("1"@) == Some(PowerPlan::HighPower),
        PowerPlan::spec_from_str("gaming"@) == Some(PowerPlan::Gaming),
        PowerPlan::spec_from_str("balanced"@) == Some(PowerPlan::Gaming),
        PowerPlan::spec_from_str("game"@) == Some(PowerPlan::Gaming),
        PowerPlan::spec_from_str("2"@) == Some(PowerPlan::Gaming),
        PowerPlan::spec_from_str("text_mode"@) == Some(PowerPlan::TextMode),
        PowerPlan::spec_from_str("office"@) == Some(PowerPlan::TextMode),
        PowerPlan::spec_from_str("quiet"@) == Some(PowerPlan::TextMode),
        PowerPlan::spec_from_str("silent"@) == Some(PowerPlan::TextMode),
        PowerPlan::spec_from_str("3"@) == Some(PowerPlan::TextMode),
        PowerPlan::spec_from_str("low_power"@) == Some(PowerPlan::LowPower),
        PowerPlan::spec_from_str("eco"@) == Some(PowerPlan::LowPower),
        PowerPlan::spec_from_str("battery"@) == Some(PowerPlan::LowPower),
        PowerPlan::spec_from_str("saver"@) == Some(PowerPlan::LowPower),
        PowerPlan::spec_from_str("4"@) == Some(PowerPlan::LowPower),
{
    lemma_plan_words();
    lemma_trim_whitespace_unchanged("high_power"@);
    lemma_trim_whitespace_unchanged("performance"@);
    lemma_trim_whitespace_unchanged("turbo"@);
    lemma_trim_whitespace_unchanged("1"@);
    lemma_trim_whitespace_unchanged("gaming"@);
    lemma_trim_whitespace_unchanged("balanced"@);
    lemma_trim_whitespace_unchanged("game"@);
    lemma_trim_whitespace_unchanged("2"@);
    lemma_trim_whitespace_unchanged("text_mode"@);
    lemma_trim_whitespace_unchanged("office"@);
    lemma_trim_whitespace_unchanged("quiet"@);
    lemma_trim_whitespace_unchanged("silent"@);
    lemma_trim_whitespace_unchanged("3"@);
    lemma_trim_whitespace_unchanged("low_power"@);
    lemma_trim_whitespace_unchanged("eco"@);
    lemma_trim_whitespace_unchanged("battery"@);
    lemma_trim_whitespace_unchanged("saver"@);
    lemma_trim_whitespace_unchanged("4"@);
}

/// A single decimal digit names the plan with that number, exactly as the
/// numeric conversion does: `1` to `4` select plans, every other digit none.
pub proof fn lemma_plan_digit_matches_number(n: u32)
    requires
        n < 10,
    ensures
        PowerPlan::spec_from_str(seq![(0x30 + n) as char]) == PowerPlan::spec_from_u32(n),
{
    lemma_plan_words();
    let w = seq![(0x30 + n) as char];
    lemma_trim_whitespace_unchanged(w);
}

/// White space around a word does not change the plan it names.
pub proof fn lemma_plan_parse_ignores_padding(pre: Seq<char>, w: Seq<char>, post: Seq<char>)
    requires
        forall|i: int| 0 <= i < pre.len() ==> crate::text::is_unicode_whitespace(#[trigger] pre[i]),
        forall|i: int| 0 <= i < post.len() ==> crate::text::is_unicode_whitespace(#[trigger] post[i]),
        w.len() > 0,
        !crate::text::is_unicode_whitespace(w[0]),
        !crate::text::is_unicode_whitespace(w.last()),
    ensures
        PowerPlan::spec_from_str(pre + w + post) == PowerPlan::spec_from_str(w),
{
    crate::text::lemma_trim_whitespace_padding(pre, w, post);
    lemma_trim_whitespace_unchanged(w);
}

/// The hardware numbers and Linux `platform_profile` values of the plans:
/// High Power is plan 1 and `performance` (5), Gaming plan 2 and `balanced`
/// (3), Text Mode plan 3 and `quiet` (2), Low Power plan 4 and `low-power` (0).
pub proof fn lemma_plan_number_table()
    ensures
        PowerPlan::HighPower.spec_as_u32() == 1,
        PowerPlan::Gaming.spec_as_u32() == 2,
        PowerPlan::TextMode.spec_as_u32() == 3,
        PowerPlan::LowPower.spec_as_u32() == 4,
        PowerPlan::HighPower.spec_to_platform_profile() == 5,
        PowerPlan::Gaming.spec_to_platform_profile() == 3,
        PowerPlan::TextMode.spec_to_platform_profile() == 2,
        PowerPlan::LowPower.spec_to_platform_profile() == 0,
        PowerPlan::HighPower.spec_as_str() == "high_power"@,
        PowerPlan::Gaming.spec_as_str() == "gaming"@,
        PowerPlan::TextMode.spec_as_str() == "text_mode"@,
        PowerPlan::LowPower.spec_as_str() == "low_power"@,
{
}

} // verus!
