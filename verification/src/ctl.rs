//! Decisions of the `excalibur-ctl` command-line utility: which command a
//! word selects, which power plan a profile request names, how `rgb`
//! options are read, which sysfs zones they address, and how sysfs numbers
//! are read. The utility itself only reads and writes files and prints.

use vstd::prelude::*;

use crate::ffi::spec_zone_name;
use crate::power::PowerPlan;
use crate::text::{chars_of, is_whitespace, str_is, trim_whitespace, trimmed_chars};

verus! {

/// Unicode lower-case mapping of a text, as `str::to_lowercase` computes it.
pub uninterp spec fn unicode_lowercase(s: Seq<char>) -> Seq<char>;

/// Calls `str::to_lowercase`, which maps every character to its Unicode
/// lower-case form; the result depends on the text alone. What that mapping
/// is, is named and not stated.
#[verifier::external_body]
fn to_lowercase(s: &str) -> (r: String)
    ensures
        r@ == unicode_lowercase(s@),
{
    s.to_lowercase()
}

/// Subcommands of the control utility.
#[derive(Debug, Clone, Copy, PartialEq, Eq, Structural)]
pub enum Command {
    Status,
    Profile,
    Rgb,
    Fan,
    Help,
}

/// The subcommand a word selects, with its short forms.
pub open spec fn spec_command(word: Seq<char>) -> Option<Command> {
    if word == "status"@ || word == "info"@ || word == "s"@ {
        Some(Command::Status)
    } else if word == "profile"@ || word == "power"@ || word == "p"@ {
        Some(Command::Profile)
    } else if word == "rgb"@ || word == "led"@ || word == "k"@ {
        Some(Command::Rgb)
    } else if word == "fan"@ || word == "fans"@ || word == "f"@ {
        Some(Command::Fan)
    } else if word == "help"@ || word == "-h"@ || word == "--help"@ {
        Some(Command::Help)
    } else {
        None
    }
}

/// Returns the subcommand a word selects, or `None` for an unknown word.
pub fn parse_command(word: &str) -> (c: Option<Command>)
    ensures
        c == spec_command(word@),
{
    if str_is(word, "status") || str_is(word, "info") || str_is(word, "s") {
        Some(Command::Status)
    } else if str_is(word, "profile") || str_is(word, "power") || str_is(word, "p") {
        Some(Command::Profile)
    } else if str_is(word, "rgb") || str_is(word, "led") || str_is(word, "k") {
        Some(Command::Rgb)
    } else if str_is(word, "fan") || str_is(word, "fans") || str_is(word, "f") {
        Some(Command::Fan)
    } else if str_is(word, "help") || str_is(word, "-h") || str_is(word, "--help") {
        Some(Command::Help)
    } else {
        None
    }
}

/// The characters of the subcommand words.
proof fn lemma_command_words()
    ensures
        "status"@ == seq!['s', 't', 'a', 't', 'u', 's'],
        "info"@ == seq!['i', 'n', 'f', 'o'],
        "s"@ == seq!['s'],
        "profile"@ == seq!['p', 'r', 'o', 'f', 'i', 'l', 'e'],
        "power"@ == seq!['p', 'o', 'w', 'e', 'r'],
        "p"@ == seq!['p'],
        "rgb"@ == seq!['r', 'g', 'b'],
        "led"@ == seq!['l', 'e', 'd'],
        "k"@ == seq!['k'],
        "fan"@ == seq!['f', 'a', 'n'],
        "fans"@ == seq!['f', 'a', 'n', 's'],
        "f"@ == seq!['f'],
        "help"@ == seq!['h', 'e', 'l', 'p'],
        "-h"@ == seq!['-', 'h'],
        "--help"@ == seq!['-', '-', 'h', 'e', 'l', 'p'],
{
    reveal_strlit("status");
    reveal_strlit("info");
    reveal_strlit("s");
    reveal_strlit("profile");
    reveal_strlit("power");
    reveal_strlit("p");
    reveal_strlit("rgb");
    reveal_strlit("led");
    reveal_strlit("k");
    reveal_strlit("fan");
    reveal_strlit("fans");
    reveal_strlit("f");
    reveal_strlit("help");
    reveal_strlit("-h");
    reveal_strlit("--help");
}

/// Every subcommand word and short form selects its command: `status`,
/// `info`, `s`; `profile`, `power`, `p`; `rgb`, `led`, `k`; `fan`, `fans`,
/// `f`; `help`, `-h`, `--help`.
pub proof fn lemma_command_table()
    ensures
        spec_command("status"@) == Some(Command::Status),
        spec_command("info"@) == Some(Command::Status),
        spec_command("s"@) == Some(Command::Status),
        spec_command("profile"@) == Some(Command::Profile),
        spec_command("power"@) == Some(Command::Profile),
        spec_command("p"@) == Some(Command::Profile),
        spec_command("rgb"@) == Some(Command::Rgb),
        spec_command("led"@) == Some(Command::Rgb),
        spec_command("k"@) == Some(Command::Rgb),
        spec_command("fan"@) == Some(Command::Fan),
        spec_command("fans"@) == Some(Command::Fan),
        spec_command("f"@) == Some(Command::Fan),
        spec_command("help"@) == Some(Command::Help),
        spec_command("-h"@) == Some(Command::Help),
        spec_command("--help"@) == Some(Command::Help),
{
    lemma_command_words();
    assert("status"@[0] == 's');
    assert("info"@[0] == 'i');
    assert("s"@[0] == 's');
    assert("profile"@[0] == 'p');
    assert("power"@[0] == 'p');
    assert("p"@[0] == 'p');
    assert("rgb"@[0] == 'r');
    assert("led"@[0] == 'l');
    assert("k"@[0] == 'k');
    assert("fan"@[0] == 'f');
    assert("fans"@[0] == 'f');
    assert("f"@[0] == 'f');
    assert("help"@[0] == 'h');
    assert("-h"@[0] == '-');
    assert("--help"@[0] == '-');
}

/// The plan a lower-case `profile set` target names.
pub open spec fn spec_profile_target(t: Seq<char>) -> Option<PowerPlan> {
    if t == "performance"@ || t == "high_power"@ || t == "turbo"@ || t == "1"@ {
        Some(PowerPlan::HighPower)
    } else if t == "gaming"@ || t == "balanced"@ || t == "2"@ {
        Some(PowerPlan::Gaming)
    } else if t == "quiet"@ || t == "text_mode"@ || t == "silent"@ || t == "3"@ {
        Some(PowerPlan::TextMode)
    } else if t == "low_power"@ || t == "eco"@ || t == "battery"@ || t == "4"@ {
        Some(PowerPlan::LowPower)
    } else {
        None
    }
}

/// Returns the plan a lower-case `profile set` target names.
pub fn profile_target(t: &str) -> (p: Option<PowerPlan>)
    ensures
        p == spec_profile_target(t@),
{
    if str_is(t, "performance") || str_is(t, "high_power") || str_is(t, "turbo") || str_is(t, "1") {
        Some(PowerPlan::HighPower)
    } else if str_is(t, "gaming") || str_is(t, "balanced") || str_is(t, "2") {
        Some(PowerPlan::Gaming)
    } else if str_is(t, "quiet") || str_is(t, "text_mode") || str_is(t, "silent") || str_is(
        t,
        "3",
    ) {
        Some(PowerPlan::TextMode)
    } else if str_is(t, "low_power") || str_is(t, "eco") || str_is(t, "battery") || str_is(
        t,
        "4",
    ) {
        Some(PowerPlan::LowPower)
    } else {
        None
    }
}

/// The `platform_profile` choice a plan is written as.
pub open spec fn spec_platform_profile_name(p: PowerPlan) -> Seq<char> {
    match p {
        PowerPlan::HighPower => "performance"@,
        PowerPlan::Gaming => "balanced"@,
        PowerPlan::TextMode => "quiet"@,
        PowerPlan::LowPower => "low-power"@,
    }
}

/// Returns the `platform_profile` choice a plan is written as.
pub fn platform_profile_name(p: PowerPlan) -> (name: &'static str)
    ensures
        name@ == spec_platform_profile_name(p),
{
    match p {
        PowerPlan::HighPower => "performance",
        PowerPlan::Gaming => "balanced",
        PowerPlan::TextMode => "quiet",
        PowerPlan::LowPower => "low-power",
    }
}

/// What a `profile` command asks for.
#[derive(Debug, Clone, Copy, PartialEq, Eq, Structural)]
pub enum ProfileAction {
    /// Print the current plan (no argument, or `get`).
    Show,
    /// Switch to a plan (`set <target>`).
    Switch(PowerPlan),
    /// `set` without a target.
    MissingTarget,
    /// `set` with a target that names no plan.
    InvalidTarget,
    /// A first argument other than `get` or `set`.
    UnknownSubcommand,
}

/// The action a `profile` command's arguments ask for; the target is
/// lower-cased before it is looked up.
pub open spec fn spec_profile_action(args: Seq<Seq<char>>) -> ProfileAction {
    if args.len() == 0 || args[0] == "get"@ {
        ProfileAction::Show
    } else if args[0] == "set"@ {
        if args.len() < 2 {
            ProfileAction::MissingTarget
        } else {
            match spec_profile_target(unicode_lowercase(args[1])) {
                Some(p) => ProfileAction::Switch(p),
                None => ProfileAction::InvalidTarget,
            }
        }
    } else {
        ProfileAction::UnknownSubcommand
    }
}

/// Decides what a `profile` command's arguments ask for.
pub fn profile_action(args: &Vec<String>) -> (a: ProfileAction)
    ensures
        a == spec_profile_action(args.deep_view()),
{
    if args.len() == 0 || str_is(args[0].as_str(), "get") {
        ProfileAction::Show
    } else if str_is(args[0].as_str(), "set") {
        if args.len() < 2 {
            ProfileAction::MissingTarget
        } else {
            let t = to_lowercase(args[1].as_str());
            match profile_target(t.as_str()) {
                Some(p) => ProfileAction::Switch(p),
                None => ProfileAction::InvalidTarget,
            }
        }
    } else {
        ProfileAction::UnknownSubcommand
    }
}

/// The characters of the words `profile set` matches.
proof fn lemma_profile_words()
    ensures
        "performance"@ == seq!['p', 'e', 'r', 'f', 'o', 'r', 'm', 'a', 'n', 'c', 'e'],
        "high_power"@ == seq!['h', 'i', 'g', 'h', '_', 'p', 'o', 'w', 'e', 'r'],
        "turbo"@ == seq!['t', 'u', 'r', 'b', 'o'],
        "1"@ == seq!['1'],
        "gaming"@ == seq!['g', 'a', 'm', 'i', 'n', 'g'],
        "balanced"@ == seq!['b', 'a', 'l', 'a', 'n', 'c', 'e', 'd'],
        "2"@ == seq!['2'],
        "quiet"@ == seq!['q', 'u', 'i', 'e', 't'],
        "text_mode"@ == seq!['t', 'e', 'x', 't', '_', 'm', 'o', 'd', 'e'],
        "silent"@ == seq!['s', 'i', 'l', 'e', 'n', 't'],
        "3"@ == seq!['3'],
        "low_power"@ == seq!['l', 'o', 'w', '_', 'p', 'o', 'w', 'e', 'r'],
        "eco"@ == seq!['e', 'c', 'o'],
        "battery"@ == seq!['b', 'a', 't', 't', 'e', 'r', 'y'],
        "4"@ == seq!['4'],
{
    reveal_strlit("performance");
    reveal_strlit("high_power");
    reveal_strlit("turbo");
    reveal_strlit("1");
    reveal_strlit("gaming");
    reveal_strlit("balanced");
    reveal_strlit("2");
    reveal_strlit("quiet");
    reveal_strlit("text_mode");
    reveal_strlit("silent");
    reveal_strlit("3");
    reveal_strlit("low_power");
    reveal_strlit("eco");
    reveal_strlit("battery");
    reveal_strlit("4");
}

/// `profile set` accepts the canonical name of every plan and selects that
/// plan.
pub proof fn lemma_profile_target_accepts_plan_names(p: PowerPlan)
    ensures
        spec_profile_target(p.spec_as_str()) == Some(p),
{
    lemma_profile_words();
    assert("low_power"@[0] != "text_mode"@[0]);
}

/// Every word of the `profile set` table selects its plan: `performance`,
/// `high_power`, `turbo`, `1` select High Power; `gaming`, `balanced`, `2`
/// Gaming; `quiet`, `text_mode`, `silent`, `3` Text Mode; `low_power`,
/// `eco`, `battery`, `4` Low Power.
pub proof fn lemma_profile_target_table()
    ensures
        spec_profile_target("performance"@) == Some(PowerPlan::HighPower),
        spec_profile_target("high_power"@) == Some(PowerPlan::HighPower),
        spec_profile_target("turbo"@) == Some(PowerPlan::HighPower),
        spec_profile_target("1"@) == Some(PowerPlan::HighPower),
        spec_profile_target("gaming"@) == Some(PowerPlan::Gaming),
        spec_profile_target("balanced"@) == Some(PowerPlan::Gaming),
        spec_profile_target("2"@) == Some(PowerPlan::Gaming),
        spec_profile_target("quiet"@) == Some(PowerPlan::TextMode),
        spec_profile_target("text_mode"@) == Some(PowerPlan::TextMode),
        spec_profile_target("silent"@) == Some(PowerPlan::TextMode),
        spec_profile_target("3"@) == Some(PowerPlan::TextMode),
        spec_profile_target("low_power"@) == Some(PowerPlan::LowPower),
        spec_profile_target("eco"@) == Some(PowerPlan::LowPower),
        spec_profile_target("battery"@) == Some(PowerPlan::LowPower),
        spec_profile_target("4"@) == Some(PowerPlan::LowPower),
{
    lemma_profile_words();
    assert("performance"@[0] == 'p');
    assert("high_power"@[0] == 'h');
    assert("turbo"@[0] == 't');
    assert("1"@[0] == '1');
    assert("gaming"@[0] == 'g');
    assert("balanced"@[0] == 'b');
    assert("2"@[0] == '2');
    assert("quiet"@[0] == 'q');
    assert("text_mode"@[0] == 't');
    assert("silent"@[0] == 's');
    assert("3"@[0] == '3');
    assert("low_power"@[0] == 'l');
    assert("eco"@[0] == 'e');
    assert("battery"@[0] == 'b');
    assert("4"@[0] == '4');
}

/// A single decimal digit given to `profile set` selects the plan with that
/// number, exactly as the numeric conversion does.
pub proof fn lemma_profile_target_digit_matches_number(n: u32)
    requires
        n < 10,
    ensures
        spec_profile_target(seq![(0x30 + n) as char]) == PowerPlan::spec_from_u32(n),
{
    lemma_profile_words();
    let w = seq![(0x30 + n) as char];
    assert(w[0] == (0x30 + n) as char);
    assert("1"@[0] == '1');
    assert("2"@[0] == '2');
    assert("3"@[0] == '3');
    assert("4"@[0] == '4');
    if 1 <= n <= 4 {
        assert(w =~= seq![(0x30 + n) as char]);
    }
}

/// Every word `profile set` accepts names the same plan when read by the
/// plan parser `PowerPlan::from_str`.
pub proof fn lemma_profile_target_agrees_with_plan_parser(w: Seq<char>)
    ensures
        spec_profile_target(w) is Some ==> PowerPlan::spec_from_str(w) == spec_profile_target(w),
{
    lemma_profile_words();
    crate::power::lemma_plan_word_table();
}

/// Setting a plan by the `platform_profile` name it is written as selects
/// that plan, through `profile set` and through the plan parser alike. (The
/// low-power choice is written `low-power`, a spelling neither accepts.)
pub proof fn lemma_platform_profile_name_selects_plan(p: PowerPlan)
    requires
        p != PowerPlan::LowPower,
    ensures
        spec_profile_target(spec_platform_profile_name(p)) == Some(p),
        PowerPlan::spec_from_str(spec_platform_profile_name(p)) == Some(p),
{
    lemma_profile_words();
    crate::power::lemma_plan_word_table();
}

/// `profile` with no argument or `get` first shows the plan, whatever
/// follows; `set` alone lacks a target; `set` with a target switches to the
/// plan its lower-cased spelling names, or reports it as invalid; any other
/// first word is an unknown subcommand.
pub proof fn lemma_profile_action_forms(rest: Seq<Seq<char>>, w: Seq<char>, other: Seq<char>)
    requires
        other != "get"@,
        other != "set"@,
    ensures
        spec_profile_action(Seq::empty()) == ProfileAction::Show,
        spec_profile_action(seq!["get"@] + rest) == ProfileAction::Show,
        spec_profile_action(seq!["set"@]) == ProfileAction::MissingTarget,
        spec_profile_action(seq!["set"@, w] + rest) == match spec_profile_target(
            unicode_lowercase(w),
        ) {
            Some(p) => ProfileAction::Switch(p),
            None => ProfileAction::InvalidTarget,
        },
        spec_profile_action(seq![other] + rest) == ProfileAction::UnknownSubcommand,
{
    reveal_strlit("get");
    reveal_strlit("set");
    assert("get"@[0] != "set"@[0]);
    assert((seq!["get"@] + rest)[0] == "get"@);
    assert((seq!["set"@, w] + rest)[0] == "set"@);
    assert((seq!["set"@, w] + rest)[1] == w);
    assert((seq![other] + rest)[0] == other);
}

/// What the last step of switching the power plan reported.
#[derive(Debug, Clone, Copy, PartialEq, Eq, Structural)]
pub enum ProfileSwitchEvent {
    /// The switch begins.
    Start,
    /// Writing the plan's name to `platform_profile` succeeded (`true`) or failed.
    PlatformProfileWritten(bool),
    /// The driver's hwmon directory was found (`true`) or not.
    HwmonFound(bool),
    /// Writing the plan number to the hwmon `pwm1` file succeeded (`true`) or failed.
    PwmWritten(bool),
}

/// What the utility does next while switching the power plan.
#[derive(Debug, Clone, Copy, PartialEq, Eq, Structural)]
pub enum ProfileSwitchAction {
    /// Write the plan's `platform_profile` name.
    WritePlatformProfile,
    /// Look for the driver's hwmon directory.
    FindHwmon,
    /// Write the plan number to `pwm1`.
    WritePwm,
    /// Report that the plan is set.
    ReportSuccess,
    /// Report the failed `pwm1` write and exit with status 1.
    FailPwmWrite,
    /// Report that neither interface exists and exit with status 1.
    FailNoInterface,
}

/// The next action of a plan switch: `platform_profile` first; only if that
/// write fails, the hwmon `pwm1` file; failure of the fallback ends the
/// utility with status 1.
pub open spec fn spec_profile_switch_step(event: ProfileSwitchEvent) -> ProfileSwitchAction {
    match event {
        ProfileSwitchEvent::Start => ProfileSwitchAction::WritePlatformProfile,
        ProfileSwitchEvent::PlatformProfileWritten(ok) => if ok {
            ProfileSwitchAction::ReportSuccess
        } else {
            ProfileSwitchAction::FindHwmon
        },
        ProfileSwitchEvent::HwmonFound(found) => if found {
            ProfileSwitchAction::WritePwm
        } else {
            ProfileSwitchAction::FailNoInterface
        },
        ProfileSwitchEvent::PwmWritten(ok) => if ok {
            ProfileSwitchAction::ReportSuccess
        } else {
            ProfileSwitchAction::FailPwmWrite
        },
    }
}

/// Decides the next action of a plan switch from what the last step reported.
pub fn profile_switch_step(event: ProfileSwitchEvent) -> (a: ProfileSwitchAction)
    ensures
        a == spec_profile_switch_step(event),
{
    match event {
        ProfileSwitchEvent::Start => ProfileSwitchAction::WritePlatformProfile,
        ProfileSwitchEvent::PlatformProfileWritten(ok) => if ok {
            ProfileSwitchAction::ReportSuccess
        } else {
            ProfileSwitchAction::FindHwmon
        },
        ProfileSwitchEvent::HwmonFound(found) => if found {
            ProfileSwitchAction::WritePwm
        } else {
            ProfileSwitchAction::FailNoInterface
        },
        ProfileSwitchEvent::PwmWritten(ok) => if ok {
            ProfileSwitchAction::ReportSuccess
        } else {
            ProfileSwitchAction::FailPwmWrite
        },
    }
}

/// The action a plan switch ends on, given how its three possible steps go:
/// success exactly when `platform_profile` takes the plan, or the hwmon
/// directory exists and `pwm1` takes it; `pwm1` is tried only after
/// `platform_profile` fails.
pub open spec fn spec_profile_switch_outcome(
    platform_ok: bool,
    hwmon_found: bool,
    pwm_ok: bool,
) -> ProfileSwitchAction {
    if platform_ok {
        ProfileSwitchAction::ReportSuccess
    } else if !hwmon_found {
        ProfileSwitchAction::FailNoInterface
    } else if pwm_ok {
        ProfileSwitchAction::ReportSuccess
    } else {
        ProfileSwitchAction::FailPwmWrite
    }
}

/// Running the switch steps, feeding each action's result back as the next
/// event, ends on the outcome above after at most four steps.
pub proof fn lemma_profile_switch_run(platform_ok: bool, hwmon_found: bool, pwm_ok: bool)
    ensures
        ({
            let a1 = spec_profile_switch_step(ProfileSwitchEvent::Start);
            let a2 = spec_profile_switch_step(ProfileSwitchEvent::PlatformProfileWritten(platform_ok));
            let a3 = spec_profile_switch_step(ProfileSwitchEvent::HwmonFound(hwmon_found));
            let a4 = spec_profile_switch_step(ProfileSwitchEvent::PwmWritten(pwm_ok));
            &&& a1 == ProfileSwitchAction::WritePlatformProfile
            &&& a2 != ProfileSwitchAction::FindHwmon ==> a2 == spec_profile_switch_outcome(
                platform_ok,
                hwmon_found,
                pwm_ok,
            )
            &&& a2 == ProfileSwitchAction::FindHwmon && a3 != ProfileSwitchAction::WritePwm ==> a3
                == spec_profile_switch_outcome(platform_ok, hwmon_found, pwm_ok)
            &&& a2 == ProfileSwitchAction::FindHwmon && a3 == ProfileSwitchAction::WritePwm ==> a4
                == spec_profile_switch_outcome(platform_ok, hwmon_found, pwm_ok)
        }),
{
}

/// Interval between fan readings in `fan --watch`, in milliseconds.
pub const FAN_WATCH_INTERVAL_MS: u64 = 1000;

/// The status page describes each valid plan number with its own plan and
/// number, and every other number as unknown.
pub proof fn lemma_plan_description_table(pwm: u32)
    ensures
        spec_plan_description(1) == "High Power / Turbo (1)"@,
        spec_plan_description(2) == "Gaming / Balanced (2)"@,
        spec_plan_description(3) == "Text Mode / Quiet (3)"@,
        spec_plan_description(4) == "Low Power / Eco (4)"@,
        PowerPlan::spec_from_u32(pwm) is None ==> spec_plan_description(pwm) == "Unknown"@,
{
}

/// The `platform_profile` choices the plans are written as: `performance`,
/// `balanced`, `quiet` and `low-power`.
pub proof fn lemma_platform_profile_name_table()
    ensures
        spec_platform_profile_name(PowerPlan::HighPower) == "performance"@,
        spec_platform_profile_name(PowerPlan::Gaming) == "balanced"@,
        spec_platform_profile_name(PowerPlan::TextMode) == "quiet"@,
        spec_platform_profile_name(PowerPlan::LowPower) == "low-power"@,
{
}

/// The description the status page gives a hardware plan number.
pub open spec fn spec_plan_description(pwm: u32) -> Seq<char> {
    if pwm == 1 {
        "High Power / Turbo (1)"@
    } else if pwm == 2 {
        "Gaming / Balanced (2)"@
    } else if pwm == 3 {
        "Text Mode / Quiet (3)"@
    } else if pwm == 4 {
        "Low Power / Eco (4)"@
    } else {
        "Unknown"@
    }
}

/// Returns the description the status page gives a hardware plan number.
pub fn plan_description(pwm: u32) -> (d: &'static str)
    ensures
        d@ == spec_plan_description(pwm),
{
    match pwm {
        1 => "High Power / Turbo (1)",
        2 => "Gaming / Balanced (2)",
        3 => "Text Mode / Quiet (3)",
        4 => "Low Power / Eco (4)",
        _ => "Unknown",
    }
}

/// Short zone names in zone index order.
pub const ZONE_SHORT_NAMES: [&'static str; 4] = ["left", "middle", "right", "corners"];

/// The sysfs LED device a short zone name addresses.
pub open spec fn spec_zone_sysfs_name(zone: Seq<char>) -> Option<Seq<char>> {
    if zone == "left"@ {
        Some("excalibur::kbd_backlight-left"@)
    } else if zone == "middle"@ {
        Some("excalibur::kbd_backlight-middle"@)
    } else if zone == "right"@ {
        Some("excalibur::kbd_backlight-right"@)
    } else if zone == "corners"@ {
        Some("excalibur::kbd_backlight-corners"@)
    } else {
        None
    }
}

/// Returns the sysfs LED device a short zone name addresses, or `None` for
/// an unknown zone.
pub fn zone_sysfs_name(zone: &str) -> (name: Option<&'static str>)
    ensures
        name is Some <==> spec_zone_sysfs_name(zone@) is Some,
        name matches Some(n) ==> Some(n@) == spec_zone_sysfs_name(zone@),
{
    if str_is(zone, "left") {
        Some("excalibur::kbd_backlight-left")
    } else if str_is(zone, "middle") {
        Some("excalibur::kbd_backlight-middle")
    } else if str_is(zone, "right") {
        Some("excalibur::kbd_backlight-right")
    } else if str_is(zone, "corners") {
        Some("excalibur::kbd_backlight-corners")
    } else {
        None
    }
}

/// The zones an `rgb` zone argument addresses: all four for `all`, else the
/// argument itself.
pub open spec fn spec_zones_to_apply(zone: Seq<char>) -> Seq<Seq<char>> {
    if zone == "all"@ {
        seq!["left"@, "middle"@, "right"@, "corners"@]
    } else {
        seq![zone]
    }
}

/// Returns the zones an `rgb` zone argument addresses.
pub fn zones_to_apply(zone: &str) -> (zones: Vec<String>)
    ensures
        zones.deep_view() == spec_zones_to_apply(zone@),
{
    let mut zones: Vec<String> = Vec::new();
    if str_is(zone, "all") {
        zones.push(String::from_str("left"));
        zones.push(String::from_str("middle"));
        zones.push(String::from_str("right"));
        zones.push(String::from_str("corners"));
    } else {
        zones.push(String::from_str(zone));
    }
    assert(zones.deep_view() =~= spec_zones_to_apply(zone@));
    zones
}

/// The characters of the short zone names.
proof fn lemma_zone_words()
    ensures
        "left"@ == seq!['l', 'e', 'f', 't'],
        "middle"@ == seq!['m', 'i', 'd', 'd', 'l', 'e'],
        "right"@ == seq!['r', 'i', 'g', 'h', 't'],
        "corners"@ == seq!['c', 'o', 'r', 'n', 'e', 'r', 's'],
{
    reveal_strlit("left");
    reveal_strlit("middle");
    reveal_strlit("right");
    reveal_strlit("corners");
}

/// `all` addresses the four zones in zone index order, and each of them
/// names the same LED device as the kernel interface gives that index.
pub proof fn lemma_all_zones_match_kernel_names()
    ensures
        spec_zones_to_apply("all"@).len() == 4,
        forall|i: int|
            0 <= i < 4 ==> spec_zone_sysfs_name(#[trigger] spec_zones_to_apply("all"@)[i])
                == spec_zone_name(i),
{
    lemma_zone_words();
    let z = spec_zones_to_apply("all"@);
    assert(z[0] == "left"@);
    assert(z[1] == "middle"@);
    assert(z[2] == "right"@);
    assert(z[3] == "corners"@);
    assert(spec_zone_sysfs_name(z[0]) == spec_zone_name(0));
    assert(spec_zone_sysfs_name(z[1]) == spec_zone_name(1));
    assert(spec_zone_sysfs_name(z[2]) == spec_zone_name(2));
    assert(spec_zone_sysfs_name(z[3]) == spec_zone_name(3));
}

/// Options of an `rgb` command.
#[derive(Debug, Clone, PartialEq, Eq)]
pub struct RgbOptions {
    /// Zone argument, lower-cased; `all` unless given.
    pub zone: String,
    /// Colour text, as given.
    pub color: Option<String>,
    /// Mode text, lower-cased.
    pub mode: Option<String>,
    /// Brightness text, as given.
    pub brightness: Option<String>,
}

/// The options of an `rgb` command as plain character sequences: zone,
/// colour, mode and brightness.
pub struct RgbOptionsView {
    pub zone: Seq<char>,
    pub color: Option<Seq<char>>,
    pub mode: Option<Seq<char>>,
    pub brightness: Option<Seq<char>>,
}

impl View for RgbOptions {
    type V = RgbOptionsView;

    /// The options as plain character sequences.
    open spec fn view(&self) -> RgbOptionsView {
        RgbOptionsView {
            zone: self.zone@,
            color: self.color.deep_view(),
            mode: self.mode.deep_view(),
            brightness: self.brightness.deep_view(),
        }
    }
}

/// The options read from `args[i..]` on top of `acc`: each of `--zone`/`-z`,
/// `--color`/`-c`, `--mode`/`-m` and `--brightness`/`-b` followed by a value
/// sets its option to that value (zone and mode lower-cased) and consumes
/// both; any other argument, or a flag with no value after it, is skipped.
pub open spec fn spec_rgb_scan(args: Seq<Seq<char>>, i: int, acc: RgbOptionsView) -> RgbOptionsView
    decreases args.len() - i,
{
    if i < 0 || i >= args.len() {
        acc
    } else {
        let a = args[i];
        let has_value = i + 1 < args.len();
        if (a == "--zone"@ || a == "-z"@) && has_value {
            spec_rgb_scan(args, i + 2, RgbOptionsView { zone: unicode_lowercase(args[i + 1]), ..acc })
        } else if (a == "--color"@ || a == "-c"@) && has_value {
            spec_rgb_scan(args, i + 2, RgbOptionsView { color: Some(args[i + 1]), ..acc })
        } else if (a == "--mode"@ || a == "-m"@) && has_value {
            spec_rgb_scan(
                args,
                i + 2,
                RgbOptionsView { mode: Some(unicode_lowercase(args[i + 1])), ..acc },
            )
        } else if (a == "--brightness"@ || a == "-b"@) && has_value {
            spec_rgb_scan(args, i + 2, RgbOptionsView { brightness: Some(args[i + 1]), ..acc })
        } else {
            spec_rgb_scan(args, i + 1, acc)
        }
    }
}

/// The options an `rgb` command's arguments give, starting from zone `all`
/// and no colour, mode or brightness.
pub open spec fn spec_parse_rgb_args(args: Seq<Seq<char>>) -> RgbOptionsView {
    spec_rgb_scan(
        args,
        0,
        RgbOptionsView { zone: "all"@, color: None, mode: None, brightness: None },
    )
}

/// Reads the options of an `rgb` command.
pub fn parse_rgb_args(args: &Vec<String>) -> (opts: RgbOptions)
    ensures
        opts@ == spec_parse_rgb_args(args.deep_view()),
{
    let ghost a = args.deep_view();
    let mut opts = RgbOptions {
        zone: String::from_str("all"),
        color: None,
        mode: None,
        brightness: None,
    };
    let mut i: usize = 0;
    while i < args.len()
        invariant
            a == args.deep_view(),
            i <= args.len() + 1,
            spec_parse_rgb_args(a) == spec_rgb_scan(a, i as int, opts@),
        decreases args.len() + 1 - i,
    {
        let arg = args[i].as_str();
        let has_value = i + 1 < args.len();
        if (str_is(arg, "--zone") || str_is(arg, "-z")) && has_value {
            opts.zone = to_lowercase(args[i + 1].as_str());
            i = i + 1;
        } else if (str_is(arg, "--color") || str_is(arg, "-c")) && has_value {
            opts.color = Some(args[i + 1].clone());
            i = i + 1;
        } else if (str_is(arg, "--mode") || str_is(arg, "-m")) && has_value {
            opts.mode = Some(to_lowercase(args[i + 1].as_str()));
            i = i + 1;
        } else if (str_is(arg, "--brightness") || str_is(arg, "-b")) && has_value {
            opts.brightness = Some(args[i + 1].clone());
            i = i + 1;
        }
        i = i + 1;
    }
    opts
}

/// The sysfs attribute writes an `rgb` command makes in each zone, in order:
/// colour, then mode, then brightness, each only when given.
pub open spec fn spec_rgb_zone_writes(o: RgbOptionsView) -> Seq<(Seq<char>, Seq<char>)> {
    (match o.color {
        Some(c) => seq![("color"@, c)],
        None => Seq::empty(),
    }) + (match o.mode {
        Some(m) => seq![("mode"@, m)],
        None => Seq::empty(),
    }) + (match o.brightness {
        Some(b) => seq![("brightness"@, b)],
        None => Seq::empty(),
    })
}

/// Returns the attribute writes an `rgb` command makes in each zone, as
/// (attribute file, value) pairs in the order they are made.
pub fn rgb_zone_writes(opts: &RgbOptions) -> (writes: Vec<(&'static str, String)>)
    ensures
        writes@.len() == spec_rgb_zone_writes(opts@).len(),
        forall|i: int|
            0 <= i < writes@.len() ==> (#[trigger] writes@[i].0@, writes@[i].1@)
                == spec_rgb_zone_writes(opts@)[i],
{
    let mut writes: Vec<(&'static str, String)> = Vec::new();
    let ghost expected = spec_rgb_zone_writes(opts@);
    match &opts.color {
        Some(c) => writes.push(("color", c.clone())),
        None => {},
    }
    match &opts.mode {
        Some(m) => writes.push(("mode", m.clone())),
        None => {},
    }
    match &opts.brightness {
        Some(b) => writes.push(("brightness", b.clone())),
        None => {},
    }
    proof {
        let got = writes@.map_values(|w: (&'static str, String)| (w.0@, w.1@));
        assert(got =~= expected);
        assert forall|i: int| 0 <= i < writes@.len() implies (#[trigger] writes@[i].0@, writes@[i].1@)
            == expected[i] by {
            assert(got[i] == (writes@[i].0@, writes@[i].1@));
        }
    }
    writes
}

/// The characters of the `rgb` flags and attribute names.
proof fn lemma_rgb_words()
    ensures
        "--zone"@ == seq!['-', '-', 'z', 'o', 'n', 'e'],
        "-z"@ == seq!['-', 'z'],
        "--color"@ == seq!['-', '-', 'c', 'o', 'l', 'o', 'r'],
        "-c"@ == seq!['-', 'c'],
        "--mode"@ == seq!['-', '-', 'm', 'o', 'd', 'e'],
        "-m"@ == seq!['-', 'm'],
        "--brightness"@ == seq!['-', '-', 'b', 'r', 'i', 'g', 'h', 't', 'n', 'e', 's', 's'],
        "-b"@ == seq!['-', 'b'],
        "all"@ == seq!['a', 'l', 'l'],
        "color"@ == seq!['c', 'o', 'l', 'o', 'r'],
        "mode"@ == seq!['m', 'o', 'd', 'e'],
        "brightness"@ == seq!['b', 'r', 'i', 'g', 'h', 't', 'n', 'e', 's', 's'],
{
    reveal_strlit("--zone");
    reveal_strlit("-z");
    reveal_strlit("--color");
    reveal_strlit("-c");
    reveal_strlit("--mode");
    reveal_strlit("-m");
    reveal_strlit("--brightness");
    reveal_strlit("-b");
    reveal_strlit("all");
    reveal_strlit("color");
    reveal_strlit("mode");
    reveal_strlit("brightness");
}

/// The long and the short form of each `rgb` flag set the same option to the
/// value that follows, whatever it is, and leave the others at their
/// defaults: `--zone`/`-z` the zone (lower-cased), `--color`/`-c` the
/// colour, `--mode`/`-m` the mode (lower-cased), `--brightness`/`-b` the
/// brightness.
pub proof fn lemma_rgb_flag_forms(v: Seq<char>)
    ensures
        spec_parse_rgb_args(seq!["--zone"@, v]) == spec_parse_rgb_args(seq!["-z"@, v]),
        spec_parse_rgb_args(seq!["--zone"@, v]) == (RgbOptionsView {
            zone: unicode_lowercase(v),
            color: None,
            mode: None,
            brightness: None,
        }),
        spec_parse_rgb_args(seq!["--color"@, v]) == spec_parse_rgb_args(seq!["-c"@, v]),
        spec_parse_rgb_args(seq!["--color"@, v]) == (RgbOptionsView {
            zone: "all"@,
            color: Some(v),
            mode: None,
            brightness: None,
        }),
        spec_parse_rgb_args(seq!["--mode"@, v]) == spec_parse_rgb_args(seq!["-m"@, v]),
        spec_parse_rgb_args(seq!["--mode"@, v]) == (RgbOptionsView {
            zone: "all"@,
            color: None,
            mode: Some(unicode_lowercase(v)),
            brightness: None,
        }),
        spec_parse_rgb_args(seq!["--brightness"@, v]) == spec_parse_rgb_args(seq!["-b"@, v]),
        spec_parse_rgb_args(seq!["--brightness"@, v]) == (RgbOptionsView {
            zone: "all"@,
            color: None,
            mode: None,
            brightness: Some(v),
        }),
{
    lemma_rgb_words();
    reveal_with_fuel(spec_rgb_scan, 2);
}

/// The order in which a zone's attributes are written: colour, mode, brightness.
pub open spec fn attribute_rank(a: Seq<char>) -> int {
    if a == "color"@ {
        0
    } else if a == "mode"@ {
        1
    } else {
        2
    }
}

/// Each given `rgb` option is written on its own, whatever the others are:
/// one write per given option and no other, each carrying its option's value,
/// colour before mode before brightness.
pub proof fn lemma_rgb_zone_writes_each_option(o: RgbOptionsView)
    ensures
        spec_rgb_zone_writes(o).len() == (if o.color is Some { 1int } else { 0 }) + (if o.mode is Some {
            1int
        } else {
            0
        }) + (if o.brightness is Some { 1int } else { 0 }),
        o.color matches Some(c) ==> spec_rgb_zone_writes(o).contains(("color"@, c)),
        o.mode matches Some(m) ==> spec_rgb_zone_writes(o).contains(("mode"@, m)),
        o.brightness matches Some(b) ==> spec_rgb_zone_writes(o).contains(("brightness"@, b)),
        forall|i: int, j: int|
            0 <= i < j < spec_rgb_zone_writes(o).len() ==> attribute_rank(
                #[trigger] spec_rgb_zone_writes(o)[i].0,
            ) < attribute_rank(#[trigger] spec_rgb_zone_writes(o)[j].0),
{
    lemma_rgb_words();
    let w = spec_rgb_zone_writes(o);
    let cs: Seq<(Seq<char>, Seq<char>)> = match o.color {
        Some(c) => seq![("color"@, c)],
        None => Seq::empty(),
    };
    let ms: Seq<(Seq<char>, Seq<char>)> = match o.mode {
        Some(m) => seq![("mode"@, m)],
        None => Seq::empty(),
    };
    let bs: Seq<(Seq<char>, Seq<char>)> = match o.brightness {
        Some(b) => seq![("brightness"@, b)],
        None => Seq::empty(),
    };
    assert(w == cs + ms + bs);
    if let Some(c) = o.color {
        assert(w[0] == ("color"@, c));
    }
    if let Some(m) = o.mode {
        assert(w[cs.len() as int] == ("mode"@, m));
    }
    if let Some(b) = o.brightness {
        assert(w[(cs.len() + ms.len()) as int] == ("brightness"@, b));
    }
    assert forall|i: int, j: int|
        0 <= i < j < w.len() implies attribute_rank(#[trigger] w[i].0) < attribute_rank(
        #[trigger] w[j].0,
    ) by {
        if i < cs.len() {
            assert(w[i].0 == "color"@);
        } else if i < cs.len() + ms.len() {
            assert(w[i].0 == "mode"@);
        }
        if j < cs.len() + ms.len() {
            assert(j >= cs.len());
            assert(w[j].0 == "mode"@);
        } else {
            assert(w[j].0 == "brightness"@);
        }
    }
}

/// Returns whether a `fan` command asks to keep watching (`--watch` or `-w`
/// anywhere among its arguments).
pub fn wants_watch(args: &Vec<String>) -> (watch: bool)
    ensures
        watch == exists|i: int|
            0 <= i < args@.len() && (#[trigger] args@[i]@ == "--watch"@ || args@[i]@ == "-w"@),
{
    let mut i: usize = 0;
    while i < args.len()
        invariant
            i <= args@.len(),
            forall|j: int| 0 <= j < i ==> !(#[trigger] args@[j]@ == "--watch"@ || args@[j]@ == "-w"@),
        decreases args@.len() - i,
    {
        if str_is(args[i].as_str(), "--watch") || str_is(args[i].as_str(), "-w") {
            return true;
        }
        i = i + 1;
    }
    false
}

/// Whether a character is an ASCII decimal digit.
pub open spec fn is_digit(c: char) -> bool {
    '0' <= c <= '9'
}

/// The value of a sequence of decimal digits, most significant first.
pub open spec fn decimal_value(d: Seq<char>) -> int
    decreases d.len(),
{
    if d.len() == 0 {
        0
    } else {
        decimal_value(d.drop_last()) * 10 + (d.last() as int - '0' as int)
    }
}

/// Whether every character of a sequence is a decimal digit.
pub open spec fn all_digits(d: Seq<char>) -> bool {
    forall|i: int| 0 <= i < d.len() ==> is_digit(#[trigger] d[i])
}

/// A number text with one leading `+` removed.
pub open spec fn strip_plus(t: Seq<char>) -> Seq<char> {
    if t.len() > 0 && t[0] == '+' {
        t.drop_first()
    } else {
        t
    }
}

/// The number a sysfs value text holds, read the way `u32::from_str` reads
/// the text with its surrounding white space trimmed: an optional `+`, then
/// one or more decimal digits whose value fits in 32 bits.
pub open spec fn spec_parse_sysfs_u32(s: Seq<char>) -> Option<u32> {
    let d = strip_plus(trim_whitespace(s));
    if d.len() > 0 && all_digits(d) && decimal_value(d) <= u32::MAX {
        Some(decimal_value(d) as u32)
    } else {
        None
    }
}

proof fn lemma_decimal_value_prefix(d: Seq<char>, j: int)
    requires
        0 <= j <= d.len(),
        all_digits(d),
    ensures
        0 <= decimal_value(d.take(j)) <= decimal_value(d),
    decreases d.len() - j,
{
    if j < d.len() {
        lemma_decimal_value_prefix(d, j + 1);
        assert(d.take(j + 1).drop_last() =~= d.take(j));
    } else {
        assert(d.take(j) =~= d);
    }
    lemma_decimal_value_nonneg(d.take(j));
}

proof fn lemma_decimal_value_nonneg(d: Seq<char>)
    requires
        all_digits(d),
    ensures
        0 <= decimal_value(d),
    decreases d.len(),
{
    if d.len() > 0 {
        lemma_decimal_value_nonneg(d.drop_last());
    }
}

/// The decimal digits of a number, most significant first, with no leading zero.
pub open spec fn decimal_digits(n: nat) -> Seq<char>
    decreases n,
{
    if n < 10 {
        seq![(0x30 + n) as char]
    } else {
        decimal_digits(n / 10).push((0x30 + n % 10) as char)
    }
}

proof fn lemma_decimal_digits(n: nat)
    ensures
        decimal_digits(n).len() > 0,
        all_digits(decimal_digits(n)),
        decimal_value(decimal_digits(n)) == n,
        decimal_digits(n)[0] != '+',
        !crate::text::is_unicode_whitespace(decimal_digits(n)[0]),
        !crate::text::is_unicode_whitespace(decimal_digits(n).last()),
    decreases n,
{
    if n >= 10 {
        lemma_decimal_digits(n / 10);
        let d = decimal_digits(n);
        assert(d.drop_last() =~= decimal_digits(n / 10));
        assert(d[0] == decimal_digits(n / 10)[0]);
        let c = (0x30 + n % 10) as char;
        assert(d.last() == c);
        assert(c as int == 0x30 + n % 10);
        assert(decimal_value(d) == decimal_value(decimal_digits(n / 10)) * 10 + (c as int - '0' as int));
        assert(n == (n / 10) * 10 + n % 10);
        assert(decimal_value(d) == n);
    } else {
        let c = (0x30 + n) as char;
        assert(c as int == 0x30 + n);
        let d = decimal_digits(n);
        assert(d.drop_last() =~= Seq::<char>::empty());
        assert(decimal_value(d.drop_last()) == 0);
        assert(d.last() == c);
        assert(decimal_value(d) == decimal_value(d.drop_last()) * 10 + (c as int - '0' as int));
    }
}

/// Every 32-bit number is read back from its decimal digits, bare, after a
/// `+`, or surrounded by white space such as the line feed sysfs adds; the
/// same digits after a `-` are no number.
pub proof fn lemma_parse_sysfs_u32_of_digits(n: u32, pre: Seq<char>, post: Seq<char>)
    requires
        forall|i: int| 0 <= i < pre.len() ==> crate::text::is_unicode_whitespace(#[trigger] pre[i]),
        forall|i: int| 0 <= i < post.len() ==> crate::text::is_unicode_whitespace(#[trigger] post[i]),
    ensures
        spec_parse_sysfs_u32(pre + decimal_digits(n as nat) + post) == Some(n),
        spec_parse_sysfs_u32(seq!['+'] + decimal_digits(n as nat)) == Some(n),
        spec_parse_sysfs_u32(seq!['-'] + decimal_digits(n as nat)) is None,
{
    let d = decimal_digits(n as nat);
    lemma_decimal_digits(n as nat);
    crate::text::lemma_trim_whitespace_padding(pre, d, post);
    let plus = seq!['+'] + d;
    assert(plus.last() == d.last());
    crate::text::lemma_trim_whitespace_unchanged(plus);
    assert(plus.drop_first() =~= d);
    let minus = seq!['-'] + d;
    assert(minus.last() == d.last());
    crate::text::lemma_trim_whitespace_unchanged(minus);
    assert(!is_digit(minus[0]));
}

/// Reads a number from a sysfs value text (such as `3500` followed by a
/// line feed); `None` for anything that is not such a number.
pub fn parse_sysfs_u32(text: &str) -> (n: Option<u32>)
    ensures
        n == spec_parse_sysfs_u32(text@),
{
    let t = trimmed_chars(text);
    let start: usize = if t.len() > 0 && t[0] == '+' {
        1
    } else {
        0
    };
    let ghost d = strip_plus(t@);
    assert(d =~= t@.subrange(start as int, t@.len() as int));
    if start >= t.len() {
        return None;
    }
    let mut i: usize = start;
    while i < t.len()
        invariant
            start <= i <= t@.len(),
            d == t@.subrange(start as int, t@.len() as int),
            t@ == trim_whitespace(text@),
            d == strip_plus(t@),
            forall|j: int| 0 <= j < i - start ==> is_digit(#[trigger] d[j]),
        decreases t@.len() - i,
    {
        let c = t[i];
        assert(d[i - start] == c);
        if !('0' <= c && c <= '9') {
            assert(!is_digit(d[i - start]));
            assert(!all_digits(d));
            return None;
        }
        i = i + 1;
    }
    let mut value: u64 = 0;
    let mut k: usize = start;
    while k < t.len()
        invariant
            start <= k <= t@.len(),
            d == t@.subrange(start as int, t@.len() as int),
            t@ == trim_whitespace(text@),
            d == strip_plus(t@),
            all_digits(d),
            value == decimal_value(d.take(k - start)),
            value <= u32::MAX,
        decreases t@.len() - k,
    {
        let c = t[k];
        assert(d[k - start] == c);
        assert(is_digit(d[k - start]));
        let digit: u64 = (c as u32 - '0' as u32) as u64;
        assert(digit == c as int - '0' as int);
        assert(d.take(k - start + 1).drop_last() =~= d.take(k - start));
        assert(d.take(k - start + 1).last() == c);
        value = value * 10 + digit;
        if value > 0xFFFF_FFFF {
            proof {
                lemma_decimal_value_prefix(d, k - start + 1);
            }
            assert(decimal_value(d) > u32::MAX);
            return None;
        }
        k = k + 1;
    }
    assert(d.take(d.len() as int) =~= d);
    Some(value as u32)
}

} // verus!
