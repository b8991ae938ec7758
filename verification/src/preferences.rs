//! Explicit user preferences, quiet hours and the effective delivery policy.

use vstd::prelude::*;
use crate::config::SecondMindConfig;
use crate::errors::SecondMindError;
use crate::text::{chars_of, has_control, is_control, trimmed, validate_text};

verus! {

/// A recurring local quiet-hours window, `[start, end)` in minutes of the
/// local day; a window whose end precedes its start wraps midnight.
#[derive(Clone, Copy, Debug, PartialEq, Eq, Structural)]
pub struct DoNotDisturbWindow {
    pub start_minute_local: u16,
    pub end_minute_local: u16,
    pub utc_offset_minutes: i16,
}

/// A window with both ends inside the day, distinct ends, and an offset of
/// less than a day.
pub open spec fn spec_valid_window(w: DoNotDisturbWindow) -> bool {
    w.start_minute_local < 1440 && w.end_minute_local < 1440 && w.start_minute_local
        != w.end_minute_local && -1439 <= w.utc_offset_minutes <= 1439
}

/// Whether a quiet-hours window is well formed.
pub fn valid_do_not_disturb_window(window: DoNotDisturbWindow) -> (r: bool)
    ensures
        r == spec_valid_window(window),
{
    window.start_minute_local < 1440 && window.end_minute_local < 1440 && window.start_minute_local
        != window.end_minute_local && -1439 <= window.utc_offset_minutes && window.utc_offset_minutes
        <= 1439
}

/// The minute of the local day at Unix second `secs` in an offset of `offset`
/// seconds east of UTC.
pub open spec fn local_minute(secs: int, offset: int) -> int {
    ((secs + offset) % 86400) / 60
}

/// Offsets, in seconds, that a UTC offset can represent.
pub open spec fn representable_offset(offset: int) -> bool {
    -93599 <= offset <= 93599
}

/// Unix seconds far enough inside the supported calendar that every
/// representable offset stays inside it.
pub open spec fn safe_unix_seconds(secs: int) -> bool {
    -377_705_000_000 <= secs <= 253_402_000_000
}

/// Unix milliseconds whose second is safe.
pub open spec fn safe_instant(now: i64) -> bool {
    -377_705_000_000_000 <= now <= 253_402_000_000_000
}

/// The local hour and minute at a Unix second in a given offset.
///
/// Calls `time::UtcOffset::from_whole_seconds`,
/// `time::OffsetDateTime::from_unix_timestamp`, `checked_to_offset`, `hour`
/// and `minute`. The local time is the UTC time shifted by the offset, so the
/// hour and minute give the minute of the day `((secs + offset) mod 86400) /
/// 60`. The offset is refused outside ±25:59:59 and the conversion outside
/// the calendar's years ±9999, giving `None`.
#[verifier::external_body]
fn local_time(secs: i64, offset: i32) -> (r: Option<(u8, u8)>)
    ensures
        r matches Some(hm) ==> hm.0 < 24 && hm.1 < 60 && hm.0 * 60 + hm.1 == local_minute(secs as int, offset as int),
        representable_offset(offset as int) && safe_unix_seconds(secs as int) ==> r is Some,
        !representable_offset(offset as int) ==> r is None,
{
    let offset = time::UtcOffset::from_whole_seconds(offset).ok()?;
    let instant = time::OffsetDateTime::from_unix_timestamp(secs).ok()?;
    let local = instant.checked_to_offset(offset)?;
    Some((local.hour(), local.minute()))
}

/// Whether `minute` falls in the window: start inclusive, end exclusive, and
/// wrapping midnight when the end precedes the start.
pub open spec fn window_covers(w: DoNotDisturbWindow, minute: int) -> bool {
    if w.start_minute_local < w.end_minute_local {
        w.start_minute_local <= minute < w.end_minute_local
    } else {
        minute >= w.start_minute_local || minute < w.end_minute_local
    }
}

/// The Unix second of the Unix millisecond `now`, rounded down.
pub open spec fn unix_second(now: i64) -> int {
    now as int / 1000
}

/// Whether the window is active at `now`; an unrepresentable offset fails
/// closed as active.
pub open spec fn spec_dnd_contains(w: DoNotDisturbWindow, now: i64) -> bool {
    let offset = w.utc_offset_minutes * 60;
    if !representable_offset(offset) {
        true
    } else {
        window_covers(w, local_minute(unix_second(now), offset))
    }
}

/// Whether quiet hours hold at the instant `now` (Unix milliseconds).
pub fn do_not_disturb_contains(window: DoNotDisturbWindow, now: i64) -> (r: bool)
    requires
        safe_instant(now),
    ensures
        r == spec_dnd_contains(window, now),
{
    let offset: i32 = (window.utc_offset_minutes as i32) * 60;
    let secs: i64 = if now >= 0 {
        now / 1000
    } else {
        let up: i64 = (-now + 999) / 1000;
        -up
    };
    assert(secs == unix_second(now)) by (nonlinear_arith)
        requires
            now >= 0 ==> secs == now / 1000,
            now < 0 ==> secs == -((-now + 999) / 1000),
    ;
    let minute: u16 = match local_time(secs, offset) {
        Some((hour, minute)) => hour as u16 * 60 + minute as u16,
        None => return true,
    };
    if window.start_minute_local < window.end_minute_local {
        window.start_minute_local <= minute && minute < window.end_minute_local
    } else {
        minute >= window.start_minute_local || minute < window.end_minute_local
    }
}

/// The explicit, user-authored preferences that bound proactive help.
#[derive(Clone, Debug, PartialEq, Eq)]
pub struct ExplicitPreferences {
    pub schema_version: u32,
    pub owner: u128,
    pub revision: u64,
    pub preferred_form_of_address: Option<String>,
    pub default_focus_minutes: u32,
    pub maximum_interventions_per_session: u16,
    pub maximum_model_requests_per_hour: u16,
    pub minimum_intervention_cooldown_seconds: u64,
    pub proactive_interventions_enabled: bool,
    pub proactive_interventions_muted: bool,
    pub do_not_disturb_windows: Vec<DoNotDisturbWindow>,
    pub allowed_delivery_channels: Vec<String>,
    pub remote_processing_enabled: bool,
    pub restart_continuity_default: bool,
}

/// The only preferences schema.
pub const USER_PREFERENCES_SCHEMA_V1: u32 = 1;

/// The native notification delivery channel.
pub open spec fn native_notification_channel() -> Seq<char> {
    seq!['w', 'i', 'n', 'd', 'o', 'w', 's', '.', 'n', 'a', 't', 'i', 'v', 'e', '_', 'n', 'o', 't', 'i', 'f', 'i', 'c', 'a', 't', 'i', 'o', 'n']
}

/// The number of UTF-8 bytes that encode `c`.
pub open spec fn utf8_len(c: char) -> nat {
    if (c as u32) < 0x80 {
        1
    } else if (c as u32) < 0x800 {
        2
    } else if (c as u32) < 0x10000 {
        3
    } else {
        4
    }
}

/// The number of UTF-8 bytes that encode `s`.
pub open spec fn utf8_byte_len(s: Seq<char>) -> nat
    decreases s.len(),
{
    if s.len() == 0 {
        0
    } else {
        utf8_byte_len(s.drop_last()) + utf8_len(s.last())
    }
}

/// A channel name of 1 to 64 bytes with no control character.
pub open spec fn valid_channel(s: Seq<char>) -> bool {
    0 < utf8_byte_len(s) <= 64 && !has_control(s)
}

/// What the preference limits require, given the configuration.
pub open spec fn spec_preference_limits(config: SecondMindConfig, p: ExplicitPreferences) -> bool {
    &&& p.schema_version == USER_PREFERENCES_SCHEMA_V1
    &&& 0 < p.default_focus_minutes <= 1440
    &&& p.maximum_interventions_per_session <= config.maximum_interventions_per_session
    &&& p.maximum_model_requests_per_hour <= config.maximum_model_requests_per_hour
    &&& p.minimum_intervention_cooldown_seconds >= config.intervention_cooldown / 1000
    &&& p.do_not_disturb_windows@.len() <= 16
    &&& forall|i: int|
        0 <= i < p.do_not_disturb_windows@.len() ==> spec_valid_window(
            #[trigger] p.do_not_disturb_windows@[i],
        )
    &&& p.allowed_delivery_channels@.len() <= 8
    &&& forall|i: int|
        0 <= i < p.allowed_delivery_channels@.len() ==> valid_channel(
            (#[trigger] p.allowed_delivery_channels@[i])@,
        )
}

/// Whether the form of address, when present, is valid text.
pub open spec fn spec_form_of_address_valid(p: ExplicitPreferences) -> bool {
    match p.preferred_form_of_address {
        Some(s) => 1 <= trimmed(s@).len() <= 80 && !has_control(s@),
        None => true,
    }
}

fn channel_is_valid(channel: &String) -> (r: bool)
    ensures
        r == valid_channel(channel@),
{
    let chars = chars_of(channel.as_str());
    let mut bytes: usize = 0;
    let mut i: usize = 0;
    while i < chars.len()
        invariant
            i <= chars@.len(),
            chars@ == channel@,
            bytes == utf8_byte_len(chars@.subrange(0, i as int)),
            bytes <= 64,
            forall|k: int| 0 <= k < i ==> !is_control(#[trigger] chars@[k]),
        decreases chars@.len() - i,
    {
        let c = chars[i];
        assert(chars@.subrange(0, (i + 1) as int).drop_last() == chars@.subrange(0, i as int));
        if crate::text::char_is_control(c) {
            return false;
        }
        let n = c as u32;
        let w: usize = if n < 0x80 {
            1
        } else if n < 0x800 {
            2
        } else if n < 0x10000 {
            3
        } else {
            4
        };
        if bytes + w > 64 {
            proof {
                lemma_utf8_len_monotone(chars@, (i + 1) as int);
            }
            return false;
        }
        bytes = bytes + w;
        i = i + 1;
    }
    assert(chars@.subrange(0, i as int) == chars@);
    bytes > 0
}

proof fn lemma_utf8_len_monotone(s: Seq<char>, k: int)
    requires
        0 <= k <= s.len(),
    ensures
        utf8_byte_len(s.subrange(0, k)) <= utf8_byte_len(s),
    decreases s.len() - k,
{
    if k < s.len() {
        lemma_utf8_len_monotone(s, k + 1);
        assert(s.subrange(0, k + 1).drop_last() == s.subrange(0, k));
    } else {
        assert(s.subrange(0, k) == s);
    }
}

/// Refuses preferences outside their limits: the form of address first, then
/// the schema, the focus length, caps and cooldown no looser than the
/// configuration, and at most 16 valid quiet-hours windows and 8 valid channels.
pub fn validate_preferences(config: &SecondMindConfig, value: &ExplicitPreferences) -> (r: Result<(), SecondMindError>)
    ensures
        r is Ok <==> (spec_form_of_address_valid(*value) && spec_preference_limits(*config, *value)),
        r matches Err(e) ==> e.code == crate::errors::SecondMindErrorCode::InvalidArgument && !e.retryable,
        !spec_form_of_address_valid(*value) ==> (r matches Err(e) && e.summary
            == "The preferred form of address is invalid."),
        spec_form_of_address_valid(*value) && !spec_preference_limits(*config, *value) ==> (r matches Err(e)
            && e.summary == "Preference limits are invalid."),
{
    match &value.preferred_form_of_address {
        Some(s) => {
            validate_text(s.as_str(), 1, 80, "The preferred form of address is invalid.")?;
        },
        None => {},
    }
    if value.schema_version != USER_PREFERENCES_SCHEMA_V1 || value.default_focus_minutes == 0
        || value.default_focus_minutes > 1440
        || value.maximum_interventions_per_session > config.maximum_interventions_per_session
        || value.maximum_model_requests_per_hour > config.maximum_model_requests_per_hour
        || value.minimum_intervention_cooldown_seconds < config.intervention_cooldown / 1000
        || value.do_not_disturb_windows.len() > 16 || value.allowed_delivery_channels.len() > 8
    {
        return Err(SecondMindError::invalid("Preference limits are invalid."));
    }
    let mut i: usize = 0;
    while i < value.do_not_disturb_windows.len()
        invariant
            i <= value.do_not_disturb_windows@.len(),
            spec_form_of_address_valid(*value),
            forall|k: int| 0 <= k < i ==> spec_valid_window(#[trigger] value.do_not_disturb_windows@[k]),
        decreases value.do_not_disturb_windows@.len() - i,
    {
        if !valid_do_not_disturb_window(value.do_not_disturb_windows[i]) {
            return Err(SecondMindError::invalid("Preference limits are invalid."));
        }
        i = i + 1;
    }
    let mut j: usize = 0;
    while j < value.allowed_delivery_channels.len()
        invariant
            j <= value.allowed_delivery_channels@.len(),
            spec_form_of_address_valid(*value),
            forall|k: int| 0 <= k < value.do_not_disturb_windows@.len() ==> spec_valid_window(#[trigger] value.do_not_disturb_windows@[k]),
            forall|k: int|
                0 <= k < j ==> valid_channel((#[trigger] value.allowed_delivery_channels@[k])@),
        decreases value.allowed_delivery_channels@.len() - j,
    {
        if !channel_is_valid(&value.allowed_delivery_channels[j]) {
            return Err(SecondMindError::invalid("Preference limits are invalid."));
        }
        j = j + 1;
    }
    Ok(())
}

/// The revision a saved preferences record receives: one for a first save,
/// otherwise one past the expected revision.
pub fn next_preferences_revision(expected_revision: Option<u64>) -> (r: u64)
    ensures
        r == (match expected_revision {
            None => 1,
            Some(v) => if v == u64::MAX {
                u64::MAX
            } else {
                (v + 1) as u64
            },
        }),
{
    match expected_revision {
        None => 1,
        Some(v) => v.saturating_add(1),
    }
}

/// The preferences in force: the user's explicit choices clamped so that no
/// cap exceeds, and no cooldown undercuts, the configured policy.
#[derive(Clone, Debug, PartialEq, Eq)]
pub struct EffectivePreferences {
    pub revision: u64,
    pub maximum_interventions_per_session: u16,
    pub maximum_model_requests_per_hour: u16,
    /// Milliseconds.
    pub intervention_cooldown: u64,
    pub proactive_interventions_enabled: bool,
    pub proactive_interventions_muted: bool,
    pub do_not_disturb_windows: Vec<DoNotDisturbWindow>,
    pub allowed_delivery_channels: Vec<String>,
    pub remote_processing_enabled: bool,
    pub restart_continuity_default: bool,
}

/// The smaller of two numbers.
pub open spec fn min_u16(a: u16, b: u16) -> u16 {
    if a <= b {
        a
    } else {
        b
    }
}

/// The effective cooldown in milliseconds: the larger of the user's seconds
/// and the configured seconds, saturating.
pub open spec fn effective_cooldown_ms(user_seconds: u64, config_ms: u64) -> u64 {
    let secs: int = if user_seconds >= config_ms / 1000 {
        user_seconds as int
    } else {
        (config_ms / 1000) as int
    };
    if secs * 1000 > u64::MAX {
        u64::MAX
    } else {
        (secs * 1000) as u64
    }
}

impl EffectivePreferences {
    /// Derives the preferences in force from an explicit record.
    pub fn from_record(config: &SecondMindConfig, value: ExplicitPreferences) -> (e: Self)
        ensures
            e.revision == value.revision,
            e.maximum_interventions_per_session == min_u16(
                value.maximum_interventions_per_session,
                config.maximum_interventions_per_session,
            ),
            e.maximum_model_requests_per_hour == min_u16(
                value.maximum_model_requests_per_hour,
                config.maximum_model_requests_per_hour,
            ),
            e.intervention_cooldown == effective_cooldown_ms(
                value.minimum_intervention_cooldown_seconds,
                config.intervention_cooldown,
            ),
            e.proactive_interventions_enabled == value.proactive_interventions_enabled,
            e.proactive_interventions_muted == value.proactive_interventions_muted,
            e.do_not_disturb_windows@ == value.do_not_disturb_windows@,
            e.allowed_delivery_channels@ == value.allowed_delivery_channels@,
            e.remote_processing_enabled == value.remote_processing_enabled,
            e.restart_continuity_default == value.restart_continuity_default,
    {
        let per_session = if value.maximum_interventions_per_session <= config.maximum_interventions_per_session {
            value.maximum_interventions_per_session
        } else {
            config.maximum_interventions_per_session
        };
        let per_hour = if value.maximum_model_requests_per_hour <= config.maximum_model_requests_per_hour {
            value.maximum_model_requests_per_hour
        } else {
            config.maximum_model_requests_per_hour
        };
        let config_secs = config.intervention_cooldown / 1000;
        let secs = if value.minimum_intervention_cooldown_seconds >= config_secs {
            value.minimum_intervention_cooldown_seconds
        } else {
            config_secs
        };
        EffectivePreferences {
            revision: value.revision,
            maximum_interventions_per_session: per_session,
            maximum_model_requests_per_hour: per_hour,
            intervention_cooldown: if secs > u64::MAX / 1000 { u64::MAX } else { secs * 1000 },
            proactive_interventions_enabled: value.proactive_interventions_enabled,
            proactive_interventions_muted: value.proactive_interventions_muted,
            do_not_disturb_windows: value.do_not_disturb_windows,
            allowed_delivery_channels: value.allowed_delivery_channels,
            remote_processing_enabled: value.remote_processing_enabled,
            restart_continuity_default: value.restart_continuity_default,
        }
    }

    /// Whether any quiet-hours window holds at `now`.
    pub fn is_do_not_disturb(&self, now: i64) -> (r: bool)
        requires
            safe_instant(now),
        ensures
            r == exists|i: int|
                0 <= i < self.do_not_disturb_windows@.len() && spec_dnd_contains(
                    #[trigger] self.do_not_disturb_windows@[i],
                    now,
                ),
    {
        let mut i: usize = 0;
        while i < self.do_not_disturb_windows.len()
            invariant
                i <= self.do_not_disturb_windows@.len(),
                safe_instant(now),
                forall|k: int|
                    0 <= k < i ==> !spec_dnd_contains(#[trigger] self.do_not_disturb_windows@[k], now),
            decreases self.do_not_disturb_windows@.len() - i,
        {
            if do_not_disturb_contains(self.do_not_disturb_windows[i], now) {
                return true;
            }
            i = i + 1;
        }
        false
    }

    /// Whether native notifications are an allowed delivery channel.
    pub fn permits_native_notification(&self) -> (r: bool)
        ensures
            r == exists|i: int|
                0 <= i < self.allowed_delivery_channels@.len()
                    && (#[trigger] self.allowed_delivery_channels@[i])@ == native_notification_channel(),
    {
        let target: Vec<char> = vec!['w', 'i', 'n', 'd', 'o', 'w', 's', '.', 'n', 'a', 't', 'i', 'v', 'e', '_', 'n', 'o', 't', 'i', 'f', 'i', 'c', 'a', 't', 'i', 'o', 'n'];
        assert(target@ == native_notification_channel());
        let mut i: usize = 0;
        while i < self.allowed_delivery_channels.len()
            invariant
                i <= self.allowed_delivery_channels@.len(),
                target@ == native_notification_channel(),
                forall|k: int|
                    0 <= k < i ==> (#[trigger] self.allowed_delivery_channels@[k])@
                        != native_notification_channel(),
            decreases self.allowed_delivery_channels@.len() - i,
        {
            let chars = chars_of(self.allowed_delivery_channels[i].as_str());
            if crate::text::same_chars(&chars, &target) {
                return true;
            }
            i = i + 1;
        }
        false
    }
}

/// The effective cap and cooldown never loosen the configured policy.
pub proof fn law_effective_preferences_never_loosen_policy(config: SecondMindConfig, user_per_session: u16, user_per_hour: u16, user_cooldown_seconds: u64)
    ensures
        min_u16(user_per_session, config.maximum_interventions_per_session)
            <= config.maximum_interventions_per_session,
        min_u16(user_per_hour, config.maximum_model_requests_per_hour)
            <= config.maximum_model_requests_per_hour,
        effective_cooldown_ms(user_cooldown_seconds, config.intervention_cooldown) >= (
        config.intervention_cooldown / 1000) * 1000,
{
    assert(((config.intervention_cooldown / 1000) as int) * 1000 <= config.intervention_cooldown as int) by (nonlinear_arith);
    if user_cooldown_seconds >= config.intervention_cooldown / 1000 {
        assert((user_cooldown_seconds as int) * 1000 >= ((config.intervention_cooldown / 1000) as int) * 1000) by (nonlinear_arith)
            requires
                user_cooldown_seconds >= config.intervention_cooldown / 1000,
        ;
    }
}

/// Quiet hours are start-inclusive and end-exclusive, and a window whose end
/// precedes its start covers the minutes on both sides of midnight.
pub proof fn law_quiet_hours_bounds(w: DoNotDisturbWindow)
    requires
        spec_valid_window(w),
    ensures
        window_covers(w, w.start_minute_local as int),
        !window_covers(w, w.end_minute_local as int),
        w.end_minute_local < w.start_minute_local ==> window_covers(w, 1439) && window_covers(w, 0)
            == (w.end_minute_local > 0),
{
}

/// The policy a client sees as in force.
#[derive(Clone, Debug, PartialEq, Eq)]
pub struct EffectivePolicy {
    pub policy_profile_id: &'static str,
    pub user_preferences_revision: u64,
    pub source_stale_after: u64,
    pub maximum_model_evidence_age: u64,
    pub model_request_cooldown: u64,
    pub maximum_model_requests_per_hour: u16,
    pub intervention_cooldown: u64,
    pub maximum_interventions_per_session: u16,
    pub proactive_interventions_enabled: bool,
    pub proactive_interventions_muted: bool,
    pub do_not_disturb_windows: Vec<DoNotDisturbWindow>,
    pub allowed_delivery_channels: Vec<String>,
    pub remote_processing_enabled: bool,
    pub restart_continuity_default: bool,
    pub outbox_capacity_per_user: usize,
    pub outbox_capacity_per_session: usize,
}

impl EffectivePolicy {
    /// The policy in force for `effective` under `config`.
    pub fn from_effective(config: &SecondMindConfig, effective: EffectivePreferences) -> (p: Self)
        ensures
            p.policy_profile_id == "phase2-focus-v1",
            p.user_preferences_revision == effective.revision,
            p.source_stale_after == config.source_freshness,
            p.maximum_model_evidence_age == config.maximum_model_evidence_age,
            p.model_request_cooldown == config.model_request_cooldown,
            p.maximum_model_requests_per_hour == effective.maximum_model_requests_per_hour,
            p.intervention_cooldown == effective.intervention_cooldown,
            p.maximum_interventions_per_session == effective.maximum_interventions_per_session,
            p.proactive_interventions_enabled == effective.proactive_interventions_enabled,
            p.proactive_interventions_muted == effective.proactive_interventions_muted,
            p.do_not_disturb_windows@ == effective.do_not_disturb_windows@,
            p.allowed_delivery_channels@ == effective.allowed_delivery_channels@,
            p.remote_processing_enabled == effective.remote_processing_enabled,
            p.restart_continuity_default == effective.restart_continuity_default,
            p.outbox_capacity_per_user == config.outbox_capacity_per_user,
            p.outbox_capacity_per_session == config.outbox_capacity_per_session,
    {
        EffectivePolicy {
            policy_profile_id: "phase2-focus-v1",
            user_preferences_revision: effective.revision,
            source_stale_after: config.source_freshness,
            maximum_model_evidence_age: config.maximum_model_evidence_age,
            model_request_cooldown: config.model_request_cooldown,
            maximum_model_requests_per_hour: effective.maximum_model_requests_per_hour,
            intervention_cooldown: effective.intervention_cooldown,
            maximum_interventions_per_session: effective.maximum_interventions_per_session,
            proactive_interventions_enabled: effective.proactive_interventions_enabled,
            proactive_interventions_muted: effective.proactive_interventions_muted,
            do_not_disturb_windows: effective.do_not_disturb_windows,
            allowed_delivery_channels: effective.allowed_delivery_channels,
            remote_processing_enabled: effective.remote_processing_enabled,
            restart_continuity_default: effective.restart_continuity_default,
            outbox_capacity_per_user: config.outbox_capacity_per_user,
            outbox_capacity_per_session: config.outbox_capacity_per_session,
        }
    }
}

} // verus!
