//! The first-run notice.
//!
//! One pure function of four inputs. It goes to stderr, not stdout, and the
//! caller writes `telemetry.notice_shown` after printing; this module only
//! decides whether and what.
//!
//! `notice_shown` stores the level that was announced, not a boolean: an
//! install told about `off` has not been told about `usage`, so a raised
//! default notifies again.

use crate::telemetry::axes::{level_name, level_rank, Deployment, TelemetryLevel};
use crate::telemetry::policy::{Layer, TelemetryPolicy};
use crate::text::{debug_quoted, debug_repr, owned, push_str};
use vstd::prelude::*;

pub use crate::telemetry::probes::Surface;

verus! {

/// Why no notice was shown.
#[derive(Debug, Clone, Copy, PartialEq, Eq, Structural)]
pub enum SkipReason {
    AlreadyShown,
    NotInteractive,
    NotAHumanSurface,
    ServiceDeployment,
    KillSwitch,
    /// The winning layer is `config_file`: this level is the person's own
    /// recorded choice.
    ConfiguredLocally,
}

#[derive(Debug, Clone, PartialEq, Eq)]
pub enum NoticeDecision {
    Show {
        text: String,
        /// Stored in `telemetry.notice_shown`.
        announced_level: TelemetryLevel,
    },
    Skip(SkipReason),
}

/// The decision without the text: `Ok(level)` shows a notice announcing
/// `level`, `Err(reason)` shows none.
pub open spec fn notice_outcome(
    p: TelemetryPolicy,
    notice_shown: Option<TelemetryLevel>,
    surface: Surface,
    stderr_is_tty: bool,
) -> Result<TelemetryLevel, SkipReason> {
    if p.deployment is Service {
        Err(SkipReason::ServiceDeployment)
    } else if p.kill_switch is Some {
        Err(SkipReason::KillSwitch)
    } else if !(surface == Surface::Cli || surface == Surface::Chat) {
        Err(SkipReason::NotAHumanSurface)
    } else if !stderr_is_tty {
        Err(SkipReason::NotInteractive)
    } else if p.level == TelemetryLevel::Off {
        match notice_shown {
            None => Ok(TelemetryLevel::Off),
            Some(_) => Err(SkipReason::AlreadyShown),
        }
    } else if p.level_source == Layer::ConfigFile {
        Err(SkipReason::ConfiguredLocally)
    } else if notice_shown matches Some(shown) && level_rank(p.level) <= level_rank(shown) {
        Err(SkipReason::AlreadyShown)
    } else {
        Ok(p.level)
    }
}

/// The notice body: two lines, plus `Details: <url>` on the second when the
/// end-user deployment names a privacy page.
pub open spec fn notice_text_spec(p: TelemetryPolicy) -> Seq<char> {
    let app = p.app@;
    let body = if p.level == TelemetryLevel::Off {
        app + ": usage statistics are off."@ + "\n"@ + "Turn them on with `"@ + app
            + " telemetry set usage`; see what would be sent with `"@ + app
            + " telemetry info`."@
    } else {
        let who = match p.policy_name {
            Some(name) => "policy "@ + debug_repr(name@),
            None => "an organisation policy"@,
        };
        let tagged = if p.install_id is Some {
            ", tagged with a random install id"@
        } else {
            Seq::<char>::empty()
        };
        app + ": "@ + who + " turned on "@ + level_name(p.level) + " telemetry"@ + tagged + "."@
            + "\n"@ + "Review with `"@ + app + " telemetry status`; opt out with `"@ + app
            + " telemetry set off`."@
    };
    match p.deployment {
        Deployment::EndUser { privacy_url: Some(url) } => body + " Details: "@ + url@,
        _ => body,
    }
}

pub fn notice_decision(
    policy: &TelemetryPolicy,
    notice_shown: Option<TelemetryLevel>,
    surface: Surface,
    stderr_is_tty: bool,
) -> (d: NoticeDecision)
    ensures
        match notice_outcome(*policy, notice_shown, surface, stderr_is_tty) {
            Ok(l) => d matches NoticeDecision::Show { text, announced_level } && announced_level
                == l && text@ == notice_text_spec(*policy),
            Err(r) => d == NoticeDecision::Skip(r),
        },
{
    if let Deployment::Service = policy.deployment {
        return NoticeDecision::Skip(SkipReason::ServiceDeployment);
    }
    if policy.kill_switch.is_some() {
        // Someone who set DO_NOT_TRACK has already expressed the preference
        // the notice exists to ask about.
        return NoticeDecision::Skip(SkipReason::KillSwitch);
    }
    match surface {
        Surface::Cli | Surface::Chat => {},
        _ => {
            return NoticeDecision::Skip(SkipReason::NotAHumanSurface);
        },
    }
    if !stderr_is_tty {
        return NoticeDecision::Skip(SkipReason::NotInteractive);
    }
    if policy.level == TelemetryLevel::Off {
        return match notice_shown {
            None => NoticeDecision::Show {
                text: notice_text(policy),
                announced_level: TelemetryLevel::Off,
            },
            Some(_) => NoticeDecision::Skip(SkipReason::AlreadyShown),
        };
    }
    if policy.level_source == Layer::ConfigFile {
        return NoticeDecision::Skip(SkipReason::ConfiguredLocally);
    }
    if let Some(shown) = notice_shown {
        if policy.level.rank() <= shown.rank() {
            return NoticeDecision::Skip(SkipReason::AlreadyShown);
        }
    }
    NoticeDecision::Show { text: notice_text(policy), announced_level: policy.level }
}

fn notice_text(policy: &TelemetryPolicy) -> (out: String)
    ensures
        out@ == notice_text_spec(*policy),
{
    let app = policy.app.as_str();
    let mut text = owned(app);
    if policy.level == TelemetryLevel::Off {
        push_str(&mut text, ": usage statistics are off.");
        push_str(&mut text, "\n");
        push_str(&mut text, "Turn them on with `");
        push_str(&mut text, app);
        push_str(&mut text, " telemetry set usage`; see what would be sent with `");
        push_str(&mut text, app);
        push_str(&mut text, " telemetry info`.");
    } else {
        push_str(&mut text, ": ");
        match &policy.policy_name {
            Some(name) => {
                push_str(&mut text, "policy ");
                let q = debug_quoted(name.as_str());
                push_str(&mut text, q.as_str());
            },
            None => {
                push_str(&mut text, "an organisation policy");
            },
        }
        push_str(&mut text, " turned on ");
        push_str(&mut text, policy.level.as_str());
        push_str(&mut text, " telemetry");
        if policy.install_id.is_some() {
            push_str(&mut text, ", tagged with a random install id");
        }
        push_str(&mut text, ".");
        push_str(&mut text, "\n");
        push_str(&mut text, "Review with `");
        push_str(&mut text, app);
        push_str(&mut text, " telemetry status`; opt out with `");
        push_str(&mut text, app);
        push_str(&mut text, " telemetry set off`.");
    }
    if let Deployment::EndUser { privacy_url: Some(url) } = &policy.deployment {
        push_str(&mut text, " Details: ");
        push_str(&mut text, url.as_str());
    }
    proof {
        assert(text@ =~= notice_text_spec(*policy));
    }
    text
}

/// A service Install never shows the notice, and neither does one under a
/// kill switch.
pub proof fn law_no_notice_for_service_or_kill_switch(
    p: TelemetryPolicy,
    notice_shown: Option<TelemetryLevel>,
    surface: Surface,
    tty: bool,
)
    requires
        p.deployment is Service || p.kill_switch is Some,
    ensures
        notice_outcome(p, notice_shown, surface, tty) is Err,
{
}

/// A level at or below the one already announced never triggers a notice.
pub proof fn law_lowered_level_never_notifies(
    p: TelemetryPolicy,
    shown: TelemetryLevel,
    surface: Surface,
    tty: bool,
)
    requires
        level_rank(p.level) <= level_rank(shown),
    ensures
        notice_outcome(p, Some(shown), surface, tty) is Err,
{
}

/// A raised level is announced again, on an interactive human surface of an
/// end-user Install whose level did not come from the local config file.
pub proof fn law_raised_level_notifies_again(
    p: TelemetryPolicy,
    shown: TelemetryLevel,
    surface: Surface,
)
    requires
        p.deployment is EndUser,
        p.kill_switch is None,
        surface == Surface::Cli || surface == Surface::Chat,
        p.level_source != Layer::ConfigFile,
        level_rank(p.level) > level_rank(shown),
    ensures
        notice_outcome(p, Some(shown), surface, true) == Ok::<TelemetryLevel, SkipReason>(p.level),
{
}

} // verus!
