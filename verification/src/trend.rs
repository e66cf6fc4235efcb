//! How long the battery will last, or take to fill, by the observed trend.
//!
//! The slope itself is fitted in floating point elsewhere, from the samples that
//! [`App::trend_samples`] picks. What it comes to is handed in as a [`Trend`].

use vstd::prelude::*;

use crate::app;
use crate::app::{App, AppModel};
use crate::history;
use crate::history::Sample;
use crate::number;
use crate::text;

verus! {

/// A time span in words: hours and minutes from one hour on, else minutes and
/// seconds.
pub open spec fn duration(secs: nat) -> Seq<char> {
    if secs >= 3600 {
        number::decimal_of(secs / 3600) + "h "@ + number::two_digits_of(secs / 60 % 60) + "m"@
    } else {
        number::decimal_of(secs / 60) + "m "@ + number::two_digits_of(secs % 60) + "s"@
    }
}

/// Writes a time span of whole seconds.
pub fn fmt_dur(secs: u64) -> (res: String)
    ensures
        res@ == duration(secs as nat),
{
    if secs >= 3600 {
        let mut out: String = number::decimal((secs / 3600) as u128);
        out.append("h ");
        out.append(number::two_digits((secs / 60 % 60) as u128).as_str());
        out.append("m");
        out
    } else {
        let mut out: String = number::decimal((secs / 60) as u128);
        out.append("m ");
        out.append(number::two_digits((secs % 60) as u128).as_str());
        out.append("s");
        out
    }
}

/// What the slope of the charge and the charge itself come to.
pub struct Trend {
    /// The charge falls, by more than a ten-thousandth of a percent a second.
    pub falling: bool,
    /// The charge rises, by more than a ten-thousandth of a percent a second.
    pub rising: bool,
    /// The charge is at or below the level at which the device cuts off.
    pub at_cutoff: bool,
    /// The charge is below one hundred percent.
    pub below_full: bool,
    /// The seconds to the cutoff, at this slope.
    pub secs_to_cutoff: u64,
    /// The level at which the device cuts off, as a whole percentage.
    pub cutoff: String,
    /// The seconds to a full battery, at this slope.
    pub secs_to_full: u64,
}

/// What is predicted: the time to the cutoff on battery, the time to a full
/// battery while it charges, and nothing where the trend is flat or not known.
pub open spec fn prediction(a: AppModel, t: Option<Trend>) -> Option<Seq<char>> {
    match t {
        Some(t) => if app::runs_on_battery(a) && t.falling {
            if t.at_cutoff {
                Some("below cutoff"@)
            } else {
                Some(
                    "~"@ + duration(t.secs_to_cutoff as nat) + " to "@ + t.cutoff@ + "% cutoff"@,
                )
            }
        } else if t.rising && t.below_full {
            Some("~"@ + duration(t.secs_to_full as nat) + " to full"@)
        } else {
            None
        },
        None => None,
    }
}

impl App {
    /// The samples of the charge from which the slope is fitted: those of the last
    /// five minutes, if there are five of them and they span a minute.
    pub fn trend_samples(&self, now: u128) -> (res: Option<Vec<Sample>>)
        ensures
            ({
                let window = history::recent(self@.charge, now, history::TREND_SECS as int);
                match res {
                    Some(v) => history::samples_view(v@) == window && history::shows_trend(window),
                    None => !history::shows_trend(window),
                }
            }),
            match res {
                Some(v) => history::trend_basis(self@.charge, now) == Some(
                    history::samples_view(v@),
                ),
                None => history::trend_basis(self@.charge, now) is None,
            },
    {
        history::trend_samples(&self.charge, now)
    }

    /// Trend-based prediction from the observed charge slope, e.g.
    /// "~34m 10s to 20% cutoff" on battery, "~1h 05m to full" while charging.
    pub fn trend_eta(&self, trend: &Option<Trend>) -> (res: Option<String>)
        ensures
            text::opt_view(res) == prediction(self@, *trend),
    {
        match trend {
            Some(t) => {
                if self.on_battery() && t.falling {
                    if t.at_cutoff {
                        Some("below cutoff".to_owned())
                    } else {
                        let mut out: String = "~".to_owned();
                        out.append(fmt_dur(t.secs_to_cutoff).as_str());
                        out.append(" to ");
                        out.append(t.cutoff.as_str());
                        out.append("% cutoff");
                        Some(out)
                    }
                } else if t.rising && t.below_full {
                    let mut out: String = "~".to_owned();
                    out.append(fmt_dur(t.secs_to_full).as_str());
                    out.append(" to full");
                    Some(out)
                } else {
                    None
                }
            },
            None => None,
        }
    }
}

// -------------------------------------------------------------------- laws

/// A flat trend predicts nothing.
pub proof fn flat_trend_predicts_nothing(a: AppModel, t: Trend)
    requires
        !t.falling,
        !t.rising,
    ensures
        prediction(a, Some(t)) is None,
{
}

/// Fewer than five samples of the last five minutes, or samples that span less
/// than a minute, show no trend.
pub proof fn trend_needs_history(s: Seq<history::SampleModel>, now: u128)
    ensures
        ({
            let window = history::recent(s, now, history::TREND_SECS as int);
            &&& window.len() < 5 ==> !history::shows_trend(window)
            &&& window.len() > 0 && window.last().at - window[0].at < 60 * history::NANOS
                ==> !history::shows_trend(window)
        }),
{
}

} // verus!
