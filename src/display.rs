//! Text shown to the operator.
use vstd::prelude::*;
use vstd::string::*;
use crate::text::{decimal, join3, u64_text};

verus! {

/// Uptime as shown in tables: `--` when unknown, else whole days and hours,
/// or hours and minutes, or minutes alone.
pub open spec fn uptime_text(secs: Option<u64>) -> Seq<char> {
    match secs {
        None => "--"@,
        Some(s) => {
            let days = s / 86400;
            let hours = (s % 86400) / 3600;
            let mins = (s % 3600) / 60;
            if days > 0 {
                decimal(days as nat) + "d "@ + decimal(hours as nat) + "h"@
            } else if hours > 0 {
                decimal(hours as nat) + "h "@ + decimal(mins as nat) + "m"@
            } else {
                decimal(mins as nat) + "m"@
            }
        },
    }
}

/// Renders an uptime in seconds for display.
pub fn format_uptime(secs: Option<u64>) -> (r: String)
    ensures
        r@ == uptime_text(secs),
{
    match secs {
        None => String::from_str("--"),
        Some(s) => {
            let days = s / 86400;
            let hours = (s % 86400) / 3600;
            let mins = (s % 3600) / 60;
            if days > 0 {
                let d = u64_text(days);
                let h = u64_text(hours);
                join3(d.as_str(), "d ", h.as_str()).concat("h")
            } else if hours > 0 {
                let h = u64_text(hours);
                let m = u64_text(mins);
                join3(h.as_str(), "h ", m.as_str()).concat("m")
            } else {
                let m = u64_text(mins);
                m.concat("m")
            }
        },
    }
}

} // verus!
