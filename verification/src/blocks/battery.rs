//! The battery block: mains flag, charge percentage and power draw,
//! parsed from the power-supply property files.

use vstd::prelude::*;
use vstd::string::StringExecFns;
use crate::blocks::{Block, BlockSignal, Sources};
use crate::text::{dec_digits, prop_num, parse_prop, push_u64, push_char};

verus! {

/// Facts captured from the power-supply files: whether mains power is
/// connected, the charge percentage, and the draw in microwatts.
#[derive(Clone, Copy, Debug, PartialEq, Eq, Structural)]
pub struct Battery {
    pub ac: bool,
    pub capacity: u64,
    pub power_uw: u64,
}

/// The number a property file's content holds, if the file was there.
pub open spec fn opt_prop(o: Option<String>) -> Option<int> {
    match o {
        Some(c) => prop_num(c@),
        None => None,
    }
}

/// Microwatts drawn, saturated to a `u64`.
pub open spec fn sat_u64(x: int) -> u64
    recommends
        x >= 0,
{
    if x > u64::MAX {
        u64::MAX
    } else {
        x as u64
    }
}

/// The draw in deciwatts, rounded half up from microwatts.
pub open spec fn deciwatts(uw: int) -> int {
    uw / 100000 + if uw % 100000 >= 50000 {
        1int
    } else {
        0int
    }
}

impl Battery {
    /// The facts the sources hold: mains power is connected when `online`
    /// reads 1; capacity defaults to zero; the draw comes from
    /// `power_now`, or else from `current_now` times `voltage_now`
    /// (microamperes times microvolts over a million is microwatts),
    /// or else zero.
    pub open spec fn of_sources_spec(s: Sources) -> Battery {
        Battery {
            ac: opt_prop(s.ac_online) == Some(1int),
            capacity: match opt_prop(s.battery_capacity) {
                Some(v) => v as u64,
                None => 0,
            },
            power_uw: match opt_prop(s.battery_power_now) {
                Some(v) => v as u64,
                None => match (opt_prop(s.battery_current_now), opt_prop(s.battery_voltage_now)) {
                    (Some(c), Some(v)) => sat_u64(c * v / 1000000),
                    _ => 0,
                },
            },
        }
    }

    /// The default facts: on battery, zero charge, zero draw.
    pub open spec fn default_spec() -> Battery {
        Battery { ac: false, capacity: 0, power_uw: 0 }
    }

    /// Parses fresh facts out of the given sources.
    pub fn of_sources(sources: &Sources) -> (b: Battery)
        ensures
            b == Battery::of_sources_spec(*sources),
    {
        let ac = match &sources.ac_online {
            Some(c) => match parse_prop(c.as_str()) {
                Some(v) => v == 1,
                None => false,
            },
            None => false,
        };
        let capacity = match &sources.battery_capacity {
            Some(c) => match parse_prop(c.as_str()) {
                Some(v) => v,
                None => 0,
            },
            None => 0,
        };
        let power_uw = match &sources.battery_power_now {
            Some(c) => match parse_prop(c.as_str()) {
                Some(v) => v,
                None => Battery::power_fallback(sources),
            },
            None => Battery::power_fallback(sources),
        };
        Battery { ac, capacity, power_uw }
    }

    /// The draw computed from current and voltage when `power_now` is
    /// not available.
    fn power_fallback(sources: &Sources) -> (p: u64)
        ensures
            p == match (
                opt_prop(sources.battery_current_now),
                opt_prop(sources.battery_voltage_now),
            ) {
                (Some(c), Some(v)) => sat_u64(c * v / 1000000),
                _ => 0u64,
            },
    {
        let c = match &sources.battery_current_now {
            Some(t) => parse_prop(t.as_str()),
            None => None,
        };
        let v = match &sources.battery_voltage_now {
            Some(t) => parse_prop(t.as_str()),
            None => None,
        };
        match (c, v) {
            (Some(c), Some(v)) => {
                proof {
                    assert((c as int) * (v as int) <= u128::MAX as int) by (nonlinear_arith)
                        requires
                            0 <= c <= u64::MAX as int,
                            0 <= v <= u64::MAX as int,
                    ;
                    assert((c as int) * (v as int) >= 0) by (nonlinear_arith)
                        requires
                            0 <= c,
                            0 <= v,
                    ;
                }
                let prod: u128 = c as u128 * v as u128;
                let p: u128 = prod / 1000000;
                if p > u64::MAX as u128 {
                    u64::MAX
                } else {
                    p as u64
                }
            },
            _ => 0,
        }
    }
}

impl Default for Battery {
    /// The default facts: on battery, zero charge, zero draw.
    fn default() -> (b: Battery)
        ensures
            b == Battery::default_spec(),
    {
        Battery { ac: false, capacity: 0, power_uw: 0 }
    }
}

impl Block for Battery {
    open spec fn identity_spec(&self) -> BlockSignal {
        BlockSignal::Battery
    }

    /// `{ac|bat}/{capacity}%/{power}w`, power in watts with one decimal.
    open spec fn rendered(&self) -> Seq<char> {
        let dw = deciwatts(self.power_uw as int);
        (if self.ac {
            "ac"@
        } else {
            "bat"@
        }) + "/"@ + dec_digits(self.capacity as nat) + "%/"@ + dec_digits((dw / 10) as nat)
            + seq!['.'] + dec_digits((dw % 10) as nat) + "w"@
    }

    fn signal(&self) -> (s: BlockSignal) {
        BlockSignal::Battery
    }

    fn update(&mut self, sources: &Sources)
        ensures
            *final(self) == Battery::of_sources_spec(*sources),
    {
        *self = Battery::of_sources(sources);
    }

    fn render(&self) -> (s: String) {
        let mut s = String::new();
        if self.ac {
            s.append("ac");
        } else {
            s.append("bat");
        }
        s.append("/");
        push_u64(&mut s, self.capacity);
        s.append("%/");
        let dw = self.power_uw / 100000 + if self.power_uw % 100000 >= 50000 {
            1
        } else {
            0
        };
        push_u64(&mut s, dw / 10);
        push_char(&mut s, '.');
        push_u64(&mut s, dw % 10);
        s.append("w");
        assert(s@ =~= self.rendered());
        s
    }
}

} // verus!
