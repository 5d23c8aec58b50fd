use vstd::prelude::*;

verus! {

/// The two appearance states of the host.
#[derive(Clone, Copy, Debug, PartialEq, Eq, Structural)]
pub enum Mode {
    Light,
    Dark,
}

/// Light outside the half-open interval `[sunrise, sunset)`, dark inside it.
pub open spec fn resolve_mode_spec(now: int, sunrise: int, sunset: int) -> Mode {
    if now < sunrise || now >= sunset {
        Mode::Light
    } else {
        Mode::Dark
    }
}

/// The appearance a host is expected to show at `now`: light from sunrise up
/// to and including the sunset instant (`[sunrise, sunset]`), dark before
/// sunrise and after sunset.
pub open spec fn daylight_mode_spec(now: int, sunrise: int, sunset: int) -> Mode {
    if sunrise <= now && now <= sunset {
        Mode::Light
    } else {
        Mode::Dark
    }
}

/// Whether a query command's output reports dark mode: it starts with `dark`.
pub open spec fn reports_dark(out: Seq<u8>) -> bool {
    out.len() >= 4 && out.subrange(0, 4) == seq![100u8, 97u8, 114u8, 107u8]
}

impl Mode {
    /// The mode that the interval `[sunrise, sunset)` selects at `now`:
    /// `Light` before sunrise and from sunset on, `Dark` in between.
    pub fn resolve(now: i64, sunrise: i64, sunset: i64) -> (r: Mode)
        ensures
            r == resolve_mode_spec(now as int, sunrise as int, sunset as int),
            r == Mode::Light <==> (now < sunrise || now >= sunset),
    {
        if now < sunrise || now >= sunset {
            Mode::Light
        } else {
            Mode::Dark
        }
    }

    /// The mode the host should show at `now` given the day's sun events:
    /// `Light` from sunrise through the sunset instant, `Dark` otherwise.
    pub fn expected_at(now: i64, sunrise: i64, sunset: i64) -> (r: Mode)
        ensures
            r == daylight_mode_spec(now as int, sunrise as int, sunset as int),
            r == Mode::Light <==> (sunrise <= now && now <= sunset),
    {
        if sunrise <= now && now <= sunset {
            Mode::Light
        } else {
            Mode::Dark
        }
    }

    /// Reads the mode reported on a query command's standard output: output
    /// that begins with the bytes `dark` means `Dark`, anything else `Light`.
    pub fn from_query_output(out: &[u8]) -> (r: Mode)
        ensures
            r == Mode::Dark <==> reports_dark(out@),
    {
        if out.len() >= 4 && out[0] == 100u8 && out[1] == 97u8 && out[2] == 114u8 && out[3]
            == 107u8 {
            assert(out@.subrange(0, 4) =~= seq![100u8, 97u8, 114u8, 107u8]);
            Mode::Dark
        } else {
            if out.len() >= 4 {
                assert(out@.subrange(0, 4)[0] == out@[0]);
                assert(out@.subrange(0, 4)[1] == out@[1]);
                assert(out@.subrange(0, 4)[2] == out@[2]);
                assert(out@.subrange(0, 4)[3] == out@[3]);
            }
            Mode::Light
        }
    }
}

/// Every moment falls on exactly one side of the interval `[sunrise, sunset)`:
/// the resolved mode is `Light` exactly when `now` lies before sunrise or at or
/// after sunset, and `Dark` otherwise.
pub proof fn lemma_resolve_total(now: int, sunrise: int, sunset: int)
    requires
        sunrise < sunset,
    ensures
        (resolve_mode_spec(now, sunrise, sunset) == Mode::Light) <==> (now < sunrise || now
            >= sunset),
        (resolve_mode_spec(now, sunrise, sunset) == Mode::Dark) <==> (sunrise <= now && now
            < sunset),
{
}

} // verus!
