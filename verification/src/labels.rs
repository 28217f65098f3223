//! Status marks of the indicator panel's Current rows: level toggles, pins, profile data and
//! optional-indicator availability.
use vstd::prelude::*;
use crate::app::{series_lookup, Chart};
use crate::model::{IndicatorConfig, LevelStyle};
use crate::text::str_eq;
use crate::app::edits::level_toggled;

verus! {

/// A level line draws unless its style says disabled (no style draws).
pub open spec fn level_on<R>(style: Option<LevelStyle<R>>) -> bool {
    match style {
        Some(s) => s.enabled,
        None => true,
    }
}

/// `+` for a drawn level, `-` for a hidden one.
pub open spec fn level_sign(on: bool) -> Seq<char> {
    if on {
        "+"@
    } else {
        "-"@
    }
}

/// `POC± VAH± VAL±` for a volume profile config.
pub open spec fn level_marks_text<R>(cfg: IndicatorConfig<R>) -> Seq<char> {
    "POC"@ + level_sign(level_on(cfg.poc)) + " VAH"@ + level_sign(level_on(cfg.vah)) + " VAL"@
        + level_sign(level_on(cfg.val))
}

/// Toggling a level (key `1`, `2` or `3`) always flips whether it draws, so its `±` mark
/// in the row label flips and the other two marks stay.
pub proof fn lemma_level_toggle_flips_mark<R>(cfg: IndicatorConfig<R>, opacity: R)
    ensures
        level_on(level_toggled(cfg.poc, opacity)) == !level_on(cfg.poc),
        level_marks_text(IndicatorConfig { poc: level_toggled(cfg.poc, opacity), ..cfg })[3]
            != level_marks_text(cfg)[3],
        level_marks_text(IndicatorConfig { poc: level_toggled(cfg.poc, opacity), ..cfg }).len()
            == level_marks_text(cfg).len(),
        forall|i: int| 0 <= i < level_marks_text(cfg).len() && i != 3
            ==> level_marks_text(IndicatorConfig { poc: level_toggled(cfg.poc, opacity), ..cfg })[i]
                == #[trigger] level_marks_text(cfg)[i],
        level_on(level_toggled(cfg.vah, opacity)) == !level_on(cfg.vah),
        level_on(level_toggled(cfg.val, opacity)) == !level_on(cfg.val),
{
    reveal_strlit("POC");
    reveal_strlit(" VAH");
    reveal_strlit(" VAL");
    reveal_strlit("+");
    reveal_strlit("-");
    let t = IndicatorConfig { poc: level_toggled(cfg.poc, opacity), ..cfg };
    assert(level_sign(true).len() == 1 && level_sign(false).len() == 1);
    assert(level_marks_text(t)[3] == level_sign(level_on(t.poc))[0]);
    assert(level_marks_text(cfg)[3] == level_sign(level_on(cfg.poc))[0]);
    assert forall|i: int| 0 <= i < level_marks_text(cfg).len() && i != 3
        implies level_marks_text(t)[i] == #[trigger] level_marks_text(cfg)[i] by {
        assert(level_marks_text(t) =~= "POC"@ + level_sign(level_on(t.poc)) + " VAH"@ + level_sign(level_on(cfg.vah)) + " VAL"@ + level_sign(level_on(cfg.val)));
    }
}

fn level_on_exec<R>(style: &Option<LevelStyle<R>>) -> (b: bool)
    ensures
        b == level_on(*style),
{
    match style {
        Some(s) => s.enabled,
        None => true,
    }
}

fn sign(on: bool) -> (r: &'static str)
    ensures
        r@ == level_sign(on),
{
    if on {
        "+"
    } else {
        "-"
    }
}

/// `POC± VAH± VAL±`: which of the profile's level lines draw.
pub fn level_marks<R>(cfg: &IndicatorConfig<R>) -> (r: String)
    ensures
        r@ == level_marks_text(*cfg),
{
    let mut out = String::from_str("POC");
    out.append(sign(level_on_exec(&cfg.poc)));
    out.append(" VAH");
    out.append(sign(level_on_exec(&cfg.vah)));
    out.append(" VAL");
    out.append(sign(level_on_exec(&cfg.val)));
    out
}

/// A disabled Fixed Range config whose pins are missing or equal still needs placing.
pub open spec fn pins_missing<R>(cfg: IndicatorConfig<R>) -> bool {
    !cfg.enabled && (cfg.start is None || cfg.end is None || cfg.start == cfg.end)
}

/// `pins?` while a Fixed Range config still needs its pins, else `pins✓`.
pub fn fixed_range_pins_mark<R>(cfg: &IndicatorConfig<R>) -> (r: &'static str)
    ensures
        r@ == if pins_missing(*cfg) {
            "pins?"@
        } else {
            "pins✓"@
        },
{
    let missing = match (cfg.start, cfg.end) {
        (Some(s), Some(e)) => s == e,
        _ => true,
    };
    if !cfg.enabled && missing {
        "pins?"
    } else {
        "pins✓"
    }
}

/// `pin?` while an Anchored config has no anchor, else `pin✓`.
pub fn anchor_pin_mark<R>(cfg: &IndicatorConfig<R>) -> (r: &'static str)
    ensures
        r@ == if cfg.anchor is None {
            "pin?"@
        } else {
            "pin✓"@
        },
{
    if cfg.anchor.is_none() {
        "pin?"
    } else {
        "pin✓"
    }
}

/// `ext+` when a Fixed Range profile extends to the right, else `ext-`.
pub fn extend_mark<R>(cfg: &IndicatorConfig<R>) -> (r: &'static str)
    ensures
        r@ == if cfg.extend_to_right == Some(true) {
            "ext+"@
        } else {
            "ext-"@
        },
{
    if cfg.extend_to_right == Some(true) {
        "ext+"
    } else {
        "ext-"
    }
}

/// Profile data mark of a pinned volume profile row: ` · profile` when its series holds
/// profiles, ` · empty profile` when an enabled row's series has none, ` · …` while an enabled
/// row has no series yet, else nothing.
pub fn profile_data_mark<R: Copy>(chart: &Chart<R>, cfg: &IndicatorConfig<R>) -> (r: &'static str)
    ensures
        r@ == match series_lookup(chart.indicator_series@, cfg.id@) {
            Some(s) => if s.profiles@.len() > 0 {
                " · profile"@
            } else if cfg.enabled {
                " · empty profile"@
            } else {
                ""@
            },
            None => if cfg.enabled {
                " · …"@
            } else {
                ""@
            },
        },
{
    match chart.series_for(&cfg.id) {
        Some(s) => {
            if s.profiles.len() > 0 {
                " · profile"
            } else if cfg.enabled {
                " · empty profile"
            } else {
                ""
            }
        },
        None => {
            if cfg.enabled {
                " · …"
            } else {
                ""
            }
        },
    }
}

/// Reader-facing text for an optional indicator's unavailability reason.
pub open spec fn reason_text(reason: Option<Seq<char>>) -> Seq<char> {
    match reason {
        Some(r) => if r == "options_data_missing"@ || r == "options_data_unavailable"@ {
            "no options data"@
        } else if r == "insufficient_history"@ {
            "insufficient history"@
        } else if r == "unstable_estimate"@ {
            "unstable estimate"@
        } else if r == "compute_failed"@ {
            "compute failed"@
        } else {
            r
        },
        None => "unavailable"@,
    }
}

/// Text for an unavailability reason code (`options_data_missing` → `no options data`, …);
/// unknown codes pass through.
pub fn unavailable_reason_label(reason: Option<&str>) -> (r: String)
    ensures
        r@ == reason_text(
            match reason {
                Some(s) => Some(s@),
                None => None,
            },
        ),
{
    match reason {
        Some(s) => {
            if str_eq(s, "options_data_missing") || str_eq(s, "options_data_unavailable") {
                String::from_str("no options data")
            } else if str_eq(s, "insufficient_history") {
                String::from_str("insufficient history")
            } else if str_eq(s, "unstable_estimate") {
                String::from_str("unstable estimate")
            } else if str_eq(s, "compute_failed") {
                String::from_str("compute failed")
            } else {
                String::from_str(s)
            }
        },
        None => String::from_str("unavailable"),
    }
}

} // verus!
