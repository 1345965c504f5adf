use vstd::prelude::*;
use serde_json::Value;
use crate::json::json_nodes;
use crate::locale::{get_l10n_string, localized};
use crate::session::WorkStatus;

verus! {

/// The decimal digit `d`.
pub open spec fn digit(d: nat) -> char {
    seq!['0', '1', '2', '3', '4', '5', '6', '7', '8', '9'][d as int]
}

/// The decimal numeral of `n`, without leading zeros.
pub open spec fn decimal(n: nat) -> Seq<char>
    decreases n,
{
    if n < 10 {
        seq![digit(n)]
    } else {
        decimal(n / 10) + seq![digit(n % 10)]
    }
}

/// The numeral of `n`, padded with a zero to at least two digits.
pub open spec fn two_digits(n: nat) -> Seq<char> {
    if n < 10 {
        seq!['0'] + decimal(n)
    } else {
        decimal(n)
    }
}

/// `HH:MM:SS` for a number of seconds; the hours take more digits past 99.
pub open spec fn clock_text(secs: nat) -> Seq<char> {
    two_digits(secs / 3600) + seq![':'] + two_digits((secs % 3600) / 60) + seq![':'] + two_digits(
        secs % 60,
    )
}

/// The activity indicator appended to the tooltip.
pub open spec fn activity_suffix(active: bool, language: Seq<char>) -> Seq<char> {
    if language == "zh-CN"@ {
        if active {
            " (活跃)"@
        } else {
            " (空闲)"@
        }
    } else if active {
        " (Active)"@
    } else {
        " (Idle)"@
    }
}

/// The tray tooltip for a work status: the localized timer label, the
/// elapsed time and the activity indicator.
pub open spec fn tooltip_text(
    nodes: Map<Seq<Seq<char>>, Option<Seq<char>>>,
    language: Seq<char>,
    status: WorkStatus,
) -> Seq<char> {
    localized(nodes, "tray.work_timer"@) + ": "@ + clock_text(status.elapsed_secs as nat)
        + activity_suffix(status.active, language)
}

fn digit_str(d: u64) -> (r: &'static str)
    requires
        d < 10,
    ensures
        r@ == seq![digit(d as nat)],
{
    proof {
        reveal_strlit("0");
        reveal_strlit("1");
        reveal_strlit("2");
        reveal_strlit("3");
        reveal_strlit("4");
        reveal_strlit("5");
        reveal_strlit("6");
        reveal_strlit("7");
        reveal_strlit("8");
        reveal_strlit("9");
    }
    let r = match d {
        0 => "0",
        1 => "1",
        2 => "2",
        3 => "3",
        4 => "4",
        5 => "5",
        6 => "6",
        7 => "7",
        8 => "8",
        _ => "9",
    };
    assert(r@ =~= seq![digit(d as nat)]);
    r
}

/// The decimal numeral of `n`.
pub fn decimal_text(n: u64) -> (r: String)
    ensures
        r@ == decimal(n as nat),
    decreases n,
{
    if n < 10 {
        String::from_str(digit_str(n))
    } else {
        decimal_text(n / 10).concat(digit_str(n % 10))
    }
}

fn two_digit_text(n: u64) -> (r: String)
    ensures
        r@ == two_digits(n as nat),
{
    if n < 10 {
        proof {
            reveal_strlit("0");
        }
        let r = String::from_str("0").concat(digit_str(n));
        assert(r@ =~= two_digits(n as nat));
        r
    } else {
        decimal_text(n)
    }
}

/// `HH:MM:SS` for a number of seconds.
pub fn format_elapsed(secs: u64) -> (r: String)
    ensures
        r@ == clock_text(secs as nat),
{
    proof {
        reveal_strlit(":");
    }
    let r = two_digit_text(secs / 3600).concat(":").concat(two_digit_text((secs % 3600) / 60).as_str()).concat(
        ":",
    ).concat(two_digit_text(secs % 60).as_str());
    assert(r@ =~= clock_text(secs as nat));
    r
}

/// The tray tooltip for a work status, labelled through the locale.
pub fn work_tooltip(locale: &Value, language: &str, status: WorkStatus) -> (r: String)
    ensures
        r@ == tooltip_text(json_nodes(*locale), language@, status),
{
    let zh = String::from_str(language) == String::from_str("zh-CN");
    let suffix = if zh {
        if status.active {
            " (活跃)"
        } else {
            " (空闲)"
        }
    } else if status.active {
        " (Active)"
    } else {
        " (Idle)"
    };
    get_l10n_string(locale, "tray.work_timer").concat(": ").concat(format_elapsed(status.elapsed_secs).as_str()).concat(suffix)
}

} // verus!
