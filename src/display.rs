use vstd::prelude::*;

use crate::telemetry::{BatteryInfo, BatteryRecord, ChargeState};

verus! {

/// The character of a decimal digit.
pub open spec fn digit_char(d: int) -> char {
    if d == 0 {
        '0'
    } else if d == 1 {
        '1'
    } else if d == 2 {
        '2'
    } else if d == 3 {
        '3'
    } else if d == 4 {
        '4'
    } else if d == 5 {
        '5'
    } else if d == 6 {
        '6'
    } else if d == 7 {
        '7'
    } else if d == 8 {
        '8'
    } else {
        '9'
    }
}

/// The decimal digits of `n`, most significant first, without leading zeros.
pub open spec fn decimal(n: nat) -> Seq<char>
    decreases n,
{
    if n < 10 {
        seq![digit_char(n as int)]
    } else {
        decimal(n / 10).push(digit_char((n % 10) as int))
    }
}

/// A value in thousandths rounded to hundredths, halves away from zero.
pub open spec fn rounded_hundredths(milli: int) -> int {
    if milli >= 0 {
        (milli + 5) / 10
    } else {
        -((-milli + 5) / 10)
    }
}

/// A value in thousandths written with two decimal places: an optional minus
/// sign, the integer part, a point and two digits.
pub open spec fn fixed2_text(milli: int) -> Seq<char> {
    let c = rounded_hundredths(milli);
    let a = if c < 0 {
        -c
    } else {
        c
    };
    let sign = if c < 0 {
        seq!['-']
    } else {
        Seq::<char>::empty()
    };
    sign + decimal((a / 100) as nat) + seq!['.', digit_char((a / 10) % 10), digit_char(a % 10)]
}

/// The label shown for each charge state.
pub open spec fn state_text(s: ChargeState) -> Seq<char> {
    match s {
        ChargeState::Charging => "充电"@,
        ChargeState::Discharging => "放电"@,
        ChargeState::Full => "满"@,
        ChargeState::Empty => "空"@,
        ChargeState::Unknown => "未知"@,
    }
}

/// The lines of one battery's list entry: name, state, percentage (only when
/// it is above zero), voltage, current, power, and a blank line.
pub open spec fn battery_lines_text(b: BatteryRecord) -> Seq<Seq<char>> {
    let head = seq!["电池: "@ + b.name, "状态: "@ + state_text(b.state)];
    let percentage = if b.percentage_milli > 0 {
        seq!["电量: "@ + fixed2_text(b.percentage_milli) + "%"@]
    } else {
        Seq::<Seq<char>>::empty()
    };
    let tail = seq![
        "电压: "@ + fixed2_text(b.voltage_mv) + "V"@,
        "电流: "@ + fixed2_text(b.current_ma) + "A"@,
        "功率: "@ + fixed2_text(b.power_mw) + "W"@,
        ""@,
    ];
    head + percentage + tail
}

/// The footer: the refresh interval and the key bindings.
pub open spec fn footer_text_of(interval_secs: nat) -> Seq<char> {
    "刷新间隔: "@ + decimal(interval_secs) + "s | 按 '+' 增加, '-' 减少 | 按 'q' 退出, 'r' 手动刷新"@
}

fn digit_text(d: u64) -> (r: &'static str)
    requires
        d < 10,
    ensures
        r@ == seq![digit_char(d as int)],
{
    proof {
        reveal_strlit("0");
        reveal_strlit("1");
        reveal_strlit("2");
        reveal_strlit("3");
        reveal_strlit("4");
        reveal_strlit("5");
        reveal_strlit("6");
        reveal_strlit("7");
        reveal_strlit("8");
        reveal_strlit("9");
    }
    if d == 0 {
        "0"
    } else if d == 1 {
        "1"
    } else if d == 2 {
        "2"
    } else if d == 3 {
        "3"
    } else if d == 4 {
        "4"
    } else if d == 5 {
        "5"
    } else if d == 6 {
        "6"
    } else if d == 7 {
        "7"
    } else if d == 8 {
        "8"
    } else {
        "9"
    }
}

/// Appends the decimal digits of `n`.
fn push_decimal(out: &mut String, n: u64)
    ensures
        final(out)@ == old(out)@ + decimal(n as nat),
    decreases n,
{
    if n >= 10 {
        push_decimal(out, n / 10);
    }
    out.append(digit_text(n % 10));
    proof {
        if n >= 10 {
            assert(decimal(n as nat) == decimal((n / 10) as nat).push(digit_char((n % 10) as int)));
        } else {
            assert(decimal(n as nat) == seq![digit_char(n as int)]);
        }
    }
    assert(final(out)@ =~= old(out)@ + decimal(n as nat));
}

/// A value in thousandths written with two decimal places (`12000` gives
/// `12.00`, `-1234` gives `-1.23`, `1235` gives `1.24`).
pub fn format_hundredths(milli: i64) -> (r: String)
    ensures
        r@ == fixed2_text(milli as int),
{
    let negative = milli < 0;
    let magnitude: u64 = if negative {
        if milli == i64::MIN {
            9223372036854775808u64
        } else {
            (-milli) as u64
        }
    } else {
        milli as u64
    };
    let c: u64 = (magnitude + 5) / 10;
    let mut out = if negative && c > 0 {
        String::from_str("-")
    } else {
        String::new()
    };
    proof {
        reveal_strlit("-");
        reveal_strlit(".");
    }
    push_decimal(&mut out, c / 100);
    out.append(".");
    out.append(digit_text((c / 10) % 10));
    out.append(digit_text(c % 10));
    assert(out@ =~= fixed2_text(milli as int));
    out
}

/// The label shown for a charge state.
pub fn state_label(s: ChargeState) -> (r: &'static str)
    ensures
        r@ == state_text(s),
{
    match s {
        ChargeState::Charging => "充电",
        ChargeState::Discharging => "放电",
        ChargeState::Full => "满",
        ChargeState::Empty => "空",
        ChargeState::Unknown => "未知",
    }
}

/// `prefix`, then a value in thousandths with two decimals, then `unit`.
fn measured_line(prefix: &str, milli: i64, unit: &str) -> (r: String)
    ensures
        r@ == prefix@ + fixed2_text(milli as int) + unit@,
{
    let mut line = String::from_str(prefix);
    let number = format_hundredths(milli);
    line.append(number.as_str());
    line.append(unit);
    line
}

/// The lines of a battery's list entry.
pub fn battery_lines(info: &BatteryInfo) -> (r: Vec<String>)
    ensures
        r@.map_values(|l: String| l@) == battery_lines_text(info@),
{
    let mut lines: Vec<String> = Vec::new();
    let mut name_line = String::from_str("电池: ");
    name_line.append(info.name.as_str());
    lines.push(name_line);
    let mut state_line = String::from_str("状态: ");
    state_line.append(state_label(info.state));
    lines.push(state_line);
    if info.percentage_milli > 0 {
        lines.push(measured_line("电量: ", info.percentage_milli as i64, "%"));
    }
    lines.push(measured_line("电压: ", info.voltage_mv as i64, "V"));
    lines.push(measured_line("电流: ", info.current_ma, "A"));
    lines.push(measured_line("功率: ", info.power_mw as i64, "W"));
    lines.push(String::from_str(""));
    assert(lines@.map_values(|l: String| l@) =~= battery_lines_text(info@));
    lines
}

/// The footer text for a refresh interval in seconds.
pub fn footer_text(interval_secs: u64) -> (r: String)
    ensures
        r@ == footer_text_of(interval_secs as nat),
{
    let mut text = String::from_str("刷新间隔: ");
    push_decimal(&mut text, interval_secs);
    text.append("s | 按 '+' 增加, '-' 减少 | 按 'q' 退出, 'r' 手动刷新");
    text
}

} // verus!
