//! The weather report: its options, and the text of each of its cells.
use vstd::prelude::*;
use crate::date::Timestamp;
use crate::num::Decimal;
use crate::weather::MedaSol;

verus! {

/// How the weather report is laid out: as comma-separated lines, or as a table.
#[derive(Clone, Copy, Debug, PartialEq, Eq)]
pub struct M20Weather {
    pub csv: bool,
}

pub open spec fn digit_char(d: int) -> char {
    seq!['0', '1', '2', '3', '4', '5', '6', '7', '8', '9'][d]
}

/// The decimal digits of `n`, without leading zeros.
pub open spec fn nat_text(n: nat) -> Seq<char>
    decreases n,
{
    if n < 10 {
        seq![digit_char(n as int)]
    } else {
        nat_text(n / 10) + seq![digit_char((n % 10) as int)]
    }
}

/// An integer in decimal, with a leading `-` when negative.
pub open spec fn int_render(v: int) -> Seq<char> {
    if v < 0 {
        seq!['-'] + nat_text((-v) as nat)
    } else {
        nat_text(v as nat)
    }
}

/// `n` in decimal, padded with leading zeros to at least `w` digits.
pub open spec fn padded(n: nat, w: nat) -> Seq<char>
    decreases w,
{
    if w <= 1 || n >= crate::num::pow10((w - 1) as nat) {
        nat_text(n)
    } else {
        seq!['0'] + padded(n, (w - 1) as nat)
    }
}

/// A decimal's text: its digits, with a `.` placed inside them where its scale
/// falls there, else followed by `e` and the exponent; `-` in front when negative.
pub open spec fn decimal_render(d: Decimal) -> Seq<char> {
    let digits = nat_text(d.mantissa as nat);
    let sign = if d.negative { seq!['-'] } else { Seq::<char>::empty() };
    let k = digits.len() + d.exponent;
    if d.exponent == 0 {
        sign + digits
    } else if d.exponent < 0 && 0 < k {
        sign + digits.subrange(0, k) + seq!['.'] + digits.subrange(k, digits.len() as int)
    } else {
        sign + digits + seq!['e'] + int_render(d.exponent as int)
    }
}

/// `YYYY-MM-DD HH:MM:SS +HH:MM`.
pub open spec fn timestamp_render(t: Timestamp) -> Seq<char> {
    let off = if t.offset_minutes < 0 { -t.offset_minutes } else { t.offset_minutes as int };
    padded(t.year as nat, 4) + seq!['-'] + padded(t.month as nat, 2) + seq!['-'] + padded(t.day as nat, 2)
        + seq![' '] + padded(t.hour as nat, 2) + seq![':'] + padded(t.minute as nat, 2) + seq![':']
        + padded(t.second as nat, 2) + seq![' '] + seq![if t.offset_minutes < 0 { '-' } else { '+' }]
        + padded((off / 60) as nat, 2) + seq![':'] + padded((off % 60) as nat, 2)
}

/// An optional reading: its text, or nothing.
pub open spec fn reading_render(d: Option<Decimal>) -> Seq<char> {
    match d {
        Some(v) => decimal_render(v),
        None => Seq::empty(),
    }
}

/// The cells of one row of the report: date, sol, maximum, minimum,
/// pressure, sunrise, sunset and season.
pub open spec fn weather_row(w: MedaSol) -> Seq<Seq<char>> {
    seq![
        timestamp_render(w.terrestrial_date),
        int_render(w.sol as int),
        reading_render(w.max_temp),
        reading_render(w.min_temp),
        reading_render(w.pressure),
        w.sunrise@,
        w.sunset@,
        w.season@,
    ]
}

fn digit_str(d: u64) -> (r: &'static str)
    requires
        d < 10,
    ensures
        r@ == seq![digit_char(d as int)],
{
    proof {
        reveal_strlit("0");
        reveal_strlit("1");
        reveal_strlit("2");
        reveal_strlit("3");
        reveal_strlit("4");
        reveal_strlit("5");
        reveal_strlit("6");
        reveal_strlit("7");
        reveal_strlit("8");
        reveal_strlit("9");
    }
    let r = match d {
        0 => "0",
        1 => "1",
        2 => "2",
        3 => "3",
        4 => "4",
        5 => "5",
        6 => "6",
        7 => "7",
        8 => "8",
        _ => "9",
    };
    assert(r@ =~= seq![digit_char(d as int)]);
    r
}

/// `n` in decimal.
pub fn nat_to_text(n: u64) -> (r: String)
    ensures
        r@ == nat_text(n as nat),
    decreases n,
{
    if n < 10 {
        String::from_str(digit_str(n))
    } else {
        let mut s = nat_to_text(n / 10);
        s.append(digit_str(n % 10));
        s
    }
}

/// `v` in decimal, with a `-` when negative.
pub fn int_to_text(v: i64) -> (r: String)
    ensures
        r@ == int_render(v as int),
{
    if v < 0 {
        let m: u64 = (0i128 - v as i128) as u64;
        let s = String::from_str("-");
        proof {
            reveal_strlit("-");
        }
        s.concat(nat_to_text(m).as_str())
    } else {
        nat_to_text(v as u64)
    }
}

/// `n` in decimal, zero-padded to `w` digits.
pub fn pad_to(n: u64, w: u64) -> (r: String)
    requires
        w <= 4,
    ensures
        r@ == padded(n as nat, w as nat),
    decreases w,
{
    if w <= 1 {
        return nat_to_text(n);
    }
    let mut limit: u64 = 1;
    let mut i: u64 = 1;
    while i < w
        invariant
            1 <= i <= w <= 4,
            limit == crate::num::pow10((i - 1) as nat),
            limit <= 1000,
        decreases w - i,
    {
        proof {
            reveal_with_fuel(crate::num::pow10, 5);
        }
        limit = limit * 10;
        i = i + 1;
    }
    if n >= limit {
        nat_to_text(n)
    } else {
        proof {
            reveal_strlit("0");
        }
        String::from_str("0").concat(pad_to(n, w - 1).as_str())
    }
}

/// The text of a time stamp, as `timestamp_render` lays it out.
pub fn timestamp_text(t: &Timestamp) -> (r: String)
    requires
        t.year >= 0,
    ensures
        r@ == timestamp_render(*t),
{
    proof {
        reveal_strlit("-");
        reveal_strlit(" ");
        reveal_strlit(":");
        reveal_strlit("+");
    }
    let off: u64 = if t.offset_minutes < 0 { (0i32 - t.offset_minutes as i32) as u64 } else { t.offset_minutes as u64 };
    let mut s = pad_to(t.year as u64, 4);
    s.append("-");
    s.append(pad_to(t.month as u64, 2).as_str());
    s.append("-");
    s.append(pad_to(t.day as u64, 2).as_str());
    s.append(" ");
    s.append(pad_to(t.hour as u64, 2).as_str());
    s.append(":");
    s.append(pad_to(t.minute as u64, 2).as_str());
    s.append(":");
    s.append(pad_to(t.second as u64, 2).as_str());
    s.append(" ");
    s.append(if t.offset_minutes < 0 { "-" } else { "+" });
    s.append(pad_to(off / 60, 2).as_str());
    s.append(":");
    s.append(pad_to(off % 60, 2).as_str());
    assert(s@ =~= timestamp_render(*t));
    s
}

/// The text of a decimal, as `decimal_render` lays it out.
pub fn decimal_to_text(d: &Decimal) -> (r: String)
    ensures
        r@ == decimal_render(*d),
{
    proof {
        reveal_strlit("-");
        reveal_strlit(".");
        reveal_strlit("e");
    }
    let digits = nat_to_text(d.mantissa);
    let mut s = if d.negative { String::from_str("-") } else { String::new() };
    let ghost sign = s@;
    let n = digits.as_str().unicode_len();
    if d.exponent == 0 {
        s.append(digits.as_str());
    } else if d.exponent < 0 && (n as i128 + d.exponent as i128) > 0 {
        let k = (n as i128 + d.exponent as i128) as usize;
        s.append(digits.as_str().substring_char(0, k));
        s.append(".");
        s.append(digits.as_str().substring_char(k, n));
    } else {
        s.append(digits.as_str());
        s.append("e");
        s.append(int_to_text(d.exponent).as_str());
    }
    assert(s@ =~= decimal_render(*d));
    s
}

fn reading_text(d: &Option<Decimal>) -> (r: String)
    ensures
        r@ == reading_render(*d),
{
    match d {
        Some(v) => decimal_to_text(v),
        None => String::new(),
    }
}

/// The cells of one row of the weather report.
pub fn weather_cells(w: &MedaSol) -> (r: Vec<String>)
    requires
        w.terrestrial_date.year >= 0,
    ensures
        r@.len() == 8,
        forall|i: int| 0 <= i < 8 ==> (#[trigger] r@[i])@ == weather_row(*w)[i],
{
    let mut r: Vec<String> = Vec::new();
    r.push(timestamp_text(&w.terrestrial_date));
    r.push(int_to_text(w.sol as i64));
    r.push(reading_text(&w.max_temp));
    r.push(reading_text(&w.min_temp));
    r.push(reading_text(&w.pressure));
    r.push(w.sunrise.clone());
    r.push(w.sunset.clone());
    r.push(w.season.clone());
    r
}

/// The cells of a row joined by commas, as a comma-separated report prints them.
pub open spec fn csv_join(cells: Seq<Seq<char>>) -> Seq<char>
    decreases cells.len(),
{
    if cells.len() == 0 {
        Seq::empty()
    } else if cells.len() == 1 {
        cells[0]
    } else {
        csv_join(cells.drop_last()) + seq![','] + cells.last()
    }
}

/// Joins cells with commas.
pub fn csv_line(cells: &Vec<String>) -> (r: String)
    ensures
        r@ == csv_join(cells@.map_values(|c: String| c@)),
{
    proof {
        reveal_strlit(",");
    }
    let mut s = String::new();
    let mut i: usize = 0;
    while i < cells.len()
        invariant
            i <= cells@.len(),
            s@ == csv_join(cells@.subrange(0, i as int).map_values(|c: String| c@)),
        decreases cells@.len() - i,
    {
        let ghost prev = cells@.subrange(0, i as int).map_values(|c: String| c@);
        let ghost next = cells@.subrange(0, i + 1).map_values(|c: String| c@);
        assert(next.drop_last() =~= prev);
        assert(next.last() == cells@[i as int]@);
        assert(next.len() == i + 1);
        if i > 0 {
            proof {
                reveal_strlit(",");
            }
            s.append(",");
            s.append(cells[i].as_str());
            assert(s@ =~= csv_join(prev) + seq![','] + next.last());
        } else {
            s.append(cells[i].as_str());
            assert(s@ =~= next[0]);
        }
        i = i + 1;
    }
    assert(cells@.subrange(0, i as int) =~= cells@);
    s
}

} // verus!
