use vstd::prelude::*;
use crate::text::{
    all_digits, chars_of, decimal, decimal_value, is_digit, lemma_decimal,
    lemma_digits_no_line_break, lemma_rfind_at, occurs_at, range_equals, rfind, rfind_exec,
};

verus! {

broadcast use vstd::string::group_string_axioms;

/// Charge state reported for the battery.
#[derive(Debug, Clone, Copy, PartialEq, Eq, Structural)]
pub enum BatteryStatus {
    Charging,
    Discharging,
    Unknown,
}

/// One reading of the battery: its charge state and its charge in percent.
#[derive(Debug, Clone, Copy, PartialEq, Eq, Structural)]
pub struct AcpiOutput {
    pub status: BatteryStatus,
    pub percent: u8,
}

/// Why a status report could not be read.
#[derive(Debug, Clone, Copy, PartialEq, Eq, Structural)]
pub enum AcpiError {
    /// No line of the report has the shape `Battery 0: <state>, <percent>%, ...`.
    NoMatch,
    /// The line has that shape, but its percentage is not a number from 0 to 100.
    Malformed,
}

impl AcpiError {
    /// The text shown to users when a report cannot be read.
    pub fn message(&self) -> (r: String)
        ensures
            r@ == "An Error Occurred, Please Try Again!"@,
    {
        "An Error Occurred, Please Try Again!".to_owned()
    }
}

/// The charge state named by the state field of a report.
pub open spec fn status_of(t: Seq<char>) -> BatteryStatus {
    if t == "Charging"@ {
        BatteryStatus::Charging
    } else if t == "Discharging"@ {
        BatteryStatus::Discharging
    } else {
        BatteryStatus::Unknown
    }
}

/// The percentage written by the percent field: one or more decimal digits
/// whose value is at most 100.
pub open spec fn percent_value(t: Seq<char>) -> Option<u8> {
    if t.len() > 0 && all_digits(t) && decimal_value(t) <= 100 {
        Some(decimal_value(t) as u8)
    } else {
        None
    }
}

/// A `%, ` at `e` ends a percent field of the line that starts at `st`: a
/// `, ` stands between `st` and it, and when `digits` is asked for, the text
/// after the last such `, ` is a non-empty run of digits.
pub open spec fn ends_field(s: Seq<char>, st: int, e: int, digits: bool) -> bool {
    &&& occurs_at(s, "%, "@, e)
    &&& match rfind(s, ", "@, st, e - 2) {
        Some(c) => digits ==> c + 2 < e && all_digits(s.subrange(c + 2, e)),
        None => false,
    }
}

/// The first position at or after `i`, before any line break, where a `%, `
/// ends a percent field of the line that starts at `st`.
pub open spec fn field_end(s: Seq<char>, st: int, i: int, digits: bool) -> Option<int>
    decreases s.len() - i,
{
    if i < 0 || i >= s.len() {
        None
    } else if ends_field(s, st, i, digits) {
        Some(i)
    } else if s[i] == '\n' {
        None
    } else {
        field_end(s, st, i + 1, digits)
    }
}

/// The reading of the text that follows a `Battery 0: ` at `st`, if that line
/// has the shape `<state>, <percent>%, ...`.
///
/// The percent field ends at the first `%, ` of the line whose text after
/// the last `, ` before it is a run of digits, and starts after that `, `;
/// the state is all that comes before. A line where no `%, ` has digits
/// there, but one has a `, ` before it, is malformed.
pub open spec fn line_reading(s: Seq<char>, st: int) -> Option<Result<AcpiOutput, AcpiError>> {
    match field_end(s, st, st, true) {
        Some(e) => {
            let c = rfind(s, ", "@, st, e - 2)->0;
            Some(
                match percent_value(s.subrange(c + 2, e)) {
                    Some(p) => Ok(AcpiOutput { status: status_of(s.subrange(st, c)), percent: p }),
                    None => Err(AcpiError::Malformed),
                },
            )
        },
        None => match field_end(s, st, st, false) {
            Some(_) => Some(Err(AcpiError::Malformed)),
            None => None,
        },
    }
}

/// The reading of the first `Battery 0: ` line at or after `i` that has the
/// shape of a report line; `NoMatch` when there is none.
pub open spec fn reading_from(s: Seq<char>, i: int) -> Result<AcpiOutput, AcpiError>
    decreases s.len() - i,
{
    if i < 0 || i >= s.len() {
        Err(AcpiError::NoMatch)
    } else if occurs_at(s, "Battery 0: "@, i) && line_reading(s, i + "Battery 0: "@.len()) is Some {
        line_reading(s, i + "Battery 0: "@.len())->0
    } else {
        reading_from(s, i + 1)
    }
}

/// The reading of a whole report: that of its first line of the shape
/// `Battery 0: <state>, <percent>%, ...`. Without such a line the report does
/// not match; with a percent field that is not a percentage it is malformed.
pub open spec fn parse_report(s: Seq<char>) -> Result<AcpiOutput, AcpiError> {
    reading_from(s, 0)
}

/// A prefix of a string of digits is worth no more than the whole.
proof fn lemma_decimal_prefix_le(s: Seq<char>, j: int)
    requires
        0 <= j <= s.len(),
    ensures
        decimal_value(s.take(j)) <= decimal_value(s),
    decreases s.len(),
{
    if j < s.len() {
        lemma_decimal_prefix_le(s.drop_last(), j);
        assert(s.drop_last().take(j) =~= s.take(j));
    } else {
        assert(s.take(j) =~= s);
    }
}

/// The charge state named by the characters of `v` from `lo` to `hi`.
fn status_in(v: &Vec<char>, lo: usize, hi: usize) -> (r: BatteryStatus)
    requires
        lo <= hi <= v.len(),
    ensures
        r == status_of(v@.subrange(lo as int, hi as int)),
{
    let charging = chars_of("Charging");
    let discharging = chars_of("Discharging");
    if range_equals(v, lo, hi, &charging) {
        BatteryStatus::Charging
    } else if range_equals(v, lo, hi, &discharging) {
        BatteryStatus::Discharging
    } else {
        BatteryStatus::Unknown
    }
}

/// The percentage written by the characters of `v` from `lo` to `hi`, if they
/// write one.
fn percent_in(v: &Vec<char>, lo: usize, hi: usize) -> (r: Option<u8>)
    requires
        lo <= hi <= v.len(),
    ensures
        r == percent_value(v@.subrange(lo as int, hi as int)),
{
    let ghost t = v@.subrange(lo as int, hi as int);
    if lo == hi {
        return None;
    }
    let mut value: u32 = 0;
    let mut k: usize = lo;
    while k < hi
        invariant
            lo <= k <= hi <= v.len(),
            t == v@.subrange(lo as int, hi as int),
            value <= 100,
            value == decimal_value(t.take(k - lo)),
            all_digits(t.take(k - lo)),
        decreases hi - k,
    {
        let code = v[k] as u32;
        if code < '0' as u32 || code > '9' as u32 {
            assert(!is_digit(t[k - lo]));
            return None;
        }
        assert(t.take(k - lo + 1).drop_last() =~= t.take(k - lo));
        value = value * 10 + (code - '0' as u32);
        assert(value == decimal_value(t.take(k - lo + 1)));
        assert(all_digits(t.take(k - lo + 1)));
        if value > 100 {
            proof {
                lemma_decimal_prefix_le(t, k - lo + 1);
            }
            return None;
        }
        k += 1;
    }
    assert(t.take(hi - lo) =~= t);
    Some(value as u8)
}

/// The charge state named by `as_str`: `Charging`, `Discharging`, or, for any
/// other text, `Unknown`.
pub fn from(as_str: &str) -> (r: BatteryStatus)
    ensures
        r == status_of(as_str@),
{
    let v = chars_of(as_str);
    assert(v@.subrange(0, v@.len() as int) =~= v@);
    status_in(&v, 0, v.len())
}

/// Reads one status report: the reading of its first line of the shape
/// `Battery 0: <state>, <percent>%, ...`, `NoMatch` when no line has that
/// shape, or `Malformed` when that line's percent field is not a number from
/// 0 to 100 (see `parse_report`).
pub fn from_string(output: String) -> (r: Result<AcpiOutput, AcpiError>)
    ensures
        r == parse_report(output@),
        r matches Ok(o) ==> o.percent <= 100,
{
    let v = chars_of(output.as_str());
    let prefix = chars_of("Battery 0: ");
    let separator = chars_of(", ");
    let terminator = chars_of("%, ");
    let mut i: usize = 0;
    while i < v.len()
        invariant
            prefix@ == "Battery 0: "@,
            separator@ == ", "@,
            terminator@ == "%, "@,
            parse_report(output@) == reading_from(v@, i as int),
            v@ == output@,
        decreases v.len() - i,
    {
        if prefix.len() <= v.len() - i && range_equals(&v, i, i + prefix.len(), &prefix) {
            let st = i + prefix.len();
            if let Some((c, e)) = line_fields(&v, st, &separator, &terminator, true) {
                return match percent_in(&v, c + 2, e) {
                    Some(p) => Ok(AcpiOutput { status: status_in(&v, st, c), percent: p }),
                    None => Err(AcpiError::Malformed),
                };
            }
            if line_fields(&v, st, &separator, &terminator, false).is_some() {
                return Err(AcpiError::Malformed);
            }
        }
        i += 1;
    }
    Err(AcpiError::NoMatch)
}

/// Whether the characters of `v` from `lo` to `hi` are all digits.
fn all_digits_in(v: &Vec<char>, lo: usize, hi: usize) -> (r: bool)
    requires
        lo <= hi <= v.len(),
    ensures
        r == all_digits(v@.subrange(lo as int, hi as int)),
{
    let ghost t = v@.subrange(lo as int, hi as int);
    let mut k: usize = lo;
    while k < hi
        invariant
            lo <= k <= hi <= v.len(),
            t == v@.subrange(lo as int, hi as int),
            forall|j: int| 0 <= j < k - lo ==> is_digit(#[trigger] t[j]),
        decreases hi - k,
    {
        let code = v[k] as u32;
        if code < '0' as u32 || code > '9' as u32 {
            assert(!is_digit(t[k - lo]));
            return false;
        }
        k += 1;
    }
    true
}

/// Where the state field of the line starting at `st` ends (`c`) and where
/// its percent field ends (`e`), as `field_end` places them.
fn line_fields(
    v: &Vec<char>,
    st: usize,
    separator: &Vec<char>,
    terminator: &Vec<char>,
    digits: bool,
) -> (r: Option<(usize, usize)>)
    requires
        separator@ == ", "@,
        terminator@ == "%, "@,
    ensures
        r is None ==> field_end(v@, st as int, st as int, digits) is None,
        r matches Some((c, e)) ==> {
            &&& field_end(v@, st as int, st as int, digits) == Some(e as int)
            &&& rfind(v@, ", "@, st as int, e - 2) == Some(c as int)
            &&& st <= c && c + 2 <= e <= v.len()
        },
{
    proof {
        reveal_strlit(", ");
        reveal_strlit("%, ");
    }
    let mut i: usize = st;
    while i < v.len()
        invariant
            st <= i,
            separator@ == ", "@,
            terminator@ == "%, "@,
            field_end(v@, st as int, st as int, digits) == field_end(
                v@,
                st as int,
                i as int,
                digits,
            ),
        decreases v.len() - i,
    {
        let here = terminator.len() <= v.len() - i && range_equals(
            v,
            i,
            i + terminator.len(),
            terminator,
        );
        if here {
            if i - st >= 2 {
                if let Some(c) = rfind_exec(v, separator, st, i - 2) {
                    if !digits || (c + 2 < i && all_digits_in(v, c + 2, i)) {
                        return Some((c, i));
                    }
                }
            } else {
                assert(rfind(v@, ", "@, st as int, i - 2) is None);
            }
        }
        if v[i] == '\n' {
            return None;
        }
        assert(field_end(v@, st as int, i as int, digits) == field_end(
            v@,
            st as int,
            i + 1,
            digits,
        ));
        i += 1;
    }
    None
}

/// The report line `Battery 0: <state>, <percent>%, <rest>`.
pub open spec fn report_line(state: Seq<char>, percent: nat, rest: Seq<char>) -> Seq<char> {
    "Battery 0: "@ + state + ", "@ + decimal(percent) + "%, "@ + rest
}

/// Position `k` neither ends a percent field nor breaks the line.
spec fn passes(s: Seq<char>, st: int, k: int, digits: bool) -> bool {
    !ends_field(s, st, k, digits) && s[k] != '\n'
}

/// `field_end` finds the `%, ` at `e` when no earlier position qualifies.
proof fn lemma_field_end_at(s: Seq<char>, st: int, i: int, e: int, digits: bool)
    requires
        0 <= i <= e,
        ends_field(s, st, e, digits),
        forall|k: int| i <= k < e ==> #[trigger] passes(s, st, k, digits),
    ensures
        field_end(s, st, i, digits) == Some(e),
    decreases e - i,
{
    reveal_strlit("%, ");
    if i < e {
        assert(passes(s, st, i, digits));
        lemma_field_end_at(s, st, i + 1, e, digits);
    }
}

/// A line `Battery 0: <state>, <percent>%, <rest>` reads as the charge state
/// that `<state>` names and as `<percent>`, whatever `<rest>` holds, when the
/// percentage from 0 to 100 is written in plain decimal, the state holds no
/// line break, and no `%, ` within or right after the state already ends a
/// percent field of digits (as in `x, 5%, 7%, ...`, which is the state `x` at
/// 5 percent).
pub proof fn lemma_report_line_reads_back(state: Seq<char>, percent: u8, rest: Seq<char>)
    requires
        percent <= 100,
        forall|i: int| 0 <= i < state.len() ==> #[trigger] state[i] != '\n',
        forall|k: int|
            "Battery 0: "@.len() <= k < "Battery 0: "@.len() + state.len() ==> !#[trigger] ends_field(
                report_line(state, percent as nat, rest),
                "Battery 0: "@.len() as int,
                k,
                true,
            ),
    ensures
        parse_report(report_line(state, percent as nat, rest)) == Ok::<AcpiOutput, AcpiError>(
            AcpiOutput { status: status_of(state), percent },
        ),
{
    reveal_strlit("Battery 0: ");
    reveal_strlit(", ");
    reveal_strlit("%, ");
    let pre = "Battery 0: "@;
    let sep = ", "@;
    let term = "%, "@;
    let digits = decimal(percent as nat);
    let s = report_line(state, percent as nat, rest);
    assert(s == pre + state + sep + digits + term + rest);
    lemma_decimal(percent as nat);
    let a = pre.len() as int;
    let c = a + state.len();
    let ps = c + sep.len();
    let e = ps + digits.len();
    assert(s.subrange(0, a) =~= pre);
    assert(s.subrange(a, c) =~= state);
    assert(s.subrange(c, ps) =~= sep);
    assert(s.subrange(ps, e) =~= digits);
    assert(s.subrange(e, e + term.len()) =~= term);
    assert(s[c] == ',' && s[c + 1] == ' ');
    assert forall|j: int|
        #![trigger s.subrange(j, j + sep.len())]
        c < j <= e - 2 implies !occurs_at(s, sep, j) by {
        if occurs_at(s, sep, j) {
            assert(s.subrange(j, j + sep.len())[0] == s[j]);
            if j >= ps {
                assert(s[j] == digits[j - ps]);
                assert(is_digit(digits[j - ps]));
            }
        }
    }
    lemma_rfind_at(s, sep, a, e - 2, c);
    assert forall|k: int| a <= k < e implies #[trigger] passes(s, a, k, true) by {
        if k < c {
            assert(s[k] == state[k - a]);
            assert(!ends_field(s, a, k, true));
        } else if k < ps {
            if occurs_at(s, term, k) {
                assert(s.subrange(k, k + term.len())[0] == s[k]);
            }
        } else {
            assert(s[k] == digits[k - ps]);
            lemma_digits_no_line_break(digits, k - ps);
            if occurs_at(s, term, k) {
                assert(s.subrange(k, k + term.len())[0] == s[k]);
            }
        }
    }
    assert(ends_field(s, a, e, true));
    lemma_field_end_at(s, a, a, e, true);
    assert(line_reading(s, a) is Some);
}

/// The two known state words read back, with any percentage from 0 to 100 and
/// whatever follows the percentage.
pub proof fn lemma_known_states_read_back(percent: u8, rest: Seq<char>)
    requires
        percent <= 100,
    ensures
        parse_report("Battery 0: Charging, "@ + decimal(percent as nat) + "%, "@ + rest)
            == Ok::<AcpiOutput, AcpiError>(
            AcpiOutput { status: BatteryStatus::Charging, percent },
        ),
        parse_report("Battery 0: Discharging, "@ + decimal(percent as nat) + "%, "@ + rest)
            == Ok::<AcpiOutput, AcpiError>(
            AcpiOutput { status: BatteryStatus::Discharging, percent },
        ),
{
    reveal_strlit("Battery 0: Charging, ");
    reveal_strlit("Battery 0: Discharging, ");
    reveal_strlit("Battery 0: ");
    reveal_strlit("Charging");
    reveal_strlit("Discharging");
    reveal_strlit(", ");
    reveal_strlit("%, ");
    let words = seq!["Charging"@, "Discharging"@];
    assert forall|w: int| 0 <= w < 2 implies {
        &&& forall|i: int| 0 <= i < (#[trigger] words[w]).len() ==> #[trigger] words[w][i] != '\n'
        &&& forall|k: int|
            11 <= k < 11 + words[w].len() ==> !#[trigger] ends_field(
                report_line(words[w], percent as nat, rest),
                11,
                k,
                true,
            )
    } by {
        let t = words[w];
        let s = report_line(t, percent as nat, rest);
        assert forall|k: int| 11 <= k < 11 + t.len() implies !#[trigger] ends_field(
            s,
            11,
            k,
            true,
        ) by {
            assert(s[k] == t[k - 11]);
            if occurs_at(s, "%, "@, k) {
                assert(s.subrange(k, k + "%, "@.len())[0] == s[k]);
                assert("%, "@[0] == '%');
            }
        }
    }
    assert(words[0] == "Charging"@);
    assert(words[1] == "Discharging"@);
    lemma_report_line_reads_back("Charging"@, percent, rest);
    lemma_report_line_reads_back("Discharging"@, percent, rest);
    assert(report_line("Charging"@, percent as nat, rest)
        =~= "Battery 0: Charging, "@ + decimal(percent as nat) + "%, "@ + rest);
    assert(report_line("Discharging"@, percent as nat, rest)
        =~= "Battery 0: Discharging, "@ + decimal(percent as nat) + "%, "@ + rest);
}

} // verus!
