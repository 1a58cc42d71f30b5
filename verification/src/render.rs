//! Integers written out as decimal text, and the texts built from them.

use vstd::prelude::*;
use vstd::string::StringExecFns;
use crate::decimal::{all_digits, digit_of, digits_value, is_digit, numeral};
use crate::minmax::MinMax;
use crate::page::Parameters;

verus! {

/// The digit that stands for a number below ten.
pub open spec fn digit_char(d: int) -> char {
    if d == 0 {
        '0'
    } else if d == 1 {
        '1'
    } else if d == 2 {
        '2'
    } else if d == 3 {
        '3'
    } else if d == 4 {
        '4'
    } else if d == 5 {
        '5'
    } else if d == 6 {
        '6'
    } else if d == 7 {
        '7'
    } else if d == 8 {
        '8'
    } else {
        '9'
    }
}

/// The digits of a natural number, most significant first, without leading
/// zeros.
pub open spec fn decimal_text(n: nat) -> Seq<char>
    decreases n,
{
    if n < 10 {
        seq![digit_char(n as int)]
    } else {
        decimal_text(n / 10).push(digit_char((n % 10) as int))
    }
}

/// The decimal text of an integer, with a minus sign below zero.
pub open spec fn signed_text(n: int) -> Seq<char> {
    if n < 0 {
        seq!['-'] + decimal_text((-n) as nat)
    } else {
        decimal_text(n as nat)
    }
}

/// The text `true` or `false`.
pub open spec fn bool_text(b: bool) -> Seq<char> {
    if b {
        "true"@
    } else {
        "false"@
    }
}

/// An optional number the way a debug line shows it.
pub open spec fn option_text(v: Option<u64>) -> Seq<char> {
    match v {
        Some(n) => "Some("@ + decimal_text(n as nat) + ")"@,
        None => "None"@,
    }
}

/// The decimal text of a number stands for that number.
pub proof fn lemma_decimal_text_reads_back(n: nat)
    ensures
        decimal_text(n).len() > 0,
        all_digits(decimal_text(n)),
        digits_value(decimal_text(n)) == n,
        numeral(decimal_text(n), true) == Some(n as int),
        numeral(decimal_text(n), false) == Some(n as int),
    decreases n,
{
    let t = decimal_text(n);
    if n < 10 {
        assert(is_digit(t[0]));
        assert(digit_of(t[0]) == n);
        assert(t.drop_last().len() == 0);
        assert(digits_value(t.drop_last()) == 0);
    } else {
        lemma_decimal_text_reads_back(n / 10);
        let p = decimal_text(n / 10);
        let c = digit_char((n % 10) as int);
        assert(t.drop_last() == p);
        assert(t.last() == c);
        assert(is_digit(c));
        assert(digit_of(c) == n % 10);
        assert forall|i: int| 0 <= i < t.len() implies is_digit(#[trigger] t[i]) by {
            if i < p.len() {
                assert(t[i] == p[i]);
            }
        }
    }
    assert(is_digit(t[0]));
}

/// The text of one digit.
fn digit_text(d: u64) -> (r: &'static str)
    requires
        d < 10,
    ensures
        r@ == seq![digit_char(d as int)],
{
    proof {
        reveal_strlit("0");
        reveal_strlit("1");
        reveal_strlit("2");
        reveal_strlit("3");
        reveal_strlit("4");
        reveal_strlit("5");
        reveal_strlit("6");
        reveal_strlit("7");
        reveal_strlit("8");
        reveal_strlit("9");
    }
    let r = if d == 0 {
        "0"
    } else if d == 1 {
        "1"
    } else if d == 2 {
        "2"
    } else if d == 3 {
        "3"
    } else if d == 4 {
        "4"
    } else if d == 5 {
        "5"
    } else if d == 6 {
        "6"
    } else if d == 7 {
        "7"
    } else if d == 8 {
        "8"
    } else {
        "9"
    };
    assert(r@ =~= seq![digit_char(d as int)]);
    r
}

/// Writes a number out in decimal.
pub fn render_u64(n: u64) -> (r: String)
    ensures
        r@ == decimal_text(n as nat),
    decreases n,
{
    if n < 10 {
        String::from_str(digit_text(n))
    } else {
        let mut s = render_u64(n / 10);
        s.append(digit_text(n % 10));
        assert(s@ =~= decimal_text((n / 10) as nat).push(digit_char((n % 10) as int)));
        s
    }
}

/// Writes an integer out in decimal.
pub fn render_i64(n: i64) -> (r: String)
    ensures
        r@ == signed_text(n as int),
{
    if n >= 0 {
        render_u64(n as u64)
    } else {
        proof {
            reveal_strlit("-");
        }
        let m: u64 = if n == i64::MIN {
            0x8000_0000_0000_0000
        } else {
            (-n) as u64
        };
        let s = String::from_str("-").concat(render_u64(m).as_str());
        assert(s@ =~= seq!['-'] + decimal_text((-n) as nat));
        s
    }
}

/// Path of the data file in a directory.
pub fn data_path(repertoire: &str) -> (r: String)
    ensures
        r@ == repertoire@ + "/data.json"@,
{
    String::from_str(repertoire).concat("/data.json")
}

/// Path of the cursor file in a directory.
pub fn param_path(repertoire: &str) -> (r: String)
    ensures
        r@ == repertoire@ + "/param.json"@,
{
    String::from_str(repertoire).concat("/param.json")
}

/// Path of the backup of a file, taken at `seconds` since the Unix epoch:
/// in the directory `backup`, the file's prefix, an underscore and the time.
pub fn backup_path(repertoire: &str, debut_nom_fichier: &str, seconds: i64) -> (r: String)
    ensures
        r@ == repertoire@ + "/backup/"@ + debut_nom_fichier@ + "_"@ + signed_text(seconds as int)
            + ".json"@,
{
    let mut r = String::from_str(repertoire);
    r.append("/backup/");
    r.append(debut_nom_fichier);
    r.append("_");
    r.append(render_i64(seconds).as_str());
    r.append(".json");
    r
}

impl MinMax {
    /// The tracker as a log line shows it: smallest value, largest value and
    /// whether the series never dropped.
    pub fn to_text(&self) -> (r: String)
        ensures
            r@ == "("@ + signed_text(self.min as int) + ","@ + signed_text(self.max as int) + ","@
                + bool_text(self.ordre) + ")"@,
    {
        let mut r = String::from_str("(");
        r.append(render_i64(self.min as i64).as_str());
        r.append(",");
        r.append(render_i64(self.max as i64).as_str());
        r.append(",");
        r.append(if self.ordre { "true" } else { "false" });
        r.append(")");
        r
    }
}

impl Parameters {
    /// The request as a log line shows it: everything but the two keys.
    pub fn to_text(&self) -> (r: String)
        ensures
            r@ == "detail_type: "@ + self.detail_type@ + ", count: "@ + decimal_text(
                self.count as nat,
            ) + ", offset: "@ + decimal_text(self.offset as nat) + ", total: "@ + decimal_text(
                self.total as nat,
            ) + ", sort: "@ + self.sort@ + ", since: "@ + option_text(self.since),
    {
        let mut r = String::from_str("detail_type: ");
        r.append(self.detail_type.as_str());
        r.append(", count: ");
        r.append(render_u64(self.count).as_str());
        r.append(", offset: ");
        r.append(render_u64(self.offset).as_str());
        r.append(", total: ");
        r.append(render_u64(self.total as u64).as_str());
        r.append(", sort: ");
        r.append(self.sort.as_str());
        r.append(", since: ");
        match self.since {
            Some(n) => {
                r.append("Some(");
                r.append(render_u64(n).as_str());
                r.append(")");
                assert(r@ =~= "detail_type: "@ + self.detail_type@ + ", count: "@ + decimal_text(
                    self.count as nat,
                ) + ", offset: "@ + decimal_text(self.offset as nat) + ", total: "@
                    + decimal_text(self.total as nat) + ", sort: "@ + self.sort@ + ", since: "@
                    + ("Some("@ + decimal_text(n as nat) + ")"@));
            },
            None => {
                r.append("None");
            },
        }
        r
    }
}

} // verus!
