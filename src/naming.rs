//! Names of the files that persisted responses are written to.
use vstd::prelude::*;
use vstd::string::*;
use crate::request::opt_str_view;

verus! {

/// The file that holds a ListMetadataFormats response.
pub const FORMATS_FILE: &'static str = "formats.xml";

/// The file that holds a ListSets response.
pub const SETS_FILE: &'static str = "sets.xml";

pub open spec fn digit_char(d: nat) -> char {
    seq!['0', '1', '2', '3', '4', '5', '6', '7', '8', '9'][d as int]
}

/// The decimal digits of a number, without sign or leading zeros.
pub open spec fn decimal_text(n: nat) -> Seq<char>
    decreases n,
{
    if n < 10 {
        seq![digit_char(n)]
    } else {
        decimal_text(n / 10).push(digit_char(n % 10))
    }
}

/// The one-character text of a decimal digit.
fn digit_text(d: u64) -> (r: &'static str)
    requires
        d < 10,
    ensures
        r@ == seq![digit_char(d as nat)],
{
    proof {
        reveal_strlit("0");
        reveal_strlit("1");
        reveal_strlit("2");
        reveal_strlit("3");
        reveal_strlit("4");
        reveal_strlit("5");
        reveal_strlit("6");
        reveal_strlit("7");
        reveal_strlit("8");
        reveal_strlit("9");
    }
    let r = match d {
        0 => "0",
        1 => "1",
        2 => "2",
        3 => "3",
        4 => "4",
        5 => "5",
        6 => "6",
        7 => "7",
        8 => "8",
        _ => "9",
    };
    assert(r@ =~= seq![digit_char(d as nat)]);
    r
}

/// The decimal digits of a number.
fn decimal(n: u64) -> (r: String)
    ensures
        r@ == decimal_text(n as nat),
    decreases n,
{
    if n < 10 {
        String::from_str(digit_text(n))
    } else {
        let mut digits = decimal(n / 10);
        digits.append(digit_text(n % 10));
        assert(digits@ =~= decimal_text(n as nat));
        digits
    }
}

/// `{prefix}-{set or "all"}-{index}.xml`.
pub open spec fn page_file_text(prefix: Seq<char>, set: Option<Seq<char>>, index: nat) -> Seq<char> {
    let set_part = match set {
        Some(s) => s,
        None => "all"@,
    };
    prefix + "-"@ + set_part + "-"@ + decimal_text(index) + ".xml"@
}

/// The name of the file that the page with the given index is written to.
pub fn page_file_name(prefix: &str, set: Option<&str>, index: u64) -> (r: String)
    ensures
        r@ == page_file_text(prefix@, opt_str_view(set), index as nat),
{
    let mut name = String::from_str(prefix);
    name.append("-");
    match set {
        Some(s) => name.append(s),
        None => name.append("all"),
    }
    name.append("-");
    let digits = decimal(index);
    name.append(digits.as_str());
    name.append(".xml");
    name
}

} // verus!
