//! Framing of the one write the workflows perform.
//!
//! The "my selection" commit call carries a fixed-shape JSON object; the
//! workflows fill only the selected id and leave the spell and ward
//! fields null. The body is built here character by character, with the
//! decimal rendering of the ids proved against its mathematical spec.

use vstd::prelude::*;
use vstd::string::StringExecFns;

verus! {

use crate::models::ChampSelectChampSelectMySelection;

/// The character standing for the decimal digit `d`.
pub open spec fn digit_char(d: int) -> char {
    ((48 + d) as u8) as char
}

/// Decimal digits of `n`, most significant first.
pub open spec fn dec_digits(n: int) -> Seq<char>
    decreases n,
    when n >= 0
{
    if n < 10 {
        seq![digit_char(n)]
    } else {
        dec_digits(n / 10).push(digit_char(n % 10))
    }
}

/// Decimal rendering of `n`, with a sign for negative values.
pub open spec fn dec_i64(n: int) -> Seq<char> {
    if n < 0 {
        seq!['-'] + dec_digits(-n)
    } else {
        dec_digits(n)
    }
}

/// JSON rendering of an optional id: the number, or `null`.
pub open spec fn opt_id_json(o: Option<i64>) -> Seq<char> {
    match o {
        Some(v) => dec_i64(v as int),
        None => "null"@,
    }
}

/// The JSON body of a "my selection" commit, fields in wire order.
pub open spec fn selection_body(m: ChampSelectChampSelectMySelection) -> Seq<char> {
    "{\"selectedSkinId\":"@ + dec_i64(m.selected_skin_id as int) + ",\"spell1Id\":"@ + opt_id_json(
        m.spell1_id,
    ) + ",\"spell2Id\":"@ + opt_id_json(m.spell2_id) + ",\"wardSkinId\":"@ + opt_id_json(
        m.ward_skin_id,
    ) + "}"@
}

/// One-character string for the decimal digit `d`.
fn digit_str(d: u8) -> (r: &'static str)
    requires
        d < 10,
    ensures
        r@ =~= seq![digit_char(d as int)],
{
    proof {
        reveal_strlit("0");
        reveal_strlit("1");
        reveal_strlit("2");
        reveal_strlit("3");
        reveal_strlit("4");
        reveal_strlit("5");
        reveal_strlit("6");
        reveal_strlit("7");
        reveal_strlit("8");
        reveal_strlit("9");
    }
    match d {
        0 => "0",
        1 => "1",
        2 => "2",
        3 => "3",
        4 => "4",
        5 => "5",
        6 => "6",
        7 => "7",
        8 => "8",
        _ => "9",
    }
}

/// Appends the decimal digits of `n` to `out`.
fn push_dec_u64(out: &mut String, n: u64)
    ensures
        final(out)@ == old(out)@ + dec_digits(n as int),
    decreases n,
{
    if n >= 10 {
        push_dec_u64(out, n / 10);
    }
    let d = (n % 10) as u8;
    out.append(digit_str(d));
    proof {
        if n >= 10 {
            assert(out@ =~= old(out)@ + dec_digits(n as int / 10).push(digit_char(n as int % 10)));
        } else {
            assert(out@ =~= old(out)@ + seq![digit_char(n as int)]);
        }
    }
}

/// Decimal rendering of `n` as a string.
pub fn format_i64(n: i64) -> (r: String)
    ensures
        r@ == dec_i64(n as int),
{
    let mut out = String::new();
    if n < 0 {
        proof {
            reveal_strlit("-");
        }
        out.append("-");
        let m: u64 = ((-(n + 1)) as u64) + 1;
        assert(m as int == -(n as int));
        push_dec_u64(&mut out, m);
        proof {
            assert(out@ =~= seq!['-'] + dec_digits(-(n as int)));
        }
    } else {
        push_dec_u64(&mut out, n as u64);
        proof {
            assert(out@ =~= dec_digits(n as int));
        }
    }
    out
}

/// Appends the JSON rendering of an optional id to `out`.
fn push_opt_id(out: &mut String, o: Option<i64>)
    ensures
        final(out)@ == old(out)@ + opt_id_json(o),
{
    match o {
        Some(v) => {
            let num = format_i64(v);
            out.append(num.as_str());
        },
        None => {
            out.append("null");
        },
    }
}

/// Builds the JSON body of a "my selection" commit call.
pub fn my_selection_body(m: &ChampSelectChampSelectMySelection) -> (r: String)
    ensures
        r@ == selection_body(*m),
{
    let mut out = String::from_str("{\"selectedSkinId\":");
    let num = format_i64(m.selected_skin_id);
    out.append(num.as_str());
    out.append(",\"spell1Id\":");
    push_opt_id(&mut out, m.spell1_id);
    out.append(",\"spell2Id\":");
    push_opt_id(&mut out, m.spell2_id);
    out.append(",\"wardSkinId\":");
    push_opt_id(&mut out, m.ward_skin_id);
    out.append("}");
    proof {
        assert(out@ =~= selection_body(*m));
    }
    out
}

} // verus!
