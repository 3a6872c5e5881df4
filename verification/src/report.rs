use vstd::prelude::*;
use vstd::arithmetic::div_mod::{lemma_fundamental_div_mod, lemma_mod_division_less_than_divisor};
use vstd::string::StringExecFns;
use crate::classify::ClassificationResult;
use crate::text::{
    pad_center, pad_left, repeat_str, spec_dec, spec_pad_center, spec_pad_left, spec_repeat,
    u64_dec,
};

verus! {

/// Signalled instead of a table when `total_count` is zero: the percentages
/// would divide by zero, so an empty report is refused rather than
/// rendered.
#[derive(Clone, Copy, Debug, PartialEq, Eq, Structural)]
pub struct EmptyReportError;

/// `count` out of `total` as a percentage, rounded to the nearest whole
/// number with halves rounded up: (200 * count + total) / (2 * total) in
/// integer division.
pub open spec fn spec_pct(count: nat, total: nat) -> nat
    recommends
        0 < total,
{
    (200 * count + total) / (2 * total)
}

/// One table row: right-aligned label (width 8), right-aligned count
/// (width 5), centered percentage (width 3), separated by " | ".
pub open spec fn spec_row(label: Seq<char>, count: nat, pct: nat) -> Seq<char> {
    spec_pad_left(label, 8) + " | "@ + spec_pad_left(spec_dec(count), 5) + " | "@
        + spec_pad_center(spec_dec(pct), 3) + "\n"@
}

/// The header row: a blank label, then "count" and "%" centered in their
/// columns.
pub open spec fn spec_header() -> Seq<char> {
    spec_pad_center(""@, 8) + " | "@ + spec_pad_center("count"@, 5) + " | "@ + spec_pad_center(
        "%"@,
        3,
    ) + "\n"@
}

/// A dash-filled separator line of width 22.
pub open spec fn spec_separator() -> Seq<char> {
    spec_repeat("-"@, 22) + "\n"@
}

/// The whole table: header, separator, one row per bucket, separator, and
/// an overall row showing the total count and the percentage of all
/// outdated packages together.
pub open spec fn spec_render(res: ClassificationResult) -> Seq<char> {
    let ma = res.outdated_major@.len();
    let mi = res.outdated_minor@.len();
    let pa = res.outdated_patch@.len();
    let t = res.total_count as nat;
    spec_header() + spec_separator() + spec_row("major"@, ma, spec_pct(ma, t)) + spec_row(
        "minor"@,
        mi,
        spec_pct(mi, t),
    ) + spec_row("patch"@, pa, spec_pct(pa, t)) + spec_separator() + spec_row(
        "overall"@,
        t,
        spec_pct((ma + mi + pa) as nat, t),
    )
}

proof fn lemma_pct_le_100(c: nat, t: nat)
    requires
        0 < t,
        c <= t,
    ensures
        spec_pct(c, t) <= 100,
{
    let x = (200 * c + t) as int;
    let d = (2 * t) as int;
    lemma_fundamental_div_mod(x, d);
    lemma_mod_division_less_than_divisor(x, d);
    let q = x / d;
    let r = x % d;
    assert(q <= 100) by (nonlinear_arith)
        requires
            x == d * q + r,
            0 <= r < d,
            d == 2 * (t as int),
            1 <= t,
            x <= 201 * (t as int),
    ;
}

/// `count` out of `total` as a whole-number percentage, rounded to the
/// nearest (halves up).
fn pct(count: usize, total: usize) -> (r: u64)
    requires
        0 < total,
        count <= total,
    ensures
        r as nat == spec_pct(count as nat, total as nat),
        r <= 100,
{
    proof {
        lemma_pct_le_100(count as nat, total as nat);
    }
    let num: u128 = 200u128 * (count as u128) + (total as u128);
    let den: u128 = 2u128 * (total as u128);
    let q: u128 = num / den;
    q as u64
}

fn separator_line() -> (r: String)
    ensures
        r@ == spec_separator(),
{
    let mut r = repeat_str("-", 22);
    r.append("\n");
    r
}

fn header_line() -> (r: String)
    ensures
        r@ == spec_header(),
{
    let mut r = pad_center("", 8);
    r.append(" | ");
    let count_label = pad_center("count", 5);
    r.append(count_label.as_str());
    r.append(" | ");
    let pct_label = pad_center("%", 3);
    r.append(pct_label.as_str());
    r.append("\n");
    r
}

fn table_row(label: &str, count: u64, percent: u64) -> (r: String)
    ensures
        r@ == spec_row(label@, count as nat, percent as nat),
{
    let mut r = pad_left(label, 8);
    r.append(" | ");
    let count_text = u64_dec(count);
    let count_cell = pad_left(count_text.as_str(), 5);
    r.append(count_cell.as_str());
    r.append(" | ");
    let pct_text = u64_dec(percent);
    let pct_cell = pad_center(pct_text.as_str(), 3);
    r.append(pct_cell.as_str());
    r.append("\n");
    r
}

/// Renders the classification as a fixed-width table, or refuses an empty
/// report: the result is `Ok` exactly when there was at least one record,
/// and then holds precisely the table text that `spec_render` describes.
pub fn render(result: &ClassificationResult) -> (r: Result<String, EmptyReportError>)
    requires
        result.wf(),
    ensures
        r is Ok <==> result.total_count > 0,
        r is Ok ==> r->Ok_0@ == spec_render(*result),
{
    if result.total_count == 0 {
        return Err(EmptyReportError);
    }
    let ma = result.outdated_major.len();
    let mi = result.outdated_minor.len();
    let pa = result.outdated_patch.len();
    let total = result.total_count;
    let outdated = ma + mi + pa;
    let mut out = header_line();
    let sep = separator_line();
    out.append(sep.as_str());
    let row_major = table_row("major", ma as u64, pct(ma, total));
    out.append(row_major.as_str());
    let row_minor = table_row("minor", mi as u64, pct(mi, total));
    out.append(row_minor.as_str());
    let row_patch = table_row("patch", pa as u64, pct(pa, total));
    out.append(row_patch.as_str());
    out.append(sep.as_str());
    let row_overall = table_row("overall", total as u64, pct(outdated, total));
    out.append(row_overall.as_str());
    assert(out@ =~= spec_render(*result));
    Ok(out)
}

} // verus!
