//! Pure projections behind the view renderer: safe truncation of UTF-8
//! cell text, header-name extraction, the visible slice of a row, and the
//! column-width policy. The binary feeds these into the terminal widgets.

use vstd::prelude::*;
use vstd::string::StrSliceExecFns;
use vstd::string::StringSliceAdditionalSpecFns;
use vstd::string::StringExecFns;
use vstd::utf8::{decode_utf8, encode_utf8, is_char_boundary};

verus! {

/// Byte budget of one data cell in the normal table view.
pub const NORMAL_CELL_BUDGET: usize = 30;

/// Byte budget of one data cell in the expanded table view.
pub const EXPANDED_CELL_BUDGET: usize = 100;

/// Byte budget of one cell in the editor's result panel.
pub const RESULT_CELL_BUDGET: usize = 50;

/// The stateless renderer handle.
#[derive(Debug)]
pub struct AppUI;

impl AppUI {
    pub fn new() -> (r: AppUI) {
        AppUI
    }
}

/// The largest character boundary of `bytes` at or before `i`.
pub open spec fn boundary_at_or_before(bytes: Seq<u8>, i: int) -> int
    decreases i,
{
    if i <= 0 {
        0
    } else if is_char_boundary(bytes, i) {
        i
    } else {
        boundary_at_or_before(bytes, i - 1)
    }
}

/// What safe truncation returns, at the byte level: the whole sequence when
/// it fits, otherwise the longest prefix that ends on a character boundary
/// at or before the budget.
pub open spec fn spec_truncate_utf8(bytes: Seq<u8>, max: int) -> Seq<u8> {
    if bytes.len() <= max {
        bytes
    } else {
        bytes.subrange(0, boundary_at_or_before(bytes, max))
    }
}

/// Truncate `s` to at most `max_bytes` bytes without ever splitting the
/// encoding of a character: the result is a whole-character prefix of `s`.
pub fn truncate_utf8<'a>(s: &'a str, max_bytes: usize) -> (r: &'a str)
    requires
        s.spec_bytes().len() <= usize::MAX,
    ensures
        r.spec_bytes() == spec_truncate_utf8(s.spec_bytes(), max_bytes as int),
        r.spec_bytes().len() <= max_bytes || s.spec_bytes().len() <= max_bytes,
        r@ == s@.subrange(0, r@.len() as int),
        r@.len() <= s@.len(),
        s.spec_bytes().len() <= max_bytes ==> r@ == s@,
{
    proof {
        broadcast use vstd::utf8::encode_utf8_valid_utf8;
        broadcast use vstd::utf8::encode_utf8_decode_utf8;
        broadcast use vstd::utf8::decode_utf8_split;
        broadcast use vstd::utf8::valid_utf8_split;
        broadcast use vstd::utf8::is_char_boundary_start_end_of_seq;

    }
    let ghost bytes = s.spec_bytes();
    if s.len() <= max_bytes {
        proof {
            assert(s@ =~= s@.subrange(0, s@.len() as int));
        }
        return s;
    }
    let mut i: usize = max_bytes;
    while !s.is_char_boundary(i)
        invariant
            i <= max_bytes,
            max_bytes < bytes.len(),
            bytes == s.spec_bytes(),
            vstd::utf8::valid_utf8(bytes),
            boundary_at_or_before(bytes, max_bytes as int) == boundary_at_or_before(
                bytes,
                i as int,
            ),
            !is_char_boundary(bytes, i as int) ==> i > 0,
        decreases i,
    {
        proof {
            broadcast use vstd::utf8::is_char_boundary_start_end_of_seq;

            assert(is_char_boundary(bytes, 0));
        }
        i = i - 1;
    }
    proof {
        broadcast use vstd::utf8::is_char_boundary_start_end_of_seq;

        assert(is_char_boundary(bytes, 0));
        assert(boundary_at_or_before(bytes, i as int) == i as int);
    }
    let r = s.split_at(i).0;
    proof {
        broadcast use vstd::utf8::encode_utf8_valid_utf8;
        broadcast use vstd::utf8::encode_utf8_decode_utf8;
        broadcast use vstd::utf8::decode_utf8_split;

        assert(r.spec_bytes() =~= spec_truncate_utf8(bytes, max_bytes as int));
        // Splitting at a character boundary splits the decoded characters:
        // the decoded prefix plus the decoded suffix is the whole string.
        assert(decode_utf8(bytes) =~= decode_utf8(bytes.subrange(0, i as int)) + decode_utf8(
            bytes.subrange(i as int, bytes.len() as int),
        ));
        assert(decode_utf8(encode_utf8(s@)) =~= s@);
        assert(decode_utf8(encode_utf8(r@)) =~= r@);
        assert(r@ =~= s@.subrange(0, r@.len() as int));
    }
    r
}

/// What one rendered cell shows for content `cell` under byte budget
/// `max_len`: the cell itself when it fits, otherwise a whole-character
/// prefix of at most `max_len - 3` bytes followed by `...`.
pub open spec fn cell_display(cell: Seq<char>, max_len: int) -> Seq<char> {
    let bytes = encode_utf8(cell);
    if bytes.len() > max_len {
        let keep = if max_len >= 3 {
            max_len - 3
        } else {
            0
        };
        decode_utf8(spec_truncate_utf8(bytes, keep)) + "..."@
    } else {
        cell
    }
}

/// Render one cell under the given byte budget, truncating on a character
/// boundary and marking the cut with `...`.
pub fn truncate_cell(cell: &String, max_len: usize) -> (r: String)
    requires
        encode_utf8(cell@).len() <= usize::MAX,
    ensures
        r@ == cell_display(cell@, max_len as int),
{
    proof {
        broadcast use vstd::utf8::encode_utf8_valid_utf8;
        broadcast use vstd::utf8::encode_utf8_decode_utf8;

    }
    if cell.as_str().len() > max_len {
        let keep = if max_len >= 3 {
            max_len - 3
        } else {
            0
        };
        let prefix = truncate_utf8(cell.as_str(), keep);
        let mut out = prefix.to_owned();
        out.append("...");
        proof {
            assert(decode_utf8(encode_utf8(prefix@)) =~= prefix@);
            assert(out@ =~= cell_display(cell@, max_len as int));
        }
        out
    } else {
        cell.clone()
    }
}

/// The index of the first ` (` separator of a column label at or after
/// position `i`, or the label's length when there is none.
pub open spec fn type_sep_from(col: Seq<char>, i: int) -> int
    decreases col.len() - i,
{
    if i < 0 || i + 1 >= col.len() {
        col.len() as int
    } else if col[i] == ' ' && col[i + 1] == '(' {
        i
    } else {
        type_sep_from(col, i + 1)
    }
}

/// The display name of a column label of the form `name (type)`: the part
/// before the first ` (`, or the whole label when it has no type suffix.
pub open spec fn header_name(col: Seq<char>) -> Seq<char> {
    col.subrange(0, type_sep_from(col, 0))
}

proof fn type_sep_from_bounds(col: Seq<char>, i: int)
    requires
        0 <= i <= col.len(),
    ensures
        i <= type_sep_from(col, i) <= col.len(),
    decreases col.len() - i,
{
    if !(i + 1 >= col.len()) && !(col[i] == ' ' && col[i + 1] == '(') {
        type_sep_from_bounds(col, i + 1);
    }
}

/// Extract the display name of a column label: everything before the first
/// ` (`.
pub fn column_header_name(col: &String) -> (r: String)
    ensures
        r@ == header_name(col@),
{
    let n = col.as_str().unicode_len();
    let mut i: usize = 0;
    proof {
        type_sep_from_bounds(col@, 0);
    }
    while n >= 1 && i < n - 1
        invariant
            n == col@.len(),
            i <= n,
            type_sep_from(col@, 0) == type_sep_from(col@, i as int),
            i <= type_sep_from(col@, 0),
        decreases n - i,
    {
        let c1 = col.as_str().get_char(i);
        let c2 = col.as_str().get_char(i + 1);
        if c1 == ' ' && c2 == '(' {
            let name = col.as_str().substring_char(0, i);
            return name.to_owned();
        }
        proof {
            type_sep_from_bounds(col@, i as int + 1);
        }
        i = i + 1;
    }
    proof {
        assert(col@ =~= col@.subrange(0, type_sep_from(col@, 0)));
    }
    col.clone()
}

/// What the visible slice of one row shows: the cells of the window
/// `[start, end)`, each rendered under the given budget.
pub open spec fn row_display(
    row: Seq<Seq<char>>,
    start: int,
    end: int,
    max_len: int,
) -> Seq<Seq<char>> {
    Seq::new((end - start) as nat, |j: int| cell_display(row[start + j], max_len))
}

/// Render the visible slice `[start, end)` of one row of cells under the
/// given byte budget.
#[verifier::loop_isolation(false)]
pub fn visible_row_cells(row: &Vec<String>, start: usize, end: usize, max_len: usize) -> (r: Vec<
    String,
>)
    requires
        start <= end <= row.len(),
        forall|i: int| 0 <= i < row@.len() ==> #[trigger] encode_utf8(row@[i]@).len()
            <= usize::MAX,
    ensures
        r.deep_view() == row_display(row.deep_view(), start as int, end as int, max_len as int),
{
    let mut out: Vec<String> = Vec::new();
    let mut i: usize = start;
    while i < end
        invariant
            start <= i <= end <= row.len(),
            out.deep_view() =~= row_display(
                row.deep_view(),
                start as int,
                i as int,
                max_len as int,
            ),
        decreases end - i,
    {
        let ghost pre = out.deep_view();
        let ghost prev = out@;
        proof {
            assert(row.deep_view()[i as int] == row@[i as int]@);
            assert(encode_utf8(row@[i as int]@).len() <= usize::MAX);
        }
        let cell = truncate_cell(&row[i], max_len);
        out.push(cell);
        proof {
            assert forall|k: int| 0 <= k < i + 1 - start implies out.deep_view()[k]
                == cell_display(row.deep_view()[start + k], max_len as int) by {
                assert(out.deep_view()[k] == out@[k]@);
                if k < i - start {
                    assert(out@[k] == prev[k]);
                    assert(pre[k] == prev[k]@);
                    assert(pre[k] == cell_display(row.deep_view()[start + k], max_len as int));
                } else {
                    assert(out@[k] == cell);
                }
            }
            assert(out.deep_view() =~= row_display(
                row.deep_view(),
                start as int,
                (i + 1) as int,
                max_len as int,
            ));
        }
        i = i + 1;
    }
    proof {
        assert(out.deep_view() =~= row_display(
            row.deep_view(),
            start as int,
            end as int,
            max_len as int,
        ));
    }
    out
}

/// The width of every column of the data table: in expanded mode each
/// column gets at least 20 cells plus an equal share of what is left; when
/// even 20 cells per column do not fit, columns are fixed at 20 and clip.
/// In normal mode the available width is split evenly.
pub open spec fn column_width(expanded: bool, ncols: int, available: u16) -> u16
    recommends
        ncols >= 1,
{
    if expanded {
        if 20 * ncols <= available as int {
            (20 + (available as int - 20 * ncols) / ncols) as u16
        } else {
            20u16
        }
    } else {
        (available as int / ncols) as u16
    }
}

/// The per-column widths for `ncols` visible columns in `available` cells
/// of terminal width.
pub fn column_widths(expanded: bool, ncols: usize, available: u16) -> (r: Vec<u16>)
    requires
        1 <= ncols,
    ensures
        r@.len() == ncols,
        forall|i: int|
            0 <= i < ncols ==> r@[i] == column_width(expanded, ncols as int, available),
{
    let width: u16 = if expanded {
        if 20u128 * (ncols as u128) <= available as u128 {
            let total_min = 20 * (ncols as u64);
            let extra = available as u64 - total_min;
            let per = extra / (ncols as u64);
            proof {
                assert(extra / (ncols as u64) <= extra) by (nonlinear_arith)
                    requires
                        1 <= ncols as u64,
                        extra >= 0,
                ;
            }
            20 + (per as u16)
        } else {
            20
        }
    } else {
        ((available as u64) / (ncols as u64)) as u16
    };
    let mut out: Vec<u16> = Vec::new();
    let mut i: usize = 0;
    while i < ncols
        invariant
            i <= ncols,
            out@.len() == i,
            forall|j: int|
                0 <= j < i ==> out@[j] == column_width(expanded, ncols as int, available),
            width == column_width(expanded, ncols as int, available),
        decreases ncols - i,
    {
        out.push(width);
        i = i + 1;
    }
    out
}

} // verus!
