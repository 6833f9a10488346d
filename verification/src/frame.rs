//! The border frame a redraw writes to the terminal.
//!
//! A redraw is modelled as the exact character sequence sent to the
//! terminal: a clear-screen command, a top row of `#`, one row per interior
//! line holding a `#` at each edge with a cursor skip between them, a bottom
//! row of `#`, and a centered `{cols} x {rows}` label. When the size query
//! fails, the redraw is an inline error message instead, carrying the OS
//! error text verbatim.

use vstd::prelude::*;
use crate::text::{count_char, dec_rep, u16_to_string};
use crate::text::{lemma_count_char_all, lemma_count_char_concat, lemma_count_char_zero,
    lemma_dec_rep_digits, lemma_dec_rep_no_hash};

verus! {

use vstd::string::StringExecFns;

/// The escape sequence that clears the screen and homes the cursor.
pub open spec fn clear_cmd() -> Seq<char> {
    "\x1B[2J\x1B[1;1H"@
}

/// The escape sequence that moves the cursor `n` columns to the right.
pub open spec fn cursor_fwd_cmd(n: nat) -> Seq<char> {
    "\x1B["@ + dec_rep(n) + "C"@
}

/// The escape sequence that moves the cursor to one-based `row`, `col`.
pub open spec fn move_cmd(row: nat, col: nat) -> Seq<char> {
    "\x1B["@ + dec_rep(row) + ";"@ + dec_rep(col) + "H"@
}

/// A full border row: `cols` `#` characters.
pub open spec fn hash_row(cols: nat) -> Seq<char> {
    Seq::new(cols, |i: int| '#')
}

/// One interior row: a `#` at the left edge, a cursor skip over the
/// `cols - 2` columns between the edges, and a `#` at the right edge.
pub open spec fn interior_row(cols: nat) -> Seq<char>
    recommends
        cols >= 2,
{
    "#"@ + cursor_fwd_cmd((cols - 2) as nat) + "#"@
}

/// `k` interior rows, one after the other.
pub open spec fn interior_rows(cols: nat, k: nat) -> Seq<char>
    decreases k,
{
    if k == 0 {
        Seq::<char>::empty()
    } else {
        interior_rows(cols, (k - 1) as nat) + interior_row(cols)
    }
}

/// The dimension label: the decimal columns, the literal `" x "`, the
/// decimal rows.
pub open spec fn dim_label(cols: nat, rows: nat) -> Seq<char> {
    dec_rep(cols) + " x "@ + dec_rep(rows)
}

/// The row on which the label is printed: the middle row.
pub open spec fn label_row(rows: nat) -> nat {
    rows / 2
}

/// The column at which the label starts: the middle of the row pulled left
/// by half a typical label width, clamped to column 1 on terminals too
/// narrow for that.
pub open spec fn label_col(cols: nat) -> nat {
    if cols / 2 >= 3 {
        (cols / 2 - 3) as nat
    } else {
        1
    }
}

/// Everything one successful redraw writes, in order.
pub open spec fn frame_output(cols: nat, rows: nat) -> Seq<char>
    recommends
        cols >= 3,
        rows >= 3,
{
    clear_cmd() + hash_row(cols) + interior_rows(cols, (rows - 2) as nat) + hash_row(cols)
        + move_cmd(label_row(rows), label_col(cols)) + dim_label(cols, rows)
}

/// The inline message a redraw prints when the size query fails, carrying
/// the OS error text verbatim after a cursor move to the second row.
pub open spec fn size_error_text(e: Seq<char>) -> Seq<char> {
    "\x1B[2HError reading terminal size: "@ + e
}

/// The escape sequence issued once at startup: enter the alternate screen
/// buffer and hide the cursor.
pub open spec fn enter_screen_cmd() -> Seq<char> {
    "\x1B[?1049h\x1B[?25l"@
}

/// The escape sequence issued once at shutdown: leave the alternate screen
/// buffer.
pub open spec fn leave_screen_cmd() -> Seq<char> {
    "\x1B[?1049l"@
}

/// The startup command: alternate screen buffer on, cursor hidden.
pub fn enter_screen() -> (r: &'static str)
    ensures
        r@ == enter_screen_cmd(),
{
    "\x1B[?1049h\x1B[?25l"
}

/// The shutdown command: back to the primary screen buffer.
pub fn leave_screen() -> (r: &'static str)
    ensures
        r@ == leave_screen_cmd(),
{
    "\x1B[?1049l"
}

/// A run of `n` `#` characters.
fn hash_run(n: u16) -> (r: String)
    ensures
        r@ == hash_row(n as nat),
{
    let mut s = String::new();
    proof {
        assert(s@ =~= hash_row(0));
    }
    let mut i: u16 = 0;
    while i < n
        invariant
            i <= n,
            s@ == hash_row(i as nat),
        decreases n - i,
    {
        s.append("#");
        proof {
            reveal_strlit("#");
            assert(s@ =~= hash_row((i + 1) as nat));
        }
        i = i + 1;
    }
    s
}

/// The cursor-right command for `n` columns.
fn cursor_fwd(n: u16) -> (r: String)
    ensures
        r@ == cursor_fwd_cmd(n as nat),
{
    let mut s = "\x1B[".to_owned();
    let digits = u16_to_string(n);
    s.append(digits.as_str());
    s.append("C");
    s
}

/// The cursor-move command to one-based `row`, `col`.
fn move_to(row: u16, col: u16) -> (r: String)
    ensures
        r@ == move_cmd(row as nat, col as nat),
{
    let mut s = "\x1B[".to_owned();
    let row_digits = u16_to_string(row);
    s.append(row_digits.as_str());
    s.append(";");
    let col_digits = u16_to_string(col);
    s.append(col_digits.as_str());
    s.append("H");
    proof {
        assert(s@ =~= move_cmd(row as nat, col as nat));
    }
    s
}

/// The dimension label text for `cols` and `rows`.
pub fn dim_label_text(cols: u16, rows: u16) -> (r: String)
    ensures
        r@ == dim_label(cols as nat, rows as nat),
{
    let mut s = u16_to_string(cols);
    s.append(" x ");
    let row_digits = u16_to_string(rows);
    s.append(row_digits.as_str());
    proof {
        assert(s@ =~= dim_label(cols as nat, rows as nat));
    }
    s
}

/// One interior row of the frame.
fn interior_row_text(cols: u16) -> (r: String)
    requires
        cols >= 2,
    ensures
        r@ == interior_row(cols as nat),
{
    let mut s = "#".to_owned();
    let skip = cursor_fwd(cols - 2);
    s.append(skip.as_str());
    s.append("#");
    proof {
        assert(s@ =~= interior_row(cols as nat));
    }
    s
}

/// The full character stream of one successful redraw of a `cols` by `rows`
/// terminal.
pub fn render_frame(cols: u16, rows: u16) -> (r: String)
    requires
        cols >= 3,
        rows >= 3,
    ensures
        r@ == frame_output(cols as nat, rows as nat),
{
    let mut s = "\x1B[2J\x1B[1;1H".to_owned();
    let top = hash_run(cols);
    s.append(top.as_str());
    let inner = interior_row_text(cols);
    let mut k: u16 = 0;
    while k < rows - 2
        invariant
            cols >= 3,
            rows >= 3,
            k <= rows - 2,
            inner@ == interior_row(cols as nat),
            s@ == clear_cmd() + hash_row(cols as nat) + interior_rows(cols as nat, k as nat),
        decreases rows - 2 - k,
    {
        s.append(inner.as_str());
        proof {
            assert(s@ =~= clear_cmd() + hash_row(cols as nat) + interior_rows(
                cols as nat,
                (k + 1) as nat,
            ));
        }
        k = k + 1;
    }
    let bottom = hash_run(cols);
    s.append(bottom.as_str());
    let half = cols / 2;
    let start_col: u16 = if half >= 3 {
        half - 3
    } else {
        1
    };
    let pos = move_to(rows / 2, start_col);
    s.append(pos.as_str());
    let label = dim_label_text(cols, rows);
    s.append(label.as_str());
    proof {
        assert(s@ =~= frame_output(cols as nat, rows as nat));
    }
    s
}

/// The inline error message for a failed size query.
pub fn size_error_message(err: &str) -> (r: String)
    ensures
        r@ == size_error_text(err@),
{
    let mut s = "\x1B[2HError reading terminal size: ".to_owned();
    s.append(err);
    s
}

/// What one redraw writes: a border frame, or an inline error message.
pub enum RedrawOutput {
    Frame(String),
    SizeError(String),
}

/// Decide what one redraw writes from the outcome of the size query: the
/// frame stream for the reported size, or the inline error message carrying
/// the query's error text.
pub fn redraw_output(size: Result<(u16, u16), String>) -> (r: RedrawOutput)
    requires
        size matches Ok(d) ==> d.0 >= 3 && d.1 >= 3,
    ensures
        size matches Ok(d) ==> r matches RedrawOutput::Frame(s) && s@ == frame_output(
            d.0 as nat,
            d.1 as nat,
        ),
        size matches Err(e) ==> r matches RedrawOutput::SizeError(m) && m@ == size_error_text(e@),
{
    match size {
        Ok((cols, rows)) => RedrawOutput::Frame(render_frame(cols, rows)),
        Err(e) => RedrawOutput::SizeError(size_error_message(e.as_str())),
    }
}

/// The clear-screen command carries no `#`.
proof fn lemma_clear_cmd_no_hash()
    ensures
        count_char(clear_cmd(), '#') == 0,
{
    reveal_strlit("\x1B[2J\x1B[1;1H");
    assert forall|i: int| 0 <= i < clear_cmd().len() implies clear_cmd()[i] != '#' by {}
    lemma_count_char_zero(clear_cmd(), '#');
}

/// No cursor command carries a `#`: its text is brackets, digits and a
/// final letter.
proof fn lemma_cursor_cmds_no_hash(n: nat, row: nat, col: nat)
    ensures
        count_char(cursor_fwd_cmd(n), '#') == 0,
        count_char(move_cmd(row, col), '#') == 0,
{
    reveal_strlit("\x1B[");
    reveal_strlit("C");
    reveal_strlit(";");
    reveal_strlit("H");
    lemma_count_char_zero("\x1B["@, '#');
    lemma_count_char_zero("C"@, '#');
    lemma_count_char_zero(";"@, '#');
    lemma_count_char_zero("H"@, '#');
    lemma_dec_rep_no_hash(n);
    lemma_count_char_concat("\x1B["@, dec_rep(n), '#');
    lemma_count_char_concat("\x1B["@ + dec_rep(n), "C"@, '#');
    lemma_dec_rep_no_hash(row);
    lemma_dec_rep_no_hash(col);
    lemma_count_char_concat("\x1B["@, dec_rep(row), '#');
    lemma_count_char_concat("\x1B["@ + dec_rep(row), ";"@, '#');
    lemma_count_char_concat("\x1B["@ + dec_rep(row) + ";"@, dec_rep(col), '#');
    lemma_count_char_concat("\x1B["@ + dec_rep(row) + ";"@ + dec_rep(col), "H"@, '#');
}

/// The dimension label carries no `#`: digits and the literal `" x "`.
proof fn lemma_dim_label_no_hash(cols: nat, rows: nat)
    ensures
        count_char(dim_label(cols, rows), '#') == 0,
{
    reveal_strlit(" x ");
    lemma_count_char_zero(" x "@, '#');
    lemma_dec_rep_no_hash(cols);
    lemma_dec_rep_no_hash(rows);
    lemma_count_char_concat(dec_rep(cols), " x "@, '#');
    lemma_count_char_concat(dec_rep(cols) + " x "@, dec_rep(rows), '#');
}

/// One interior row carries exactly two `#`: one at each edge.
proof fn lemma_interior_row_count(cols: nat)
    requires
        cols >= 2,
    ensures
        count_char(interior_row(cols), '#') == 2,
{
    reveal_strlit("#");
    assert(count_char("#"@, '#') == 1) by {
        assert("#"@ =~= seq!['#']);
        lemma_count_char_all("#"@, '#');
    }
    lemma_cursor_cmds_no_hash((cols - 2) as nat, 0, 0);
    lemma_count_char_concat("#"@, cursor_fwd_cmd((cols - 2) as nat), '#');
    lemma_count_char_concat("#"@ + cursor_fwd_cmd((cols - 2) as nat), "#"@, '#');
}

/// `k` interior rows carry exactly `2 * k` border characters.
proof fn lemma_interior_rows_count(cols: nat, k: nat)
    requires
        cols >= 2,
    ensures
        count_char(interior_rows(cols, k), '#') == 2 * k,
    decreases k,
{
    if k == 0 {
    } else {
        lemma_interior_rows_count(cols, (k - 1) as nat);
        lemma_interior_row_count(cols);
        lemma_count_char_concat(interior_rows(cols, (k - 1) as nat), interior_row(cols), '#');
    }
}

/// For every supported size the redraw stream carries exactly `cols` border
/// characters in its top row, `cols` in its bottom row, two on each of the
/// `rows - 2` interior rows, and none anywhere else, so exactly
/// `2 * cols + 2 * (rows - 2)` in all.
pub proof fn lemma_frame_hash_counts(cols: nat, rows: nat)
    requires
        cols >= 3,
        rows >= 3,
    ensures
        count_char(hash_row(cols), '#') == cols,
        count_char(interior_row(cols), '#') == 2,
        count_char(interior_rows(cols, (rows - 2) as nat), '#') == 2 * (rows - 2),
        count_char(frame_output(cols, rows), '#') == 2 * cols + 2 * (rows - 2),
{
    lemma_count_char_all(hash_row(cols), '#');
    lemma_interior_row_count(cols);
    lemma_interior_rows_count(cols, (rows - 2) as nat);
    lemma_clear_cmd_no_hash();
    lemma_cursor_cmds_no_hash(0, label_row(rows), label_col(cols));
    lemma_dim_label_no_hash(cols, rows);
    let a = clear_cmd();
    let b = hash_row(cols);
    let c = interior_rows(cols, (rows - 2) as nat);
    let d = move_cmd(label_row(rows), label_col(cols));
    let e = dim_label(cols, rows);
    lemma_count_char_concat(a, b, '#');
    lemma_count_char_concat(a + b, c, '#');
    lemma_count_char_concat(a + b + c, b, '#');
    lemma_count_char_concat(a + b + c + b, d, '#');
    lemma_count_char_concat(a + b + c + b + d, e, '#');
}

/// The dimension label has at least one digit on each side of the literal
/// `" x "`, and on every terminal at least six columns wide it starts at
/// column `cols / 2 - 3` of row `rows / 2`: the middle of the frame, pulled
/// left by half a typical label width.
pub proof fn lemma_label_centered(cols: nat, rows: nat)
    requires
        cols >= 6,
        rows >= 3,
    ensures
        label_col(cols) == cols / 2 - 3,
        label_row(rows) == rows / 2,
        dim_label(cols, rows).len() >= 5,
{
    reveal_strlit(" x ");
    lemma_dec_rep_digits(cols);
    lemma_dec_rep_digits(rows);
}

/// A failed size query reports the OS error text verbatim after its fixed
/// prefix, and the message emits no border character beyond any the error
/// text itself happens to carry.
pub proof fn lemma_size_error_no_border(e: Seq<char>)
    ensures
        size_error_text(e).skip("\x1B[2HError reading terminal size: "@.len() as int) =~= e,
        count_char(size_error_text(e), '#') == count_char(e, '#'),
{
    reveal_strlit("\x1B[2HError reading terminal size: ");
    let p = "\x1B[2HError reading terminal size: "@;
    assert forall|i: int| 0 <= i < p.len() implies p[i] != '#' by {}
    lemma_count_char_zero(p, '#');
    lemma_count_char_concat(p, e, '#');
}

} // verus!
