//! The text of a plain PPM image.
//!
//! The file starts with three header lines: `P3`, the width and the height, and
//! the largest channel value, 255. Then each row of pixels follows as decimal
//! channel values separated by spaces, red, green, blue, pixel after pixel. No
//! line is longer than 70 characters with its newline: a row that would be is
//! broken, and a continuation line starts with the space that would have
//! separated its first value from the one before.
use vstd::prelude::*;
use vstd::string::StringExecFns;

verus! {

/// The most characters a line holds before its newline.
pub const LINE_LIMIT: usize = 69;

/// A channel value brought into 0..=255.
pub open spec fn clamped(v: int) -> nat {
    if v < 0 {
        0
    } else if v > 255 {
        255
    } else {
        v as nat
    }
}

/// The character of one decimal digit.
pub open spec fn digit(d: nat) -> char {
    if d == 0 {
        '0'
    } else if d == 1 {
        '1'
    } else if d == 2 {
        '2'
    } else if d == 3 {
        '3'
    } else if d == 4 {
        '4'
    } else if d == 5 {
        '5'
    } else if d == 6 {
        '6'
    } else if d == 7 {
        '7'
    } else if d == 8 {
        '8'
    } else {
        '9'
    }
}

/// A number in decimal, without leading zeros.
pub open spec fn decimal(n: nat) -> Seq<char>
    decreases n,
{
    if n < 10 {
        seq![digit(n)]
    } else {
        decimal(n / 10).push(digit(n % 10))
    }
}

/// A pixel's three channel values, clamped, with a space between them.
pub open spec fn triple(p: (i32, i32, i32)) -> Seq<char> {
    decimal(clamped(p.0 as int)) + seq![' '] + decimal(clamped(p.1 as int)) + seq![' '] + decimal(
        clamped(p.2 as int),
    )
}

/// A row while it is laid out: the lines that are finished, each with its
/// newline, and the line that is still open.
pub struct Layout {
    pub done: Seq<char>,
    pub line: Seq<char>,
}

/// Nothing laid out yet.
pub open spec fn blank() -> Layout {
    Layout { done: Seq::empty(), line: Seq::empty() }
}

/// One more value on a row that is filling up: it goes on the open line behind a
/// space if it leaves the line shorter than 69 characters, else the line is
/// finished and the value, behind its space, opens the next.
pub open spec fn place_value(st: Layout, v: int) -> Layout {
    let sv = seq![' '] + decimal(clamped(v));
    if st.line.len() + sv.len() >= LINE_LIMIT {
        Layout { done: st.done + st.line + seq!['\n'], line: sv }
    } else {
        Layout { done: st.done, line: st.line + sv }
    }
}

/// One more pixel on a row: the first of a row opens the line; a later one
/// goes behind a space where all three values fit into 69 characters, and is
/// else placed value by value.
pub open spec fn place_pixel(st: Layout, p: (i32, i32, i32)) -> Layout {
    let t = triple(p);
    if st.line.len() == 0 {
        Layout { done: st.done, line: t }
    } else if st.line.len() + 1 + t.len() <= LINE_LIMIT {
        Layout { done: st.done, line: st.line + seq![' '] + t }
    } else {
        place_value(place_value(place_value(st, p.0 as int), p.1 as int), p.2 as int)
    }
}

/// A row's pixels laid out from left to right.
pub open spec fn place_row(row: Seq<(i32, i32, i32)>) -> Layout
    decreases row.len(),
{
    if row.len() == 0 {
        blank()
    } else {
        place_pixel(place_row(row.drop_last()), row.last())
    }
}

/// The text of one row: its finished lines, then the open line and a newline.
pub open spec fn row_text(row: Seq<(i32, i32, i32)>) -> Seq<char> {
    place_row(row).done + place_row(row).line + seq!['\n']
}

/// The text of the first `rows` rows of an image that is `width` pixels wide.
pub open spec fn rows_text(width: nat, samples: Seq<(i32, i32, i32)>, rows: nat) -> Seq<char>
    decreases rows,
{
    if rows == 0 {
        Seq::empty()
    } else {
        rows_text(width, samples, (rows - 1) as nat) + row_text(
            samples.subrange(((rows - 1) * width) as int, (rows * width) as int),
        )
    }
}

/// The three header lines.
pub open spec fn header_text(width: nat, height: nat) -> Seq<char> {
    seq!['P', '3', '\n'] + decimal(width) + seq![' '] + decimal(height) + seq![
        '\n',
        '2',
        '5',
        '5',
        '\n',
    ]
}

/// The whole file: header, then the rows from top to bottom.
pub open spec fn ppm_text(width: nat, height: nat, samples: Seq<(i32, i32, i32)>) -> Seq<char> {
    header_text(width, height) + rows_text(width, samples, height)
}

/// How many characters stand behind the last newline of `text`.
pub open spec fn open_line(text: Seq<char>) -> nat
    decreases text.len(),
{
    if text.len() == 0 {
        0
    } else if text.last() == '\n' {
        0
    } else {
        open_line(text.drop_last()) + 1
    }
}

/// No line of `text` has more than `limit` characters before its newline, and
/// neither has what stands behind the last newline.
pub open spec fn lines_within(text: Seq<char>, limit: nat) -> bool {
    forall|n: int| 0 <= n <= text.len() ==> open_line(#[trigger] text.take(n)) <= limit
}

/// `text` holds no newline.
pub open spec fn one_line(text: Seq<char>) -> bool {
    forall|i: int| 0 <= i < text.len() ==> #[trigger] text[i] != '\n'
}

/// Text without a newline makes the open line longer by its length.
pub proof fn lemma_open_line_grows(text: Seq<char>, more: Seq<char>)
    requires
        one_line(more),
    ensures
        open_line(text + more) == open_line(text) + more.len(),
    decreases more.len(),
{
    if more.len() == 0 {
        assert(text + more =~= text);
    } else {
        let shorter = more.drop_last();
        assert((text + more).drop_last() =~= text + shorter);
        assert((text + more).last() == more.last());
        assert(one_line(shorter)) by {
            assert forall|i: int| 0 <= i < shorter.len() implies #[trigger] shorter[i] != '\n' by {
                assert(shorter[i] == more[i]);
            }
        }
        lemma_open_line_grows(text, shorter);
    }
}

/// Text without a newline may follow where the open line has room for it.
pub proof fn lemma_lines_within_grows(text: Seq<char>, more: Seq<char>, limit: nat)
    requires
        lines_within(text, limit),
        one_line(more),
        open_line(text) + more.len() <= limit,
    ensures
        lines_within(text + more, limit),
{
    let whole = text + more;
    assert forall|n: int| 0 <= n <= whole.len() implies open_line(#[trigger] whole.take(n))
        <= limit by {
        if n <= text.len() {
            assert(whole.take(n) =~= text.take(n));
        } else {
            let part = more.take(n - text.len());
            assert(whole.take(n) =~= text + part);
            assert(one_line(part)) by {
                assert forall|i: int| 0 <= i < part.len() implies #[trigger] part[i] != '\n' by {
                    assert(part[i] == more[i]);
                }
            }
            lemma_open_line_grows(text, part);
        }
    }
}

/// A newline may always follow, and leaves nothing open.
pub proof fn lemma_lines_within_newline(text: Seq<char>, limit: nat)
    requires
        lines_within(text, limit),
    ensures
        lines_within(text + seq!['\n'], limit),
        open_line(text + seq!['\n']) == 0,
{
    let whole = text + seq!['\n'];
    assert(whole.last() == '\n');
    assert forall|n: int| 0 <= n <= whole.len() implies open_line(#[trigger] whole.take(n))
        <= limit by {
        if n <= text.len() {
            assert(whole.take(n) =~= text.take(n));
        } else {
            assert(whole.take(n) =~= whole);
        }
    }
}

/// A number in decimal holds no newline.
pub proof fn lemma_decimal_one_line(n: nat)
    ensures
        one_line(decimal(n)),
        decimal(n).len() >= 1,
    decreases n,
{
    if n >= 10 {
        lemma_decimal_one_line(n / 10);
        let head = decimal(n / 10);
        assert forall|i: int| 0 <= i < decimal(n).len() implies #[trigger] decimal(n)[i]
            != '\n' by {
            if i < head.len() {
                assert(decimal(n)[i] == head[i]);
            }
        }
    }
}

/// Ten to the power of `k`.
pub open spec fn ten_to(k: nat) -> nat
    decreases k,
{
    if k == 0 {
        1
    } else {
        10 * ten_to((k - 1) as nat)
    }
}

/// A number below ten to the `k` is written with at most `k` digits.
pub proof fn lemma_decimal_width(n: nat, k: nat)
    requires
        k >= 1,
        n < ten_to(k),
    ensures
        decimal(n).len() <= k,
    decreases k,
{
    if n >= 10 {
        reveal_with_fuel(ten_to, 2);
        if k == 1 {
            assert(ten_to(1) == 10);
        } else {
            assert(ten_to(k) == 10 * ten_to((k - 1) as nat));
            lemma_decimal_width(n / 10, (k - 1) as nat);
        }
    }
}

/// A channel value is written with one to three characters.
pub proof fn lemma_level_width(v: int)
    ensures
        1 <= decimal(clamped(v)).len() <= 3,
{
    let n = clamped(v);
    reveal_with_fuel(decimal, 3);
}

/// A pixel is written with at most eleven characters.
pub proof fn lemma_triple_width(p: (i32, i32, i32))
    ensures
        5 <= triple(p).len() <= 11,
{
    lemma_level_width(p.0 as int);
    lemma_level_width(p.1 as int);
    lemma_level_width(p.2 as int);
}

/// What holds of a row while it is laid out behind `before`: all lines so far
/// are within the limit, the finished lines end with a newline, and the open
/// line is one line within the limit.
pub open spec fn tidy(before: Seq<char>, st: Layout) -> bool {
    &&& lines_within(before + st.done, LINE_LIMIT as nat)
    &&& open_line(before + st.done) == 0
    &&& one_line(st.line)
    &&& st.line.len() <= LINE_LIMIT
}

/// Finishing the open line of a tidy row leaves all lines within the limit.
pub proof fn lemma_finish_line(before: Seq<char>, st: Layout)
    requires
        tidy(before, st),
    ensures
        lines_within(before + (st.done + st.line + seq!['\n']), LINE_LIMIT as nat),
        open_line(before + (st.done + st.line + seq!['\n'])) == 0,
{
    let limit = LINE_LIMIT as nat;
    lemma_lines_within_grows(before + st.done, st.line, limit);
    lemma_lines_within_newline(before + st.done + st.line, limit);
    assert(before + (st.done + st.line + seq!['\n']) =~= before + st.done + st.line + seq!['\n']);
}

/// Placing a value keeps a row tidy.
pub proof fn lemma_place_value_tidy(before: Seq<char>, st: Layout, v: int)
    requires
        tidy(before, st),
    ensures
        tidy(before, place_value(st, v)),
{
    let number = decimal(clamped(v));
    let sv = seq![' '] + number;
    lemma_decimal_one_line(clamped(v));
    lemma_level_width(v);
    assert(one_line(sv)) by {
        assert forall|i: int| 0 <= i < sv.len() implies #[trigger] sv[i] != '\n' by {
            if i > 0 {
                assert(sv[i] == number[i - 1]);
            }
        }
    }
    if st.line.len() + sv.len() >= LINE_LIMIT {
        lemma_finish_line(before, st);
    } else {
        let line = st.line + sv;
        assert forall|i: int| 0 <= i < line.len() implies #[trigger] line[i] != '\n' by {
            if i < st.line.len() {
                assert(line[i] == st.line[i]);
            } else {
                assert(line[i] == sv[i - st.line.len()]);
            }
        }
    }
}

/// A pixel's three values hold no newline.
pub proof fn lemma_triple_one_line(p: (i32, i32, i32))
    ensures
        one_line(triple(p)),
{
    let a = decimal(clamped(p.0 as int));
    let b = decimal(clamped(p.1 as int));
    let c = decimal(clamped(p.2 as int));
    lemma_decimal_one_line(clamped(p.0 as int));
    lemma_decimal_one_line(clamped(p.1 as int));
    lemma_decimal_one_line(clamped(p.2 as int));
    let t = triple(p);
    assert forall|i: int| 0 <= i < t.len() implies #[trigger] t[i] != '\n' by {
        if i < a.len() {
            assert(t[i] == a[i]);
        } else if i == a.len() {
        } else if i < a.len() + 1 + b.len() {
            assert(t[i] == b[i - a.len() - 1]);
        } else if i == a.len() + 1 + b.len() {
        } else {
            assert(t[i] == c[i - a.len() - b.len() - 2]);
        }
    }
}

/// Placing a pixel keeps a row tidy.
pub proof fn lemma_place_pixel_tidy(before: Seq<char>, st: Layout, p: (i32, i32, i32))
    requires
        tidy(before, st),
    ensures
        tidy(before, place_pixel(st, p)),
{
    let t = triple(p);
    lemma_triple_one_line(p);
    lemma_triple_width(p);
    if st.line.len() == 0 {
    } else if st.line.len() + 1 + t.len() <= LINE_LIMIT {
        let line = st.line + seq![' '] + t;
        assert forall|i: int| 0 <= i < line.len() implies #[trigger] line[i] != '\n' by {
            if i < st.line.len() {
                assert(line[i] == st.line[i]);
            } else if i == st.line.len() {
            } else {
                assert(line[i] == t[i - st.line.len() - 1]);
            }
        }
    } else {
        lemma_place_value_tidy(before, st, p.0 as int);
        let st1 = place_value(st, p.0 as int);
        lemma_place_value_tidy(before, st1, p.1 as int);
        let st2 = place_value(st1, p.1 as int);
        lemma_place_value_tidy(before, st2, p.2 as int);
    }
}

/// A row laid out behind tidy text is tidy.
pub proof fn lemma_place_row_tidy(before: Seq<char>, row: Seq<(i32, i32, i32)>)
    requires
        lines_within(before, LINE_LIMIT as nat),
        open_line(before) == 0,
    ensures
        tidy(before, place_row(row)),
    decreases row.len(),
{
    if row.len() == 0 {
        assert(before + blank().done =~= before);
    } else {
        lemma_place_row_tidy(before, row.drop_last());
        lemma_place_pixel_tidy(before, place_row(row.drop_last()), row.last());
    }
}

/// Rows laid out behind tidy text leave all lines within the limit, and
/// nothing open.
pub proof fn lemma_rows_within(
    before: Seq<char>,
    width: nat,
    samples: Seq<(i32, i32, i32)>,
    rows: nat,
)
    requires
        lines_within(before, LINE_LIMIT as nat),
        open_line(before) == 0,
    ensures
        lines_within(before + rows_text(width, samples, rows), LINE_LIMIT as nat),
        open_line(before + rows_text(width, samples, rows)) == 0,
    decreases rows,
{
    if rows == 0 {
        assert(before + rows_text(width, samples, rows) =~= before);
    } else {
        let earlier = rows_text(width, samples, (rows - 1) as nat);
        let row = samples.subrange(((rows - 1) * width) as int, (rows * width) as int);
        lemma_rows_within(before, width, samples, (rows - 1) as nat);
        lemma_place_row_tidy(before + earlier, row);
        lemma_finish_line(before + earlier, place_row(row));
        assert(before + rows_text(width, samples, rows) =~= before + earlier + row_text(row));
    }
}

/// The header of an image is within the line limit, and leaves nothing open.
pub proof fn lemma_header_within(width: nat, height: nat)
    requires
        width <= u64::MAX,
        height <= u64::MAX,
    ensures
        lines_within(header_text(width, height), LINE_LIMIT as nat),
        open_line(header_text(width, height)) == 0,
{
    let limit = LINE_LIMIT as nat;
    assert(u64::MAX < ten_to(20)) by {
        reveal_with_fuel(ten_to, 21);
    }
    lemma_decimal_width(width, 20);
    lemma_decimal_width(height, 20);
    lemma_decimal_one_line(width);
    lemma_decimal_one_line(height);
    let none = Seq::<char>::empty();
    assert(lines_within(none, limit)) by {
        assert forall|n: int| 0 <= n <= none.len() implies open_line(#[trigger] none.take(n))
            <= limit by {
            assert(none.take(n) =~= none);
        }
    }
    let magic = seq!['P', '3'];
    assert(one_line(magic));
    lemma_lines_within_grows(none, magic, limit);
    lemma_lines_within_newline(none + magic, limit);
    let first = none + magic + seq!['\n'];
    let sizes = decimal(width) + seq![' '] + decimal(height);
    assert(one_line(sizes)) by {
        assert forall|i: int| 0 <= i < sizes.len() implies #[trigger] sizes[i] != '\n' by {
            if i < decimal(width).len() {
                assert(sizes[i] == decimal(width)[i]);
            } else if i == decimal(width).len() {
            } else {
                assert(sizes[i] == decimal(height)[i - decimal(width).len() - 1]);
            }
        }
    }
    lemma_lines_within_grows(first, sizes, limit);
    lemma_lines_within_newline(first + sizes, limit);
    let second = first + sizes + seq!['\n'];
    let depth = seq!['2', '5', '5'];
    assert(one_line(depth));
    lemma_lines_within_grows(second, depth, limit);
    lemma_lines_within_newline(second + depth, limit);
    assert(header_text(width, height) =~= second + depth + seq!['\n']);
}

/// No line of an image's text is longer than 70 characters with its newline,
/// and the text ends with a newline.
pub proof fn lemma_ppm_lines_within(width: nat, height: nat, samples: Seq<(i32, i32, i32)>)
    requires
        width <= u64::MAX,
        height <= u64::MAX,
    ensures
        lines_within(ppm_text(width, height, samples), LINE_LIMIT as nat),
        open_line(ppm_text(width, height, samples)) == 0,
        ppm_text(width, height, samples).len() > 0,
        ppm_text(width, height, samples).last() == '\n',
{
    lemma_header_within(width, height);
    lemma_rows_within(header_text(width, height), width, samples, height);
    let text = ppm_text(width, height, samples);
    if text.last() != '\n' {
        assert(open_line(text) == open_line(text.drop_last()) + 1);
    }
}

/// The text of a digit.
fn digit_str(d: u64) -> (s: &'static str)
    requires
        d < 10,
    ensures
        s@ == seq![digit(d as nat)],
{
    proof {
        reveal_strlit("0");
        reveal_strlit("1");
        reveal_strlit("2");
        reveal_strlit("3");
        reveal_strlit("4");
        reveal_strlit("5");
        reveal_strlit("6");
        reveal_strlit("7");
        reveal_strlit("8");
        reveal_strlit("9");
    }
    let s = if d == 0 {
        "0"
    } else if d == 1 {
        "1"
    } else if d == 2 {
        "2"
    } else if d == 3 {
        "3"
    } else if d == 4 {
        "4"
    } else if d == 5 {
        "5"
    } else if d == 6 {
        "6"
    } else if d == 7 {
        "7"
    } else if d == 8 {
        "8"
    } else {
        "9"
    };
    assert(s@ =~= seq![digit(d as nat)]);
    s
}

/// Writes a number in decimal at the end of `out`.
pub(crate) fn append_decimal(out: &mut String, n: u64)
    ensures
        final(out)@ == old(out)@ + decimal(n as nat),
    decreases n,
{
    if n < 10 {
        out.append(digit_str(n));
        assert(out@ =~= old(out)@ + decimal(n as nat));
    } else {
        append_decimal(out, n / 10);
        out.append(digit_str(n % 10));
        assert(out@ =~= old(out)@ + decimal(n as nat));
    }
}

/// A channel value brought into 0..=255.
fn clamp_level(v: i32) -> (r: u64)
    ensures
        r == clamped(v as int),
{
    if v < 0 {
        0
    } else if v > 255 {
        255
    } else {
        v as u64
    }
}

/// Writes a clamped channel value at the end of `out` and says how many
/// characters that took.
fn append_level(out: &mut String, v: i32) -> (len: usize)
    ensures
        final(out)@ == old(out)@ + decimal(clamped(v as int)),
        len == decimal(clamped(v as int)).len(),
        1 <= len <= 3,
{
    let n: u64 = clamp_level(v);
    append_decimal(out, n);
    proof {
        lemma_level_width(v as int);
    }
    if n < 10 {
        1
    } else if n < 100 {
        proof {
            reveal_with_fuel(decimal, 3);
        }
        2
    } else {
        proof {
            reveal_with_fuel(decimal, 3);
        }
        3
    }
}

/// Places one value on a row that is filling up.
fn put_value(
    result: &mut String,
    line: &mut String,
    line_len: &mut usize,
    v: i32,
    Ghost(base): Ghost<Seq<char>>,
    Ghost(st): Ghost<Layout>,
)
    requires
        old(result)@ == base + st.done,
        old(line)@ == st.line,
        *old(line_len) == st.line.len(),
        st.line.len() <= LINE_LIMIT,
    ensures
        final(result)@ == base + place_value(st, v as int).done,
        final(line)@ == place_value(st, v as int).line,
        *final(line_len) == place_value(st, v as int).line.len(),
        place_value(st, v as int).line.len() <= LINE_LIMIT,
{
    proof {
        reveal_strlit(" ");
        reveal_strlit("\n");
    }
    let mut sv = String::from_str(" ");
    let n = append_level(&mut sv, v);
    assert(sv@ =~= seq![' '] + decimal(clamped(v as int)));
    if *line_len + (n + 1) >= LINE_LIMIT {
        result.append(line.as_str());
        result.append("\n");
        assert(result@ =~= base + (st.done + st.line + seq!['\n']));
        *line = sv;
        *line_len = n + 1;
    } else {
        line.append(sv.as_str());
        *line_len = *line_len + (n + 1);
    }
}

/// Places one pixel on a row.
pub(crate) fn put_pixel(
    result: &mut String,
    line: &mut String,
    line_len: &mut usize,
    p: (i32, i32, i32),
    Ghost(base): Ghost<Seq<char>>,
    Ghost(st): Ghost<Layout>,
)
    requires
        old(result)@ == base + st.done,
        old(line)@ == st.line,
        *old(line_len) == st.line.len(),
        st.line.len() <= LINE_LIMIT,
    ensures
        final(result)@ == base + place_pixel(st, p).done,
        final(line)@ == place_pixel(st, p).line,
        *final(line_len) == place_pixel(st, p).line.len(),
        place_pixel(st, p).line.len() <= LINE_LIMIT,
{
    proof {
        reveal_strlit(" ");
        lemma_triple_width(p);
    }
    let mut t = String::new();
    let a = append_level(&mut t, p.0);
    t.append(" ");
    let b = append_level(&mut t, p.1);
    t.append(" ");
    let c = append_level(&mut t, p.2);
    let width: usize = a + b + c + 2;
    assert(t@ =~= triple(p));
    if *line_len == 0 {
        assert(line@ =~= Seq::<char>::empty());
        *line = t;
        *line_len = width;
    } else if *line_len + 1 + width <= LINE_LIMIT {
        line.append(" ");
        line.append(t.as_str());
        assert(line@ =~= st.line + seq![' '] + triple(p));
        *line_len = *line_len + 1 + width;
    } else {
        put_value(result, line, line_len, p.0, Ghost(base), Ghost(st));
        let ghost st1 = place_value(st, p.0 as int);
        put_value(result, line, line_len, p.1, Ghost(base), Ghost(st1));
        let ghost st2 = place_value(st1, p.1 as int);
        put_value(result, line, line_len, p.2, Ghost(base), Ghost(st2));
    }
}

} // verus!
