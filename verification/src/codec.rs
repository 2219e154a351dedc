//! The on-disk table format and its codec.
//!
//! A table file is a self-describing columnar byte string:
//!
//! ```text
//! table  := ncols:u64  nrows:u64  column^ncols
//! column := text(name) cell^nrows
//! cell   := 0x00 | 0x01 text(value)
//! text   := nchars:u64 scalar:u32^nchars
//! ```
//!
//! Integers are little-endian; texts are sequences of Unicode scalar values.
//! `enc_*` define the encoding, `dec_*` the decoding, both at the
//! mathematical level; [`encode_table`] and [`parse_table`] are their
//! executable counterparts, and [`lemma_table_round_trip`] shows that
//! decoding inverts encoding on every well-formed table.

use vstd::prelude::*;
use vstd::bytes::{
    spec_u32_from_le_bytes, spec_u32_to_le_bytes, spec_u64_from_le_bytes, spec_u64_to_le_bytes,
    lemma_auto_spec_u32_to_from_le_bytes, lemma_auto_spec_u64_to_from_le_bytes,
};
use vstd::bytes::{u32_from_le_bytes, u32_to_le_bytes, u64_from_le_bytes, u64_to_le_bytes};
use vstd::slice::{slice_index_get, slice_subrange};
use vstd::string::StrSliceExecFns;
use vstd::utf8::{is_scalar, char_is_scalar, char_u32_cast};
use crate::table::{Column, ColumnModel, Table, TableModel};

verus! {

// ---------------------------------------------------------------------------
// Encoding
// ---------------------------------------------------------------------------

/// Eight little-endian bytes.
pub open spec fn enc_u64(x: u64) -> Seq<u8> {
    spec_u64_to_le_bytes(x)
}

/// Each character as its scalar value in four little-endian bytes.
pub open spec fn enc_chars(s: Seq<char>) -> Seq<u8>
    decreases s.len(),
{
    if s.len() == 0 {
        Seq::empty()
    } else {
        spec_u32_to_le_bytes(s[0] as u32) + enc_chars(s.drop_first())
    }
}

/// A character count followed by the characters.
pub open spec fn enc_text(s: Seq<char>) -> Seq<u8> {
    enc_u64(s.len() as u64) + enc_chars(s)
}

/// A presence tag, then the value when present.
pub open spec fn enc_cell(c: Option<Seq<char>>) -> Seq<u8> {
    match c {
        Option::None => seq![0u8],
        Option::Some(s) => seq![1u8] + enc_text(s),
    }
}

/// The cells of one column, top to bottom.
pub open spec fn enc_cells(cs: Seq<Option<Seq<char>>>) -> Seq<u8>
    decreases cs.len(),
{
    if cs.len() == 0 {
        Seq::empty()
    } else {
        enc_cell(cs[0]) + enc_cells(cs.drop_first())
    }
}

/// A column: its name, then its cells.
pub open spec fn enc_column(c: ColumnModel) -> Seq<u8> {
    enc_text(c.name) + enc_cells(c.cells)
}

/// The columns in order.
pub open spec fn enc_columns(cs: Seq<ColumnModel>) -> Seq<u8>
    decreases cs.len(),
{
    if cs.len() == 0 {
        Seq::empty()
    } else {
        enc_column(cs[0]) + enc_columns(cs.drop_first())
    }
}

/// The whole file: both counts, then the columns.
pub open spec fn enc_table(t: TableModel) -> Seq<u8> {
    enc_u64(t.cols.len() as u64) + enc_u64(t.rows as u64) + enc_columns(t.cols)
}

// ---------------------------------------------------------------------------
// Size bounds under which a model is encodable and machine-representable
// ---------------------------------------------------------------------------

/// The character count fits the length field.
pub open spec fn text_fits(s: Seq<char>) -> bool {
    s.len() <= u64::MAX
}

/// An absent cell always fits; a present one if its text does.
pub open spec fn cell_fits(c: Option<Seq<char>>) -> bool {
    match c {
        Option::None => true,
        Option::Some(s) => text_fits(s),
    }
}

/// Name and every cell fit.
pub open spec fn column_fits(c: ColumnModel) -> bool {
    &&& text_fits(c.name)
    &&& forall|i: int| 0 <= i < c.cells.len() ==> cell_fits(#[trigger] c.cells[i])
}

/// Both counts are machine-representable and every column fits.
pub open spec fn table_fits(t: TableModel) -> bool {
    &&& t.cols.len() <= usize::MAX
    &&& t.rows <= usize::MAX
    &&& forall|j: int| 0 <= j < t.cols.len() ==> column_fits(#[trigger] t.cols[j])
}

// ---------------------------------------------------------------------------
// Decoding
// ---------------------------------------------------------------------------

/// Reads eight little-endian bytes; yields the value and the remainder.
pub open spec fn dec_u64(b: Seq<u8>) -> Option<(u64, Seq<u8>)> {
    if b.len() >= 8 {
        Option::Some((spec_u64_from_le_bytes(b.take(8)), b.skip(8)))
    } else {
        Option::None
    }
}

/// Reads four little-endian bytes that must hold a Unicode scalar value.
pub open spec fn dec_char(b: Seq<u8>) -> Option<(char, Seq<u8>)> {
    if b.len() >= 4 {
        if is_scalar(spec_u32_from_le_bytes(b.take(4))) {
            Option::Some(((spec_u32_from_le_bytes(b.take(4)) as char), b.skip(4)))
        } else {
            Option::None
        }
    } else {
        Option::None
    }
}

/// Reads exactly `n` characters.
pub open spec fn dec_chars(n: nat, b: Seq<u8>) -> Option<(Seq<char>, Seq<u8>)>
    decreases n,
{
    if n == 0 {
        Option::Some((Seq::empty(), b))
    } else {
        match dec_char(b) {
            Option::None => Option::None,
            Option::Some((c, rest)) => match dec_chars((n - 1) as nat, rest) {
                Option::None => Option::None,
                Option::Some((s, rest2)) => Option::Some((seq![c] + s, rest2)),
            },
        }
    }
}

/// Reads a character count, then that many characters.
pub open spec fn dec_text(b: Seq<u8>) -> Option<(Seq<char>, Seq<u8>)> {
    match dec_u64(b) {
        Option::None => Option::None,
        Option::Some((n, rest)) => dec_chars(n as nat, rest),
    }
}

/// Reads a presence tag, then the value when present.
pub open spec fn dec_cell(b: Seq<u8>) -> Option<(Option<Seq<char>>, Seq<u8>)> {
    if b.len() < 1 {
        Option::None
    } else if b[0] == 0u8 {
        Option::Some((Option::None, b.skip(1)))
    } else if b[0] == 1u8 {
        match dec_text(b.skip(1)) {
            Option::None => Option::None,
            Option::Some((s, rest)) => Option::Some((Option::Some(s), rest)),
        }
    } else {
        Option::None
    }
}

/// Reads exactly `n` cells.
pub open spec fn dec_cells(n: nat, b: Seq<u8>) -> Option<(Seq<Option<Seq<char>>>, Seq<u8>)>
    decreases n,
{
    if n == 0 {
        Option::Some((Seq::empty(), b))
    } else {
        match dec_cell(b) {
            Option::None => Option::None,
            Option::Some((c, rest)) => match dec_cells((n - 1) as nat, rest) {
                Option::None => Option::None,
                Option::Some((cs, rest2)) => Option::Some((seq![c] + cs, rest2)),
            },
        }
    }
}

/// Reads one column holding exactly `nrows` cells.
pub open spec fn dec_column(nrows: nat, b: Seq<u8>) -> Option<(ColumnModel, Seq<u8>)> {
    match dec_text(b) {
        Option::None => Option::None,
        Option::Some((name, rest)) => match dec_cells(nrows, rest) {
            Option::None => Option::None,
            Option::Some((cells, rest2)) => Option::Some((ColumnModel { name, cells }, rest2)),
        },
    }
}

/// Reads exactly `n` columns of `nrows` cells each.
pub open spec fn dec_columns(n: nat, nrows: nat, b: Seq<u8>) -> Option<(Seq<ColumnModel>, Seq<u8>)>
    decreases n,
{
    if n == 0 {
        Option::Some((Seq::empty(), b))
    } else {
        match dec_column(nrows, b) {
            Option::None => Option::None,
            Option::Some((c, rest)) => match dec_columns((n - 1) as nat, nrows, rest) {
                Option::None => Option::None,
                Option::Some((cs, rest2)) => Option::Some((seq![c] + cs, rest2)),
            },
        }
    }
}

/// Decodes a whole file.  Counts beyond the machine's address range are
/// rejected, as are trailing bytes after the last column.
pub open spec fn dec_table(b: Seq<u8>) -> Option<TableModel> {
    match dec_u64(b) {
        Option::None => Option::None,
        Option::Some((nc, r1)) => match dec_u64(r1) {
            Option::None => Option::None,
            Option::Some((nr, r2)) => if nc > usize::MAX || nr > usize::MAX {
                Option::None
            } else {
                match dec_columns(nc as nat, nr as nat, r2) {
                    Option::None => Option::None,
                    Option::Some((cols, rest)) => if rest.len() == 0 {
                        Option::Some(TableModel { rows: nr as nat, cols })
                    } else {
                        Option::None
                    },
                }
            },
        },
    }
}

// ---------------------------------------------------------------------------
// The decoder inverts the encoder
// ---------------------------------------------------------------------------

/// A `u64` written then read, with any remainder, comes back unchanged.
proof fn lemma_dec_u64(x: u64, rest: Seq<u8>)
    ensures
        dec_u64(enc_u64(x) + rest) == Option::Some((x, rest)),
{
    lemma_auto_spec_u64_to_from_le_bytes();
    let b = enc_u64(x) + rest;
    assert(b.take(8) =~= enc_u64(x));
    assert(b.skip(8) =~= rest);
}

/// A character written then read, with any remainder, comes back unchanged.
proof fn lemma_dec_char(c: char, rest: Seq<u8>)
    ensures
        dec_char(spec_u32_to_le_bytes(c as u32) + rest) == Option::Some((c, rest)),
{
    lemma_auto_spec_u32_to_from_le_bytes();
    char_is_scalar(c);
    let b = spec_u32_to_le_bytes(c as u32) + rest;
    assert(b.take(4) =~= spec_u32_to_le_bytes(c as u32));
    assert(b.skip(4) =~= rest);
    char_u32_cast(c, c as u32);
}

/// A character sequence written then read back in full.
proof fn lemma_dec_chars(s: Seq<char>, rest: Seq<u8>)
    ensures
        dec_chars(s.len(), enc_chars(s) + rest) == Option::Some((s, rest)),
    decreases s.len(),
{
    if s.len() == 0 {
        assert(enc_chars(s) + rest =~= rest);
        assert(s =~= Seq::<char>::empty());
    } else {
        let tail = s.drop_first();
        assert(enc_chars(s) + rest =~= spec_u32_to_le_bytes(s[0] as u32) + (enc_chars(tail) + rest));
        lemma_dec_char(s[0], enc_chars(tail) + rest);
        lemma_dec_chars(tail, rest);
        assert(seq![s[0]] + tail =~= s);
    }
}

/// A text written then read back in full.
proof fn lemma_dec_text(s: Seq<char>, rest: Seq<u8>)
    requires
        text_fits(s),
    ensures
        dec_text(enc_text(s) + rest) == Option::Some((s, rest)),
{
    assert(enc_text(s) + rest =~= enc_u64(s.len() as u64) + (enc_chars(s) + rest));
    lemma_dec_u64(s.len() as u64, enc_chars(s) + rest);
    lemma_dec_chars(s, rest);
}

/// A cell written then read back in full.
proof fn lemma_dec_cell(c: Option<Seq<char>>, rest: Seq<u8>)
    requires
        cell_fits(c),
    ensures
        dec_cell(enc_cell(c) + rest) == Option::Some((c, rest)),
{
    match c {
        Option::None => {
            let b = enc_cell(c) + rest;
            assert(b[0] == 0u8);
            assert(b.skip(1) =~= rest);
        },
        Option::Some(s) => {
            let b = enc_cell(c) + rest;
            assert(b[0] == 1u8);
            assert(b.skip(1) =~= enc_text(s) + rest);
            lemma_dec_text(s, rest);
        },
    }
}

/// A cell sequence written then read back in full.
proof fn lemma_dec_cells(cs: Seq<Option<Seq<char>>>, rest: Seq<u8>)
    requires
        forall|i: int| 0 <= i < cs.len() ==> cell_fits(#[trigger] cs[i]),
    ensures
        dec_cells(cs.len(), enc_cells(cs) + rest) == Option::Some((cs, rest)),
    decreases cs.len(),
{
    if cs.len() == 0 {
        assert(enc_cells(cs) + rest =~= rest);
        assert(cs =~= Seq::<Option<Seq<char>>>::empty());
    } else {
        let tail = cs.drop_first();
        assert(enc_cells(cs) + rest =~= enc_cell(cs[0]) + (enc_cells(tail) + rest));
        lemma_dec_cell(cs[0], enc_cells(tail) + rest);
        lemma_dec_cells(tail, rest);
        assert(seq![cs[0]] + tail =~= cs);
    }
}

/// A column written then read back in full.
proof fn lemma_dec_column(c: ColumnModel, rest: Seq<u8>)
    requires
        column_fits(c),
    ensures
        dec_column(c.cells.len(), enc_column(c) + rest) == Option::Some((c, rest)),
{
    assert(enc_column(c) + rest =~= enc_text(c.name) + (enc_cells(c.cells) + rest));
    lemma_dec_text(c.name, enc_cells(c.cells) + rest);
    lemma_dec_cells(c.cells, rest);
}

/// A column sequence of uniform height written then read back in full.
proof fn lemma_dec_columns(cs: Seq<ColumnModel>, nrows: nat, rest: Seq<u8>)
    requires
        forall|j: int| 0 <= j < cs.len() ==> column_fits(#[trigger] cs[j]),
        forall|j: int| 0 <= j < cs.len() ==> (#[trigger] cs[j]).cells.len() == nrows,
    ensures
        dec_columns(cs.len(), nrows, enc_columns(cs) + rest) == Option::Some((cs, rest)),
    decreases cs.len(),
{
    if cs.len() == 0 {
        assert(enc_columns(cs) + rest =~= rest);
        assert(cs =~= Seq::<ColumnModel>::empty());
    } else {
        let tail = cs.drop_first();
        assert(enc_columns(cs) + rest =~= enc_column(cs[0]) + (enc_columns(tail) + rest));
        lemma_dec_column(cs[0], enc_columns(tail) + rest);
        lemma_dec_columns(tail, nrows, rest);
        assert(seq![cs[0]] + tail =~= cs);
    }
}

/// Decoding inverts encoding: every well-formed, machine-representable table
/// value comes back unchanged from its own file image.
pub proof fn lemma_table_round_trip(t: TableModel)
    requires
        t.wf(),
        table_fits(t),
    ensures
        dec_table(enc_table(t)) == Option::Some(t),
{
    let nc = t.cols.len() as u64;
    let nr = t.rows as u64;
    let body = enc_columns(t.cols);
    assert(enc_table(t) =~= enc_u64(nc) + (enc_u64(nr) + (body + Seq::<u8>::empty())));
    lemma_dec_u64(nc, enc_u64(nr) + (body + Seq::<u8>::empty()));
    lemma_dec_u64(nr, body + Seq::<u8>::empty());
    lemma_dec_columns(t.cols, t.rows, Seq::<u8>::empty());
}

/// Encoding is injective on well-formed, machine-representable tables: two
/// different table values never share a file image.
pub proof fn lemma_encoding_injective(t1: TableModel, t2: TableModel)
    requires
        t1.wf(),
        table_fits(t1),
        t2.wf(),
        table_fits(t2),
        enc_table(t1) == enc_table(t2),
    ensures
        t1 == t2,
{
    lemma_table_round_trip(t1);
    lemma_table_round_trip(t2);
}

// ---------------------------------------------------------------------------
// Executable encoder
// ---------------------------------------------------------------------------

/// Appending one character extends the encoding at its end.
proof fn lemma_enc_chars_push(s: Seq<char>, c: char)
    ensures
        enc_chars(s.push(c)) == enc_chars(s) + spec_u32_to_le_bytes(c as u32),
    decreases s.len(),
{
    if s.len() == 0 {
        assert(s.push(c)[0] == c);
        assert(s.push(c).drop_first() =~= Seq::<char>::empty());
        assert(enc_chars(Seq::<char>::empty()) == Seq::<u8>::empty());
        assert(enc_chars(s.push(c)) =~= enc_chars(s) + spec_u32_to_le_bytes(c as u32));
    } else {
        assert(s.push(c)[0] == s[0]);
        assert(s.push(c).drop_first() =~= s.drop_first().push(c));
        lemma_enc_chars_push(s.drop_first(), c);
        vstd::seq_lib::lemma_concat_associative(
            spec_u32_to_le_bytes(s[0] as u32),
            enc_chars(s.drop_first()),
            spec_u32_to_le_bytes(c as u32),
        );
        assert(enc_chars(s.push(c)) =~= enc_chars(s) + spec_u32_to_le_bytes(c as u32));
    }
}

/// Appending one cell extends the encoding at its end.
proof fn lemma_enc_cells_push(cs: Seq<Option<Seq<char>>>, c: Option<Seq<char>>)
    ensures
        enc_cells(cs.push(c)) == enc_cells(cs) + enc_cell(c),
    decreases cs.len(),
{
    if cs.len() == 0 {
        assert(cs.push(c)[0] == c);
        assert(cs.push(c).drop_first() =~= Seq::<Option<Seq<char>>>::empty());
        assert(enc_cells(Seq::<Option<Seq<char>>>::empty()) == Seq::<u8>::empty());
        assert(enc_cells(cs.push(c)) =~= enc_cells(cs) + enc_cell(c));
    } else {
        assert(cs.push(c)[0] == cs[0]);
        assert(cs.push(c).drop_first() =~= cs.drop_first().push(c));
        lemma_enc_cells_push(cs.drop_first(), c);
        vstd::seq_lib::lemma_concat_associative(
            enc_cell(cs[0]),
            enc_cells(cs.drop_first()),
            enc_cell(c),
        );
        assert(enc_cells(cs.push(c)) =~= enc_cells(cs) + enc_cell(c));
    }
}

/// Appending one column extends the encoding at its end.
proof fn lemma_enc_columns_push(cs: Seq<ColumnModel>, c: ColumnModel)
    ensures
        enc_columns(cs.push(c)) == enc_columns(cs) + enc_column(c),
    decreases cs.len(),
{
    if cs.len() == 0 {
        assert(cs.push(c)[0] == c);
        assert(cs.push(c).drop_first() =~= Seq::<ColumnModel>::empty());
        assert(enc_columns(Seq::<ColumnModel>::empty()) == Seq::<u8>::empty());
        assert(enc_columns(cs.push(c)) =~= enc_columns(cs) + enc_column(c));
    } else {
        assert(cs.push(c)[0] == cs[0]);
        assert(cs.push(c).drop_first() =~= cs.drop_first().push(c));
        lemma_enc_columns_push(cs.drop_first(), c);
        vstd::seq_lib::lemma_concat_associative(
            enc_column(cs[0]),
            enc_columns(cs.drop_first()),
            enc_column(c),
        );
        assert(enc_columns(cs.push(c)) =~= enc_columns(cs) + enc_column(c));
    }
}

/// Appends eight little-endian bytes.
fn write_u64(out: &mut Vec<u8>, x: u64)
    ensures
        final(out)@ == old(out)@ + enc_u64(x),
{
    let mut b = u64_to_le_bytes(x);
    out.append(&mut b);
}

/// Appends one character as four little-endian bytes.
fn write_char(out: &mut Vec<u8>, c: char)
    ensures
        final(out)@ == old(out)@ + spec_u32_to_le_bytes(c as u32),
{
    let mut b = u32_to_le_bytes(c as u32);
    out.append(&mut b);
}

/// Appends a character count and the characters.
fn write_text(out: &mut Vec<u8>, s: &str)
    ensures
        final(out)@ == old(out)@ + enc_text(s@),
        text_fits(s@),
{
    let ghost orig = out@;
    let n = s.unicode_len();
    write_u64(out, n as u64);
    let ghost base = out@;
    let mut i: usize = 0;
    while i < n
        invariant
            i <= n,
            n == s@.len(),
            out@ == base + enc_chars(s@.take(i as int)),
        decreases n - i,
    {
        let c = s.get_char(i);
        write_char(out, c);
        proof {
            lemma_enc_chars_push(s@.take(i as int), s@[i as int]);
            assert(s@.take(i as int).push(s@[i as int]) =~= s@.take(i as int + 1));
            assert(out@ =~= base + enc_chars(s@.take(i as int + 1)));
        }
        i = i + 1;
    }
    proof {
        assert(s@.take(n as int) =~= s@);
        assert(out@ =~= orig + enc_text(s@));
    }
}

/// Appends a presence tag, then the value when present.
fn write_cell(out: &mut Vec<u8>, c: &Option<String>)
    ensures
        final(out)@ == old(out)@ + enc_cell(c.deep_view()),
        cell_fits(c.deep_view()),
{
    match c {
        Option::None => {
            out.push(0u8);
            proof {
                assert(out@ =~= old(out)@ + enc_cell(c.deep_view()));
            }
        },
        Option::Some(s) => {
            out.push(1u8);
            write_text(out, s.as_str());
            proof {
                assert(out@ =~= old(out)@ + enc_cell(c.deep_view()));
            }
        },
    }
}

/// Appends one column: its name, then its cells.
fn write_column(out: &mut Vec<u8>, col: &Column)
    ensures
        final(out)@ == old(out)@ + enc_column(col@),
        column_fits(col@),
{
    let ghost orig = out@;
    write_text(out, col.name().as_str());
    let ghost base = out@;
    let n = col.len();
    let mut i: usize = 0;
    while i < n
        invariant
            i <= n,
            n == col@.cells.len(),
            out@ == base + enc_cells(col@.cells.take(i as int)),
            forall|k: int| 0 <= k < i ==> cell_fits(#[trigger] col@.cells[k]),
        decreases n - i,
    {
        let c = col.cell(i);
        write_cell(out, c);
        proof {
            lemma_enc_cells_push(col@.cells.take(i as int), col@.cells[i as int]);
            assert(col@.cells.take(i as int).push(col@.cells[i as int]) =~= col@.cells.take(i as int + 1));
            assert(out@ =~= base + enc_cells(col@.cells.take(i as int + 1)));
        }
        i = i + 1;
    }
    proof {
        assert(col@.cells.take(n as int) =~= col@.cells);
        assert(out@ =~= orig + enc_column(col@));
    }
}

/// Serializes a table to its file image.
pub fn encode_table(t: &Table) -> (r: Vec<u8>)
    ensures
        r@ == enc_table(t@),
        table_fits(t@),
{
    let mut out: Vec<u8> = Vec::new();
    let nc = t.num_cols();
    let nr = t.num_rows();
    write_u64(&mut out, nc as u64);
    write_u64(&mut out, nr as u64);
    let ghost base = out@;
    let mut j: usize = 0;
    while j < nc
        invariant
            j <= nc,
            nc == t@.cols.len(),
            out@ == base + enc_columns(t@.cols.take(j as int)),
            forall|k: int| 0 <= k < j ==> column_fits(#[trigger] t@.cols[k]),
        decreases nc - j,
    {
        let col = t.column(j);
        write_column(&mut out, col);
        proof {
            lemma_enc_columns_push(t@.cols.take(j as int), t@.cols[j as int]);
            assert(t@.cols.take(j as int).push(t@.cols[j as int]) =~= t@.cols.take(j as int + 1));
            assert(out@ =~= base + enc_columns(t@.cols.take(j as int + 1)));
        }
        j = j + 1;
    }
    proof {
        assert(t@.cols.take(nc as int) =~= t@.cols);
        assert(out@ =~= enc_table(t@));
    }
    out
}

// ---------------------------------------------------------------------------
// Executable parser
// ---------------------------------------------------------------------------

/// Relies on `char::from_u32`: `Some` exactly for Unicode scalar values, and
/// the returned character carries the given value.
pub assume_specification[ char::from_u32 ](i: u32) -> (r: Option<char>)
    ensures
        r is Some <==> is_scalar(i),
        r matches Option::Some(c) ==> c as u32 == i,
;

/// Relies on `String::push`: appends exactly the given character.
pub assume_specification[ String::push ](s: &mut String, ch: char)
    ensures
        final(s)@ == old(s)@.push(ch),
;

/// Finishes a table decode from the outcome of decoding its columns.
spec fn table_from_columns_outcome(nr: u64, r: Option<(Seq<ColumnModel>, Seq<u8>)>) -> Option<TableModel> {
    match r {
        Option::None => Option::None,
        Option::Some((cs, rest)) => if rest.len() == 0 {
            Option::Some(TableModel { rows: nr as nat, cols: cs })
        } else {
            Option::None
        },
    }
}

/// Prepends already-decoded characters to a decoder outcome.
spec fn chars_then(prefix: Seq<char>, r: Option<(Seq<char>, Seq<u8>)>) -> Option<(Seq<char>, Seq<u8>)> {
    match r {
        Option::None => Option::None,
        Option::Some((s, rest)) => Option::Some((prefix + s, rest)),
    }
}

/// Prepends already-decoded cells to a decoder outcome.
spec fn cells_then(
    prefix: Seq<Option<Seq<char>>>,
    r: Option<(Seq<Option<Seq<char>>>, Seq<u8>)>,
) -> Option<(Seq<Option<Seq<char>>>, Seq<u8>)> {
    match r {
        Option::None => Option::None,
        Option::Some((cs, rest)) => Option::Some((prefix + cs, rest)),
    }
}

/// Prepends already-decoded columns to a decoder outcome.
spec fn columns_then(
    prefix: Seq<ColumnModel>,
    r: Option<(Seq<ColumnModel>, Seq<u8>)>,
) -> Option<(Seq<ColumnModel>, Seq<u8>)> {
    match r {
        Option::None => Option::None,
        Option::Some((cs, rest)) => Option::Some((prefix + cs, rest)),
    }
}

proof fn lemma_chars_then_snoc(prefix: Seq<char>, c: char, r: Option<(Seq<char>, Seq<u8>)>)
    ensures
        chars_then(prefix, chars_then(seq![c], r)) == chars_then(prefix.push(c), r),
{
    match r {
        Option::None => {},
        Option::Some((s, rest)) => {
            assert(prefix + (seq![c] + s) =~= prefix.push(c) + s);
        },
    }
}

proof fn lemma_cells_then_snoc(
    prefix: Seq<Option<Seq<char>>>,
    c: Option<Seq<char>>,
    r: Option<(Seq<Option<Seq<char>>>, Seq<u8>)>,
)
    ensures
        cells_then(prefix, cells_then(seq![c], r)) == cells_then(prefix.push(c), r),
{
    match r {
        Option::None => {},
        Option::Some((cs, rest)) => {
            assert(prefix + (seq![c] + cs) =~= prefix.push(c) + cs);
        },
    }
}

proof fn lemma_columns_then_snoc(
    prefix: Seq<ColumnModel>,
    c: ColumnModel,
    r: Option<(Seq<ColumnModel>, Seq<u8>)>,
)
    ensures
        columns_then(prefix, columns_then(seq![c], r)) == columns_then(prefix.push(c), r),
{
    match r {
        Option::None => {},
        Option::Some((cs, rest)) => {
            assert(prefix + (seq![c] + cs) =~= prefix.push(c) + cs);
        },
    }
}

/// Reads eight little-endian bytes at `pos`.
fn read_u64(bytes: &[u8], pos: usize) -> (r: Option<(u64, usize)>)
    requires
        pos <= bytes@.len(),
    ensures
        r matches Option::Some((x, p2)) ==> pos <= p2 <= bytes@.len()
            && dec_u64(bytes@.skip(pos as int)) == Option::Some((x, bytes@.skip(p2 as int))),
        r is None ==> dec_u64(bytes@.skip(pos as int)) is None,
{
    let len = bytes.len();
    if len - pos >= 8 {
        let s = slice_subrange(bytes, pos, pos + 8);
        let x = u64_from_le_bytes(s);
        proof {
            assert(bytes@.skip(pos as int).take(8) =~= bytes@.subrange(pos as int, pos as int + 8));
            assert(bytes@.skip(pos as int).skip(8) =~= bytes@.skip(pos as int + 8));
        }
        Option::Some((x, pos + 8))
    } else {
        Option::None
    }
}

/// Reads one character at `pos`.
fn read_char(bytes: &[u8], pos: usize) -> (r: Option<(char, usize)>)
    requires
        pos <= bytes@.len(),
    ensures
        r matches Option::Some((c, p2)) ==> pos <= p2 <= bytes@.len()
            && dec_char(bytes@.skip(pos as int)) == Option::Some((c, bytes@.skip(p2 as int))),
        r is None ==> dec_char(bytes@.skip(pos as int)) is None,
{
    let len = bytes.len();
    if len - pos >= 4 {
        let s = slice_subrange(bytes, pos, pos + 4);
        let u = u32_from_le_bytes(s);
        proof {
            assert(bytes@.skip(pos as int).take(4) =~= bytes@.subrange(pos as int, pos as int + 4));
            assert(bytes@.skip(pos as int).skip(4) =~= bytes@.skip(pos as int + 4));
        }
        match char::from_u32(u) {
            Option::Some(c) => {
                proof {
                    char_u32_cast(c, u);
                }
                Option::Some((c, pos + 4))
            },
            Option::None => Option::None,
        }
    } else {
        Option::None
    }
}

/// Reads a text at `pos`.
fn read_text(bytes: &[u8], pos: usize) -> (r: Option<(String, usize)>)
    requires
        pos <= bytes@.len(),
    ensures
        r matches Option::Some((s, p2)) ==> pos <= p2 <= bytes@.len()
            && dec_text(bytes@.skip(pos as int)) == Option::Some((s@, bytes@.skip(p2 as int))),
        r is None ==> dec_text(bytes@.skip(pos as int)) is None,
{
    let (n, start) = match read_u64(bytes, pos) {
        Option::None => {
            return Option::None;
        },
        Option::Some(v) => v,
    };
    let ghost start_rest = bytes@.skip(start as int);
    let mut acc = String::new();
    let mut p: usize = start;
    let mut i: u64 = 0;
    while i < n
        invariant
            i <= n,
            pos <= p <= bytes@.len(),
            start_rest == bytes@.skip(start as int),
            dec_text(bytes@.skip(pos as int)) == dec_chars(n as nat, start_rest),
            dec_chars(n as nat, start_rest)
                == chars_then(acc@, dec_chars((n - i) as nat, bytes@.skip(p as int))),
        decreases n - i,
    {
        let ghost acc_pre = acc@;
        let ghost p_pre = p;
        match read_char(bytes, p) {
            Option::None => {
                proof {
                    assert(dec_chars((n - i) as nat, bytes@.skip(p as int)) is None);
                }
                return Option::None;
            },
            Option::Some((c, p2)) => {
                proof {
                    assert(dec_chars((n - i) as nat, bytes@.skip(p_pre as int))
                        == chars_then(seq![c], dec_chars((n - i - 1) as nat, bytes@.skip(p2 as int))));
                    lemma_chars_then_snoc(acc_pre, c, dec_chars((n - i - 1) as nat, bytes@.skip(p2 as int)));
                }
                acc.push(c);
                p = p2;
                i = i + 1;
            },
        }
    }
    proof {
        assert(acc@ + Seq::<char>::empty() =~= acc@);
    }
    Option::Some((acc, p))
}

/// Reads one cell at `pos`.
fn read_cell(bytes: &[u8], pos: usize) -> (r: Option<(Option<String>, usize)>)
    requires
        pos <= bytes@.len(),
    ensures
        r matches Option::Some((v, p2)) ==> pos <= p2 <= bytes@.len()
            && dec_cell(bytes@.skip(pos as int)) == Option::Some((v.deep_view(), bytes@.skip(p2 as int))),
        r is None ==> dec_cell(bytes@.skip(pos as int)) is None,
{
    let len = bytes.len();
    if pos >= len {
        return Option::None;
    }
    let tag = *slice_index_get(bytes, pos);
    proof {
        assert(bytes@.skip(pos as int)[0] == bytes@[pos as int]);
        assert(bytes@.skip(pos as int).skip(1) =~= bytes@.skip(pos as int + 1));
    }
    if tag == 0 {
        Option::Some((Option::None, pos + 1))
    } else if tag == 1 {
        match read_text(bytes, pos + 1) {
            Option::None => Option::None,
            Option::Some((s, p2)) => Option::Some((Option::Some(s), p2)),
        }
    } else {
        Option::None
    }
}

/// Reads exactly `n` cells at `pos`.
fn read_cells(bytes: &[u8], pos: usize, n: u64) -> (r: Option<(Vec<Option<String>>, usize)>)
    requires
        pos <= bytes@.len(),
    ensures
        r matches Option::Some((v, p2)) ==> pos <= p2 <= bytes@.len()
            && v.deep_view().len() == n
            && dec_cells(n as nat, bytes@.skip(pos as int))
                == Option::Some((v.deep_view(), bytes@.skip(p2 as int))),
        r is None ==> dec_cells(n as nat, bytes@.skip(pos as int)) is None,
{
    let mut acc: Vec<Option<String>> = Vec::new();
    let mut p: usize = pos;
    let mut i: u64 = 0;
    while i < n
        invariant
            i <= n,
            pos <= p <= bytes@.len(),
            acc.deep_view().len() == i,
            dec_cells(n as nat, bytes@.skip(pos as int))
                == cells_then(acc.deep_view(), dec_cells((n - i) as nat, bytes@.skip(p as int))),
        decreases n - i,
    {
        let ghost acc_pre = acc.deep_view();
        let ghost p_pre = p;
        match read_cell(bytes, p) {
            Option::None => {
                proof {
                    assert(dec_cells((n - i) as nat, bytes@.skip(p as int)) is None);
                }
                return Option::None;
            },
            Option::Some((c, p2)) => {
                let ghost c_model = c.deep_view();
                proof {
                    assert(dec_cells((n - i) as nat, bytes@.skip(p_pre as int))
                        == cells_then(seq![c_model], dec_cells((n - i - 1) as nat, bytes@.skip(p2 as int))));
                    lemma_cells_then_snoc(acc_pre, c_model, dec_cells((n - i - 1) as nat, bytes@.skip(p2 as int)));
                }
                acc.push(c);
                proof {
                    assert(acc.deep_view() =~= acc_pre.push(c_model));
                }
                p = p2;
                i = i + 1;
            },
        }
    }
    proof {
        assert(acc.deep_view() + Seq::<Option<Seq<char>>>::empty() =~= acc.deep_view());
    }
    Option::Some((acc, p))
}

/// Reads one column of `nrows` cells at `pos`.
fn read_column(bytes: &[u8], pos: usize, nrows: u64) -> (r: Option<(Column, usize)>)
    requires
        pos <= bytes@.len(),
    ensures
        r matches Option::Some((c, p2)) ==> pos <= p2 <= bytes@.len()
            && c@.cells.len() == nrows
            && dec_column(nrows as nat, bytes@.skip(pos as int))
                == Option::Some((c@, bytes@.skip(p2 as int))),
        r is None ==> dec_column(nrows as nat, bytes@.skip(pos as int)) is None,
{
    let (name, p1) = match read_text(bytes, pos) {
        Option::None => {
            return Option::None;
        },
        Option::Some(v) => v,
    };
    let (cells, p2) = match read_cells(bytes, p1, nrows) {
        Option::None => {
            return Option::None;
        },
        Option::Some(v) => v,
    };
    Option::Some((Column::new(name, cells), p2))
}

/// Parses a whole file image back into a table.  Returns `None` exactly when
/// the bytes are not the encoding of any table.
pub fn parse_table(bytes: &[u8]) -> (r: Option<Table>)
    ensures
        r matches Option::Some(t) ==> dec_table(bytes@) == Option::Some(t@) && t.wf(),
        r is None ==> dec_table(bytes@) is None,
{
    proof {
        assert(bytes@.skip(0) =~= bytes@);
    }
    let (nc, p1) = match read_u64(bytes, 0) {
        Option::None => {
            return Option::None;
        },
        Option::Some(v) => v,
    };
    let (nr, p2) = match read_u64(bytes, p1) {
        Option::None => {
            return Option::None;
        },
        Option::Some(v) => v,
    };
    proof {
        assert(usize::MAX as u64 == usize::MAX);
    }
    if nc > usize::MAX as u64 || nr > usize::MAX as u64 {
        return Option::None;
    }
    let ghost start_rest = bytes@.skip(p2 as int);
    let mut cols: Vec<Column> = Vec::new();
    let mut p: usize = p2;
    let mut j: u64 = 0;
    while j < nc
        invariant
            j <= nc,
            p2 <= p <= bytes@.len(),
            nr <= usize::MAX,
            start_rest == bytes@.skip(p2 as int),
            cols.deep_view().len() == j,
            forall|k: int| 0 <= k < j ==> (#[trigger] cols.deep_view()[k]).cells.len() == nr,
            dec_table(bytes@) == table_from_columns_outcome(
                nr,
                dec_columns(nc as nat, nr as nat, start_rest),
            ),
            dec_columns(nc as nat, nr as nat, start_rest)
                == columns_then(cols.deep_view(), dec_columns((nc - j) as nat, nr as nat, bytes@.skip(p as int))),
        decreases nc - j,
    {
        let ghost cols_pre = cols.deep_view();
        let ghost p_pre = p;
        match read_column(bytes, p, nr) {
            Option::None => {
                proof {
                    assert(dec_columns((nc - j) as nat, nr as nat, bytes@.skip(p as int)) is None);
                }
                return Option::None;
            },
            Option::Some((c, pn)) => {
                let ghost c_model = c@;
                proof {
                    assert(dec_columns((nc - j) as nat, nr as nat, bytes@.skip(p_pre as int))
                        == columns_then(
                            seq![c_model],
                            dec_columns((nc - j - 1) as nat, nr as nat, bytes@.skip(pn as int)),
                        ));
                    lemma_columns_then_snoc(
                        cols_pre,
                        c_model,
                        dec_columns((nc - j - 1) as nat, nr as nat, bytes@.skip(pn as int)),
                    );
                }
                cols.push(c);
                proof {
                    assert(cols.deep_view() =~= cols_pre.push(c_model));
                }
                p = pn;
                j = j + 1;
            },
        }
    }
    if p != bytes.len() {
        proof {
            assert(bytes@.skip(p as int).len() != 0);
            assert(cols.deep_view() + Seq::<ColumnModel>::empty() =~= cols.deep_view());
        }
        return Option::None;
    }
    proof {
        assert(cols.deep_view() + Seq::<ColumnModel>::empty() =~= cols.deep_view());
        assert(bytes@.skip(p as int).len() == 0);
    }
    let t = Table::from_columns(nr as usize, cols);
    Option::Some(t)
}

} // verus!
