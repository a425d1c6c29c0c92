//! ESRI ASCII grid (`.asc`) text format.
//!
//! An ASCII grid is six header lines, `ncols`, `nrows`, `xllcorner`,
//! `yllcorner`, `cellsize` and `NODATA_value` in that order, each a key
//! (matched ignoring ASCII case) followed by a value, then the data
//! values as whitespace-separated tokens: one row per text line by
//! convention, but writers that wrap long rows are read the same way.
//! Row 0 of the grid is the first data row after the header.
//!
//! Reading is split in three steps, each with an exact contract:
//! [`scan_ascii_grid`] reads the header structure and the tokens, the
//! caller converts the number tokens, [`first_grid_error`] then names
//! the error the text holds in file order, and [`check_value_count`]
//! compares the data count with the header's dimensions.
use vstd::prelude::*;

use crate::text::{
    chars_of, line_bounds, line_content_end, next_line_start, string_of, tokenize,
    whitespace_tokens,
};

verus! {

/// Declares `std::io::Error`, which the I/O variant of
/// [`AsciiGridError`] carries through unchanged; nothing is claimed of it.
#[verifier::external_type_specification]
#[verifier::external_body]
pub struct ExIoError(std::io::Error);

/// Errors reading an ASCII grid.
#[derive(Debug)]
pub enum AsciiGridError {
    /// Underlying I/O failure (file not found, gzip corruption, …).
    Io(std::io::Error),
    /// A header line was missing, out of order, or malformed.
    Header(String),
    /// The data section did not contain exactly `ncols * nrows` values.
    ValueCount {
        /// Values required by the header.
        expected: usize,
        /// Values actually present.
        found: usize,
    },
    /// A token did not parse as a number.
    Parse(String),
}

/// What an [`AsciiGridError`] says, with its strings as character
/// sequences.
pub enum AsciiGridErrorView {
    /// An I/O failure.
    Io,
    /// A malformed header, with its message.
    Header(Seq<char>),
    /// A data count that does not match the header.
    ValueCount { expected: nat, found: nat },
    /// A token that is not a number.
    Parse(Seq<char>),
}

impl View for AsciiGridError {
    type V = AsciiGridErrorView;

    open spec fn view(&self) -> AsciiGridErrorView {
        match self {
            AsciiGridError::Io(_) => AsciiGridErrorView::Io,
            AsciiGridError::Header(m) => AsciiGridErrorView::Header(m@),
            AsciiGridError::ValueCount { expected, found } => AsciiGridErrorView::ValueCount {
                expected: *expected as nat,
                found: *found as nat,
            },
            AsciiGridError::Parse(t) => AsciiGridErrorView::Parse(t@),
        }
    }
}

/// Number of header lines.
pub const HEADER_LINES: usize = 6;

/// The key of header line `k`, as written in the format's reference.
pub open spec fn header_key(k: int) -> Seq<char> {
    if k == 0 {
        "ncols"@
    } else if k == 1 {
        "nrows"@
    } else if k == 2 {
        "xllcorner"@
    } else if k == 3 {
        "yllcorner"@
    } else if k == 4 {
        "cellsize"@
    } else {
        "NODATA_value"@
    }
}

/// ASCII lower-case code of `c` (other characters keep their code).
pub open spec fn ascii_lower_code(c: char) -> u32 {
    if 'A' <= c && c <= 'Z' {
        (c as u32 + 32) as u32
    } else {
        c as u32
    }
}

/// `a` equals `b` ignoring ASCII case.
pub open spec fn eq_ignore_ascii_case(a: Seq<char>, b: Seq<char>) -> bool {
    &&& a.len() == b.len()
    &&& forall|i: int| 0 <= i < a.len() ==> ascii_lower_code(#[trigger] a[i]) == ascii_lower_code(
        b[i],
    )
}

/// What `format!("{:?}", s)` gives for a string `s`: `s` between double
/// quotes, escaped as `str`'s `Debug` escapes it.
pub uninterp spec fn str_debug(s: Seq<char>) -> Seq<char>;

/// The key-mismatch message around the already quoted key, token and
/// line.
pub open spec fn key_mismatch_text(
    quoted_key: Seq<char>,
    quoted_found: Seq<char>,
    quoted_line: Seq<char>,
) -> Seq<char> {
    "expected key "@ + quoted_key + ", got "@ + quoted_found + " (line: "@ + quoted_line + ")"@
}

/// The message of a header line whose first token is not the expected
/// key: the key, the token found and the whole line, each quoted.
pub open spec fn key_mismatch_message(key: Seq<char>, found: Seq<char>, line: Seq<char>) -> Seq<
    char,
> {
    key_mismatch_text(str_debug(key), str_debug(found), str_debug(line))
}

/// What the header line starting at `i` of `s` gives for key `key`: its
/// value token, or the message of the header error it holds.
pub open spec fn header_line_outcome(s: Seq<char>, i: int, key: Seq<char>) -> Result<
    Seq<char>,
    Seq<char>,
> {
    if i >= s.len() {
        Err("missing "@ + key)
    } else {
        let line = s.subrange(i, line_content_end(s, i));
        let toks = whitespace_tokens(line);
        if toks.len() == 0 {
            Err("empty line, expected "@ + key)
        } else if !eq_ignore_ascii_case(toks[0], key) {
            Err(key_mismatch_message(key, toks[0], line))
        } else if toks.len() < 2 {
            Err("missing value for "@ + key)
        } else {
            Ok(toks[1])
        }
    }
}

/// ASCII case folding of one character: an upper-case letter
/// `'A'..='Z'` has the code of the lower-case letter 32 code points
/// above it, a lower-case letter `'a'..='z'` and every non-letter keep
/// their own code.
pub proof fn lemma_ascii_lower_code(c: char, d: char)
    ensures
        'A' <= c <= 'Z' ==> ascii_lower_code(c) == (c as u32) + 32,
        'A' <= c <= 'Z' && (d as u32) == (c as u32) + 32 ==> ascii_lower_code(c)
            == ascii_lower_code(d) && 'a' <= d <= 'z',
        !('A' <= c <= 'Z') ==> ascii_lower_code(c) == c as u32,
        ascii_lower_code(c) == ascii_lower_code(d) && !('A' <= c <= 'Z') && !('A' <= d <= 'Z')
            ==> c == d,
{
}

/// Two strings that differ only in the ASCII case of some letters are
/// equal ignoring ASCII case.
pub proof fn lemma_case_variants_are_equal(a: Seq<char>, b: Seq<char>)
    requires
        a.len() == b.len(),
        forall|i: int|
            0 <= i < a.len() ==> a[i] == b[i] || ('A' <= a[i] <= 'Z' && (b[i] as u32) == (
            a[i] as u32) + 32) || ('A' <= b[i] <= 'Z' && (a[i] as u32) == (b[i] as u32) + 32),
    ensures
        eq_ignore_ascii_case(a, b),
{
    assert forall|i: int| 0 <= i < a.len() implies ascii_lower_code(#[trigger] a[i])
        == ascii_lower_code(b[i]) by {
        lemma_ascii_lower_code(a[i], b[i]);
        lemma_ascii_lower_code(b[i], a[i]);
    }
}

/// The six header keys written in upper case match their keys: a header
/// of `NCOLS`, `NROWS`, `XLLCORNER`, `YLLCORNER`, `CELLSIZE` and
/// `NODATA_VALUE` is read like the reference one.
pub proof fn lemma_upper_case_keys_match()
    ensures
        eq_ignore_ascii_case("NCOLS"@, header_key(0)),
        eq_ignore_ascii_case("NROWS"@, header_key(1)),
        eq_ignore_ascii_case("XLLCORNER"@, header_key(2)),
        eq_ignore_ascii_case("YLLCORNER"@, header_key(3)),
        eq_ignore_ascii_case("CELLSIZE"@, header_key(4)),
        eq_ignore_ascii_case("NODATA_VALUE"@, header_key(5)),
{
    reveal_strlit("NCOLS");
    reveal_strlit("NROWS");
    reveal_strlit("XLLCORNER");
    reveal_strlit("YLLCORNER");
    reveal_strlit("CELLSIZE");
    reveal_strlit("NODATA_VALUE");
    reveal_strlit("ncols");
    reveal_strlit("nrows");
    reveal_strlit("xllcorner");
    reveal_strlit("yllcorner");
    reveal_strlit("cellsize");
    reveal_strlit("NODATA_value");
    lemma_case_variants_are_equal("NCOLS"@, header_key(0));
    lemma_case_variants_are_equal("NROWS"@, header_key(1));
    lemma_case_variants_are_equal("XLLCORNER"@, header_key(2));
    lemma_case_variants_are_equal("YLLCORNER"@, header_key(3));
    lemma_case_variants_are_equal("CELLSIZE"@, header_key(4));
    lemma_case_variants_are_equal("NODATA_VALUE"@, header_key(5));
}

/// What a scan of an ASCII grid finds, with strings as character
/// sequences.
pub struct AsciiGridScanView {
    /// Value tokens of the well-formed header lines, in order.
    pub header_values: Seq<Seq<char>>,
    /// The message of the first malformed header line, if any.
    pub header_error: Option<Seq<char>>,
    /// The data tokens.
    pub data: Seq<Seq<char>>,
}

/// The scan of `s` from header line `k`, which starts at `i`.
pub open spec fn scan_from(s: Seq<char>, k: nat, i: int) -> AsciiGridScanView
    decreases HEADER_LINES - k,
{
    if k >= HEADER_LINES {
        AsciiGridScanView {
            header_values: seq![],
            header_error: None,
            data: whitespace_tokens(s.subrange(i, s.len() as int)),
        }
    } else {
        match header_line_outcome(s, i, header_key(k as int)) {
            Err(m) => AsciiGridScanView { header_values: seq![], header_error: Some(m), data: seq![] },
            Ok(v) => {
                let rest = scan_from(s, k + 1, next_line_start(s, i));
                AsciiGridScanView {
                    header_values: seq![v] + rest.header_values,
                    header_error: rest.header_error,
                    data: rest.data,
                }
            },
        }
    }
}

/// The scan of a whole ASCII grid text.
pub open spec fn spec_scan(s: Seq<char>) -> AsciiGridScanView {
    scan_from(s, 0, 0)
}

/// The header structure and the tokens of an ASCII grid text.
pub struct AsciiGridScan {
    /// Value tokens of the header lines read before the first malformed
    /// one, in file order: all six when the header is well formed.
    pub header_values: Vec<String>,
    /// The message of the first malformed header line, if any.
    pub header_error: Option<String>,
    /// The data tokens after the header, in file order; empty when the
    /// header is malformed.
    pub data: Vec<String>,
}

impl View for AsciiGridScan {
    type V = AsciiGridScanView;

    open spec fn view(&self) -> AsciiGridScanView {
        AsciiGridScanView {
            header_values: self.header_values.deep_view(),
            header_error: match self.header_error {
                Some(m) => Some(m@),
                None => None,
            },
            data: self.data.deep_view(),
        }
    }
}


/// Calls `format!("{:?}", s)`, which writes `s` as `str`'s `Debug` does:
/// quoted and escaped. Its contract claims only that the result is the
/// named quoting of `s` and depends on `s` alone; the escaping rules are
/// not spelled out.
#[verifier::external_body]
fn debug_quoted(s: &str) -> (r: String)
    ensures
        r@ == str_debug(s@),
{
    format!("{:?}", s)
}

/// The key-mismatch header message built around the quoted key
/// `quoted_key`, the quoted token found `quoted_found` and the quoted
/// line `quoted_line`:
/// `expected key <key>, got <found> (line: <line>)`.
pub fn format_key_mismatch(quoted_key: &str, quoted_found: &str, quoted_line: &str) -> (r: String)
    ensures
        r@ == key_mismatch_text(quoted_key@, quoted_found@, quoted_line@),
{
    let mut m = String::from_str("expected key ");
    m.append(quoted_key);
    m.append(", got ");
    m.append(quoted_found);
    m.append(" (line: ");
    m.append(quoted_line);
    m.append(")");
    m
}

/// The header message for a line whose first token is not `key`.
fn key_mismatch(key: &str, found: &String, line: &String) -> (r: String)
    ensures
        r@ == key_mismatch_message(key@, found@, line@),
{
    let k = debug_quoted(key);
    let f = debug_quoted(found.as_str());
    let l = debug_quoted(line.as_str());
    format_key_mismatch(k.as_str(), f.as_str(), l.as_str())
}

/// The key of header line `k`.
fn header_key_str(k: usize) -> (r: &'static str)
    requires
        k < HEADER_LINES,
    ensures
        r@ == header_key(k as int),
{
    if k == 0 {
        "ncols"
    } else if k == 1 {
        "nrows"
    } else if k == 2 {
        "xllcorner"
    } else if k == 3 {
        "yllcorner"
    } else if k == 4 {
        "cellsize"
    } else {
        "NODATA_value"
    }
}

/// ASCII lower-case code of `c`.
fn lower_code(c: char) -> (r: u32)
    ensures
        r == ascii_lower_code(c),
{
    if 'A' <= c && c <= 'Z' {
        c as u32 + 32
    } else {
        c as u32
    }
}

/// Whether `a` equals `b` ignoring ASCII case.
fn same_ignoring_ascii_case(a: &String, b: &str) -> (r: bool)
    ensures
        r == eq_ignore_ascii_case(a@, b@),
{
    let s = a.as_str();
    let n = s.unicode_len();
    if n != b.unicode_len() {
        return false;
    }
    let mut i: usize = 0;
    while i < n
        invariant
            s@ == a@,
            n == a@.len() == b@.len(),
            i <= n,
            forall|j: int| 0 <= j < i ==> ascii_lower_code(#[trigger] a@[j]) == ascii_lower_code(
                b@[j],
            ),
        decreases n - i,
    {
        if lower_code(s.get_char(i)) != lower_code(b.get_char(i)) {
            assert(ascii_lower_code(a@[i as int]) != ascii_lower_code(b@[i as int]));
            assert(!eq_ignore_ascii_case(a@, b@));
            return false;
        }
        i = i + 1;
    }
    true
}

/// `prefix` followed by `key`.
fn message(prefix: &str, key: &str) -> (r: String)
    ensures
        r@ == prefix@ + key@,
{
    let mut m = String::from_str(prefix);
    m.append(key);
    m
}

/// Reads the header line of `cs` that starts at `i` and should hold
/// `key`: its value token, or the header error message.
fn header_line(cs: &Vec<char>, i: usize, key: &str) -> (r: Result<String, String>)
    requires
        i <= cs.len(),
    ensures
        match r {
            Ok(v) => header_line_outcome(cs@, i as int, key@) == Ok::<Seq<char>, Seq<char>>(v@),
            Err(m) => header_line_outcome(cs@, i as int, key@) == Err::<Seq<char>, Seq<char>>(m@),
        },
{
    if i >= cs.len() {
        return Err(message("missing ", key));
    }
    let (end, _) = line_bounds(cs, i);
    let mut toks = tokenize(cs, i, end);
    if toks.len() == 0 {
        return Err(message("empty line, expected ", key));
    }
    if !same_ignoring_ascii_case(&toks[0], key) {
        let line = string_of(cs, i, end);
        return Err(key_mismatch(key, &toks[0], &line));
    }
    if toks.len() < 2 {
        return Err(message("missing value for ", key));
    }
    Ok(toks.remove(1))
}

/// Reads the header structure and the tokens of an ASCII grid text.
///
/// The header lines are read in order; the first missing or malformed
/// one ends the scan with its message in `header_error`. Number tokens
/// are returned as text: converting them is the caller's.
pub fn scan_ascii_grid(text: &str) -> (r: AsciiGridScan)
    ensures
        r@ == spec_scan(text@),
{
    let cs = chars_of(text);
    let mut header_values: Vec<String> = Vec::new();
    let mut i: usize = 0;
    let mut k: usize = 0;
    proof {
        assert(header_values.deep_view() + spec_scan(cs@).header_values =~= spec_scan(
            cs@,
        ).header_values);
    }
    while k < HEADER_LINES
        invariant
            k <= HEADER_LINES,
            i <= cs.len(),
            cs@ == text@,
            spec_scan(cs@).header_error == scan_from(cs@, k as nat, i as int).header_error,
            spec_scan(cs@).data == scan_from(cs@, k as nat, i as int).data,
            spec_scan(cs@).header_values == header_values.deep_view() + scan_from(
                cs@,
                k as nat,
                i as int,
            ).header_values,
        decreases HEADER_LINES - k,
    {
        match header_line(&cs, i, header_key_str(k)) {
            Err(m) => {
                proof {
                    assert(header_values.deep_view() + Seq::<Seq<char>>::empty()
                        =~= header_values.deep_view());
                }
                let data: Vec<String> = Vec::new();
                assert(data.deep_view() =~= Seq::<Seq<char>>::empty());
                return AsciiGridScan { header_values, header_error: Some(m), data };
            },
            Ok(v) => {
                let ghost before = header_values.deep_view();
                let ghost rest = scan_from(cs@, (k + 1) as nat, next_line_start(cs@, i as int));
                header_values.push(v);
                proof {
                    assert(header_values.deep_view() =~= before.push(v@));
                    assert(before + (seq![v@] + rest.header_values) =~= header_values.deep_view()
                        + rest.header_values);
                }
                let (_, next) = line_bounds(&cs, i);
                i = next;
                k = k + 1;
            },
        }
    }
    let data = tokenize(&cs, i, cs.len());
    proof {
        assert(header_values.deep_view() + Seq::<Seq<char>>::empty()
            =~= header_values.deep_view());
    }
    AsciiGridScan { header_values, header_error: None, data }
}


/// Index of the first `false` of `b`, or `b.len()` when all are `true`.
pub open spec fn first_false(b: Seq<bool>) -> nat
    decreases b.len(),
{
    if b.len() == 0 || !b[0] {
        0
    } else {
        1 + first_false(b.drop_first())
    }
}

proof fn lemma_first_false(b: Seq<bool>, i: int)
    requires
        0 <= i <= b.len(),
        forall|j: int| 0 <= j < i ==> #[trigger] b[j],
        i == b.len() || !b[i],
    ensures
        first_false(b) == i,
    decreases i,
{
    if i > 0 {
        lemma_first_false(b.drop_first(), i - 1);
    }
}

/// Index of the first `false` of `b`.
fn find_first_false(b: &Vec<bool>) -> (r: usize)
    ensures
        r == first_false(b@),
        r <= b.len(),
{
    let mut i: usize = 0;
    while i < b.len() && b[i]
        invariant
            i <= b.len(),
            forall|j: int| 0 <= j < i ==> #[trigger] b@[j],
        decreases b.len() - i,
    {
        i = i + 1;
    }
    proof {
        lemma_first_false(b@, i as int);
    }
    i
}

/// The first error an ASCII grid text holds, in file order, given which
/// of its number tokens are numbers: a header value that is not a
/// number, then a malformed header line, then a data token that is not
/// a number.
pub open spec fn spec_first_grid_error(
    scan: AsciiGridScanView,
    header_is_number: Seq<bool>,
    data_is_number: Seq<bool>,
) -> Option<AsciiGridErrorView> {
    let h = first_false(header_is_number);
    let d = first_false(data_is_number);
    if h < header_is_number.len() {
        Some(AsciiGridErrorView::Parse(scan.header_values[h as int]))
    } else if let Some(m) = scan.header_error {
        Some(AsciiGridErrorView::Header(m))
    } else if d < data_is_number.len() {
        Some(AsciiGridErrorView::Parse(scan.data[d as int]))
    } else {
        None
    }
}

/// The first error of a scanned ASCII grid, in file order, given for
/// each header value and each data token whether it parses as a number:
/// `None` when the text is a well-formed grid of numbers (its value
/// count is checked by [`check_value_count`]).
pub fn first_grid_error(
    scan: &AsciiGridScan,
    header_is_number: &Vec<bool>,
    data_is_number: &Vec<bool>,
) -> (r: Option<AsciiGridError>)
    requires
        header_is_number.len() == scan.header_values.len(),
        data_is_number.len() == scan.data.len(),
    ensures
        match r {
            Some(e) => spec_first_grid_error(scan@, header_is_number@, data_is_number@) == Some(
                e@,
            ),
            None => spec_first_grid_error(scan@, header_is_number@, data_is_number@) == None::<
                AsciiGridErrorView,
            >,
        },
{
    let h = find_first_false(header_is_number);
    if h < header_is_number.len() {
        return Some(AsciiGridError::Parse(scan.header_values[h].clone()));
    }
    match &scan.header_error {
        Some(m) => {
            return Some(AsciiGridError::Header(m.clone()));
        },
        None => {},
    }
    let d = find_first_false(data_is_number);
    if d < data_is_number.len() {
        return Some(AsciiGridError::Parse(scan.data[d].clone()));
    }
    None
}

/// Checks that the data holds `ncols * nrows` values.
pub fn check_value_count(ncols: usize, nrows: usize, found: usize) -> (r: Result<(), AsciiGridError>)
    requires
        ncols * nrows <= usize::MAX,
    ensures
        r is Ok <==> found == ncols * nrows,
        r matches Err(e) ==> e@ == (AsciiGridErrorView::ValueCount {
            expected: (ncols * nrows) as nat,
            found: found as nat,
        }),
{
    let expected = ncols * nrows;
    if found != expected {
        return Err(AsciiGridError::ValueCount { expected, found });
    }
    Ok(())
}


proof fn lemma_scan_from_shape(s: Seq<char>, k: nat, i: int)
    requires
        k <= HEADER_LINES,
    ensures
        scan_from(s, k, i).header_error is None ==> scan_from(s, k, i).header_values.len()
            == HEADER_LINES - k,
        scan_from(s, k, i).header_error is Some ==> scan_from(s, k, i).header_values.len()
            < HEADER_LINES - k && scan_from(s, k, i).data.len() == 0,
    decreases HEADER_LINES - k,
{
    if k < HEADER_LINES {
        lemma_scan_from_shape(s, k + 1, next_line_start(s, i));
    }
}

/// A scan either reads all six header values, or stops at a malformed
/// header line with fewer values and no data tokens.
pub proof fn lemma_scan_shape(s: Seq<char>)
    ensures
        spec_scan(s).header_error is None ==> spec_scan(s).header_values.len() == HEADER_LINES,
        spec_scan(s).header_error is Some ==> spec_scan(s).header_values.len() < HEADER_LINES
            && spec_scan(s).data.len() == 0,
{
    lemma_scan_from_shape(s, 0, 0);
}

/// A text is a well-formed grid of numbers exactly when its header is
/// complete and every header value and data token is a number; the
/// reported error is then `None`.
pub proof fn lemma_no_error_iff_well_formed(
    scan: AsciiGridScanView,
    header_is_number: Seq<bool>,
    data_is_number: Seq<bool>,
)
    ensures
        spec_first_grid_error(scan, header_is_number, data_is_number) is None <==> {
            &&& scan.header_error is None
            &&& forall|j: int| 0 <= j < header_is_number.len() ==> #[trigger] header_is_number[j]
            &&& forall|j: int| 0 <= j < data_is_number.len() ==> #[trigger] data_is_number[j]
        },
{
    lemma_first_false_is_false(header_is_number);
    lemma_first_false_is_false(data_is_number);
}

proof fn lemma_first_false_is_false(b: Seq<bool>)
    ensures
        first_false(b) <= b.len(),
        forall|j: int| 0 <= j < first_false(b) ==> #[trigger] b[j],
        first_false(b) < b.len() ==> !b[first_false(b) as int],
    decreases b.len(),
{
    if b.len() > 0 && b[0] {
        lemma_first_false_is_false(b.drop_first());
        assert forall|j: int| 0 <= j < first_false(b) implies #[trigger] b[j] by {
            if j > 0 {
                assert(b[j] == b.drop_first()[j - 1]);
            }
        }
    }
}

/// The error reported is the first one in file order: a header value
/// that is not a number, before all else the first such one; else the
/// malformed header line's message; else the first data token that is
/// not a number.
pub proof fn lemma_first_error_in_file_order(
    scan: AsciiGridScanView,
    header_is_number: Seq<bool>,
    data_is_number: Seq<bool>,
)
    ensures
        (exists|j: int| 0 <= j < header_is_number.len() && !#[trigger] header_is_number[j])
            ==> exists|h: int|
            0 <= h < header_is_number.len() && !header_is_number[h] && (forall|j: int|
                0 <= j < h ==> #[trigger] header_is_number[j]) && spec_first_grid_error(
                scan,
                header_is_number,
                data_is_number,
            ) == Some(AsciiGridErrorView::Parse(scan.header_values[h])),
        (forall|j: int| 0 <= j < header_is_number.len() ==> #[trigger] header_is_number[j])
            && scan.header_error is Some ==> spec_first_grid_error(
            scan,
            header_is_number,
            data_is_number,
        ) == Some(AsciiGridErrorView::Header(scan.header_error->0)),
        (forall|j: int| 0 <= j < header_is_number.len() ==> #[trigger] header_is_number[j])
            && scan.header_error is None && (exists|j: int|
            0 <= j < data_is_number.len() && !#[trigger] data_is_number[j]) ==> exists|d: int|
            0 <= d < data_is_number.len() && !data_is_number[d] && (forall|j: int|
                0 <= j < d ==> #[trigger] data_is_number[j]) && spec_first_grid_error(
                scan,
                header_is_number,
                data_is_number,
            ) == Some(AsciiGridErrorView::Parse(scan.data[d])),
{
    lemma_first_false_is_false(header_is_number);
    lemma_first_false_is_false(data_is_number);
    let h = first_false(header_is_number) as int;
    let d = first_false(data_is_number) as int;
    if exists|j: int| 0 <= j < header_is_number.len() && !#[trigger] header_is_number[j] {
        let j = choose|j: int| 0 <= j < header_is_number.len() && !#[trigger] header_is_number[j];
        assert(h < header_is_number.len());
        assert(!header_is_number[h]);
    }
    if forall|j: int| 0 <= j < header_is_number.len() ==> #[trigger] header_is_number[j] {
        if h < header_is_number.len() {
            assert(header_is_number[h]);
        }
    }
    if exists|j: int| 0 <= j < data_is_number.len() && !#[trigger] data_is_number[j] {
        let j = choose|j: int| 0 <= j < data_is_number.len() && !#[trigger] data_is_number[j];
        assert(d < data_is_number.len());
        assert(!data_is_number[d]);
    }
}

/// The header line rule. Past the end of the text the line is missing;
/// otherwise, with the line's text (its terminator excluded) split into
/// whitespace-separated tokens: no token is an empty line, a first
/// token other than the key (ignoring ASCII case) is a key mismatch
/// quoting the key, the token and the line, a lone key lacks its value,
/// and a key followed by a token gives that token as the value (any
/// further tokens are ignored).
pub proof fn lemma_header_line_rule(s: Seq<char>, i: int, key: Seq<char>)
    ensures
        i >= s.len() ==> header_line_outcome(s, i, key) == Err::<Seq<char>, Seq<char>>(
            "missing "@ + key,
        ),
        ({
            let line = s.subrange(i, line_content_end(s, i));
            let toks = whitespace_tokens(line);
            &&& i < s.len() && toks.len() == 0 ==> header_line_outcome(s, i, key) == Err::<
                Seq<char>,
                Seq<char>,
            >("empty line, expected "@ + key)
            &&& i < s.len() && toks.len() > 0 && !eq_ignore_ascii_case(toks[0], key)
                ==> header_line_outcome(s, i, key) == Err::<Seq<char>, Seq<char>>(
                "expected key "@ + str_debug(key) + ", got "@ + str_debug(toks[0]) + " (line: "@
                    + str_debug(line) + ")"@,
            )
            &&& i < s.len() && toks.len() == 1 && eq_ignore_ascii_case(toks[0], key)
                ==> header_line_outcome(s, i, key) == Err::<Seq<char>, Seq<char>>(
                "missing value for "@ + key,
            )
            &&& i < s.len() && toks.len() >= 2 && eq_ignore_ascii_case(toks[0], key)
                ==> header_line_outcome(s, i, key) == Ok::<Seq<char>, Seq<char>>(toks[1])
        }),
{
}

} // verus!
