//! Output formatting: one text line per hashed unit.
//!
//! Two configurations exist. `Sum` renders `<hex-digest>  <label>` with a
//! two-space separator, as conventional checksum tools do. `Csv` renders
//! `<hex-digest>,<escaped-label>`, where a label containing a comma is
//! wrapped in double quotes with internal double quotes doubled; CSV output
//! opens with the single header line `hash,filename`.

use crate::strutil::push_char;
use vstd::prelude::*;

verus! {

/// The two output line formats.
#[derive(Debug, Clone, Copy, PartialEq, Eq, Structural)]
pub enum PrintFormat {
    /// Hash and filename, as checksum tools print them.
    Sum,
    /// Comma-separated values under a `hash,filename` header.
    Csv,
}

/// Whether the text holds a comma anywhere.
pub open spec fn contains_comma(s: Seq<char>) -> bool {
    exists|i: int| 0 <= i < s.len() && s[i] == ','
}

/// The text with every double quote doubled.
pub open spec fn doubled_quotes(s: Seq<char>) -> Seq<char>
    decreases s.len(),
{
    if s.len() == 0 {
        Seq::empty()
    } else if s.first() == '"' {
        seq!['"', '"'] + doubled_quotes(s.drop_first())
    } else {
        seq![s.first()] + doubled_quotes(s.drop_first())
    }
}

/// CSV escaping: a text with a comma is wrapped in double quotes and its
/// internal double quotes are doubled; any other text passes unchanged.
pub open spec fn escape_csv_text(s: Seq<char>) -> Seq<char> {
    if contains_comma(s) {
        seq!['"'] + doubled_quotes(s) + seq!['"']
    } else {
        s
    }
}

/// The `Sum` line for a rendered digest and a label: two spaces between.
pub open spec fn sum_line(digest_hex: Seq<char>, label: Seq<char>) -> Seq<char> {
    digest_hex + seq![' ', ' '] + label
}

/// The `Csv` line for a rendered digest and a label: a comma between, the
/// label escaped.
pub open spec fn csv_line(digest_hex: Seq<char>, label: Seq<char>) -> Seq<char> {
    digest_hex + seq![','] + escape_csv_text(label)
}

/// The output line of the chosen format.
pub open spec fn line_for(fmt: PrintFormat, digest_hex: Seq<char>, label: Seq<char>) -> Seq<char> {
    match fmt {
        PrintFormat::Sum => sum_line(digest_hex, label),
        PrintFormat::Csv => csv_line(digest_hex, label),
    }
}

/// The CSV header line, before any result line.
pub open spec fn csv_header_text() -> Seq<char> {
    seq!['h', 'a', 's', 'h', ',', 'f', 'i', 'l', 'e', 'n', 'a', 'm', 'e']
}

/// Escapes a label for a CSV field: quoted, with quotes doubled, exactly
/// when the label holds a comma.
pub fn escape_csv(s: &str) -> (r: String)
    ensures
        r@ == escape_csv_text(s@),
{
    let n = s.unicode_len();
    let mut has_comma = false;
    let mut i: usize = 0;
    while i < n
        invariant
            i <= n,
            n == s@.len(),
            has_comma <==> exists|t: int| 0 <= t < i && s@[t] == ',',
        decreases n - i,
    {
        if s.get_char(i) == ',' {
            has_comma = true;
        }
        i = i + 1;
    }
    if !has_comma {
        return s.to_owned();
    }
    let mut out = String::new();
    push_char(&mut out, '"');
    let mut i: usize = 0;
    assert(s@.skip(0) == s@);
    while i < n
        invariant
            i <= n,
            n == s@.len(),
            seq!['"'] + doubled_quotes(s@) =~= out@ + doubled_quotes(s@.skip(i as int)),
        decreases n - i,
    {
        let c = s.get_char(i);
        push_char(&mut out, c);
        if c == '"' {
            push_char(&mut out, '"');
        }
        assert(s@.skip(i as int).drop_first() == s@.skip(i + 1));
        i = i + 1;
    }
    push_char(&mut out, '"');
    proof {
        assert(out@ =~= seq!['"'] + doubled_quotes(s@) + seq!['"']);
    }
    out
}

/// Escapes a display path for a CSV field.
pub fn escaped_display(path: &str) -> (r: String)
    ensures
        r@ == escape_csv_text(path@),
{
    escape_csv(path)
}

/// Renders one output line from a rendered digest and a label, in the
/// chosen format.
pub fn format_line(fmt: PrintFormat, digest_hex: &str, label: &str) -> (r: String)
    ensures
        r@ == line_for(fmt, digest_hex@, label@),
{
    match fmt {
        PrintFormat::Sum => {
            let mut out = digest_hex.to_owned();
            out.append("  ");
            out.append(label);
            proof {
                reveal_strlit("  ");
                assert(("  ")@ =~= seq![' ', ' ']);
            }
            out
        },
        PrintFormat::Csv => {
            let mut out = digest_hex.to_owned();
            out.append(",");
            let escaped = escape_csv(label);
            out.append(escaped.as_str());
            proof {
                reveal_strlit(",");
                assert((",")@ =~= seq![',']);
            }
            out
        },
    }
}

/// The CSV header line.
pub fn csv_header() -> (r: String)
    ensures
        r@ == csv_header_text(),
{
    let r = "hash,filename".to_owned();
    proof {
        reveal_strlit("hash,filename");
        assert(r@ =~= csv_header_text());
    }
    r
}

} // verus!
