//! Decoder: turns a byte source in the configured character encoding
//! into text, splits the text into records, and parses each record's
//! fields — exactly one header record followed by data rows.  Malformed
//! rows (bad quoting, wrong field count) are skipped, not fatal.

use vstd::prelude::*;

use crate::csvrow::spec_parse_line;
use crate::csvrow::parse_line;
use crate::csvrow::strs_of;

verus! {

/// The character sequence that Unicode decoding yields for a byte
/// sequence: BOM-sniffed, malformed sequences replaced.
pub uninterp spec fn utf8_chars_of(b: Seq<u8>) -> Seq<char>;

/// The character sequence that the fixed legacy single-byte (windows-1252)
/// decoding yields for a byte sequence.
pub uninterp spec fn w1252_chars_of(b: Seq<u8>) -> Seq<char>;

/// Relies on `encoding_rs::UTF_8.decode`: the whole buffer decoded in
/// one call, a function of the bytes alone; empty input decodes to
/// empty output.
#[verifier::external_body]
fn decode_utf8(bytes: &Vec<u8>) -> (r: Vec<char>)
    requires
        bytes@.len() < 0x1000_0000_0000_0000,
    ensures
        r@ == utf8_chars_of(bytes@),
        bytes@.len() == 0 ==> r@.len() == 0,
{
    let (text, _, _) = encoding_rs::UTF_8.decode(bytes.as_slice());
    text.chars().collect()
}

/// Relies on `encoding_rs::WINDOWS_1252.decode`: the whole buffer
/// decoded in one call, a function of the bytes alone; empty input
/// decodes to empty output.
#[verifier::external_body]
fn decode_w1252(bytes: &Vec<u8>) -> (r: Vec<char>)
    requires
        bytes@.len() < 0x1000_0000_0000_0000,
    ensures
        r@ == w1252_chars_of(bytes@),
        bytes@.len() == 0 ==> r@.len() == 0,
{
    let (text, _, _) = encoding_rs::WINDOWS_1252.decode(bytes.as_slice());
    text.chars().collect()
}

/// The text a byte source decodes to under the closed encoding choice:
/// the legacy single-byte encoding when `windows` is set, Unicode
/// otherwise.
pub open spec fn decoded_chars(windows: bool, b: Seq<u8>) -> Seq<char> {
    if windows {
        w1252_chars_of(b)
    } else {
        utf8_chars_of(b)
    }
}

/// Transcodes the byte source under the configured encoding.
pub fn decode_bytes(windows: bool, bytes: &Vec<u8>) -> (r: Vec<char>)
    requires
        bytes@.len() < 0x1000_0000_0000_0000,
    ensures
        r@ == decoded_chars(windows, bytes@),
{
    if windows {
        decode_w1252(bytes)
    } else {
        decode_utf8(bytes)
    }
}

/// The line splitter's state: finished records and the record being
/// read.
pub struct SplitState {
    pub lines: Seq<Seq<char>>,
    pub cur: Seq<char>,
}

/// A record stripped of one trailing carriage return.
pub open spec fn strip_cr(l: Seq<char>) -> Seq<char> {
    if l.len() > 0 && l.last() == '\r' {
        l.drop_last()
    } else {
        l
    }
}

/// One character fed to the line splitter: a newline ends the record,
/// any other character extends it.
pub open spec fn split_step(st: SplitState, c: char) -> SplitState {
    if c == '\n' {
        SplitState { lines: st.lines.push(strip_cr(st.cur)), cur: Seq::empty() }
    } else {
        SplitState { lines: st.lines, cur: st.cur.push(c) }
    }
}

/// The line splitter's state after the whole text was read.
pub open spec fn split_run(s: Seq<char>) -> SplitState
    decreases s.len(),
{
    if s.len() == 0 {
        SplitState { lines: Seq::empty(), cur: Seq::empty() }
    } else {
        split_step(split_run(s.drop_last()), s.last())
    }
}

/// The records of a text: split at newlines, each record stripped of one
/// trailing carriage return; a trailing record without a final newline
/// counts too.
pub open spec fn spec_lines(s: Seq<char>) -> Seq<Seq<char>> {
    let st = split_run(s);
    if st.cur.len() > 0 {
        st.lines.push(strip_cr(st.cur))
    } else {
        st.lines
    }
}

/// Splits text into records at newlines, stripping one trailing
/// carriage return from each.
pub fn split_lines(text: &Vec<char>) -> (r: Vec<Vec<char>>)
    ensures
        r@.map_values(|v: Vec<char>| v@) == spec_lines(text@),
{
    let mut lines: Vec<Vec<char>> = Vec::new();
    let mut cur: Vec<char> = Vec::new();
    let mut i: usize = 0;
    while i < text.len()
        invariant
            i <= text@.len(),
            lines@.map_values(|v: Vec<char>| v@) == split_run(text@.take(i as int)).lines,
            cur@ == split_run(text@.take(i as int)).cur,
        decreases text@.len() - i,
    {
        proof {
            assert(text@.take(i + 1).drop_last() =~= text@.take(i as int));
            assert(text@.take(i + 1).last() == text@[i as int]);
        }
        let c = text[i];
        if c == '\n' {
            if cur.len() > 0 && cur[cur.len() - 1] == '\r' {
                cur.pop();
            }
            proof {
                assert(cur@ =~= strip_cr(split_run(text@.take(i as int)).cur));
            }
            lines.push(cur);
            cur = Vec::new();
            proof {
                assert(lines@.map_values(|v: Vec<char>| v@) =~= split_run(
                    text@.take(i + 1),
                ).lines);
            }
        } else {
            cur.push(c);
        }
        i = i + 1;
    }
    proof {
        assert(text@.take(text@.len() as int) =~= text@);
    }
    if cur.len() > 0 {
        if cur[cur.len() - 1] == '\r' {
            cur.pop();
        }
        proof {
            assert(cur@ =~= strip_cr(split_run(text@).cur));
        }
        lines.push(cur);
        proof {
            assert(lines@.map_values(|v: Vec<char>| v@) =~= spec_lines(text@));
        }
    }
    lines
}

/// Why decoding could not produce a table at all.
#[derive(Debug, Clone, Copy, PartialEq, Eq, Structural)]
pub enum DecodeError {
    /// The source holds no record: nothing to read a header from.
    MissingHeader,
    /// The header record's quoting is malformed.
    MalformedHeader,
}

/// The decoded table: the header's field names, the well-formed data
/// rows in file order, and how many malformed rows were skipped.
#[derive(Debug)]
pub struct DecodedTable {
    pub header: Vec<String>,
    pub rows: Vec<Vec<String>>,
    pub skipped: usize,
}

/// The records of the text that hold at least one character: blank
/// separator lines carry no row.
pub open spec fn nonempty_lines(text: Seq<char>) -> Seq<Seq<char>> {
    spec_lines(text).filter(|l: Seq<char>| l.len() > 0)
}

/// The well-formed data rows among `lines`: each parsed record whose
/// field count matches the header's; malformed records and records of
/// the wrong width are dropped.
pub open spec fn spec_kept_rows(lines: Seq<Seq<char>>, hlen: int, delim: char, quote: char) -> Seq<
    Seq<Seq<char>>,
>
    decreases lines.len(),
{
    if lines.len() == 0 {
        Seq::empty()
    } else {
        let rest = spec_kept_rows(lines.drop_last(), hlen, delim, quote);
        match spec_parse_line(lines.last(), delim, quote) {
            Some(f) => if f.len() == hlen {
                rest.push(f)
            } else {
                rest
            },
            None => rest,
        }
    }
}

/// What decoding a text yields: the header fields and the kept data
/// rows, or why no table could be read.
pub open spec fn spec_table(text: Seq<char>, delim: char, quote: char) -> Result<
    (Seq<Seq<char>>, Seq<Seq<Seq<char>>>),
    DecodeError,
> {
    let lines = nonempty_lines(text);
    if lines.len() == 0 {
        Err(DecodeError::MissingHeader)
    } else {
        match spec_parse_line(lines[0], delim, quote) {
            None => Err(DecodeError::MalformedHeader),
            Some(h) => Ok((h, spec_kept_rows(lines.skip(1), h.len() as int, delim, quote))),
        }
    }
}

/// Parses decoded text into a table: exactly one header record, then
/// the data rows.  A malformed data row — bad quoting or a field count
/// different from the header's — is skipped and counted, never fatal; a
/// missing or malformed header is fatal.
pub fn decode_table(text: &Vec<char>, delim: char, quote: char) -> (r: Result<
    DecodedTable,
    DecodeError,
>)
    ensures
        r is Ok <==> spec_table(text@, delim, quote) is Ok,
        r matches Err(e) ==> spec_table(text@, delim, quote) == Result::<
            (Seq<Seq<char>>, Seq<Seq<Seq<char>>>),
            DecodeError,
        >::Err(e),
        r matches Ok(t) ==> {
            &&& spec_table(text@, delim, quote) matches Ok(p)
            &&& strs_of(t.header@) == p.0
            &&& t.rows@.map_values(|row: Vec<String>| strs_of(row@)) == p.1
            &&& t.skipped + t.rows@.len() + 1 == nonempty_lines(text@).len()
        },
{
    let lines = split_lines(text);
    let ghost all = spec_lines(text@);
    let mut cand: Vec<Vec<char>> = Vec::new();
    let mut i: usize = 0;
    while i < lines.len()
        invariant
            i <= lines@.len(),
            all == lines@.map_values(|v: Vec<char>| v@),
            cand@.map_values(|v: Vec<char>| v@) == all.take(i as int).filter(
                |l: Seq<char>| l.len() > 0,
            ),
        decreases lines@.len() - i,
    {
        proof {
            reveal(Seq::filter);
            assert(all.take(i + 1).drop_last() =~= all.take(i as int));
            assert(all.take(i + 1).last() == all[i as int]);
        }
        let line = &lines[i];
        if line.len() > 0 {
            let owned = lines[i].clone();
            proof {
                assert(owned@ == all[i as int]);
            }
            cand.push(owned);
            proof {
                assert(cand@.map_values(|v: Vec<char>| v@) =~= all.take(i + 1).filter(
                    |l: Seq<char>| l.len() > 0,
                ));
            }
        }
        i = i + 1;
    }
    proof {
        assert(all.take(all.len() as int) =~= all);
    }
    let ghost cs = nonempty_lines(text@);
    if cand.len() == 0 {
        return Err(DecodeError::MissingHeader);
    }
    let header = match parse_line(&cand[0], delim, quote) {
        None => {
            return Err(DecodeError::MalformedHeader);
        },
        Some(h) => h,
    };
    let hlen = header.len();
    let mut rows: Vec<Vec<String>> = Vec::new();
    let mut skipped: usize = 0;
    let mut j: usize = 1;
    while j < cand.len()
        invariant
            1 <= j <= cand@.len(),
            cs == cand@.map_values(|v: Vec<char>| v@),
            hlen == header@.len(),
            Some(strs_of(header@)) == spec_parse_line(cs[0], delim, quote),
            rows@.map_values(|row: Vec<String>| strs_of(row@)) == spec_kept_rows(
                cs.subrange(1, j as int),
                hlen as int,
                delim,
                quote,
            ),
            skipped + rows@.len() + 1 == j,
        decreases cand@.len() - j,
    {
        proof {
            assert(cs.subrange(1, j + 1).drop_last() =~= cs.subrange(1, j as int));
            assert(cs.subrange(1, j + 1).last() == cs[j as int]);
        }
        match parse_line(&cand[j], delim, quote) {
            Some(f) => {
                if f.len() == hlen {
                    rows.push(f);
                    proof {
                        assert(rows@.map_values(|row: Vec<String>| strs_of(row@))
                            =~= spec_kept_rows(
                            cs.subrange(1, j + 1),
                            hlen as int,
                            delim,
                            quote,
                        ));
                    }
                } else {
                    skipped = skipped + 1;
                }
            },
            None => {
                skipped = skipped + 1;
            },
        }
        j = j + 1;
    }
    proof {
        assert(cs.subrange(1, cs.len() as int) =~= cs.skip(1));
    }
    Ok(DecodedTable { header, rows, skipped })
}

/// Decoding is a function of the byte source and the configuration
/// alone: two decodes of the same text under the same delimiter and
/// quote yield the identical header and row sequence.
pub proof fn lemma_decoding_idempotent(
    text: Seq<char>,
    delim: char,
    quote: char,
    t1: Result<(Seq<Seq<char>>, Seq<Seq<Seq<char>>>), DecodeError>,
    t2: Result<(Seq<Seq<char>>, Seq<Seq<Seq<char>>>), DecodeError>,
)
    requires
        t1 == spec_table(text, delim, quote),
        t2 == spec_table(text, delim, quote),
    ensures
        t1 == t2,
{
}

} // verus!
