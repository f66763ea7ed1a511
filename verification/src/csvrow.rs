//! Field splitting for one delimited text record: a configurable field
//! delimiter and quote character, doubled-quote escapes inside quoted
//! fields, and a per-record malformedness verdict (a quote left open, or
//! a closing quote followed by anything but a delimiter).

use vstd::prelude::*;

use crate::text::chars_to_string;

verus! {

/// Where the field scanner stands inside one record.
pub enum LineMode {
    /// At the start of a field.
    AtFieldStart,
    /// Inside an unquoted field.
    Unquoted,
    /// Inside a quoted field.
    Quoted,
    /// Just after a quote character inside a quoted field: either the
    /// field's closing quote or the first half of a doubled escape.
    AfterQuote,
    /// The record's quoting is malformed.
    Malformed,
}

/// The scanner's full state: finished fields, the field being read, and
/// the mode.
pub struct LineState {
    pub fields: Seq<Seq<char>>,
    pub cur: Seq<char>,
    pub mode: LineMode,
}

/// State before any character was read.
pub open spec fn line_init() -> LineState {
    LineState { fields: Seq::empty(), cur: Seq::empty(), mode: LineMode::AtFieldStart }
}

/// One character of a record, fed to the scanner.  The quote character
/// is recognized first, then the delimiter; in an unquoted field a quote
/// character is an ordinary character.
pub open spec fn line_step(st: LineState, c: char, delim: char, quote: char) -> LineState {
    match st.mode {
        LineMode::AtFieldStart => {
            if c == quote {
                LineState { fields: st.fields, cur: st.cur, mode: LineMode::Quoted }
            } else if c == delim {
                LineState {
                    fields: st.fields.push(st.cur),
                    cur: Seq::empty(),
                    mode: LineMode::AtFieldStart,
                }
            } else {
                LineState { fields: st.fields, cur: st.cur.push(c), mode: LineMode::Unquoted }
            }
        },
        LineMode::Unquoted => {
            if c == delim {
                LineState {
                    fields: st.fields.push(st.cur),
                    cur: Seq::empty(),
                    mode: LineMode::AtFieldStart,
                }
            } else {
                LineState { fields: st.fields, cur: st.cur.push(c), mode: LineMode::Unquoted }
            }
        },
        LineMode::Quoted => {
            if c == quote {
                LineState { fields: st.fields, cur: st.cur, mode: LineMode::AfterQuote }
            } else {
                LineState { fields: st.fields, cur: st.cur.push(c), mode: LineMode::Quoted }
            }
        },
        LineMode::AfterQuote => {
            if c == quote {
                LineState { fields: st.fields, cur: st.cur.push(c), mode: LineMode::Quoted }
            } else if c == delim {
                LineState {
                    fields: st.fields.push(st.cur),
                    cur: Seq::empty(),
                    mode: LineMode::AtFieldStart,
                }
            } else {
                LineState { fields: st.fields, cur: st.cur, mode: LineMode::Malformed }
            }
        },
        LineMode::Malformed => st,
    }
}

/// The scanner's state after the whole record was read.
pub open spec fn line_run(s: Seq<char>, delim: char, quote: char) -> LineState
    decreases s.len(),
{
    if s.len() == 0 {
        line_init()
    } else {
        line_step(line_run(s.drop_last(), delim, quote), s.last(), delim, quote)
    }
}

/// The fields of one record, or nothing when its quoting is malformed:
/// an unterminated quote, or a closing quote followed by anything but a
/// delimiter.
pub open spec fn spec_parse_line(s: Seq<char>, delim: char, quote: char) -> Option<Seq<Seq<char>>> {
    let st = line_run(s, delim, quote);
    match st.mode {
        LineMode::Quoted => None,
        LineMode::Malformed => None,
        _ => Some(st.fields.push(st.cur)),
    }
}

/// Once the scanner finds a record malformed, reading on does not mend
/// it.
proof fn lemma_malformed_sticks(s: Seq<char>, delim: char, quote: char, j: int)
    requires
        0 <= j <= s.len(),
        line_run(s.take(j), delim, quote).mode is Malformed,
    ensures
        line_run(s, delim, quote).mode is Malformed,
    decreases s.len() - j,
{
    if j < s.len() {
        assert(s.take(j + 1).drop_last() =~= s.take(j));
        assert(s.take(j + 1).last() == s[j]);
        lemma_malformed_sticks(s, delim, quote, j + 1);
    } else {
        assert(s.take(j) =~= s);
    }
}

/// The strings a vector of strings abstracts to, element by element.
pub open spec fn strs_of(v: Seq<String>) -> Seq<Seq<char>> {
    v.map_values(|s: String| s@)
}

/// Splits one record into its fields, or reports it malformed.
pub fn parse_line(line: &Vec<char>, delim: char, quote: char) -> (r: Option<Vec<String>>)
    ensures
        r is Some <==> spec_parse_line(line@, delim, quote) is Some,
        r matches Some(fields) ==> Some(strs_of(fields@)) == spec_parse_line(line@, delim, quote),
{
    let mut fields: Vec<String> = Vec::new();
    let mut cur: Vec<char> = Vec::new();
    let mut quoted = false;
    let mut after_quote = false;
    let mut i: usize = 0;
    while i < line.len()
        invariant
            i <= line@.len(),
            !(quoted && after_quote),
            strs_of(fields@) == line_run(line@.take(i as int), delim, quote).fields,
            cur@ == line_run(line@.take(i as int), delim, quote).cur,
            line_run(line@.take(i as int), delim, quote).mode == (if quoted {
                LineMode::Quoted
            } else if after_quote {
                LineMode::AfterQuote
            } else if cur@.len() == 0 {
                LineMode::AtFieldStart
            } else {
                LineMode::Unquoted
            }),
        decreases line@.len() - i,
    {
        proof {
            assert(line@.take(i + 1).drop_last() =~= line@.take(i as int));
            assert(line@.take(i + 1).last() == line@[i as int]);
        }
        let c = line[i];
        if quoted {
            if c == quote {
                quoted = false;
                after_quote = true;
            } else {
                cur.push(c);
            }
        } else if after_quote {
            if c == quote {
                cur.push(c);
                after_quote = false;
                quoted = true;
            } else if c == delim {
                let s = chars_to_string(&cur);
                fields.push(s);
                cur = Vec::new();
                after_quote = false;
                proof {
                    assert(strs_of(fields@) =~= line_run(line@.take(i + 1), delim, quote).fields);
                }
            } else {
                proof {
                    lemma_malformed_sticks(line@, delim, quote, i + 1);
                }
                return None;
            }
        } else {
            if c == quote && cur.len() == 0 {
                quoted = true;
            } else if c == delim {
                let s = chars_to_string(&cur);
                fields.push(s);
                cur = Vec::new();
                proof {
                    assert(strs_of(fields@) =~= line_run(line@.take(i + 1), delim, quote).fields);
                }
            } else {
                cur.push(c);
            }
        }
        i = i + 1;
    }
    proof {
        assert(line@.take(line@.len() as int) =~= line@);
    }
    if quoted {
        return None;
    }
    let s = chars_to_string(&cur);
    fields.push(s);
    proof {
        let st = line_run(line@, delim, quote);
        assert(strs_of(fields@) =~= st.fields.push(st.cur));
    }
    Some(fields)
}

} // verus!
