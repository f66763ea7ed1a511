//! Pipeline orchestration, the pre-dispatch half: decode the byte
//! source into a table, batch the rows into chunks, and report the
//! totals the progress display needs.  The chunk count is known before
//! any upload starts.

use vstd::prelude::*;

use crate::batch::chunk_rows;
use crate::batch::seqs_of;
use crate::batch::spec_chunks;
use crate::csvrow::strs_of;
use crate::decode::DecodeError;
use crate::decode::decode_bytes;
use crate::decode::decode_table;
use crate::decode::decoded_chars;
use crate::decode::nonempty_lines;
use crate::decode::spec_table;

verus! {

/// Everything decoding and batching produced for one run: the header,
/// the chunks in file order, how many malformed rows were skipped, and
/// the total row count.
#[derive(Debug)]
pub struct UploadPlan {
    pub header: Vec<String>,
    pub chunks: Vec<Vec<Vec<String>>>,
    pub skipped: usize,
    pub total_rows: usize,
}

/// The nested text a chunk vector abstracts to.
pub open spec fn chunks_view(ch: Seq<Vec<Vec<String>>>) -> Seq<Seq<Seq<Seq<char>>>> {
    ch.map_values(|c: Vec<Vec<String>>| c@.map_values(|row: Vec<String>| strs_of(row@)))
}

/// Batching commutes with mapping the rows: chunking a mapped sequence
/// is mapping each chunk of the original.
pub proof fn lemma_chunks_map<A, B>(s: Seq<A>, c: int, f: spec_fn(A) -> B)
    requires
        c >= 1,
    ensures
        spec_chunks(s, c).map_values(|ch: Seq<A>| ch.map_values(f)) == spec_chunks(
            s.map_values(f),
            c,
        ),
    decreases s.len(),
{
    let g = |ch: Seq<A>| ch.map_values(f);
    if s.len() == 0 {
        assert(spec_chunks(s, c).map_values(g) =~= spec_chunks(s.map_values(f), c));
    } else if s.len() <= c {
        assert(spec_chunks(s, c) =~= seq![s]);
        assert(spec_chunks(s.map_values(f), c) =~= seq![s.map_values(f)]);
        assert(spec_chunks(s, c).map_values(g) =~= spec_chunks(s.map_values(f), c));
    } else {
        lemma_chunks_map(s.skip(c), c, f);
        assert(s.map_values(f).take(c) =~= s.take(c).map_values(f));
        assert(s.map_values(f).skip(c) =~= s.skip(c).map_values(f));
        assert(spec_chunks(s.map_values(f), c) == seq![s.map_values(f).take(c)] + spec_chunks(
            s.map_values(f).skip(c),
            c,
        ));
        assert(spec_chunks(s, c).map_values(g) =~= spec_chunks(s.map_values(f), c));
    }
}

/// Decodes the byte source under the configured encoding, parses it
/// into a table, and batches the rows into chunks of `chunk_size`.
/// Malformed rows are skipped and counted; a missing or malformed
/// header is the only fatal decode outcome.
pub fn plan_upload(
    bytes: &Vec<u8>,
    windows: bool,
    delim: char,
    quote: char,
    chunk_size: usize,
) -> (r: Result<UploadPlan, DecodeError>)
    requires
        chunk_size >= 1,
        bytes@.len() < 0x1000_0000_0000_0000,
    ensures
        r is Ok <==> spec_table(decoded_chars(windows, bytes@), delim, quote) is Ok,
        r matches Err(e) ==> spec_table(decoded_chars(windows, bytes@), delim, quote) == Result::<
            (Seq<Seq<char>>, Seq<Seq<Seq<char>>>),
            DecodeError,
        >::Err(e),
        r matches Ok(p) ==> {
            &&& spec_table(decoded_chars(windows, bytes@), delim, quote) matches Ok(t)
            &&& strs_of(p.header@) == t.0
            &&& chunks_view(p.chunks@) == spec_chunks(t.1, chunk_size as int)
            &&& p.total_rows == t.1.len()
            &&& p.skipped + p.total_rows + 1 == nonempty_lines(
                decoded_chars(windows, bytes@),
            ).len()
        },
{
    let text = decode_bytes(windows, bytes);
    let table = match decode_table(&text, delim, quote) {
        Err(e) => {
            return Err(e);
        },
        Ok(t) => t,
    };
    let ghost t = spec_table(decoded_chars(windows, bytes@), delim, quote)->Ok_0;
    let ghost rowsv = table.rows@;
    let total_rows = table.rows.len();
    let header = table.header;
    let skipped = table.skipped;
    let chunks = chunk_rows(table.rows, chunk_size);
    proof {
        let f = |row: Vec<String>| strs_of(row@);
        assert(t.1 == rowsv.map_values(f));
        lemma_chunks_map::<Vec<String>, Seq<Seq<char>>>(rowsv, chunk_size as int, f);
        assert(chunks_view(chunks@) =~= seqs_of(chunks@).map_values(
            (|cs: Seq<Vec<String>>| cs.map_values(f)),
        ));
        assert(seqs_of(chunks@).map_values((|cs: Seq<Vec<String>>| cs.map_values(f)))
            =~= spec_chunks(rowsv, chunk_size as int).map_values(
            (|ch: Seq<Vec<String>>| ch.map_values(f)),
        ));
        assert(chunks_view(chunks@) == spec_chunks(t.1, chunk_size as int));
    }
    Ok(UploadPlan { header, chunks, skipped, total_rows })
}

} // verus!
