//! Encoding of one record as a CSV line.
//!
//! The fields this monitor writes — header words and decimal numbers — hold
//! no delimiter, quote or line break, so the tabular writer emits them
//! verbatim, separated by commas and ended by a newline.  That statement is
//! proved about every line the library hands out.

use vstd::prelude::*;
use crate::numfmt::{is_digit_char, lemma_centi_chars, lemma_decimal_chars};
use crate::row::{
    Sample,
    fields_view,
    header_fields,
    sample_fields,
    spec_header_fields,
    spec_sample_fields,
};

verus! {

/// A field that the tabular writer passes through verbatim: non-empty and
/// free of the delimiter, the quote and both line-break characters.
pub open spec fn simple_field(s: Seq<char>) -> bool {
    &&& s.len() > 0
    &&& forall|i: int|
        0 <= i < s.len() ==> #[trigger] s[i] != ',' && s[i] != '"' && s[i] != '\n' && s[i] != '\r'
}

/// The CSV line for a record of simple fields: the fields verbatim, joined
/// by commas, with a single trailing newline.
pub open spec fn spec_csv_line(fields: Seq<Seq<char>>) -> Seq<char>
    decreases fields.len(),
{
    if fields.len() <= 1 {
        (if fields.len() == 1 {
            fields[0]
        } else {
            Seq::empty()
        }) + seq!['\n']
    } else {
        fields[0] + seq![','] + spec_csv_line(fields.drop_first())
    }
}

/// Relies on `csv::Writer` with its default configuration: delimiter `,`,
/// terminator `\n`, and quoting only where a field holds a delimiter, a
/// quote or a line break.  A record of non-empty fields free of those
/// characters is therefore written verbatim, comma-separated, with one
/// trailing newline; and writing into an in-memory buffer cannot fail.
#[verifier::external_body]
fn csv_encode_record(fields: &Vec<String>) -> (r: String)
    requires
        fields@.len() >= 1,
        forall|i: int| 0 <= i < fields@.len() ==> simple_field(#[trigger] fields@[i]@),
    ensures
        r@ == spec_csv_line(fields_view(fields@)),
{
    let mut w = csv::Writer::from_writer(Vec::<u8>::new());
    w.write_record(fields.iter())
        .expect("an in-memory csv write does not fail");
    let buf = w.into_inner().expect("an in-memory csv flush does not fail");
    String::from_utf8(buf).expect("csv output of utf-8 fields is utf-8")
}

/// Every header field is simple.
proof fn lemma_header_fields_simple(network: bool)
    ensures
        forall|i: int|
            0 <= i < spec_header_fields(network).len() ==> simple_field(
                #[trigger] spec_header_fields(network)[i],
            ),
{
    reveal_strlit("Elapsed time");
    reveal_strlit("CPU (%)");
    reveal_strlit("Real memory (MB)");
    reveal_strlit("Virtual memory (MB)");
    reveal_strlit("IO Write (MB)");
    reveal_strlit("IO Read (MB)");
    reveal_strlit("Network Upload (MB)");
    reveal_strlit("Network Download (MB)");
    assert(simple_field("Elapsed time"@));
    assert(simple_field("CPU (%)"@));
    assert(simple_field("Real memory (MB)"@));
    assert(simple_field("Virtual memory (MB)"@));
    assert(simple_field("IO Write (MB)"@));
    assert(simple_field("IO Read (MB)"@));
    assert(simple_field("Network Upload (MB)"@));
    assert(simple_field("Network Download (MB)"@));
}

/// A digit character is simple to the tabular writer.
proof fn lemma_digit_like_simple(s: Seq<char>)
    requires
        s.len() > 0,
        forall|i: int| 0 <= i < s.len() ==> is_digit_char(#[trigger] s[i]) || s[i] == '.',
    ensures
        simple_field(s),
{
    assert forall|i: int| 0 <= i < s.len() implies #[trigger] s[i] != ',' && s[i] != '"' && s[i]
        != '\n' && s[i] != '\r' by {
        assert(',' as u32 == 44 && '"' as u32 == 34 && '\n' as u32 == 10 && '\r' as u32 == 13
            && '.' as u32 == 46);
    }
}

/// Every field of a sample row is simple.
proof fn lemma_sample_fields_simple(s: Sample, network: bool)
    ensures
        forall|i: int|
            0 <= i < spec_sample_fields(s, network).len() ==> simple_field(
                #[trigger] spec_sample_fields(s, network)[i],
            ),
{
    lemma_decimal_chars(s.elapsed_s as nat);
    lemma_centi_chars(s.cpu_centi_percent as nat);
    lemma_decimal_chars(s.mem_mb as nat);
    lemma_decimal_chars(s.virt_mb as nat);
    lemma_decimal_chars(s.written_mb as nat);
    lemma_decimal_chars(s.read_mb as nat);
    lemma_decimal_chars(s.net_up_mb as nat);
    lemma_decimal_chars(s.net_down_mb as nat);
    assert forall|i: int| 0 <= i < spec_sample_fields(s, network).len() implies simple_field(
        #[trigger] spec_sample_fields(s, network)[i],
    ) by {
        let f = spec_sample_fields(s, network)[i];
        assert(forall|j: int| 0 <= j < f.len() ==> is_digit_char(#[trigger] f[j]) || f[j] == '.');
        lemma_digit_like_simple(f);
    }
}

/// The header line of a run: the header fields as one CSV line.
pub fn header_line(network: bool) -> (r: String)
    ensures
        r@ == spec_csv_line(spec_header_fields(network)),
{
    let fields = header_fields(network);
    proof {
        lemma_header_fields_simple(network);
        assert(fields@.len() == fields_view(fields@).len());
        assert forall|i: int| 0 <= i < fields@.len() implies simple_field(
            #[trigger] fields@[i]@,
        ) by {
            assert(fields@[i]@ == fields_view(fields@)[i]);
        }
    }
    csv_encode_record(&fields)
}

/// The CSV line for one sample.
pub fn sample_line(s: &Sample, network: bool) -> (r: String)
    ensures
        r@ == spec_csv_line(spec_sample_fields(*s, network)),
{
    let fields = sample_fields(s, network);
    proof {
        lemma_sample_fields_simple(*s, network);
        assert(fields@.len() == fields_view(fields@).len());
        assert forall|i: int| 0 <= i < fields@.len() implies simple_field(
            #[trigger] fields@[i]@,
        ) by {
            assert(fields@[i]@ == fields_view(fields@)[i]);
        }
    }
    csv_encode_record(&fields)
}

} // verus!
