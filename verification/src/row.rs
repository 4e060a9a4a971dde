//! The shape and contents of the CSV header and of one sample row.

use vstd::prelude::*;
use vstd::string::StringExecFns;
use crate::numfmt::{spec_centi, spec_decimal, centi_percent_string, u64_to_decimal};

verus! {

/// One sample: the values of one CSV row, already converted to the units the
/// row reports.  Memory and I/O quantities are whole mebibytes (truncated);
/// the CPU load is a percentage held in hundredths, so that the row can show
/// it with a fixed two-decimal fractional part.  The network counters are
/// carried in every sample and rendered only when network tracking is on.
#[derive(Clone, Copy, PartialEq, Eq, Structural, Debug)]
pub struct Sample {
    pub elapsed_s: u64,
    pub cpu_centi_percent: u64,
    pub mem_mb: u64,
    pub virt_mb: u64,
    pub written_mb: u64,
    pub read_mb: u64,
    pub net_up_mb: u64,
    pub net_down_mb: u64,
}

/// The header fields, in order.  Network tracking adds the two byte-counter
/// columns at the end; it never reorders the first six.
pub open spec fn spec_header_fields(network: bool) -> Seq<Seq<char>> {
    let base = seq![
        "Elapsed time"@,
        "CPU (%)"@,
        "Real memory (MB)"@,
        "Virtual memory (MB)"@,
        "IO Write (MB)"@,
        "IO Read (MB)"@,
    ];
    if network {
        base + seq!["Network Upload (MB)"@, "Network Download (MB)"@]
    } else {
        base
    }
}

/// The fields of one sample row, in the same order as the header.
pub open spec fn spec_sample_fields(s: Sample, network: bool) -> Seq<Seq<char>> {
    let base = seq![
        spec_decimal(s.elapsed_s as nat),
        spec_centi(s.cpu_centi_percent as nat),
        spec_decimal(s.mem_mb as nat),
        spec_decimal(s.virt_mb as nat),
        spec_decimal(s.written_mb as nat),
        spec_decimal(s.read_mb as nat),
    ];
    if network {
        base + seq![spec_decimal(s.net_up_mb as nat), spec_decimal(s.net_down_mb as nat)]
    } else {
        base
    }
}

/// The views of a vector of field strings.
pub open spec fn fields_view(v: Seq<String>) -> Seq<Seq<char>> {
    v.map_values(|f: String| f@)
}

/// Builds the header fields for a run.
pub fn header_fields(network: bool) -> (r: Vec<String>)
    ensures
        fields_view(r@) == spec_header_fields(network),
{
    let mut v: Vec<String> = Vec::new();
    v.push(String::from_str("Elapsed time"));
    v.push(String::from_str("CPU (%)"));
    v.push(String::from_str("Real memory (MB)"));
    v.push(String::from_str("Virtual memory (MB)"));
    v.push(String::from_str("IO Write (MB)"));
    v.push(String::from_str("IO Read (MB)"));
    if network {
        v.push(String::from_str("Network Upload (MB)"));
        v.push(String::from_str("Network Download (MB)"));
    }
    proof {
        assert(fields_view(v@) =~= spec_header_fields(network));
    }
    v
}

/// Builds the fields of one sample row.
pub fn sample_fields(s: &Sample, network: bool) -> (r: Vec<String>)
    ensures
        fields_view(r@) == spec_sample_fields(*s, network),
{
    let mut v: Vec<String> = Vec::new();
    v.push(u64_to_decimal(s.elapsed_s));
    v.push(centi_percent_string(s.cpu_centi_percent));
    v.push(u64_to_decimal(s.mem_mb));
    v.push(u64_to_decimal(s.virt_mb));
    v.push(u64_to_decimal(s.written_mb));
    v.push(u64_to_decimal(s.read_mb));
    if network {
        v.push(u64_to_decimal(s.net_up_mb));
        v.push(u64_to_decimal(s.net_down_mb));
    }
    proof {
        assert(fields_view(v@) =~= spec_sample_fields(*s, network));
    }
    v
}

/// The header of a run without network tracking has exactly six columns,
/// with it exactly eight, and every sample row of the run has exactly as
/// many fields as the header, whatever the sample holds.
pub proof fn lemma_column_counts(s: Sample, network: bool)
    ensures
        spec_header_fields(false).len() == 6,
        spec_header_fields(true).len() == 8,
        spec_sample_fields(s, network).len() == spec_header_fields(network).len(),
{
}

} // verus!
