use procmon::csvline::{header_line, sample_line};
use procmon::row::{header_fields, sample_fields, Sample};

fn sample() -> Sample {
    Sample {
        elapsed_s: 3,
        cpu_centi_percent: 1234,
        mem_mb: 2,
        virt_mb: 10,
        written_mb: 0,
        read_mb: 1,
        net_up_mb: 5,
        net_down_mb: 6,
    }
}

#[test]
fn header_without_network_has_six_columns() {
    let fields = header_fields(false);
    assert_eq!(fields.len(), 6);
    assert_eq!(
        header_line(false),
        "Elapsed time,CPU (%),Real memory (MB),Virtual memory (MB),IO Write (MB),IO Read (MB)\n"
    );
}

#[test]
fn header_with_network_has_eight_columns() {
    let fields = header_fields(true);
    assert_eq!(fields.len(), 8);
    assert_eq!(
        header_line(true),
        "Elapsed time,CPU (%),Real memory (MB),Virtual memory (MB),IO Write (MB),IO Read (MB),Network Upload (MB),Network Download (MB)\n"
    );
}

#[test]
fn sample_row_matches_header_width() {
    let s = sample();
    assert_eq!(sample_fields(&s, false).len(), header_fields(false).len());
    assert_eq!(sample_fields(&s, true).len(), header_fields(true).len());
}

#[test]
fn sample_line_without_network() {
    assert_eq!(sample_line(&sample(), false), "3,12.34,2,10,0,1\n");
}

#[test]
fn sample_line_with_network() {
    assert_eq!(sample_line(&sample(), true), "3,12.34,2,10,0,1,5,6\n");
}

#[test]
fn lines_agree_with_the_tabular_writer() {
    // The same records sent through the tabular writer directly must come
    // out as the library's lines, header and sample alike.
    let mut w = csv::Writer::from_writer(Vec::new());
    w.write_record(header_fields(true).iter()).unwrap();
    w.write_record(sample_fields(&sample(), true).iter()).unwrap();
    let got = String::from_utf8(w.into_inner().unwrap()).unwrap();
    let want = format!("{}{}", header_line(true), sample_line(&sample(), true));
    assert_eq!(got, want);
}
