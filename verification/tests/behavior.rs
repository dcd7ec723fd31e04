use workload_config::HistogramConfig;
use workload_config::Proportion;
use workload_config::TimeseriesConfig;
use workload_config::Workload;
use workload_config::WorkloadBuilder;
use workload_config::parse::ParseError;

#[test]
fn default_round_trips_to_equal_value() {
    let text = Workload::default().to_toml_string();
    let parsed = Workload::from_toml_str(&text).unwrap();
    assert_eq!(parsed, Workload::default());
}

#[test]
fn empty_document_gives_default() {
    let parsed = Workload::from_toml_str("").unwrap();
    assert_eq!(parsed, Workload::default());
}

#[test]
fn partial_merge_is_idempotent() {
    let doc = "recordcount = 5\ntable = \"t2\"\nreadproportion = 0.25\n";
    let once = Workload::from_toml_str(doc).unwrap();
    let again = Workload::from_toml_str(&once.to_toml_string()).unwrap();
    assert_eq!(once, again);
}

#[test]
fn partial_document_keeps_defaults() {
    let parsed = Workload::from_toml_str("recordcount = 42").unwrap();
    let expected = WorkloadBuilder::default().record_count(42).build();
    assert_eq!(parsed, expected);
    assert!(parsed.to_toml_string().contains("operationcount = 3000000"));
}

#[test]
fn unknown_keys_and_sections_are_ignored() {
    let doc = "unknownkey = 7\nrecordcount = 9\n[future]\nwhatever = 3\n";
    let parsed = Workload::from_toml_str(doc).unwrap();
    let expected = WorkloadBuilder::default().record_count(9).build();
    assert_eq!(parsed, expected);
}

#[test]
fn comments_and_blank_lines_are_ignored() {
    let doc = "# a comment\n\n  recordcount = 8  \n";
    let parsed = Workload::from_toml_str(doc).unwrap();
    assert_eq!(parsed, WorkloadBuilder::default().record_count(8).build());
}

#[test]
fn distribution_variants_round_trip() {
    for name in ["constant", "uniform", "zipfian", "latest"] {
        let doc = format!("requestdistribution = \"{}\"", name);
        let parsed = Workload::from_toml_str(&doc).unwrap();
        let out = parsed.to_toml_string();
        assert!(out.contains(&format!("requestdistribution = \"{}\"", name)));
    }
}

#[test]
fn insert_order_variants_round_trip() {
    for name in ["hashed", "ordered"] {
        let doc = format!("insertorder = \"{}\"", name);
        let parsed = Workload::from_toml_str(&doc).unwrap();
        assert!(parsed.to_toml_string().contains(&format!("insertorder = \"{}\"", name)));
    }
}

#[test]
fn measurement_type_variants_round_trip() {
    for name in ["histogram", "timeseries", "raw"] {
        let doc = format!("measurementtype = \"{}\"", name);
        let parsed = Workload::from_toml_str(&doc).unwrap();
        assert!(parsed.to_toml_string().contains(&format!("measurementtype = \"{}\"", name)));
    }
}

#[test]
fn bogus_variant_is_rejected() {
    let err = Workload::from_toml_str("requestdistribution = \"bogus\"").unwrap_err();
    assert_eq!(err, ParseError::UnknownVariant);
    let err = Workload::from_toml_str("insertorder = \"sorted\"").unwrap_err();
    assert_eq!(err, ParseError::UnknownVariant);
    let err = Workload::from_toml_str("measurementtype = \"csv\"").unwrap_err();
    assert_eq!(err, ParseError::UnknownVariant);
}

#[test]
fn malformed_syntax_is_rejected() {
    let err = Workload::from_toml_str("this line has no equals sign").unwrap_err();
    assert_eq!(err, ParseError::DocumentSyntax);
    let err = Workload::from_toml_str("[unclosed").unwrap_err();
    assert_eq!(err, ParseError::DocumentSyntax);
    let err = Workload::from_toml_str("recordcount = ").unwrap_err();
    assert_eq!(err, ParseError::DocumentSyntax);
}

#[test]
fn wrong_value_shapes_are_rejected() {
    let err = Workload::from_toml_str("recordcount = abc").unwrap_err();
    assert_eq!(err, ParseError::FieldType);
    let err = Workload::from_toml_str("recordcount = \"7\"").unwrap_err();
    assert_eq!(err, ParseError::FieldType);
    let err = Workload::from_toml_str("readproportion = 1.5").unwrap_err();
    assert_eq!(err, ParseError::FieldType);
    let err = Workload::from_toml_str("readallfields = yes").unwrap_err();
    assert_eq!(err, ParseError::FieldType);
    let err = Workload::from_toml_str("table = unquoted").unwrap_err();
    assert_eq!(err, ParseError::FieldType);
}

#[test]
fn durations_serialize_as_plain_integers() {
    let w = WorkloadBuilder::default()
        .max_execution_time(90)
        .histogram(HistogramConfig::new(2500))
        .timeseries(TimeseriesConfig::new(125))
        .build();
    let out = w.to_toml_string();
    assert!(out.contains("maxexecutiontime = 90"));
    assert!(out.contains("buckets = 2500"));
    assert!(out.contains("granularity = 125"));
}

#[test]
fn duration_keys_parse_from_plain_integers() {
    let doc = "maxexecutiontime = 90\n[histogram]\nbuckets = 7\n[timeseries]\ngranularity = 3\n";
    let parsed = Workload::from_toml_str(doc).unwrap();
    let expected = WorkloadBuilder::default()
        .max_execution_time(90)
        .histogram(HistogramConfig::new(7))
        .timeseries(TimeseriesConfig::new(3))
        .build();
    assert_eq!(parsed, expected);
}

#[test]
fn proportion_text_is_shortest_decimal() {
    let cases: [(u32, &str); 6] = [
        (0, "0.0"),
        (1000000, "1.0"),
        (500000, "0.5"),
        (950000, "0.95"),
        (123456, "0.123456"),
        (100, "0.0001"),
    ];
    for (micros, text) in cases {
        let w = WorkloadBuilder::default()
            .read_proportion(Proportion::from_micros(micros))
            .build();
        assert!(w.to_toml_string().contains(&format!("readproportion = {}", text)));
    }
}

#[test]
fn proportion_parses_integer_and_padded_forms() {
    let one = Workload::from_toml_str("readproportion = 1").unwrap();
    assert!(one.to_toml_string().contains("readproportion = 1.0"));
    let padded = Workload::from_toml_str("readproportion = 0.950000").unwrap();
    assert!(padded.to_toml_string().contains("readproportion = 0.95"));
    let too_fine = Workload::from_toml_str("readproportion = 0.1234567").unwrap_err();
    assert_eq!(too_fine, ParseError::FieldType);
}

#[test]
fn builder_overrides_only_named_fields() {
    let w = WorkloadBuilder::default()
        .workload("special")
        .thread_count(4)
        .write_all_fields(true)
        .column_family("cf")
        .build();
    let out = w.to_toml_string();
    assert!(out.contains("workload = \"special\""));
    assert!(out.contains("threadcount = 4"));
    assert!(out.contains("writeallfields = true"));
    assert!(out.contains("columnfamily = \"cf\""));
    assert!(out.contains("table = \"usertable\""));
}

#[test]
fn text_fields_with_spaces_round_trip() {
    let w = WorkloadBuilder::default().table("user table").build();
    let parsed = Workload::from_toml_str(&w.to_toml_string()).unwrap();
    assert_eq!(parsed, w);
}

#[test]
fn preset_e_sets_scan_fields() {
    let out = Workload::e(1000, 1000).to_toml_string();
    assert!(out.contains("maxscanlength = 1"));
    assert!(out.contains("scanproportion = 0.95"));
    assert!(out.contains("insertproportion = 0.05"));
}

#[test]
fn last_assignment_wins() {
    let parsed = Workload::from_toml_str("recordcount = 1\nrecordcount = 2\n").unwrap();
    assert_eq!(parsed, WorkloadBuilder::default().record_count(2).build());
}
