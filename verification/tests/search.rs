//! Search job builder tests: defaults, parameter rendering and the
//! creation-request payload.

use splunk::search::searchjob::AdHocSearchLevel;
use splunk::search::searchjob::SearchExecMode;
use splunk::search::searchjob::SearchJobBuilder;
use splunk::search::searchjob::SearchOutputMode;
use splunk::search::SearchJob;

#[test]
fn builder_defaults() {
    let builder = SearchJobBuilder::default();
    assert_eq!(builder.query, "");
    assert_eq!(builder.count, Some(10000));
    assert_eq!(builder.earliest_time, "-24h");
    assert_eq!(builder.latest_time, "now");
    assert!(builder.allow_partial_results);
    assert!(builder.enable_lookups);
    assert!(!builder.force_bundle_replication);
    assert_eq!(builder.auto_cancel, 0);
    assert_eq!(builder.timeout, 86400);
    assert!(builder.custom.is_none());
    assert!(builder.id.is_none());
    assert!(builder.extra_options.is_empty());
}

#[test]
fn mode_values() {
    assert_eq!(SearchExecMode::Blocking.param_value(), "blocking");
    assert_eq!(SearchExecMode::OneShot.param_value(), "oneshot");
    assert_eq!(SearchExecMode::Normal.param_value(), "normal");
    assert_eq!(AdHocSearchLevel::Fast.param_value(), "fast");
    assert_eq!(AdHocSearchLevel::Smart.param_value(), "smart");
    assert_eq!(AdHocSearchLevel::Verbose.param_value(), "verbose");
    assert_eq!(SearchOutputMode::Json.param_value(), "json");
    assert_eq!(SearchOutputMode::JsonCols.param_value(), "json_cols");
    assert_eq!(SearchOutputMode::JsonRows.param_value(), "json_rows");
    assert_eq!(SearchOutputMode::Atom.param_value(), "atom");
    assert_eq!(SearchOutputMode::Csv.param_value(), "csv");
    assert_eq!(SearchOutputMode::Raw.param_value(), "raw");
    assert_eq!(SearchOutputMode::Xml.param_value(), "xml");
}

#[test]
fn create_payload_renders_every_parameter() {
    let query = "| makeresults 1";
    let builder = SearchJob::create(query.to_string());
    let payload = builder.create_payload();
    let expected: Vec<(String, String)> = vec![
        ("adhoc_search_level", "fast"),
        ("allow_partial_results", "true"),
        ("output_mode", "json"),
        ("auto_cancel", "0"),
        ("auto_finalize_ec", "0"),
        ("auto_pause", "0"),
        ("earliest_time", "-24h"),
        ("latest_time", "now"),
        ("timeout", "86400"),
        ("enable_lookups", "true"),
        ("exec_mode", "normal"),
        ("force_bundle_replication", "false"),
        ("search", "| makeresults 1"),
    ]
    .into_iter()
    .map(|(k, v)| (k.to_string(), v.to_string()))
    .collect();
    assert_eq!(payload, expected);
}

#[test]
fn named_parameters_win_over_extra_options() {
    let mut builder = SearchJob::create("q".to_string());
    builder.extra_options.push(("foo".to_string(), "1".to_string()));
    builder.extra_options.push(("search".to_string(), "override".to_string()));
    let payload = builder.create_payload();
    // the unreserved extra survives, in front
    assert_eq!(payload[0], ("foo".to_string(), "1".to_string()));
    // the reserved key appears exactly once, with the named value
    let searches: Vec<&(String, String)> =
        payload.iter().filter(|(k, _)| k == "search").collect();
    assert_eq!(searches.len(), 1);
    assert_eq!(searches[0].1, "q");
}

#[test]
fn builder_setters() {
    let builder = SearchJob::create("q".to_string())
        .adhoc_search_level(AdHocSearchLevel::Verbose)
        .mode(SearchExecMode::OneShot);
    let payload = builder.create_payload();
    assert!(payload.contains(&("adhoc_search_level".to_string(), "verbose".to_string())));
    assert!(payload.contains(&("exec_mode".to_string(), "oneshot".to_string())));
}

#[test]
fn into_job_carries_the_query() {
    let job = SearchJob::create("the query".to_string()).into_job();
    assert_eq!(job.query, "the query");
    assert_eq!(job.count, 10000);
    assert_eq!(job.earliest_time, "-24h");
    assert_eq!(job.latest_time, "now");
    assert!(job.sid.is_none());
}

#[test]
fn custom_and_id_are_rendered_when_set() {
    let mut builder = SearchJob::create("q".to_string());
    builder.custom = Some("c=1".to_string());
    builder.id = Some("sid123".to_string());
    let payload = builder.create_payload();
    assert!(payload.contains(&("custom".to_string(), "c=1".to_string())));
    assert!(payload.contains(&("id".to_string(), "sid123".to_string())));
    // custom comes before earliest_time, id before search
    let pos = |key: &str| payload.iter().position(|(k, _)| k == key).unwrap();
    assert!(pos("custom") < pos("earliest_time"));
    assert!(pos("id") < pos("search"));
}
