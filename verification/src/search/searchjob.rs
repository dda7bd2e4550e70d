//! Implementation of Search Jobs: the builder that accumulates search
//! options and renders them into the form fields of one creation request.

use vstd::prelude::*;

use crate::client::param_views;
use crate::text::bool_chars;
use crate::text::bool_str;
use crate::text::dec_chars;
use crate::text::str_eq;
use crate::text::u64_to_string;

verus! {

/// What kind of search mode we're using
#[derive(Debug, Clone)]
pub enum SearchExecMode {
    /// Wait for the server to finish then respond
    Blocking,
    /// Stream the responses back straight away
    OneShot,
    /// "Normal" mode.
    Normal,
}

/// The parameter value of a search mode.
pub open spec fn exec_mode_chars(m: SearchExecMode) -> Seq<char> {
    match m {
        SearchExecMode::Blocking => "blocking"@,
        SearchExecMode::OneShot => "oneshot"@,
        SearchExecMode::Normal => "normal"@,
    }
}

impl SearchExecMode {
    /// The value sent for this mode.
    pub fn param_value(&self) -> (r: &'static str)
        ensures
            r@ == exec_mode_chars(*self),
    {
        match self {
            SearchExecMode::Blocking => "blocking",
            SearchExecMode::OneShot => "oneshot",
            SearchExecMode::Normal => "normal",
        }
    }
}

/// Set the search level
#[derive(Debug, Clone)]
pub enum AdHocSearchLevel {
    /// Fast Mode - Field discovery off for event searches. No event or field data for stats searches.
    Fast,
    /// Smart Mode - Field discovery on for event searches. No event or field data for stats searches.
    Smart,
    /// Verbose Mode - All event & field data.
    Verbose,
}

/// The parameter value of a search level.
pub open spec fn search_level_chars(l: AdHocSearchLevel) -> Seq<char> {
    match l {
        AdHocSearchLevel::Fast => "fast"@,
        AdHocSearchLevel::Smart => "smart"@,
        AdHocSearchLevel::Verbose => "verbose"@,
    }
}

impl AdHocSearchLevel {
    /// The value sent for this level.
    pub fn param_value(&self) -> (r: &'static str)
        ensures
            r@ == search_level_chars(*self),
    {
        match self {
            AdHocSearchLevel::Fast => "fast",
            AdHocSearchLevel::Smart => "smart",
            AdHocSearchLevel::Verbose => "verbose",
        }
    }
}

/// What format the server will respond in
#[derive(Debug, Clone)]
pub enum SearchOutputMode {
    /// Atom feed
    Atom,
    /// Comma-separated values
    Csv,
    /// JSON
    Json,
    /// JSON, column layout
    JsonCols,
    /// JSON, row layout
    JsonRows,
    /// Raw events
    Raw,
    /// XML
    Xml,
}

/// The parameter value of an output mode.
pub open spec fn output_mode_chars(m: SearchOutputMode) -> Seq<char> {
    match m {
        SearchOutputMode::Atom => "atom"@,
        SearchOutputMode::Csv => "csv"@,
        SearchOutputMode::Json => "json"@,
        SearchOutputMode::JsonCols => "json_cols"@,
        SearchOutputMode::JsonRows => "json_rows"@,
        SearchOutputMode::Raw => "raw"@,
        SearchOutputMode::Xml => "xml"@,
    }
}

impl SearchOutputMode {
    /// The value sent for this output mode.
    pub fn param_value(&self) -> (r: &'static str)
        ensures
            r@ == output_mode_chars(*self),
    {
        match self {
            SearchOutputMode::Atom => "atom",
            SearchOutputMode::Csv => "csv",
            SearchOutputMode::Json => "json",
            SearchOutputMode::JsonCols => "json_cols",
            SearchOutputMode::JsonRows => "json_rows",
            SearchOutputMode::Raw => "raw",
            SearchOutputMode::Xml => "xml",
        }
    }
}

/// Builder object for a search job
#[derive(Debug, Clone)]
pub struct SearchJobBuilder {
    /// The query string
    pub query: String,
    /// How many results we want back
    pub count: Option<u64>,
    /// Earliest time in the search, defaults to -24h
    pub earliest_time: String,
    /// Latest time, defaults to now
    pub latest_time: String,
    /// Vec of fields we want to come back
    pub fields: Vec<String>,
    /// What Search level we're asking for, see [AdHocSearchLevel]
    pub adhoc_search_level: AdHocSearchLevel,
    /// Do we want previews, or should we wait
    pub allow_partial_results: bool,
    /// Automatically cancel the search after x seconds - 0 (default) for never.
    pub auto_cancel: u32,
    /// Automatically finalize after x events returned - 0 (default) for never.
    pub auto_finalize_ec: u32,
    /// Automatically pause the search after x seconds - 0 (default) for never.
    pub auto_pause: u32,
    /// See [SearchOutputMode]
    pub output_mode: SearchOutputMode,
    /// Custom parameter, passed through as given
    pub custom: Option<String>,
    /// Indicates whether lookups should be applied to events.
    pub enable_lookups: bool,
    /// See [SearchExecMode]
    pub exec_mode: SearchExecMode,
    /// Whether this search should wait for bundle synchronization.
    pub force_bundle_replication: bool,
    /// Optional string to specify the search ID. If unspecified, the server
    /// generates one.
    pub id: Option<String>,
    /// Extra search options, sent unless a named option uses the same key.
    pub extra_options: Vec<(String, String)>,
    /// Search timeout in seconds
    pub timeout: u32,
}

/// Every builder field except the query, as `default()` leaves them.
pub open spec fn is_default_builder_except_query(b: SearchJobBuilder) -> bool {
    &&& b.count == Some(10000u64)
    &&& b.earliest_time@ == "-24h"@
    &&& b.latest_time@ == "now"@
    &&& b.fields@ == Seq::<String>::empty()
    &&& b.adhoc_search_level is Fast
    &&& b.allow_partial_results
    &&& b.auto_cancel == 0u32
    &&& b.auto_finalize_ec == 0u32
    &&& b.auto_pause == 0u32
    &&& b.output_mode is Json
    &&& b.custom is None
    &&& b.enable_lookups
    &&& b.exec_mode is Normal
    &&& !b.force_bundle_replication
    &&& b.id is None
    &&& b.extra_options@ == Seq::<(String, String)>::empty()
    &&& b.timeout == 86400u32
}

impl Default for SearchJobBuilder {
    /// The default search: everything for the last day, JSON output.
    fn default() -> (r: Self)
        ensures
            r.query@ == Seq::<char>::empty(),
            is_default_builder_except_query(r),
    {
        SearchJobBuilder {
            query: String::new(),
            count: Some(10000),
            earliest_time: String::from_str("-24h"),
            latest_time: String::from_str("now"),
            fields: Vec::new(),
            adhoc_search_level: AdHocSearchLevel::Fast,
            allow_partial_results: true,
            auto_cancel: 0,
            auto_finalize_ec: 0,
            auto_pause: 0,
            output_mode: SearchOutputMode::Json,
            custom: None,
            enable_lookups: true,
            exec_mode: SearchExecMode::Normal,
            force_bundle_replication: false,
            id: None,
            extra_options: Vec::new(),
            timeout: 86400,
        }
    }
}

/// Whether `k` is one of the named search parameters, which always win over
/// an extra option using the same key.
pub open spec fn reserved_search_key(k: Seq<char>) -> bool {
    ||| k == "adhoc_search_level"@
    ||| k == "allow_partial_results"@
    ||| k == "output_mode"@
    ||| k == "auto_cancel"@
    ||| k == "auto_finalize_ec"@
    ||| k == "auto_pause"@
    ||| k == "custom"@
    ||| k == "earliest_time"@
    ||| k == "latest_time"@
    ||| k == "timeout"@
    ||| k == "enable_lookups"@
    ||| k == "exec_mode"@
    ||| k == "force_bundle_replication"@
    ||| k == "id"@
    ||| k == "search"@
}

/// The extra options that survive into the payload: those whose key is not a
/// named parameter.
pub open spec fn kept_extras(extras: Seq<(Seq<char>, Seq<char>)>) -> Seq<(Seq<char>, Seq<char>)>
    decreases extras.len(),
{
    if extras.len() == 0 {
        Seq::<(Seq<char>, Seq<char>)>::empty()
    } else {
        kept_extras(extras.drop_last()) + (if !reserved_search_key(extras.last().0) {
            seq![extras.last()]
        } else {
            Seq::<(Seq<char>, Seq<char>)>::empty()
        })
    }
}

/// The named parameters of the creation request, in the order they are sent.
pub open spec fn named_search_params(b: SearchJobBuilder) -> Seq<(Seq<char>, Seq<char>)> {
    seq![
        ("adhoc_search_level"@, search_level_chars(b.adhoc_search_level)),
        ("allow_partial_results"@, bool_chars(b.allow_partial_results)),
        ("output_mode"@, output_mode_chars(b.output_mode)),
        ("auto_cancel"@, dec_chars(b.auto_cancel as nat)),
        ("auto_finalize_ec"@, dec_chars(b.auto_finalize_ec as nat)),
        ("auto_pause"@, dec_chars(b.auto_pause as nat)),
    ] + (match b.custom {
        Some(c) => seq![("custom"@, c@)],
        None => Seq::<(Seq<char>, Seq<char>)>::empty(),
    }) + seq![
        ("earliest_time"@, b.earliest_time@),
        ("latest_time"@, b.latest_time@),
        ("timeout"@, dec_chars(b.timeout as nat)),
        ("enable_lookups"@, bool_chars(b.enable_lookups)),
        ("exec_mode"@, exec_mode_chars(b.exec_mode)),
        ("force_bundle_replication"@, bool_chars(b.force_bundle_replication)),
    ] + (match b.id {
        Some(id) => seq![("id"@, id@)],
        None => Seq::<(Seq<char>, Seq<char>)>::empty(),
    }) + seq![("search"@, b.query@)]
}

/// The whole form payload of the creation request: the surviving extra
/// options first, then the named parameters.
pub open spec fn search_payload(b: SearchJobBuilder) -> Seq<(Seq<char>, Seq<char>)> {
    kept_extras(param_views(b.extra_options@)) + named_search_params(b)
}

/// Whether `k` names one of the named search parameters.
fn is_reserved_search_key(k: &str) -> (r: bool)
    ensures
        r == reserved_search_key(k@),
{
    str_eq(k, "adhoc_search_level") || str_eq(k, "allow_partial_results") || str_eq(
        k,
        "output_mode",
    ) || str_eq(k, "auto_cancel") || str_eq(k, "auto_finalize_ec") || str_eq(k, "auto_pause")
        || str_eq(k, "custom") || str_eq(k, "earliest_time") || str_eq(k, "latest_time") || str_eq(
        k,
        "timeout",
    ) || str_eq(k, "enable_lookups") || str_eq(k, "exec_mode") || str_eq(
        k,
        "force_bundle_replication",
    ) || str_eq(k, "id") || str_eq(k, "search")
}

/// A search job
#[derive(Debug)]
pub struct SearchJob {
    /// The search query
    pub query: String,
    /// How many results we are asking for
    pub count: u64,
    /// What [SearchExecMode] to run in
    pub exec_mode: SearchExecMode,
    /// set earliest_time
    pub earliest_time: String,
    /// set latest_time
    pub latest_time: String,
    /// ask for a particular set of fields - leave empty for all
    pub fields: Vec<String>,
    /// the search ID, once known
    pub sid: Option<String>,
}

impl SearchJobBuilder {
    /// The form fields of the creation request this builder stands for: the
    /// extra options, except where a named parameter claims the key, then
    /// every named parameter.
    pub fn create_payload(&self) -> (r: Vec<(String, String)>)
        ensures
            param_views(r@) == search_payload(*self),
    {
        let mut payload: Vec<(String, String)> = Vec::new();
        let mut i: usize = 0;
        while i < self.extra_options.len()
            invariant
                0 <= i <= self.extra_options@.len(),
                param_views(payload@) =~= kept_extras(
                    param_views(self.extra_options@.take(i as int)),
                ),
            decreases self.extra_options@.len() - i,
        {
            let reserved = is_reserved_search_key(self.extra_options[i].0.as_str());
            if !reserved {
                let k = self.extra_options[i].0.clone();
                let v = self.extra_options[i].1.clone();
                payload.push((k, v));
            }
            proof {
                let pv1 = param_views(self.extra_options@.take(i + 1));
                assert(pv1.drop_last() =~= param_views(self.extra_options@.take(i as int)));
                assert(pv1.last() == (
                    self.extra_options@[i as int].0@,
                    self.extra_options@[i as int].1@,
                ));
                assert(param_views(payload@) =~= kept_extras(pv1));
            }
            i = i + 1;
        }
        proof {
            assert(self.extra_options@.take(self.extra_options@.len() as int)
                =~= self.extra_options@);
        }
        let ghost kept = kept_extras(param_views(self.extra_options@));

        payload.push(
            (
                String::from_str("adhoc_search_level"),
                String::from_str(self.adhoc_search_level.param_value()),
            ),
        );
        payload.push(
            (
                String::from_str("allow_partial_results"),
                String::from_str(bool_str(self.allow_partial_results)),
            ),
        );
        payload.push(
            (String::from_str("output_mode"), String::from_str(self.output_mode.param_value())),
        );
        payload.push((String::from_str("auto_cancel"), u64_to_string(self.auto_cancel as u64)));
        payload.push(
            (String::from_str("auto_finalize_ec"), u64_to_string(self.auto_finalize_ec as u64)),
        );
        payload.push((String::from_str("auto_pause"), u64_to_string(self.auto_pause as u64)));
        proof {
            assert(param_views(payload@) =~= kept + seq![
                ("adhoc_search_level"@, search_level_chars(self.adhoc_search_level)),
                ("allow_partial_results"@, bool_chars(self.allow_partial_results)),
                ("output_mode"@, output_mode_chars(self.output_mode)),
                ("auto_cancel"@, dec_chars(self.auto_cancel as nat)),
                ("auto_finalize_ec"@, dec_chars(self.auto_finalize_ec as nat)),
                ("auto_pause"@, dec_chars(self.auto_pause as nat)),
            ]);
        }
        let ghost mid0 = param_views(payload@);
        if let Some(c) = &self.custom {
            payload.push((String::from_str("custom"), c.clone()));
        }
        proof {
            assert(param_views(payload@) =~= mid0 + (match self.custom {
                Some(c) => seq![("custom"@, c@)],
                None => Seq::<(Seq<char>, Seq<char>)>::empty(),
            }));
        }
        let ghost mid1 = param_views(payload@);
        payload.push((String::from_str("earliest_time"), self.earliest_time.clone()));
        payload.push((String::from_str("latest_time"), self.latest_time.clone()));
        payload.push((String::from_str("timeout"), u64_to_string(self.timeout as u64)));
        payload.push(
            (String::from_str("enable_lookups"), String::from_str(bool_str(self.enable_lookups))),
        );
        payload.push(
            (String::from_str("exec_mode"), String::from_str(self.exec_mode.param_value())),
        );
        payload.push(
            (
                String::from_str("force_bundle_replication"),
                String::from_str(bool_str(self.force_bundle_replication)),
            ),
        );
        proof {
            assert(param_views(payload@) =~= mid1 + seq![
                ("earliest_time"@, self.earliest_time@),
                ("latest_time"@, self.latest_time@),
                ("timeout"@, dec_chars(self.timeout as nat)),
                ("enable_lookups"@, bool_chars(self.enable_lookups)),
                ("exec_mode"@, exec_mode_chars(self.exec_mode)),
                ("force_bundle_replication"@, bool_chars(self.force_bundle_replication)),
            ]);
        }
        let ghost mid2 = param_views(payload@);
        if let Some(id) = &self.id {
            payload.push((String::from_str("id"), id.clone()));
        }
        proof {
            assert(param_views(payload@) =~= mid2 + (match self.id {
                Some(id) => seq![("id"@, id@)],
                None => Seq::<(Seq<char>, Seq<char>)>::empty(),
            }));
        }
        payload.push((String::from_str("search"), self.query.clone()));
        proof {
            assert(param_views(payload@) =~= search_payload(*self));
        }
        payload
    }

    /// Consume the builder and produce the job value, once the creation
    /// request has been accepted.
    pub fn into_job(self) -> (r: SearchJob)
        requires
            self.count is Some,
        ensures
            r.query == self.query,
            self.count matches Some(c) ==> r.count == c,
            r.exec_mode == self.exec_mode,
            r.earliest_time == self.earliest_time,
            r.latest_time == self.latest_time,
            r.fields == self.fields,
            r.sid is None,
    {
        SearchJob {
            query: self.query,
            count: self.count.unwrap(),
            exec_mode: self.exec_mode,
            earliest_time: self.earliest_time,
            latest_time: self.latest_time,
            fields: self.fields,
            sid: None,
        }
    }

    /// sets adhoc_search_level
    pub fn adhoc_search_level(self, adhoc_search_level: AdHocSearchLevel) -> (r: Self)
        ensures
            r == (SearchJobBuilder { adhoc_search_level, ..self }),
    {
        SearchJobBuilder { adhoc_search_level, ..self }
    }

    /// set the mode
    pub fn mode(self, exec_mode: SearchExecMode) -> (r: Self)
        ensures
            r == (SearchJobBuilder { exec_mode, ..self }),
    {
        SearchJobBuilder { exec_mode, ..self }
    }
}

impl SearchJob {
    /// Defaults to 10000 results, last 24 hours -> now()
    pub fn create(query: String) -> (r: SearchJobBuilder)
        ensures
            r.query == query,
            is_default_builder_except_query(r),
    {
        SearchJobBuilder { query, ..SearchJobBuilder::default() }
    }
}

/// Deserializer shape for Atom/XML response data
#[derive(Debug)]
pub struct XMLResponseWithSid {
    /// the inner response element
    pub response: XMLResponseSid,
}

/// Deserializer shape for Atom/XML response data
#[derive(Debug)]
pub struct XMLResponseSid {
    /// the search ID
    pub sid: String,
}

/// One streamed search result line
#[derive(Debug)]
pub struct SearchResult {
    /// whether this line is a preview
    pub preview: Option<bool>,
    /// the offset of this result
    pub offset: usize,
    /// whether this is the last row
    pub lastrow: Option<bool>,
    /// the result document itself
    pub result: serde_json::Value,
}

} // verus!
