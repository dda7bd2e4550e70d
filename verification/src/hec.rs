//! HTTP Event Collector related functionality: the buffered event publisher.
//!
//! The publisher owns a FIFO queue of serialized events plus default routing
//! metadata. Callers enqueue events, then flush them in size-bounded batches:
//! each round removes up to `batch_size` events from the head of the queue,
//! wraps them with the routing metadata, joins them with newlines and hands
//! the payload to the transport; the transport's verdict is handed back in,
//! and a failed batch is placed back at the head so no event is lost.

use std::collections::VecDeque;

use vstd::prelude::*;

use crate::client::AuthenticationMethod;
use crate::errors::SplunkError;
use crate::json::json_text_of;
use crate::json::value_to_json;
use crate::spec_url;
use crate::url_parse_error;
use crate::text::all_dec_digits;
use crate::text::dec_chars;
use crate::text::dec_val;
use crate::text::escape_json;
use crate::text::is_dec_digit;
use crate::text::is_json_ws;
use crate::text::json_escaped;
use crate::text::lemma_no_quotes_zero;
use crate::text::lemma_quote_count_concat;
use crate::text::lemma_strip_json_ws_identity;
use crate::text::quote_count;
use crate::text::strip_json_whitespace;
use crate::text::strip_json_ws;
use crate::ServerConfig;

verus! {

/// The views of the strings in a queue or a batch, oldest first.
pub open spec fn batch_model(b: Seq<String>) -> Seq<Seq<char>> {
    b.map_values(|s: String| s@)
}

/// A metadata field rendered into a wrapped event, or nothing when unset.
pub open spec fn meta_field(name: Seq<char>, v: Option<Seq<char>>) -> Seq<char> {
    match v {
        Some(s) => ",\""@ + name + "\":\""@ + json_escaped(s) + "\""@,
        None => Seq::<char>::empty(),
    }
}

/// The view of an optional string.
pub open spec fn opt_view(o: Option<String>) -> Option<Seq<char>> {
    match o {
        Some(s) => Some(s@),
        None => None,
    }
}

/// One event document wrapped for the collector: the event itself plus the
/// configured routing metadata, keys in the order the serializer emits them.
pub open spec fn wrapped_event(
    doc: Seq<char>,
    index: Option<Seq<char>>,
    sourcetype: Option<Seq<char>>,
    source: Option<Seq<char>>,
) -> Seq<char> {
    "{\"event\":"@ + doc + meta_field("index"@, index) + meta_field("source"@, source)
        + meta_field("sourcetype"@, sourcetype) + "}"@
}

/// A whole batch payload: each document wrapped, joined with newlines.
pub open spec fn batch_chars(
    docs: Seq<Seq<char>>,
    index: Option<Seq<char>>,
    sourcetype: Option<Seq<char>>,
    source: Option<Seq<char>>,
) -> Seq<char>
    decreases docs.len(),
{
    if docs.len() == 0 {
        Seq::<char>::empty()
    } else if docs.len() == 1 {
        wrapped_event(docs[0], index, sourcetype, source)
    } else {
        batch_chars(docs.drop_last(), index, sourcetype, source) + "\n"@ + wrapped_event(
            docs.last(),
            index,
            sourcetype,
            source,
        )
    }
}

/// Whether an HTTP status code counts as success for the collector.
pub open spec fn spec_is_success(status: u16) -> bool {
    200 <= status < 300
}

/// Whether an HTTP status code counts as success (any 2xx).
pub fn is_success_status(status: u16) -> (b: bool)
    ensures
        b == spec_is_success(status),
{
    200 <= status && status < 300
}

/// HEC Client
#[derive(Debug)]
pub struct HecClient {
    /// See [ServerConfig]
    pub serverconfig: ServerConfig,
    /// The target index - if this is None then it'll just let the server decide
    pub index: Option<String>,
    /// The target sourcetype - if this is None then it'll just let the server decide
    pub sourcetype: Option<String>,
    /// The target source - if this is None then it'll just let the server decide
    pub source: Option<String>,
    /// The pending events, each already serialized to one JSON document
    pub queue: VecDeque<String>,
    /// The user-agent string to send
    pub user_agent: String,
    /// Connection timeout, defaults to 60 seconds
    pub timeout: u64,
}

impl HecClient {
    /// The queued event documents, oldest first.
    pub open spec fn queue_model(self) -> Seq<Seq<char>> {
        batch_model(self.queue@)
    }

    /// Everything but the queue agrees between the two states.
    pub open spec fn same_config(a: HecClient, b: HecClient) -> bool {
        &&& a.serverconfig == b.serverconfig
        &&& a.index == b.index
        &&& a.sourcetype == b.sourcetype
        &&& a.source == b.source
        &&& a.user_agent == b.user_agent
        &&& a.timeout == b.timeout
    }

    /// Create a new HEC client, specifying the token and hostname. Defaults
    /// to port 8088.
    pub fn new(token: String, hostname: String) -> (r: Self)
        ensures
            r.serverconfig.hostname == hostname,
            r.serverconfig.port == 8088u16,
            r.serverconfig.auth_method == (AuthenticationMethod::Token { token }),
            r.serverconfig.verify_tls,
            r.serverconfig.use_tls,
            r.serverconfig.connection_timeout == 30u16,
            r.index is None,
            r.sourcetype is None,
            r.source is None,
            r.queue@ == Seq::<String>::empty(),
            r.user_agent@ == "splunk-rs 0.1.0"@,
            r.timeout == 60u64,
    {
        let serverconfig = ServerConfig::new(hostname).with_token(token).with_port(8088);
        HecClient {
            serverconfig,
            index: None,
            sourcetype: None,
            source: None,
            queue: VecDeque::new(),
            user_agent: String::from_str("splunk-rs 0.1.0"),
            timeout: 60,
        }
    }

    /// Start the HEC Client with a given server config
    pub fn with_serverconfig(serverconfig: ServerConfig) -> (r: Self)
        ensures
            r.serverconfig == serverconfig,
            r.index is None,
            r.sourcetype is None,
            r.source is None,
            r.queue@ == Seq::<String>::empty(),
            r.user_agent@ == "splunk-rs 0.1.0"@,
            r.timeout == 60u64,
    {
        HecClient {
            serverconfig,
            index: None,
            sourcetype: None,
            source: None,
            queue: VecDeque::new(),
            user_agent: String::from_str("splunk-rs 0.1.0"),
            timeout: 60,
        }
    }

    /// Configure a custom user-agent string
    pub fn useragent(&mut self, useragent: String)
        ensures
            final(self).user_agent == useragent,
            final(self).queue == old(self).queue,
            final(self).serverconfig == old(self).serverconfig,
            final(self).index == old(self).index,
            final(self).sourcetype == old(self).sourcetype,
            final(self).source == old(self).source,
            final(self).timeout == old(self).timeout,
    {
        self.user_agent = useragent;
    }

    /// Set the index on the events you'll send
    pub fn with_index(self, index: String) -> (r: Self)
        ensures
            r.index == Some(index),
            r.serverconfig == self.serverconfig,
            r.sourcetype == self.sourcetype,
            r.source == self.source,
            r.queue == self.queue,
            r.user_agent == self.user_agent,
            r.timeout == self.timeout,
    {
        HecClient { index: Some(index), ..self }
    }

    /// Set the sourcetype on all events you send
    pub fn with_sourcetype(self, sourcetype: String) -> (r: Self)
        ensures
            r.sourcetype == Some(sourcetype),
            r.serverconfig == self.serverconfig,
            r.index == self.index,
            r.source == self.source,
            r.queue == self.queue,
            r.user_agent == self.user_agent,
            r.timeout == self.timeout,
    {
        HecClient { sourcetype: Some(sourcetype), ..self }
    }

    /// Set the source on all events you send
    pub fn with_source(self, source: String) -> (r: Self)
        ensures
            r.source == Some(source),
            r.serverconfig == self.serverconfig,
            r.index == self.index,
            r.sourcetype == self.sourcetype,
            r.queue == self.queue,
            r.user_agent == self.user_agent,
            r.timeout == self.timeout,
    {
        HecClient { source: Some(source), ..self }
    }

    /// Appends one already-serialized event document to the tail of the
    /// queue. This is the whole of what an enqueue does to the queue.
    pub fn enqueue_document(&mut self, doc: String)
        ensures
            final(self).queue@ == old(self).queue@.push(doc),
            final(self).queue_model() == old(self).queue_model().push(doc@),
            Self::same_config(*old(self), *final(self)),
    {
        self.queue.push_back(doc);
        proof {
            assert(self.queue_model() =~= old(self).queue_model().push(
                old(self).queue@.push(doc).last()@,
            ));
        }
    }

    /// add a new queue item: the event is serialized now, not at flush time,
    /// and the queue always grows by exactly one
    pub fn enqueue(&mut self, event: &serde_json::Value)
        ensures
            final(self).queue_model() == old(self).queue_model().push(json_text_of(*event)),
            final(self).queue@.len() == old(self).queue@.len() + 1,
            Self::same_config(*old(self), *final(self)),
    {
        let doc = value_to_json(event).unwrap();
        self.enqueue_document(doc);
    }

    /// get the current queue size
    pub fn queue_size(&self) -> (r: usize)
        ensures
            r == self.queue@.len(),
    {
        self.queue.len()
    }

    /// Removes up to `batch_size` events from the head of the queue, oldest
    /// first, and hands them out for sending.
    pub fn take_batch(&mut self, batch_size: usize) -> (batch: Vec<String>)
        requires
            batch_size >= 1,
        ensures
            ({
                let k = if old(self).queue@.len() < batch_size {
                    old(self).queue@.len() as int
                } else {
                    batch_size as int
                };
                batch@ == old(self).queue@.take(k) && final(self).queue@ == old(self).queue@.skip(
                    k,
                )
            }),
            Self::same_config(*old(self), *final(self)),
    {
        let k: usize = if self.queue.len() < batch_size {
            self.queue.len()
        } else {
            batch_size
        };
        let ghost q0 = self.queue@;
        let ghost c0 = *self;
        let mut batch: Vec<String> = Vec::new();
        let mut i: usize = 0;
        while i < k
            invariant
                0 <= i <= k,
                k as int <= q0.len(),
                batch@ == q0.take(i as int),
                self.queue@ == q0.skip(i as int),
                Self::same_config(c0, *self),
            decreases k - i,
        {
            let e = self.queue.pop_front().unwrap();
            batch.push(e);
            proof {
                assert(batch@ =~= q0.take(i + 1));
                assert(self.queue@ =~= q0.skip(i + 1));
            }
            i = i + 1;
        }
        batch
    }

    /// Places a batch back at the head of the queue, preserving its order:
    /// what `take_batch` removed is restored exactly.
    pub fn restore_batch(&mut self, batch: Vec<String>)
        ensures
            final(self).queue@ == batch@ + old(self).queue@,
            Self::same_config(*old(self), *final(self)),
    {
        let ghost q0 = self.queue@;
        let ghost b0 = batch@;
        let ghost c0 = *self;
        let mut b = batch;
        while b.len() > 0
            invariant
                b@ + self.queue@ =~= b0 + q0,
                Self::same_config(c0, *self),
            decreases b.len(),
        {
            let e = b.pop().unwrap();
            self.queue.push_front(e);
            proof {
                assert(b@ + self.queue@ =~= b0 + q0);
            }
        }
        proof {
            assert(self.queue@ =~= b0 + q0);
        }
    }

    /// Appends one rendered metadata field, or nothing when it is unset.
    fn append_meta(payload: &mut String, name: &str, v: &Option<String>)
        ensures
            final(payload)@ == old(payload)@ + meta_field(name@, opt_view(*v)),
    {
        match v {
            Some(s) => {
                payload.append(",\"");
                payload.append(name);
                payload.append("\":\"");
                let escaped = escape_json(s.as_str());
                payload.append(escaped.as_str());
                payload.append("\"");
                proof {
                    assert(payload@ =~= old(payload)@ + meta_field(name@, opt_view(*v)));
                }
            },
            None => {
                proof {
                    assert(payload@ =~= old(payload)@ + meta_field(name@, opt_view(*v)));
                }
            },
        }
    }

    /// Wraps one serialized event document with the configured routing
    /// metadata, which is always taken from the publisher, never from the
    /// event body.
    pub fn event_payload(&self, doc: &str) -> (r: String)
        ensures
            r@ == wrapped_event(
                doc@,
                opt_view(self.index),
                opt_view(self.sourcetype),
                opt_view(self.source),
            ),
    {
        let mut r = String::from_str("{\"event\":");
        r.append(doc);
        Self::append_meta(&mut r, "index", &self.index);
        Self::append_meta(&mut r, "source", &self.source);
        Self::append_meta(&mut r, "sourcetype", &self.sourcetype);
        r.append("}");
        proof {
            assert(r@ =~= wrapped_event(
                doc@,
                opt_view(self.index),
                opt_view(self.sourcetype),
                opt_view(self.source),
            ));
        }
        r
    }

    /// Renders a batch for one POST: each event wrapped, newline-joined.
    pub fn batch_payload(&self, batch: &Vec<String>) -> (r: String)
        ensures
            r@ == batch_chars(
                batch_model(batch@),
                opt_view(self.index),
                opt_view(self.sourcetype),
                opt_view(self.source),
            ),
    {
        let mut r = String::new();
        let mut i: usize = 0;
        while i < batch.len()
            invariant
                0 <= i <= batch@.len(),
                r@ == batch_chars(
                    batch_model(batch@.take(i as int)),
                    opt_view(self.index),
                    opt_view(self.sourcetype),
                    opt_view(self.source),
                ),
            decreases batch@.len() - i,
        {
            if i > 0 {
                r.append("\n");
            }
            let w = self.event_payload(batch[i].as_str());
            r.append(w.as_str());
            proof {
                let docs1 = batch_model(batch@.take(i + 1));
                assert(docs1.drop_last() =~= batch_model(batch@.take(i as int)));
                assert(docs1.last() == batch@[i as int]@);
                assert(r@ =~= batch_chars(
                    docs1,
                    opt_view(self.index),
                    opt_view(self.sourcetype),
                    opt_view(self.source),
                ));
            }
            i = i + 1;
        }
        proof {
            assert(batch@.take(batch@.len() as int) =~= batch@);
        }
        r
    }

    /// The collector's ingestion URL for this configuration.
    pub fn collector_url(&self) -> (r: Result<String, SplunkError>)
        ensures
            url_parse_error(spec_url(self.serverconfig, "/services/collector"@)) is None ==> (
            r matches Ok(u) && u@ == spec_url(self.serverconfig, "/services/collector"@)),
            url_parse_error(spec_url(self.serverconfig, "/services/collector"@)) matches Some(m)
                ==> (r matches Err(e) && e matches SplunkError::Generic(s) && s@ == m),
    {
        self.serverconfig.get_url("/services/collector")
    }

    /// Accounts for the transport's verdict on one batch: a success status
    /// acknowledges every event in it, any other status puts the whole batch
    /// back at the head of the queue and surfaces the rejection, so no event
    /// is lost.
    pub fn handle_send_result(&mut self, batch: Vec<String>, status: u16, body: String) -> (r:
        Result<usize, SplunkError>)
        ensures
            spec_is_success(status) ==> (r matches Ok(n) && n == batch@.len() && final(self).queue
                == old(self).queue),
            !spec_is_success(status) ==> (r matches Err(e) && e matches SplunkError::ServerRejected {
                status: s,
                body: b,
            } && s == status && b == body && final(self).queue@ == batch@ + old(self).queue@),
            Self::same_config(*old(self), *final(self)),
    {
        if 200 <= status && status < 300 {
            Ok(batch.len())
        } else {
            self.restore_batch(batch);
            Err(SplunkError::ServerRejected { status, body })
        }
    }

    /// Accounts for a transport-level failure (no response at all) on one
    /// batch: the whole batch goes back to the head of the queue and the
    /// failure is surfaced, so no event is lost.
    pub fn handle_send_failure(&mut self, batch: Vec<String>, message: String) -> (r: SplunkError)
        ensures
            r matches SplunkError::Generic(m) && m == message,
            final(self).queue@ == batch@ + old(self).queue@,
            Self::same_config(*old(self), *final(self)),
    {
        self.restore_batch(batch);
        SplunkError::Generic(message)
    }
}

/// The response from a HEC health check.
#[derive(Clone, Debug)]
pub struct HecHealthResult {
    /// the reported status text
    pub text: String,
    /// the reported status code
    pub code: u32,
}

/// The text the collector reports when healthy.
pub open spec fn healthy_text() -> Seq<char> {
    "HEC is healthy"@
}

impl HecHealthResult {
    /// Whether this result is the canonical healthy response, the one a
    /// caller compares against: `{"text":"HEC is healthy","code":17}`.
    pub fn is_healthy(&self) -> (b: bool)
        ensures
            b == (self.text@ == healthy_text() && self.code == 17u32),
    {
        let expected = "HEC is healthy".to_owned();
        self.code == 17 && self.text == expected
    }
}

/// The first position at or after `i` holding a double quote, or the length
/// of `s` when there is none.
pub open spec fn find_quote(s: Seq<char>, i: int) -> int
    decreases s.len() - i,
{
    if i < 0 || i >= s.len() {
        s.len() as int
    } else if s[i] == '"' {
        i
    } else {
        find_quote(s, i + 1)
    }
}

proof fn lemma_find_quote_at(s: Seq<char>, from: int, i: int)
    requires
        0 <= from <= i <= s.len(),
        forall|j: int| from <= j < i ==> s[j] != '"',
        i == s.len() || s[i] == '"',
    ensures
        find_quote(s, from) == i,
    decreases i - from,
{
    if from < i {
        lemma_find_quote_at(s, from + 1, i);
    }
}

/// The first position at or after `i` holding a non-digit, or the length of
/// `s` when the digits run to its end.
pub open spec fn find_non_digit(s: Seq<char>, i: int) -> int
    decreases s.len() - i,
{
    if i < 0 || i >= s.len() {
        s.len() as int
    } else if !is_dec_digit(s[i]) {
        i
    } else {
        find_non_digit(s, i + 1)
    }
}

proof fn lemma_find_non_digit_at(s: Seq<char>, from: int, i: int)
    requires
        0 <= from <= i <= s.len(),
        forall|j: int| from <= j < i ==> is_dec_digit(s[j]),
        i == s.len() || !is_dec_digit(s[i]),
    ensures
        find_non_digit(s, from) == i,
    decreases i - from,
{
    if from < i {
        lemma_find_non_digit_at(s, from + 1, i);
    }
}

proof fn lemma_find_non_digit_bounds(s: Seq<char>, from: int)
    requires
        0 <= from <= s.len(),
    ensures
        from <= find_non_digit(s, from) <= s.len(),
    decreases s.len() - from,
{
    if from < s.len() && is_dec_digit(s[from]) {
        lemma_find_non_digit_bounds(s, from + 1);
    }
}

proof fn lemma_find_non_digit_lower(s: Seq<char>, from: int, i: int)
    requires
        0 <= from <= i <= s.len(),
        forall|j: int| from <= j < i ==> is_dec_digit(s[j]),
    ensures
        i <= find_non_digit(s, from) <= s.len(),
    decreases i - from,
{
    if from < i {
        lemma_find_non_digit_lower(s, from + 1, i);
    } else {
        lemma_find_non_digit_bounds(s, from);
    }
}

/// What a compact body of the text-first shape
/// `{"text":"STR","code":NUM}` parses to.
pub open spec fn spec_parse_text_first(s: Seq<char>) -> Option<(Seq<char>, nat)> {
    let plen = "{\"text\":\""@.len() as int;
    if s.len() < plen || s.take(plen) != "{\"text\":\""@ {
        None
    } else {
        let tq = find_quote(s, plen);
        if tq >= s.len() {
            None
        } else if exists|j: int| plen <= j < tq && s[j] == '\\' {
            None
        } else {
            let ms = tq + 1;
            let mlen = ",\"code\":"@.len() as int;
            if s.len() < ms + mlen + 2 {
                None
            } else if s.subrange(ms, ms + mlen) != ",\"code\":"@ {
                None
            } else {
                let num = s.subrange(ms + mlen, s.len() - 1);
                if s[s.len() - 1] != '}' || !all_dec_digits(num) || dec_val(num) > 0xFFFF_FFFF {
                    None
                } else {
                    Some((s.subrange(plen, tq), dec_val(num)))
                }
            }
        }
    }
}

/// What a compact body of the code-first shape
/// `{"code":NUM,"text":"STR"}` parses to.
pub open spec fn spec_parse_code_first(s: Seq<char>) -> Option<(Seq<char>, nat)>
    recommends
        s.len() >= "{\"code\":"@.len(),
{
    let clen = "{\"code\":"@.len() as int;
    let nd = find_non_digit(s, clen);
    let num = s.subrange(clen, nd);
    if num.len() == 0 || dec_val(num) > 0xFFFF_FFFF {
        None
    } else if s.len() < nd + 11 {
        None
    } else if s.subrange(nd, nd + 9) != ",\"text\":\""@ {
        None
    } else {
        let tq = find_quote(s, nd + 9);
        if tq >= s.len() {
            None
        } else if exists|j: int| nd + 9 <= j < tq && s[j] == '\\' {
            None
        } else if tq + 2 != s.len() || s[s.len() - 1] != '}' {
            None
        } else {
            Some((s.subrange(nd + 9, tq), dec_val(num)))
        }
    }
}

/// What a compact (whitespace-free) health body parses to: the status text
/// and the status code, with the two keys accepted in either order.
pub open spec fn spec_parse_health_compact(s: Seq<char>) -> Option<(Seq<char>, nat)> {
    if s.len() >= "{\"text\":\""@.len() as int && s.take("{\"text\":\""@.len() as int) == "{\"text\":\""@ {
        spec_parse_text_first(s)
    } else if s.len() >= "{\"code\":"@.len() as int && s.take("{\"code\":"@.len() as int) == "{\"code\":"@ {
        spec_parse_code_first(s)
    } else {
        None
    }
}

/// What a health response body parses to: insignificant whitespace outside
/// the quoted strings is ignored, then the compact two-key shape is read,
/// keys in either order. A string value needing escape sequences, or any
/// other shape, is a parse failure, which callers surface.
pub open spec fn spec_parse_health(s: Seq<char>) -> Option<(Seq<char>, nat)> {
    spec_parse_health_compact(strip_json_ws(s))
}

/// The canonical rendering of a health response value, as the collector
/// sends it.
pub open spec fn health_body(text: Seq<char>, code: nat) -> Seq<char> {
    "{\"text\":\""@ + text + "\",\"code\":"@ + dec_chars(code) + "}"@
}

proof fn lemma_health_prefix_quotes()
    ensures
        quote_count("{\"text\":\""@) == 3,
{
    reveal_strlit("{\"text\":\"");
    reveal_with_fuel(quote_count, 11);
}

/// The health parser accepts every canonically rendered health body whose
/// text needs no escaping, and returns exactly the rendered value.
#[verifier::rlimit(50)]
pub proof fn lemma_parse_health_of_rendering(text: Seq<char>, code: u32)
    requires
        forall|i: int| 0 <= i < text.len() ==> (text[i] != '"' && text[i] != '\\'),
    ensures
        spec_parse_health(health_body(text, code as nat)) == Some((text, code as nat)),
{
    reveal_strlit("{\"text\":\"");
    reveal_strlit("\",\"code\":");
    reveal_strlit(",\"code\":");
    reveal_strlit("}");
    crate::text::lemma_decimal_round_trip(code as nat);
    let s = health_body(text, code as nat);
    let pre = "{\"text\":\""@;
    let quoted_mid = "\",\"code\":"@;
    let digits = dec_chars(code as nat);
    let tq = 9 + text.len() as int;
    assert(s.len() == 19 + text.len() + digits.len());
    assert(s.take(9) =~= pre);
    assert forall|j: int| 9 <= j < tq implies s[j] != '"' && s[j] != '\\' by {
        assert(s[j] == text[j - 9]);
    }
    assert(s[tq] == quoted_mid[0]);
    lemma_find_quote_at(s, 9, tq);
    assert(s.subrange(9, tq) =~= text);
    assert(s.subrange(tq + 1, tq + 9) =~= ",\"code\":"@);
    assert(s.subrange(tq + 9, s.len() - 1) =~= digits);
    assert(s[s.len() - 1] == '}');
    // the rendering holds whitespace only inside the quoted text, so
    // stripping leaves it unchanged
    assert forall|i: int|
        0 <= i < s.len() && is_json_ws(#[trigger] s[i]) implies quote_count(s.take(i)) % 2
        == 1 by {
        if i < 9 {
            assert(s[i] == pre[i]);
        } else if i < tq {
            assert(s.take(i) =~= pre + text.take(i - 9));
            lemma_quote_count_concat(pre, text.take(i - 9));
            lemma_no_quotes_zero(text.take(i - 9));
            lemma_health_prefix_quotes();
        } else if i < tq + 9 {
            assert(s[i] == quoted_mid[i - tq]);
        } else if i < s.len() - 1 {
            assert(s[i] == digits[i - (tq + 9)]);
            assert(is_dec_digit(s[i]));
        } else {
            assert(s[i] == '}');
        }
    }
    lemma_strip_json_ws_identity(s);
}

/// Whether `s` opens exactly like the health response.
fn has_health_prefix(s: &str) -> (b: bool)
    requires
        s@.len() >= 9,
    ensures
        b == (s@.take(9) == "{\"text\":\""@),
{
    proof {
        reveal_strlit("{\"text\":\"");
    }
    let ghost lit = "{\"text\":\""@;
    if s.get_char(0) != '{' {
        proof {
            assert(s@.take(9)[0] != lit[0]);
        }
        return false;
    }
    if s.get_char(1) != '"' {
        proof {
            assert(s@.take(9)[1] != lit[1]);
        }
        return false;
    }
    if s.get_char(2) != 't' {
        proof {
            assert(s@.take(9)[2] != lit[2]);
        }
        return false;
    }
    if s.get_char(3) != 'e' {
        proof {
            assert(s@.take(9)[3] != lit[3]);
        }
        return false;
    }
    if s.get_char(4) != 'x' {
        proof {
            assert(s@.take(9)[4] != lit[4]);
        }
        return false;
    }
    if s.get_char(5) != 't' {
        proof {
            assert(s@.take(9)[5] != lit[5]);
        }
        return false;
    }
    if s.get_char(6) != '"' {
        proof {
            assert(s@.take(9)[6] != lit[6]);
        }
        return false;
    }
    if s.get_char(7) != ':' {
        proof {
            assert(s@.take(9)[7] != lit[7]);
        }
        return false;
    }
    if s.get_char(8) != '"' {
        proof {
            assert(s@.take(9)[8] != lit[8]);
        }
        return false;
    }
    proof {
        assert(s@.take(9) =~= lit);
    }
    true
}

/// Whether the code key follows at position `ms`.
fn has_health_mid(s: &str, ms: usize) -> (b: bool)
    requires
        ms + 8 <= s@.len(),
        s@.len() <= usize::MAX,
    ensures
        b == (s@.subrange(ms as int, ms as int + 8) == ",\"code\":"@),
{
    proof {
        reveal_strlit(",\"code\":");
    }
    let ghost lit = ",\"code\":"@;
    let ghost sub = s@.subrange(ms as int, ms as int + 8);
    if s.get_char(ms) != ',' {
        proof {
            assert(sub[0] != lit[0]);
        }
        return false;
    }
    if s.get_char(ms + 1) != '"' {
        proof {
            assert(sub[1] != lit[1]);
        }
        return false;
    }
    if s.get_char(ms + 2) != 'c' {
        proof {
            assert(sub[2] != lit[2]);
        }
        return false;
    }
    if s.get_char(ms + 3) != 'o' {
        proof {
            assert(sub[3] != lit[3]);
        }
        return false;
    }
    if s.get_char(ms + 4) != 'd' {
        proof {
            assert(sub[4] != lit[4]);
        }
        return false;
    }
    if s.get_char(ms + 5) != 'e' {
        proof {
            assert(sub[5] != lit[5]);
        }
        return false;
    }
    if s.get_char(ms + 6) != '"' {
        proof {
            assert(sub[6] != lit[6]);
        }
        return false;
    }
    if s.get_char(ms + 7) != ':' {
        proof {
            assert(sub[7] != lit[7]);
        }
        return false;
    }
    proof {
        assert(sub =~= lit);
    }
    true
}

/// Parses the compact fixed-shape health response body.
/// Whether the character at `j` is a decimal digit.
fn digit_at(s: &str, j: usize) -> (b: bool)
    requires
        j < s@.len(),
    ensures
        b == is_dec_digit(s@[j as int]),
{
    let u = s.get_char(j) as u32;
    48 <= u && u <= 57
}

/// Whether `s` opens like the code-first health response.
fn has_code_prefix(s: &str) -> (b: bool)
    requires
        s@.len() >= 8,
    ensures
        b == (s@.take(8) == "{\"code\":"@),
{
    proof {
        reveal_strlit("{\"code\":");
    }
    let ghost lit = "{\"code\":"@;
    if s.get_char(0) != '{' {
        proof {
            assert(s@.take(8)[0] != lit[0]);
        }
        return false;
    }
    if s.get_char(1) != '"' {
        proof {
            assert(s@.take(8)[1] != lit[1]);
        }
        return false;
    }
    if s.get_char(2) != 'c' {
        proof {
            assert(s@.take(8)[2] != lit[2]);
        }
        return false;
    }
    if s.get_char(3) != 'o' {
        proof {
            assert(s@.take(8)[3] != lit[3]);
        }
        return false;
    }
    if s.get_char(4) != 'd' {
        proof {
            assert(s@.take(8)[4] != lit[4]);
        }
        return false;
    }
    if s.get_char(5) != 'e' {
        proof {
            assert(s@.take(8)[5] != lit[5]);
        }
        return false;
    }
    if s.get_char(6) != '"' {
        proof {
            assert(s@.take(8)[6] != lit[6]);
        }
        return false;
    }
    if s.get_char(7) != ':' {
        proof {
            assert(s@.take(8)[7] != lit[7]);
        }
        return false;
    }
    proof {
        assert(s@.take(8) =~= lit);
    }
    true
}

/// Whether the text key follows at position `ms` in the code-first shape.
fn has_text_mid(s: &str, ms: usize) -> (b: bool)
    requires
        ms + 9 <= s@.len(),
        s@.len() <= usize::MAX,
    ensures
        b == (s@.subrange(ms as int, ms as int + 9) == ",\"text\":\""@),
{
    proof {
        reveal_strlit(",\"text\":\"");
    }
    let ghost lit = ",\"text\":\""@;
    let ghost sub = s@.subrange(ms as int, ms as int + 9);
    if s.get_char(ms) != ',' {
        proof {
            assert(sub[0] != lit[0]);
        }
        return false;
    }
    if s.get_char(ms + 1) != '"' {
        proof {
            assert(sub[1] != lit[1]);
        }
        return false;
    }
    if s.get_char(ms + 2) != 't' {
        proof {
            assert(sub[2] != lit[2]);
        }
        return false;
    }
    if s.get_char(ms + 3) != 'e' {
        proof {
            assert(sub[3] != lit[3]);
        }
        return false;
    }
    if s.get_char(ms + 4) != 'x' {
        proof {
            assert(sub[4] != lit[4]);
        }
        return false;
    }
    if s.get_char(ms + 5) != 't' {
        proof {
            assert(sub[5] != lit[5]);
        }
        return false;
    }
    if s.get_char(ms + 6) != '"' {
        proof {
            assert(sub[6] != lit[6]);
        }
        return false;
    }
    if s.get_char(ms + 7) != ':' {
        proof {
            assert(sub[7] != lit[7]);
        }
        return false;
    }
    if s.get_char(ms + 8) != '"' {
        proof {
            assert(sub[8] != lit[8]);
        }
        return false;
    }
    proof {
        assert(sub =~= lit);
    }
    true
}

/// Parses a whitespace-free health body, the two keys in either order.
fn parse_health_compact(s: &str) -> (r: Option<HecHealthResult>)
    ensures
        r is Some <==> spec_parse_health_compact(s@) is Some,
        r matches Some(h) ==> (spec_parse_health_compact(s@) matches Some(p) && h.text@ == p.0
            && h.code as nat == p.1),
{
    proof {
        reveal_strlit("{\"text\":\"");
        reveal_strlit(",\"code\":");
        reveal_strlit("{\"code\":");
        reveal_strlit(",\"text\":\"");
    }
    let n = s.unicode_len();
    if n >= 9 && has_health_prefix(s) {
        parse_text_first(s, n)
    } else if n >= 8 && has_code_prefix(s) {
        proof {
            if n >= 9 {
                assert(s@.take(9)[2] == s@[2]);
                assert(s@.take(8)[2] == s@[2]);
                assert(s@.take(9) != "{\"text\":\""@);
            }
        }
        parse_code_first(s, n)
    } else {
        None
    }
}

/// Parses the text-first shape; the prefix has already been recognised.
fn parse_text_first(s: &str, n: usize) -> (r: Option<HecHealthResult>)
    requires
        n == s@.len(),
        n >= 9,
        s@.take(9) == "{\"text\":\""@,
    ensures
        r is Some <==> spec_parse_health_compact(s@) is Some,
        r matches Some(h) ==> (spec_parse_health_compact(s@) matches Some(p) && h.text@ == p.0
            && h.code as nat == p.1),
{
    proof {
        reveal_strlit("{\"text\":\"");
        reveal_strlit(",\"code\":");
    }
    let mut i: usize = 9;
    let mut saw_backslash = false;
    while i < n && s.get_char(i) != '"'
        invariant
            9 <= i <= n,
            n == s@.len(),
            forall|j: int| 9 <= j < i ==> s@[j] != '"',
            saw_backslash == (exists|j: int| 9 <= j < i && s@[j] == '\\'),
        decreases n - i,
    {
        if s.get_char(i) == '\\' {
            saw_backslash = true;
        }
        i = i + 1;
    }
    if i == n {
        proof {
            lemma_find_quote_at(s@, 9, n as int);
        }
        return None;
    }
    proof {
        lemma_find_quote_at(s@, 9, i as int);
    }
    if saw_backslash {
        return None;
    }
    if n - i < 11 {
        return None;
    }
    if !has_health_mid(s, i + 1) {
        return None;
    }
    if s.get_char(n - 1) != '}' {
        return None;
    }
    let start: usize = i + 9;
    let end: usize = n - 1;
    let ghost num = s@.subrange(start as int, end as int);
    let mut j: usize = start;
    let mut acc: u64 = 0;
    while j < end
        invariant
            n == s@.len(),
            9 <= i,
            i + 11 <= n,
            s@.take(9) == "{\"text\":\""@,
            find_quote(s@, 9) == i as int,
            !(exists|x: int| 9 <= x < i && s@[x] == '\\'),
            s@.subrange(i as int + 1, i as int + 9) == ",\"code\":"@,
            s@[n - 1] == '}',
            start <= j <= end,
            start as int == i + 9,
            end as int == n - 1,
            num == s@.subrange(start as int, end as int),
            all_dec_digits(num.take(j - start)),
            acc <= 0xFFFF_FFFF,
            acc as nat == dec_val(num.take(j - start)),
        decreases end - j,
    {
        let c = s.get_char(j);
        let u = c as u32;
        if u < 48 || u > 57 {
            proof {
                assert(num[j - start] == s@[j as int]);
                assert(!is_dec_digit(num[j - start]));
            }
            return None;
        }
        let d = (u - 48) as u64;
        let next: u64 = acc * 10 + d;
        proof {
            assert(num.take(j - start + 1).drop_last() =~= num.take(j - start));
            assert(num.take(j - start + 1).last() == num[j - start]);
        }
        if next > 0xFFFF_FFFF {
            proof {
                crate::text::lemma_dec_val_prefix_le(num, j - start + 1);
            }
            return None;
        }
        acc = next;
        j = j + 1;
    }
    proof {
        assert(num.take(end - start) =~= num);
    }
    let text_slice = s.substring_char(9, i);
    let text = String::from_str(text_slice);
    Some(HecHealthResult { text, code: acc as u32 })
}

/// Parses the code-first shape; the prefix has already been recognised.
fn parse_code_first(s: &str, n: usize) -> (r: Option<HecHealthResult>)
    requires
        n == s@.len(),
        n >= 8,
        s@.take(8) == "{\"code\":"@,
        n >= 9 ==> s@.take(9) != "{\"text\":\""@,
    ensures
        r is Some <==> spec_parse_health_compact(s@) is Some,
        r matches Some(h) ==> (spec_parse_health_compact(s@) matches Some(p) && h.text@ == p.0
            && h.code as nat == p.1),
{
    proof {
        reveal_strlit("{\"text\":\"");
        reveal_strlit("{\"code\":");
        reveal_strlit(",\"text\":\"");
    }
    let mut j: usize = 8;
    let mut acc: u64 = 0;
    while j < n && digit_at(s, j)
        invariant
            8 <= j <= n,
            n == s@.len(),
            s@.take(8) == "{\"code\":"@,
            n >= 9 ==> s@.take(9) != "{\"text\":\""@,
            "{\"text\":\""@.len() == 9,
            forall|k: int| 8 <= k < j ==> is_dec_digit(s@[k]),
            acc <= 0xFFFF_FFFF,
            acc as nat == dec_val(s@.subrange(8, j as int)),
        decreases n - j,
    {
        let c = s.get_char(j);
        let u = c as u32;
        let d = (u - 48) as u64;
        let next: u64 = acc * 10 + d;
        proof {
            assert(s@.subrange(8, j + 1).drop_last() =~= s@.subrange(8, j as int));
            assert(s@.subrange(8, j + 1).last() == s@[j as int]);
        }
        if next > 0xFFFF_FFFF {
            proof {
                lemma_find_non_digit_lower(s@, 8, j + 1);
                let nd = find_non_digit(s@, 8);
                let numg = s@.subrange(8, nd);
                assert(numg.take(j + 1 - 8) =~= s@.subrange(8, j + 1));
                crate::text::lemma_dec_val_prefix_le(numg, j + 1 - 8);
            }
            return None;
        }
        acc = next;
        j = j + 1;
    }
    proof {
        lemma_find_non_digit_at(s@, 8, j as int);
    }
    let ghost num = s@.subrange(8, j as int);
    if j == 8 {
        return None;
    }
    if n - j < 11 {
        return None;
    }
    if !has_text_mid(s, j) {
        return None;
    }
    let tstart: usize = j + 9;
    let mut i: usize = tstart;
    let mut saw_backslash = false;
    while i < n && s.get_char(i) != '"'
        invariant
            tstart <= i <= n,
            n == s@.len(),
            forall|k: int| tstart <= k < i ==> s@[k] != '"',
            saw_backslash == (exists|k: int| tstart <= k < i && s@[k] == '\\'),
        decreases n - i,
    {
        if s.get_char(i) == '\\' {
            saw_backslash = true;
        }
        i = i + 1;
    }
    if i == n {
        proof {
            lemma_find_quote_at(s@, tstart as int, n as int);
        }
        return None;
    }
    proof {
        lemma_find_quote_at(s@, tstart as int, i as int);
    }
    if saw_backslash {
        return None;
    }
    if n - i != 2 {
        return None;
    }
    if s.get_char(n - 1) != '}' {
        return None;
    }
    let text = String::from_str(s.substring_char(tstart, i));
    Some(HecHealthResult { text, code: acc as u32 })
}

/// Parses a health response body: whitespace outside the quoted strings is
/// ignored, then the compact two-key shape is read, keys in either order.
pub fn parse_health(s: &str) -> (r: Option<HecHealthResult>)
    ensures
        r is Some <==> spec_parse_health(s@) is Some,
        r matches Some(h) ==> (spec_parse_health(s@) matches Some(p) && h.text@ == p.0
            && h.code as nat == p.1),
{
    let stripped = strip_json_whitespace(s);
    parse_health_compact(stripped.as_str())
}

/// Parses a health-check response body; a body that does not parse is
/// surfaced as an error, never ignored.
pub fn parse_health_response(body: &str) -> (r: Result<HecHealthResult, SplunkError>)
    ensures
        r is Ok <==> spec_parse_health(body@) is Some,
        r matches Ok(h) ==> (spec_parse_health(body@) matches Some(p) && h.text@ == p.0
            && h.code as nat == p.1),
        r matches Err(e) ==> e is Generic,
{
    match parse_health(body) {
        Some(h) => Ok(h),
        None => Err(
            SplunkError::Generic(String::from_str("could not parse HEC health response")),
        ),
    }
}

/// The health endpoint, with the ack flag when asked for.
pub fn health_endpoint(ack: bool) -> (r: &'static str)
    ensures
        ack ==> r@ == "/services/collector/health?ack=true"@,
        !ack ==> r@ == "/services/collector/health"@,
{
    if ack {
        "/services/collector/health?ack=true"
    } else {
        "/services/collector/health"
    }
}

/// A queue after a run of enqueue calls: each call appends one document.
pub open spec fn after_enqueues(q: Seq<Seq<char>>, docs: Seq<Seq<char>>) -> Seq<Seq<char>>
    decreases docs.len(),
{
    if docs.len() == 0 {
        q
    } else {
        after_enqueues(q.push(docs[0]), docs.drop_first())
    }
}

/// Each enqueue call appends exactly one document to the tail of the queue,
/// so after any run of enqueue calls with no flush between them the queue
/// holds the old events followed by the new ones in call order, and `size()`
/// reports the old size plus the number of calls made.
pub proof fn lemma_size_counts_enqueues(q: Seq<Seq<char>>, docs: Seq<Seq<char>>)
    ensures
        after_enqueues(q, docs) == q + docs,
        after_enqueues(q, docs).len() == q.len() + docs.len(),
    decreases docs.len(),
{
    if docs.len() == 0 {
        assert(q + docs =~= q);
    } else {
        lemma_size_counts_enqueues(q.push(docs[0]), docs.drop_first());
        assert(q.push(docs[0]) + docs.drop_first() =~= q + docs);
    }
}

/// The sizes of the batches one flush sends for `n` queued events and batch
/// size `b`: full batches of `b` events, then whatever remains.
pub open spec fn batch_plan(n: nat, b: nat) -> Seq<nat>
    decreases n,
{
    if b == 0 || n == 0 {
        Seq::<nat>::empty()
    } else if n <= b {
        seq![n]
    } else {
        seq![b] + batch_plan((n - b) as nat, b)
    }
}

/// The total number of events a sequence of batches carries.
pub open spec fn seq_sum(s: Seq<nat>) -> nat
    decreases s.len(),
{
    if s.len() == 0 {
        0
    } else {
        s[0] + seq_sum(s.drop_first())
    }
}

/// Flushing `n` queued events with batch size `b` takes exactly the ceiling
/// of `n / b` requests: every batch but the last carries exactly `b` events,
/// the last carries `n % b` events (a full `b` when `b` divides `n`), and
/// the batches together carry all `n` events.
pub proof fn lemma_batch_plan(n: nat, b: nat)
    requires
        b >= 1,
    ensures
        batch_plan(n, b).len() == n / b + if n % b == 0 {
            0int
        } else {
            1int
        },
        seq_sum(batch_plan(n, b)) == n,
        forall|i: int| 0 <= i < batch_plan(n, b).len() - 1 ==> batch_plan(n, b)[i] == b,
        n > 0 ==> batch_plan(n, b).last() == if n % b == 0 {
            b
        } else {
            n % b
        },
    decreases n,
{
    if n == 0 {
        vstd::arithmetic::div_mod::lemma_fundamental_div_mod_converse(0, b as int, 0, 0);
    } else if n <= b {
        let plan = batch_plan(n, b);
        assert(plan =~= seq![n]);
        assert(plan.drop_first() =~= Seq::<nat>::empty());
        assert(plan[0] == n);
        assert(seq_sum(plan) == n + seq_sum(plan.drop_first()));
        assert(seq_sum(Seq::<nat>::empty()) == 0);
        if n == b {
            vstd::arithmetic::div_mod::lemma_fundamental_div_mod_converse(
                n as int,
                b as int,
                1,
                0,
            );
        } else {
            vstd::arithmetic::div_mod::lemma_fundamental_div_mod_converse(
                n as int,
                b as int,
                0,
                n as int,
            );
        }
    } else {
        lemma_batch_plan((n - b) as nat, b);
        let rest = batch_plan((n - b) as nat, b);
        let plan = batch_plan(n, b);
        assert(plan.drop_first() =~= rest);
        assert(plan[0] == b);
        assert(seq_sum(plan) == b + seq_sum(rest));
        let q = (n - b) as int / b as int;
        let r = (n - b) as int % b as int;
        vstd::arithmetic::div_mod::lemma_fundamental_div_mod((n - b) as int, b as int);
        assert((q + 1) * b == q * b + b) by (nonlinear_arith);
        assert(n as int == (q + 1) * (b as int) + r) by {
            assert((n - b) as int == (b as int) * q + r);
            assert((b as int) * q == q * (b as int)) by (nonlinear_arith);
        }
        vstd::arithmetic::div_mod::lemma_fundamental_div_mod_converse(
            n as int,
            b as int,
            q + 1,
            r,
        );
        assert(rest.len() > 0);
        assert(plan.last() == rest.last());
        assert forall|i: int| 0 <= i < plan.len() - 1 implies plan[i] == b by {
            if i > 0 {
                assert(plan[i] == rest[i - 1]);
            }
        }
    }
}

/// An event batch removed from the head of the queue and then restored after
/// a failed delivery reassembles the original queue exactly: a failed flush
/// loses no event.
pub proof fn lemma_failed_send_restores_queue(q: Seq<String>, k: int)
    requires
        0 <= k <= q.len(),
    ensures
        q.take(k) + q.skip(k) == q,
{
    assert(q.take(k) + q.skip(k) =~= q);
}

impl Default for HecClient {
    /// A publisher pointed at the default collector, with an empty queue and
    /// no routing metadata.
    fn default() -> (r: Self)
        ensures
            r.serverconfig.hostname@ == "localhost"@,
            r.serverconfig.port == 8088u16,
            r.serverconfig.verify_tls,
            r.serverconfig.use_tls,
            r.serverconfig.auth_method is Unknown,
            r.serverconfig.connection_timeout == 30u16,
            r.index is None,
            r.sourcetype is None,
            r.source is None,
            r.queue@ == Seq::<String>::empty(),
            r.user_agent@ == "splunk-rs 0.1.0"@,
            r.timeout == 60u64,
    {
        let serverconfig = ServerConfig::default().with_port(8088);
        HecClient {
            serverconfig,
            index: None,
            sourcetype: None,
            source: None,
            queue: VecDeque::new(),
            user_agent: String::from_str("splunk-rs 0.1.0"),
            timeout: 60,
        }
    }
}


} // verus!
