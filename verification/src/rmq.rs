//! Canonical metric kinds, readings extracted from raw per-queue documents,
//! and the extraction routine itself.

use vstd::prelude::*;

use crate::json::{
    get_by_path, lookup_field, spec_lookup, spec_resolve, strs_view, JsonVal, StatValue,
};

verus! {

/// The closed set of stat types the monitored service can expose.
#[derive(Debug, Clone, Copy, PartialEq, Eq, Structural)]
pub enum StatType {
    ConsumersTotal,
    MemoryTotal,
    MessagesTotal,
    MessagesReady,
    MessagesUnacknowledged,
    MessagesTotalRate,
    MessagesReadyRate,
    MessagesUnacknowledgedRate,
    MessagesPublishRate,
    MessagesDeliveryRate,
    MessagesRedelivered,
    MessagesRedeliverRate,
}

/// Every stat type, in declaration order.
pub open spec fn spec_variants() -> Seq<StatType> {
    seq![
        StatType::ConsumersTotal,
        StatType::MemoryTotal,
        StatType::MessagesTotal,
        StatType::MessagesReady,
        StatType::MessagesUnacknowledged,
        StatType::MessagesTotalRate,
        StatType::MessagesReadyRate,
        StatType::MessagesUnacknowledgedRate,
        StatType::MessagesPublishRate,
        StatType::MessagesDeliveryRate,
        StatType::MessagesRedelivered,
        StatType::MessagesRedeliverRate,
    ]
}

/// The source path of a stat type, in dotted display form.
pub open spec fn spec_json_path(k: StatType) -> Seq<char> {
    match k {
        StatType::ConsumersTotal => "consumers"@,
        StatType::MemoryTotal => "memory"@,
        StatType::MessagesTotal => "messages"@,
        StatType::MessagesReady => "messages_ready"@,
        StatType::MessagesUnacknowledged => "messages_unacknowledged"@,
        StatType::MessagesTotalRate => "messages_details.rate"@,
        StatType::MessagesReadyRate => "messages_ready_details.rate"@,
        StatType::MessagesUnacknowledgedRate => "messages_unacknowledged_details.rate"@,
        StatType::MessagesPublishRate => "message_stats.publish_details.rate"@,
        StatType::MessagesDeliveryRate => "message_stats.deliver_get_details.rate"@,
        StatType::MessagesRedelivered => "message_stats.redeliver"@,
        StatType::MessagesRedeliverRate => "message_stats.redeliver_details.rate"@,
    }
}

/// The source path of a stat type, as its key segments.
pub open spec fn spec_path_segments(k: StatType) -> Seq<Seq<char>> {
    match k {
        StatType::ConsumersTotal => seq!["consumers"@],
        StatType::MemoryTotal => seq!["memory"@],
        StatType::MessagesTotal => seq!["messages"@],
        StatType::MessagesReady => seq!["messages_ready"@],
        StatType::MessagesUnacknowledged => seq!["messages_unacknowledged"@],
        StatType::MessagesTotalRate => seq!["messages_details"@, "rate"@],
        StatType::MessagesReadyRate => seq!["messages_ready_details"@, "rate"@],
        StatType::MessagesUnacknowledgedRate => seq![
            "messages_unacknowledged_details"@,
            "rate"@,
        ],
        StatType::MessagesPublishRate => seq!["message_stats"@, "publish_details"@, "rate"@],
        StatType::MessagesDeliveryRate => seq![
            "message_stats"@,
            "deliver_get_details"@,
            "rate"@,
        ],
        StatType::MessagesRedelivered => seq!["message_stats"@, "redeliver"@],
        StatType::MessagesRedeliverRate => seq!["message_stats"@, "redeliver_details"@, "rate"@],
    }
}

/// The display name of a stat type.
pub open spec fn spec_stat_name(k: StatType) -> Seq<char> {
    match k {
        StatType::ConsumersTotal => "ConsumersTotal"@,
        StatType::MemoryTotal => "MemoryTotal"@,
        StatType::MessagesTotal => "MessagesTotal"@,
        StatType::MessagesReady => "MessagesReady"@,
        StatType::MessagesUnacknowledged => "MessagesUnacknowledged"@,
        StatType::MessagesTotalRate => "MessagesTotalRate"@,
        StatType::MessagesReadyRate => "MessagesReadyRate"@,
        StatType::MessagesUnacknowledgedRate => "MessagesUnacknowledgedRate"@,
        StatType::MessagesPublishRate => "MessagesPublishRate"@,
        StatType::MessagesDeliveryRate => "MessagesDeliveryRate"@,
        StatType::MessagesRedelivered => "MessagesRedelivered"@,
        StatType::MessagesRedeliverRate => "MessagesRedeliverRate"@,
    }
}

fn seg1(a: &'static str) -> (r: Vec<&'static str>)
    ensures
        strs_view(r@) == seq![a@],
{
    let mut v: Vec<&'static str> = Vec::new();
    v.push(a);
    proof {
        assert(strs_view(v@) =~= seq![a@]);
    }
    v
}

fn seg2(a: &'static str, b: &'static str) -> (r: Vec<&'static str>)
    ensures
        strs_view(r@) == seq![a@, b@],
{
    let mut v: Vec<&'static str> = Vec::new();
    v.push(a);
    v.push(b);
    proof {
        assert(strs_view(v@) =~= seq![a@, b@]);
    }
    v
}

fn seg3(a: &'static str, b: &'static str, c: &'static str) -> (r: Vec<&'static str>)
    ensures
        strs_view(r@) == seq![a@, b@, c@],
{
    let mut v: Vec<&'static str> = Vec::new();
    v.push(a);
    v.push(b);
    v.push(c);
    proof {
        assert(strs_view(v@) =~= seq![a@, b@, c@]);
    }
    v
}

impl StatType {
    /// Every stat type, in declaration order.
    pub fn variants() -> (r: Vec<StatType>)
        ensures
            r@ == spec_variants(),
    {
        let mut v: Vec<StatType> = Vec::new();
        v.push(StatType::ConsumersTotal);
        v.push(StatType::MemoryTotal);
        v.push(StatType::MessagesTotal);
        v.push(StatType::MessagesReady);
        v.push(StatType::MessagesUnacknowledged);
        v.push(StatType::MessagesTotalRate);
        v.push(StatType::MessagesReadyRate);
        v.push(StatType::MessagesUnacknowledgedRate);
        v.push(StatType::MessagesPublishRate);
        v.push(StatType::MessagesDeliveryRate);
        v.push(StatType::MessagesRedelivered);
        v.push(StatType::MessagesRedeliverRate);
        proof {
            assert(v@ =~= spec_variants());
        }
        v
    }

    /// The source path of this stat type, in dotted display form.
    pub fn json_path(&self) -> (r: &'static str)
        ensures
            r@ == spec_json_path(*self),
    {
        match self {
            StatType::ConsumersTotal => "consumers",
            StatType::MemoryTotal => "memory",
            StatType::MessagesTotal => "messages",
            StatType::MessagesReady => "messages_ready",
            StatType::MessagesUnacknowledged => "messages_unacknowledged",
            StatType::MessagesTotalRate => "messages_details.rate",
            StatType::MessagesReadyRate => "messages_ready_details.rate",
            StatType::MessagesUnacknowledgedRate => "messages_unacknowledged_details.rate",
            StatType::MessagesPublishRate => "message_stats.publish_details.rate",
            StatType::MessagesDeliveryRate => "message_stats.deliver_get_details.rate",
            StatType::MessagesRedelivered => "message_stats.redeliver",
            StatType::MessagesRedeliverRate => "message_stats.redeliver_details.rate",
        }
    }

    /// The source path of this stat type, as the key segments that
    /// [`get_by_path`] walks.
    pub fn path_segments(&self) -> (r: Vec<&'static str>)
        ensures
            strs_view(r@) == spec_path_segments(*self),
    {
        match self {
            StatType::ConsumersTotal => seg1("consumers"),
            StatType::MemoryTotal => seg1("memory"),
            StatType::MessagesTotal => seg1("messages"),
            StatType::MessagesReady => seg1("messages_ready"),
            StatType::MessagesUnacknowledged => seg1("messages_unacknowledged"),
            StatType::MessagesTotalRate => seg2("messages_details", "rate"),
            StatType::MessagesReadyRate => seg2("messages_ready_details", "rate"),
            StatType::MessagesUnacknowledgedRate => seg2(
                "messages_unacknowledged_details",
                "rate",
            ),
            StatType::MessagesPublishRate => seg3("message_stats", "publish_details", "rate"),
            StatType::MessagesDeliveryRate => seg3("message_stats", "deliver_get_details", "rate"),
            StatType::MessagesRedelivered => seg2("message_stats", "redeliver"),
            StatType::MessagesRedeliverRate => seg3("message_stats", "redeliver_details", "rate"),
        }
    }

    /// The display name of this stat type.
    pub fn to_str(&self) -> (r: &'static str)
        ensures
            r@ == spec_stat_name(*self),
    {
        match self {
            StatType::ConsumersTotal => "ConsumersTotal",
            StatType::MemoryTotal => "MemoryTotal",
            StatType::MessagesTotal => "MessagesTotal",
            StatType::MessagesReady => "MessagesReady",
            StatType::MessagesUnacknowledged => "MessagesUnacknowledged",
            StatType::MessagesTotalRate => "MessagesTotalRate",
            StatType::MessagesReadyRate => "MessagesReadyRate",
            StatType::MessagesUnacknowledgedRate => "MessagesUnacknowledgedRate",
            StatType::MessagesPublishRate => "MessagesPublishRate",
            StatType::MessagesDeliveryRate => "MessagesDeliveryRate",
            StatType::MessagesRedelivered => "MessagesRedelivered",
            StatType::MessagesRedeliverRate => "MessagesRedeliverRate",
        }
    }
}

/// One canonical observation: which stat, at what fixed-point value.
#[derive(Debug, Clone)]
pub struct QueueStat {
    pub stat_type: StatType,
    pub value: StatValue,
}

/// One reading for one queue, produced fresh every poll tick.
#[derive(Debug, Clone)]
pub struct QueueInfo {
    pub name: String,
    pub state: String,
    pub stat: QueueStat,
}

/// Mathematical shadow of [`QueueStat`].
pub ghost struct QueueStatV {
    pub stat_type: StatType,
    pub value: StatValue,
}

/// Mathematical shadow of [`QueueInfo`]: strings as character sequences.
pub ghost struct QueueInfoV {
    pub name: Seq<char>,
    pub state: Seq<char>,
    pub stat: QueueStatV,
}

impl View for QueueStat {
    type V = QueueStatV;

    open spec fn view(&self) -> QueueStatV {
        QueueStatV { stat_type: self.stat_type, value: self.value }
    }
}

impl View for QueueInfo {
    type V = QueueInfoV;

    open spec fn view(&self) -> QueueInfoV {
        QueueInfoV { name: self.name@, state: self.state@, stat: self.stat@ }
    }
}

/// The views of a sequence of readings.
pub open spec fn qis_view(s: Seq<QueueInfo>) -> Seq<QueueInfoV> {
    s.map_values(|q: QueueInfo| q@)
}

/// What one stat type's source path yields in one document.
#[derive(Debug, Clone, Copy, PartialEq, Eq, Structural)]
pub enum KindOutcome {
    /// The path is missing from the document: silently skipped.
    Absent,
    /// The path resolves to a number.
    Value(StatValue),
    /// The path resolves, but not to a number: a malformed reading.
    Malformed,
}

/// How `k`'s source path resolves in `doc`.
pub open spec fn spec_kind_outcome(doc: JsonVal, k: StatType) -> KindOutcome {
    match spec_resolve(doc, spec_path_segments(k)) {
        None => KindOutcome::Absent,
        Some(v) => match v {
            JsonVal::Num(x) => KindOutcome::Value(x),
            _ => KindOutcome::Malformed,
        },
    }
}

/// The queue name of a raw document, when present as a string field.
pub open spec fn spec_doc_name(doc: JsonVal) -> Option<Seq<char>> {
    match doc {
        JsonVal::Object(fields) => match spec_lookup(fields@, "name"@) {
            Some(v) => match v {
                JsonVal::Text(s) => Some(s@),
                _ => None,
            },
            None => None,
        },
        _ => None,
    }
}

/// The queue state of a raw document, when present as a string field.
pub open spec fn spec_doc_state(doc: JsonVal) -> Option<Seq<char>> {
    match doc {
        JsonVal::Object(fields) => match spec_lookup(fields@, "state"@) {
            Some(v) => match v {
                JsonVal::Text(s) => Some(s@),
                _ => None,
            },
            None => None,
        },
        _ => None,
    }
}

/// Maps a stat type to the reading it yields from `doc`, if any.
pub open spec fn spec_reading_fn(doc: JsonVal, name: Seq<char>, state: Seq<char>) -> spec_fn(
    StatType,
) -> Option<QueueInfoV> {
    |k: StatType|
        match spec_kind_outcome(doc, k) {
            KindOutcome::Value(x) => Some(
                QueueInfoV { name, state, stat: QueueStatV { stat_type: k, value: x } },
            ),
            _ => None,
        }
}

/// All readings extracted from one document, in stat-declaration order.
pub open spec fn spec_doc_readings(doc: JsonVal, name: Seq<char>, state: Seq<char>) -> Seq<
    QueueInfoV,
> {
    spec_variants().filter_map(spec_reading_fn(doc, name, state))
}

/// Maps a stat type to itself when its path yields a malformed reading.
pub open spec fn spec_malformed_fn(doc: JsonVal) -> spec_fn(StatType) -> Option<StatType> {
    |k: StatType|
        if spec_kind_outcome(doc, k) is Malformed {
            Some(k)
        } else {
            None
        }
}

/// The stat types whose paths yield malformed readings in `doc`.
pub open spec fn spec_doc_malformed(doc: JsonVal) -> Seq<StatType> {
    spec_variants().filter_map(spec_malformed_fn(doc))
}

/// A whole-document failure: the document does not carry the queue identity
/// every raw document must have.
#[derive(Debug, Clone, Copy, PartialEq, Eq, Structural)]
pub enum ExtractError {
    /// `name` or `state` is missing or not a string.
    MalformedDocument,
}

/// What extraction of one raw document produced.
#[derive(Debug)]
pub struct DocExtraction {
    /// One reading per stat type whose path resolved to a number.
    pub readings: Vec<QueueInfo>,
    /// The stat types whose paths resolved to something non-numeric.
    pub malformed: Vec<StatType>,
}

/// Extracts the readings of one raw per-queue document.
///
/// A stat type whose path is absent is skipped; one whose path resolves to a
/// non-number is reported in `malformed` and dropped, without aborting the
/// rest of the document. A document without a string `name` and `state` is
/// rejected as a whole.
pub fn build_queue_info(doc: &JsonVal) -> (r: Result<DocExtraction, ExtractError>)
    ensures
        match r {
            Ok(ex) => {
                &&& spec_doc_name(*doc) is Some
                &&& spec_doc_state(*doc) is Some
                &&& qis_view(ex.readings@) == spec_doc_readings(
                    *doc,
                    spec_doc_name(*doc)->0,
                    spec_doc_state(*doc)->0,
                )
                &&& ex.malformed@ == spec_doc_malformed(*doc)
            },
            Err(e) => {
                &&& e == ExtractError::MalformedDocument
                &&& (spec_doc_name(*doc) is None || spec_doc_state(*doc) is None)
            },
        },
{
    let name: String = match doc {
        JsonVal::Object(fields) => match lookup_field(fields, "name") {
            Some(v) => match v {
                JsonVal::Text(s) => s.clone(),
                _ => {
                    return Err(ExtractError::MalformedDocument);
                },
            },
            None => {
                return Err(ExtractError::MalformedDocument);
            },
        },
        _ => {
            return Err(ExtractError::MalformedDocument);
        },
    };
    let state: String = match doc {
        JsonVal::Object(fields) => match lookup_field(fields, "state") {
            Some(v) => match v {
                JsonVal::Text(s) => s.clone(),
                _ => {
                    return Err(ExtractError::MalformedDocument);
                },
            },
            None => {
                return Err(ExtractError::MalformedDocument);
            },
        },
        _ => {
            return Err(ExtractError::MalformedDocument);
        },
    };
    let ghost rf = spec_reading_fn(*doc, name@, state@);
    let ghost mf = spec_malformed_fn(*doc);
    let kinds = StatType::variants();
    let mut readings: Vec<QueueInfo> = Vec::new();
    let mut malformed: Vec<StatType> = Vec::new();
    let mut i: usize = 0;
    proof {
        assert(spec_variants().take(0).filter_map(rf) =~= Seq::<QueueInfoV>::empty());
        assert(spec_variants().take(0).filter_map(mf) =~= Seq::<StatType>::empty());
        assert(qis_view(readings@) =~= Seq::<QueueInfoV>::empty());
    }
    while i < kinds.len()
        invariant
            i <= kinds.len(),
            kinds@ == spec_variants(),
            rf == spec_reading_fn(*doc, name@, state@),
            mf == spec_malformed_fn(*doc),
            qis_view(readings@) == spec_variants().take(i as int).filter_map(rf),
            malformed@ == spec_variants().take(i as int).filter_map(mf),
        decreases kinds.len() - i,
    {
        let k = kinds[i];
        let path = k.path_segments();
        proof {
            Seq::lemma_filter_map_take_succ(spec_variants(), rf, i as int);
            Seq::lemma_filter_map_take_succ(spec_variants(), mf, i as int);
        }
        match get_by_path(&path, doc) {
            Some(v) => match v {
                JsonVal::Num(x) => {
                    let ghost pre = readings@;
                    readings.push(
                        QueueInfo {
                            name: name.clone(),
                            state: state.clone(),
                            stat: QueueStat { stat_type: k, value: *x },
                        },
                    );
                    proof {
                        assert(qis_view(readings@) =~= qis_view(pre) + seq![
                            readings@.last()@,
                        ]);
                    }
                },
                _ => {
                    malformed.push(k);
                },
            },
            None => {},
        }
        i += 1;
    }
    proof {
        assert(spec_variants().take(spec_variants().len() as int) =~= spec_variants());
    }
    Ok(DocExtraction { readings, malformed })
}

/// The stat types whose paths resolve to numbers in `doc`, in declaration
/// order.
pub open spec fn spec_value_kinds(doc: JsonVal) -> Seq<StatType> {
    spec_variants().filter(|k: StatType| spec_kind_outcome(doc, k) is Value)
}

pub(crate) proof fn lemma_filter_map_as_filter<A, B>(
    s: Seq<A>,
    f: spec_fn(A) -> Option<B>,
    p: spec_fn(A) -> bool,
    g: spec_fn(A) -> B,
)
    requires
        forall|a: A| #[trigger] f(a) == if p(a) {
            Some(g(a))
        } else {
            None::<B>
        },
    ensures
        s.filter_map(f) == s.filter(p).map_values(g),
    decreases s.len(),
{
    reveal(Seq::filter);
    if s.len() == 0 {
        assert(s.filter_map(f) =~= s.filter(p).map_values(g));
    } else {
        lemma_filter_map_as_filter(s.drop_last(), f, p, g);
        let last = s.last();
        assert(f(last) == if p(last) {
            Some(g(last))
        } else {
            None::<B>
        });
        if p(last) {
            assert(s.filter(p).map_values(g) =~= s.drop_last().filter(p).map_values(g) + seq![
                g(last),
            ]);
            assert(s.filter_map(f) =~= s.filter(p).map_values(g));
        } else {
            assert(s.filter_map(f) =~= s.filter(p).map_values(g));
        }
    }
}

/// Extraction completeness: a document yields exactly one reading per stat
/// type whose source path resolves to a number, in declaration order, each
/// reading carrying that stat type, its numeric value, and the document's
/// queue identity unchanged; a stat type whose path is absent or malformed
/// yields no reading.
pub proof fn lemma_extraction_completeness(doc: JsonVal, name: Seq<char>, state: Seq<char>)
    ensures
        spec_doc_readings(doc, name, state).len() == spec_value_kinds(doc).len(),
        forall|i: int|
            0 <= i < spec_value_kinds(doc).len() ==> {
                let k = spec_value_kinds(doc)[i];
                let r = #[trigger] spec_doc_readings(doc, name, state)[i];
                r.name == name && r.state == state && r.stat.stat_type == k
                    && spec_kind_outcome(doc, k) == KindOutcome::Value(r.stat.value)
            },
        forall|i: int|
            0 <= i < spec_doc_readings(doc, name, state).len()
                ==> spec_kind_outcome(
                doc,
                #[trigger] spec_doc_readings(doc, name, state)[i].stat.stat_type,
            ) is Value,
{
    let f = spec_reading_fn(doc, name, state);
    let p = |k: StatType| spec_kind_outcome(doc, k) is Value;
    let g = |k: StatType|
        QueueInfoV {
            name,
            state,
            stat: QueueStatV { stat_type: k, value: spec_kind_outcome(doc, k)->Value_0 },
        };
    assert forall|a: StatType| #[trigger] f(a) == if p(a) {
        Some(g(a))
    } else {
        None::<QueueInfoV>
    } by {
        match spec_kind_outcome(doc, a) {
            KindOutcome::Value(x) => {},
            _ => {},
        }
    }
    lemma_filter_map_as_filter(spec_variants(), f, p, g);
    assert forall|i: int| 0 <= i < spec_value_kinds(doc).len() implies {
        let k = spec_value_kinds(doc)[i];
        let r = #[trigger] spec_doc_readings(doc, name, state)[i];
        r.name == name && r.state == state && r.stat.stat_type == k && spec_kind_outcome(doc, k)
            == KindOutcome::Value(r.stat.value)
    } by {
        Seq::lemma_filter_pred(spec_variants(), p, i);
        assert(spec_doc_readings(doc, name, state)[i] == g(spec_value_kinds(doc)[i]));
    }
}

/// The readings one raw document contributes to the tick: none at all when
/// the document is malformed at the whole-document level.
pub open spec fn spec_doc_output(doc: JsonVal) -> Seq<QueueInfoV> {
    match spec_doc_name(doc) {
        Some(name) => match spec_doc_state(doc) {
            Some(state) => spec_doc_readings(doc, name, state),
            None => Seq::empty(),
        },
        None => Seq::empty(),
    }
}

/// The concatenation of each document's readings, in document order.
pub open spec fn spec_all_readings(docs: Seq<JsonVal>) -> Seq<QueueInfoV>
    decreases docs.len(),
{
    if docs.len() == 0 {
        Seq::empty()
    } else {
        spec_all_readings(docs.drop_last()) + spec_doc_output(docs.last())
    }
}

/// Turns a batch of raw per-queue documents into the tick's readings.
///
/// Queue name and state are carried through unchanged; a malformed document
/// contributes nothing and does not disturb its neighbours.
pub fn preprocess_queues_info(docs: &Vec<JsonVal>) -> (r: Vec<QueueInfo>)
    ensures
        qis_view(r@) == spec_all_readings(docs@),
{
    let mut out: Vec<QueueInfo> = Vec::new();
    let mut i: usize = 0;
    proof {
        assert(docs@.take(0) =~= Seq::<JsonVal>::empty());
        assert(qis_view(out@) =~= Seq::<QueueInfoV>::empty());
    }
    while i < docs.len()
        invariant
            i <= docs.len(),
            qis_view(out@) == spec_all_readings(docs@.take(i as int)),
        decreases docs.len() - i,
    {
        proof {
            assert(docs@.take(i + 1).drop_last() =~= docs@.take(i as int));
            assert(docs@.take(i + 1).last() == docs@[i as int]);
        }
        let ghost pre = out@;
        match build_queue_info(&docs[i]) {
            Ok(mut ex) => {
                out.append(&mut ex.readings);
                proof {
                    assert(qis_view(out@) =~= qis_view(pre) + qis_view(
                        out@.skip(pre.len() as int),
                    ));
                    assert(out@.skip(pre.len() as int) =~= out@.subrange(
                        pre.len() as int,
                        out@.len() as int,
                    ));
                }
            },
            Err(_) => {},
        }
        i += 1;
    }
    proof {
        assert(docs@.take(docs@.len() as int) =~= docs@);
    }
    out
}

/// What standard padded base64 encoding yields for the UTF-8 bytes of a
/// string.
pub uninterp spec fn base64_of(s: Seq<char>) -> Seq<char>;

/// Relies on base64's `Engine::encode` with the standard padded engine
/// (`general_purpose::STANDARD`): the encoding is a pure function of the
/// input bytes, and encoding no bytes yields the empty string.
#[verifier::external_body]
fn base64_encode_str(s: &str) -> (r: String)
    ensures
        r@ == base64_of(s@),
        s@.len() == 0 ==> r@.len() == 0,
{
    base64::Engine::encode(&base64::engine::general_purpose::STANDARD, s.as_bytes())
}

/// The HTTP basic-auth token for a user and password: the base64 encoding of
/// `user:password`.
pub fn basic_auth_token(username: &str, password: &str) -> (r: String)
    ensures
        r@ == base64_of(username@ + ":"@ + password@),
{
    let mut combined = username.to_owned();
    combined.append(":");
    combined.append(password);
    base64_encode_str(combined.as_str())
}

} // verus!
