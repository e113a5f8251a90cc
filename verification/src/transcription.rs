//! What the replies of the model process mean: every command has a
//! function that turns the reply document into the command's result or
//! into the reason why there is none.

use vstd::prelude::*;
use vstd::string::*;
use crate::json::{opt_number, Json, JsonModel, Number};
use crate::text::{opt_text, texts};
use crate::types::{
    PostProcessModelStatus, PostProcessResult, SummarizeResult, TranscriptionResult,
    TranscriptionSegment,
};

verus! {

/// Ways in which the conversation with the model process can break.
#[derive(Debug, Clone, Copy, PartialEq, Eq, Structural)]
pub enum ProtocolFault {
    /// The line is not JSON.
    Unreadable,
    /// The reply holds neither a result nor an error.
    NoResult,
    /// The result lacks a member that the command's result must have.
    Malformed,
    /// The process closed its output or could not be written to.
    Closed,
    /// A reply was handed in while no request was waiting for one.
    Unexpected,
    /// A request was started while another was waiting for its reply.
    Busy,
}

/// Why a command has no result.
#[derive(Debug)]
pub enum EngineError {
    /// The model process is not running.
    NotRunning,
    /// The conversation with the model process broke.
    Protocol(ProtocolFault),
    /// The model process reported a failure; this is its message.
    Model(String),
}

/// Why a command has no result, as a mathematical value.
pub ghost enum Fault {
    NotRunning,
    Protocol(ProtocolFault),
    Model(Seq<char>),
}

impl View for EngineError {
    type V = Fault;

    open spec fn view(&self) -> Fault {
        match self {
            EngineError::NotRunning => Fault::NotRunning,
            EngineError::Protocol(f) => Fault::Protocol(*f),
            EngineError::Model(m) => Fault::Model(m@),
        }
    }
}

impl Fault {
    /// The text shown to the user. A failure that the model process
    /// reported is shown in its own words.
    pub open spec fn message_text(self) -> Seq<char> {
        match self {
            Fault::NotRunning => "ASR engine not running. Call start_asr_engine first."@,
            Fault::Protocol(ProtocolFault::Unreadable) => "Failed to parse response"@,
            Fault::Protocol(ProtocolFault::NoResult) => "No result in response"@,
            Fault::Protocol(ProtocolFault::Malformed) => "Result in response is incomplete"@,
            Fault::Protocol(ProtocolFault::Closed) => "ASR engine closed its output unexpectedly"@,
            Fault::Protocol(ProtocolFault::Unexpected) => "Response without a request"@,
            Fault::Protocol(ProtocolFault::Busy) => "A request is already waiting for its response"@,
            Fault::Model(m) => m,
        }
    }
}

impl EngineError {
    /// The text shown to the user.
    pub fn message(&self) -> (r: String)
        ensures
            r@ == self@.message_text(),
    {
        match self {
            EngineError::NotRunning => String::from_str(
                "ASR engine not running. Call start_asr_engine first.",
            ),
            EngineError::Protocol(ProtocolFault::Unreadable) => String::from_str(
                "Failed to parse response",
            ),
            EngineError::Protocol(ProtocolFault::NoResult) => String::from_str("No result in response"),
            EngineError::Protocol(ProtocolFault::Malformed) => String::from_str(
                "Result in response is incomplete",
            ),
            EngineError::Protocol(ProtocolFault::Closed) => String::from_str(
                "ASR engine closed its output unexpectedly",
            ),
            EngineError::Protocol(ProtocolFault::Unexpected) => String::from_str(
                "Response without a request",
            ),
            EngineError::Protocol(ProtocolFault::Busy) => String::from_str(
                "A request is already waiting for its response",
            ),
            EngineError::Model(m) => m.clone(),
        }
    }
}

/// The result member of a reply: an error reported in the reply comes
/// first, and a reply with neither error nor result is a fault.
pub open spec fn checked_result(doc: JsonModel) -> Result<JsonModel, Fault> {
    match doc.text_at("error"@) {
        Some(e) => Err(Fault::Model(e)),
        None => match doc.present("result"@) {
            Some(r) => Ok(r),
            None => Err(Fault::Protocol(ProtocolFault::NoResult)),
        },
    }
}

/// The result member of a reply, or the reason why there is none.
pub fn result_of(doc: &Json) -> (r: Result<&Json, EngineError>)
    ensures
        match r {
            Ok(res) => checked_result(doc@) == Ok::<JsonModel, Fault>(res@),
            Err(e) => checked_result(doc@) == Err::<JsonModel, Fault>(e@),
        },
{
    match doc.text_at("error") {
        Some(e) => Err(EngineError::Model(e)),
        None => match doc.present("result") {
            Some(res) => Ok(res),
            None => Err(EngineError::Protocol(ProtocolFault::NoResult)),
        },
    }
}

/// The text member with the given key, or `fallback` where there is none.
pub open spec fn text_or(doc: JsonModel, key: Seq<char>, fallback: Seq<char>) -> Seq<char> {
    match doc.text_at(key) {
        Some(t) => t,
        None => fallback,
    }
}

/// The boolean member with the given key, or `fallback` where there is
/// none.
pub open spec fn flag_or(doc: JsonModel, key: Seq<char>, fallback: bool) -> bool {
    match doc.bool_at(key) {
        Some(b) => b,
        None => fallback,
    }
}

/// The text member with the given key, or `fallback` where there is none.
pub fn text_member_or(doc: &Json, key: &str, fallback: &str) -> (r: String)
    ensures
        r@ == text_or(doc@, key@, fallback@),
{
    match doc.text_at(key) {
        Some(t) => t,
        None => String::from_str(fallback),
    }
}

/// The boolean member with the given key, or `fallback` where there is
/// none.
pub fn flag_member_or(doc: &Json, key: &str, fallback: bool) -> (r: bool)
    ensures
        r == flag_or(doc@, key@, fallback),
{
    match doc.bool_at(key) {
        Some(b) => b,
        None => fallback,
    }
}

/// The failure that a result reports: a result whose `success` member is
/// `false` carries the message of its `error` member.
pub open spec fn reported_failure(res: JsonModel) -> Option<Seq<char>> {
    if res.bool_at("success"@) == Some(false) {
        Some(text_or(res, "error"@, "unknown error"@))
    } else {
        None
    }
}

/// The failure that a result reports, if it reports one.
pub fn failure_in(res: &Json) -> (r: Option<String>)
    ensures
        opt_text(r) == reported_failure(res@),
{
    match res.bool_at("success") {
        Some(false) => Some(text_member_or(res, "error", "unknown error")),
        _ => None,
    }
}

/// The texts among the items of a list, in order.
pub open spec fn texts_among(items: Seq<JsonModel>) -> Seq<Seq<char>>
    decreases items.len(),
{
    if items.len() == 0 {
        seq![]
    } else {
        let front = texts_among(items.drop_last());
        match items.last().as_text() {
            Some(t) => front.push(t),
            None => front,
        }
    }
}

/// The names in the list member with the given key; none where the member
/// is missing or no list.
pub open spec fn names_at(doc: JsonModel, key: Seq<char>) -> Seq<Seq<char>> {
    match doc.get(key) {
        Some(JsonModel::List(items)) => texts_among(items),
        _ => seq![],
    }
}

/// The names in the list member with the given key.
pub fn names_in(doc: &Json, key: &str) -> (r: Vec<String>)
    ensures
        texts(r@) == names_at(doc@, key@),
{
    let mut names: Vec<String> = Vec::new();
    assert(texts(names@) =~= seq![]);
    let member = match doc.get(key) {
        Some(m) => m,
        None => {
            return names;
        },
    };
    let items = match member.as_list() {
        Some(items) => items,
        None => {
            return names;
        },
    };
    let ghost models = member@->List_0;
    let mut i: usize = 0;
    assert(models.take(0) =~= seq![]);
    while i < items.len()
        invariant
            i <= items@.len(),
            models.len() == items@.len(),
            forall|k: int| 0 <= k < items@.len() ==> #[trigger] models[k] == items@[k]@,
            texts(names@) == texts_among(models.take(i as int)),
        decreases items@.len() - i,
    {
        proof {
            assert(models.take(i + 1).drop_last() =~= models.take(i as int));
            assert(models.take(i + 1).last() == items@[i as int]@);
        }
        let ghost before = names@;
        match items[i].as_text() {
            Some(t) => {
                names.push(t);
                assert(texts(names@) =~= texts(before).push(t@));
            },
            None => {},
        }
        i = i + 1;
    }
    assert(models.take(models.len() as int) =~= models);
    names
}

/// State of the speech model.
#[derive(Debug)]
pub struct ModelStatus {
    /// Name of the model.
    pub model_name: String,
    /// Whether the model is in memory.
    pub loaded: bool,
    /// Whether the model is being loaded.
    pub loading: bool,
    /// What went wrong, if anything.
    pub error: Option<String>,
    /// Models to choose from.
    pub available_models: Vec<String>,
}

/// Whether the files of a model are on disk.
#[derive(Debug)]
pub struct ModelCacheStatus {
    /// Whether the files are there.
    pub cached: bool,
    /// Name of the model.
    pub model_name: String,
}

/// What a trial run of a model gave.
#[derive(Debug)]
pub struct WarmupResult {
    /// Whether the trial run worked.
    pub success: bool,
    /// How long it took, in milliseconds.
    pub warmup_time_ms: Option<Number>,
    /// What went wrong, if anything.
    pub error: Option<String>,
}

/// The status that stands for a model process that is not running.
pub fn status_when_stopped() -> (r: ModelStatus)
    ensures
        r.model_name@ == "unknown"@,
        !r.loaded,
        !r.loading,
        r.error matches Some(e) && e@ == "Engine not running"@,
        r.available_models@.len() == 0,
{
    ModelStatus {
        model_name: String::from_str("unknown"),
        loaded: false,
        loading: false,
        error: Some(String::from_str("Engine not running")),
        available_models: Vec::new(),
    }
}

/// What the reply to `get_status` means: the members of the result, with
/// `unknown`, `false` and an empty list standing in for missing ones.
pub fn status_reply(doc: &Json) -> (r: Result<ModelStatus, EngineError>)
    ensures
        match checked_result(doc@) {
            Err(f) => r matches Err(e) && e@ == f,
            Ok(res) => r matches Ok(s) && s.model_name@ == text_or(res, "model_name"@, "unknown"@)
                && s.loaded == flag_or(res, "loaded"@, false) && s.loading == flag_or(
                res,
                "loading"@,
                false,
            ) && opt_text(s.error) == res.text_at("error"@) && texts(
                s.available_models@,
            ) == names_at(res, "available_models"@),
        },
{
    let res = match result_of(doc) {
        Ok(res) => res,
        Err(e) => {
            return Err(e);
        },
    };
    Ok(
        ModelStatus {
            model_name: text_member_or(res, "model_name", "unknown"),
            loaded: flag_member_or(res, "loaded", false),
            loading: flag_member_or(res, "loading", false),
            error: res.text_at("error"),
            available_models: names_in(res, "available_models"),
        },
    )
}

/// What the reply to `is_model_cached` means.
pub fn cache_reply(doc: &Json) -> (r: Result<ModelCacheStatus, EngineError>)
    ensures
        match checked_result(doc@) {
            Err(f) => r matches Err(e) && e@ == f,
            Ok(res) => r matches Ok(s) && s.cached == flag_or(res, "cached"@, false) && s.model_name@
                == text_or(res, "model_name"@, "unknown"@),
        },
{
    let res = match result_of(doc) {
        Ok(res) => res,
        Err(e) => {
            return Err(e);
        },
    };
    Ok(
        ModelCacheStatus {
            cached: flag_member_or(res, "cached", false),
            model_name: text_member_or(res, "model_name", "unknown"),
        },
    )
}

/// The result of a command that either works or reports a failure.
pub open spec fn checked_success(doc: JsonModel) -> Result<JsonModel, Fault> {
    match checked_result(doc) {
        Err(f) => Err(f),
        Ok(res) => match reported_failure(res) {
            Some(m) => Err(Fault::Model(m)),
            None => Ok(res),
        },
    }
}

/// The result of a command that either works or reports a failure.
pub fn success_of(doc: &Json) -> (r: Result<&Json, EngineError>)
    ensures
        match r {
            Ok(res) => checked_success(doc@) == Ok::<JsonModel, Fault>(res@),
            Err(e) => checked_success(doc@) == Err::<JsonModel, Fault>(e@),
        },
{
    let res = match result_of(doc) {
        Ok(res) => res,
        Err(e) => {
            return Err(e);
        },
    };
    match failure_in(res) {
        Some(m) => Err(EngineError::Model(m)),
        None => Ok(res),
    }
}

/// What the reply to `load_model` means: unless a failure is reported the
/// model is loaded.
pub fn load_model_reply(doc: &Json) -> (r: Result<ModelStatus, EngineError>)
    ensures
        match checked_success(doc@) {
            Err(f) => r matches Err(e) && e@ == f,
            Ok(res) => r matches Ok(s) && s.model_name@ == text_or(res, "model_name"@, "unknown"@)
                && s.loaded && !s.loading && s.error is None && s.available_models@.len() == 0,
        },
{
    let res = match success_of(doc) {
        Ok(res) => res,
        Err(e) => {
            return Err(e);
        },
    };
    Ok(
        ModelStatus {
            model_name: text_member_or(res, "model_name", "unknown"),
            loaded: true,
            loading: false,
            error: None,
            available_models: Vec::new(),
        },
    )
}

/// What the reply to `set_model` means: unless a failure is reported the
/// model is chosen, and has yet to be loaded.
pub fn set_model_reply(doc: &Json, requested: &str) -> (r: Result<ModelStatus, EngineError>)
    ensures
        match checked_success(doc@) {
            Err(f) => r matches Err(e) && e@ == f,
            Ok(res) => r matches Ok(s) && s.model_name@ == text_or(res, "model_name"@, requested@)
                && !s.loaded && !s.loading && s.error is None && s.available_models@.len() == 0,
        },
{
    let res = match success_of(doc) {
        Ok(res) => res,
        Err(e) => {
            return Err(e);
        },
    };
    Ok(
        ModelStatus {
            model_name: text_member_or(res, "model_name", requested),
            loaded: false,
            loading: false,
            error: None,
            available_models: Vec::new(),
        },
    )
}

/// What the reply to `load_vad` means: it worked unless a failure is
/// reported.
pub fn load_vad_reply(doc: &Json) -> (r: Result<(), EngineError>)
    ensures
        match checked_success(doc@) {
            Err(f) => r matches Err(e) && e@ == f,
            Ok(res) => r is Ok,
        },
{
    match success_of(doc) {
        Ok(_) => Ok(()),
        Err(e) => Err(e),
    }
}

/// What the reply to `warmup_model` or `warmup_vad` means. A trial run
/// that failed is a result, not an error.
pub fn warmup_reply(doc: &Json) -> (r: Result<WarmupResult, EngineError>)
    ensures
        match checked_result(doc@) {
            Err(f) => r matches Err(e) && e@ == f,
            Ok(res) => r matches Ok(w) && w.success == flag_or(res, "success"@, false) && opt_number(
                w.warmup_time_ms,
            ) == res.number_at("warmup_time_ms"@) && opt_text(w.error) == res.text_at("error"@),
        },
{
    let res = match result_of(doc) {
        Ok(res) => res,
        Err(e) => {
            return Err(e);
        },
    };
    Ok(
        WarmupResult {
            success: flag_member_or(res, "success", false),
            warmup_time_ms: res.number_at("warmup_time_ms"),
            error: res.text_at("error"),
        },
    )
}

/// Whether a reply to `ping` shows a live process: it reports no error
/// and holds a result.
pub open spec fn is_alive(doc: JsonModel) -> bool {
    checked_result(doc) is Ok
}

/// What the reply to `ping` means.
pub fn ping_reply(doc: &Json) -> (alive: bool)
    ensures
        alive == is_alive(doc@),
{
    match result_of(doc) {
        Ok(_) => true,
        Err(_) => false,
    }
}

/// What the reply to a command without a result means, such as
/// `unload_postprocess_model`: it worked unless the reply reports an
/// error.
pub fn plain_reply(doc: &Json) -> (r: Result<(), EngineError>)
    ensures
        match doc@.text_at("error"@) {
            Some(m) => r matches Err(e) && e@ == Fault::Model(m),
            None => r is Ok,
        },
{
    match doc.text_at("error") {
        Some(m) => Err(EngineError::Model(m)),
        None => Ok(()),
    }
}

/// Whether a document is a piece of a transcription: an object with the
/// numbers `start` and `end` and the text `text`.
pub open spec fn is_piece(item: JsonModel) -> bool {
    item.number_at("start"@) is Some && item.number_at("end"@) is Some && item.text_at("text"@)
        is Some
}

/// Whether a piece is what the document says.
pub open spec fn piece_matches(piece: TranscriptionSegment, item: JsonModel) -> bool {
    &&& item.number_at("start"@) == Some(piece.start@)
    &&& item.number_at("end"@) == Some(piece.end@)
    &&& item.text_at("text"@) == Some(piece.text@)
}

/// The piece of a transcription that a document holds.
pub fn piece_of(item: &Json) -> (r: Option<TranscriptionSegment>)
    ensures
        r is Some <==> is_piece(item@),
        r matches Some(p) ==> piece_matches(p, item@),
{
    let start = match item.number_at("start") {
        Some(n) => n,
        None => {
            return None;
        },
    };
    let end = match item.number_at("end") {
        Some(n) => n,
        None => {
            return None;
        },
    };
    let text = match item.text_at("text") {
        Some(t) => t,
        None => {
            return None;
        },
    };
    Some(TranscriptionSegment { start, end, text })
}

/// Whether a result has everything that a transcription must have: the
/// boolean `success`, the texts `text` and `language`, and a list
/// `segments` of pieces.
pub open spec fn is_transcription(res: JsonModel) -> bool {
    &&& res.bool_at("success"@) is Some
    &&& res.text_at("text"@) is Some
    &&& res.text_at("language"@) is Some
    &&& res.get("segments"@) matches Some(JsonModel::List(items)) && forall|i: int|
        0 <= i < items.len() ==> is_piece(#[trigger] items[i])
}

/// Whether a transcription is what a well-formed, successful result says.
pub open spec fn transcription_matches(t: TranscriptionResult, res: JsonModel) -> bool {
    &&& t.success
    &&& res.text_at("text"@) == Some(t.text@)
    &&& res.text_at("language"@) == Some(t.language@)
    &&& t.no_speech == res.bool_at("no_speech"@)
    &&& res.get("segments"@) matches Some(JsonModel::List(items)) && items.len() == t.segments@.len()
        && forall|i: int| 0 <= i < items.len() ==> piece_matches(#[trigger] t.segments@[i], items[i])
}

/// What the reply to `transcribe` means. A result that reports a failure
/// gives the failure's message, whatever else it holds; a result that
/// lacks a member is a fault of the protocol; any other result is the
/// transcription.
#[verifier::loop_isolation(false)]
pub fn transcribe_reply(doc: &Json) -> (r: Result<TranscriptionResult, EngineError>)
    ensures
        match checked_result(doc@) {
            Err(f) => r matches Err(e) && e@ == f,
            Ok(res) => if res.bool_at("success"@) == Some(false) {
                r matches Err(e) && e@ == Fault::Model(text_or(res, "error"@, "unknown error"@))
            } else if !is_transcription(res) {
                r matches Err(e) && e@ == Fault::Protocol(ProtocolFault::Malformed)
            } else {
                r matches Ok(t) && transcription_matches(t, res)
            },
        },
{
    let res = match result_of(doc) {
        Ok(res) => res,
        Err(e) => {
            return Err(e);
        },
    };
    let malformed = EngineError::Protocol(ProtocolFault::Malformed);
    match res.bool_at("success") {
        Some(true) => {},
        Some(false) => {
            return Err(EngineError::Model(text_member_or(res, "error", "unknown error")));
        },
        None => {
            return Err(malformed);
        },
    }
    let text = match res.text_at("text") {
        Some(t) => t,
        None => {
            return Err(malformed);
        },
    };
    let language = match res.text_at("language") {
        Some(t) => t,
        None => {
            return Err(malformed);
        },
    };
    let member = match res.get("segments") {
        Some(m) => m,
        None => {
            return Err(malformed);
        },
    };
    let items = match member.as_list() {
        Some(items) => items,
        None => {
            return Err(malformed);
        },
    };
    let ghost models = member@->List_0;
    let mut segments: Vec<TranscriptionSegment> = Vec::new();
    let mut i: usize = 0;
    while i < items.len()
        invariant
            i <= items@.len(),
            models.len() == items@.len(),
            forall|k: int| 0 <= k < items@.len() ==> #[trigger] models[k] == items@[k]@,
            segments@.len() == i,
            forall|k: int| 0 <= k < i ==> is_piece(#[trigger] models[k]),
            forall|k: int| 0 <= k < i ==> piece_matches(#[trigger] segments@[k], models[k]),
        decreases items@.len() - i,
    {
        match piece_of(&items[i]) {
            Some(p) => {
                segments.push(p);
            },
            None => {
                assert(!is_piece(models[i as int]));
                return Err(malformed);
            },
        }
        i = i + 1;
    }
    Ok(TranscriptionResult { success: true, text, segments, language, no_speech: res.bool_at("no_speech") })
}

/// What the reply to a command about the post-processing model means. The
/// member named by `flag` says whether the model is there: `success` after
/// loading, `cached` after asking for the files, `loaded` in a status.
pub fn postprocess_model_reply(doc: &Json, flag: &str) -> (r: Result<PostProcessModelStatus, EngineError>)
    ensures
        match checked_result(doc@) {
            Err(f) => r matches Err(e) && e@ == f,
            Ok(res) => r matches Ok(s) && s.model_name@ == text_or(res, "model_name"@, "unknown"@)
                && s.loaded == flag_or(res, flag@, false) && s.loading == flag_or(
                res,
                "loading"@,
                false,
            ) && opt_text(s.error) == res.text_at("error"@) && texts(
                s.available_models@,
            ) == names_at(res, "available_models"@),
        },
{
    let res = match result_of(doc) {
        Ok(res) => res,
        Err(e) => {
            return Err(e);
        },
    };
    Ok(
        PostProcessModelStatus {
            model_name: text_member_or(res, "model_name", "unknown"),
            loaded: flag_member_or(res, flag, false),
            loading: flag_member_or(res, "loading", false),
            error: res.text_at("error"),
            available_models: names_in(res, "available_models"),
        },
    )
}

/// What the reply to `postprocess_text` means. Where the result holds no
/// rewritten text, the text that was sent stands in for it.
pub fn postprocess_reply(doc: &Json, text: &str) -> (r: Result<PostProcessResult, EngineError>)
    ensures
        match checked_result(doc@) {
            Err(f) => r matches Err(e) && e@ == f,
            Ok(res) => r matches Ok(p) && p.success == flag_or(res, "success"@, false)
                && p.processed_text@ == text_or(res, "processed_text"@, text@) && opt_number(
                p.processing_time_ms,
            ) == res.number_at("processing_time_ms"@) && opt_text(p.error) == res.text_at("error"@),
        },
{
    let res = match result_of(doc) {
        Ok(res) => res,
        Err(e) => {
            return Err(e);
        },
    };
    Ok(
        PostProcessResult {
            success: flag_member_or(res, "success", false),
            processed_text: text_member_or(res, "processed_text", text),
            processing_time_ms: res.number_at("processing_time_ms"),
            error: res.text_at("error"),
        },
    )
}

/// What the reply to `summarize_transcriptions` means, for a request that
/// held `entry_count` transcriptions.
pub fn summarize_reply(doc: &Json, entry_count: usize) -> (r: Result<SummarizeResult, EngineError>)
    ensures
        match checked_result(doc@) {
            Err(f) => r matches Err(e) && e@ == f,
            Ok(res) => r matches Ok(s) && s.success == flag_or(res, "success"@, false) && s.summary@
                == text_or(res, "summary"@, ""@) && opt_number(s.processing_time_ms)
                == res.number_at("processing_time_ms"@) && opt_text(s.error) == res.text_at(
                "error"@,
            ) && s.entry_count == entry_count,
        },
{
    let res = match result_of(doc) {
        Ok(res) => res,
        Err(e) => {
            return Err(e);
        },
    };
    Ok(
        SummarizeResult {
            success: flag_member_or(res, "success", false),
            summary: text_member_or(res, "summary", ""),
            processing_time_ms: res.number_at("processing_time_ms"),
            error: res.text_at("error"),
            entry_count,
        },
    )
}

/// The summary of no transcriptions at all: empty, and made in no time.
pub fn empty_summary() -> (s: SummarizeResult)
    ensures
        s.success,
        s.summary@.len() == 0,
        s.processing_time_ms matches Some(Number::Whole(ms)) && ms == 0,
        s.error is None,
        s.entry_count == 0,
{
    SummarizeResult {
        success: true,
        summary: String::new(),
        processing_time_ms: Some(Number::Whole(0)),
        error: None,
        entry_count: 0,
    }
}

} // verus!
