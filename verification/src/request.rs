//! The requests that are sent to the model process: one JSON object per
//! line, with the name of the command, a number that identifies the
//! request and the members that the command takes.

use vstd::prelude::*;
use vstd::string::*;
use crate::json::{lemma_object_view, print_json, printed_json, Json, JsonModel, Number, NumberModel};
use crate::text::{chars_of, contains_char, opt_str};
use crate::types::SummarizeEntry;

verus! {

/// The commands that the model process understands.
#[derive(Debug, Clone, Copy, PartialEq, Eq, Structural)]
pub enum Command {
    Ping,
    GetStatus,
    LoadModel,
    SetModel,
    IsModelCached,
    WarmupModel,
    LoadVad,
    WarmupVad,
    Transcribe,
    LoadPostprocessModel,
    UnloadPostprocessModel,
    IsPostprocessModelCached,
    SetPostprocessModel,
    GetPostprocessStatus,
    PostprocessText,
    SummarizeTranscriptions,
    Quit,
}

impl Command {
    /// The name of the command on the wire.
    pub open spec fn wire_name(self) -> Seq<char> {
        match self {
            Command::Ping => "ping"@,
            Command::GetStatus => "get_status"@,
            Command::LoadModel => "load_model"@,
            Command::SetModel => "set_model"@,
            Command::IsModelCached => "is_model_cached"@,
            Command::WarmupModel => "warmup_model"@,
            Command::LoadVad => "load_vad"@,
            Command::WarmupVad => "warmup_vad"@,
            Command::Transcribe => "transcribe"@,
            Command::LoadPostprocessModel => "load_postprocess_model"@,
            Command::UnloadPostprocessModel => "unload_postprocess_model"@,
            Command::IsPostprocessModelCached => "is_postprocess_model_cached"@,
            Command::SetPostprocessModel => "set_postprocess_model"@,
            Command::GetPostprocessStatus => "get_postprocess_status"@,
            Command::PostprocessText => "postprocess_text"@,
            Command::SummarizeTranscriptions => "summarize_transcriptions"@,
            Command::Quit => "quit"@,
        }
    }

    /// The name of the command on the wire.
    pub fn name(&self) -> (r: &'static str)
        ensures
            r@ == self.wire_name(),
    {
        match self {
            Command::Ping => "ping",
            Command::GetStatus => "get_status",
            Command::LoadModel => "load_model",
            Command::SetModel => "set_model",
            Command::IsModelCached => "is_model_cached",
            Command::WarmupModel => "warmup_model",
            Command::LoadVad => "load_vad",
            Command::WarmupVad => "warmup_vad",
            Command::Transcribe => "transcribe",
            Command::LoadPostprocessModel => "load_postprocess_model",
            Command::UnloadPostprocessModel => "unload_postprocess_model",
            Command::IsPostprocessModelCached => "is_postprocess_model_cached",
            Command::SetPostprocessModel => "set_postprocess_model",
            Command::GetPostprocessStatus => "get_postprocess_status",
            Command::PostprocessText => "postprocess_text",
            Command::SummarizeTranscriptions => "summarize_transcriptions",
            Command::Quit => "quit",
        }
    }
}

/// The members of an object as mathematical values.
pub open spec fn members_model(members: Seq<(String, Json)>) -> Seq<(Seq<char>, JsonModel)> {
    Seq::new(members.len(), |i: int| (members[i].0@, members[i].1@))
}

/// The items of an array as mathematical values.
pub open spec fn items_model(items: Seq<Json>) -> Seq<JsonModel> {
    Seq::new(items.len(), |i: int| items[i]@)
}

/// A member whose value is a text.
pub open spec fn text_member(key: Seq<char>, value: Seq<char>) -> (Seq<char>, JsonModel) {
    (key, JsonModel::Text(value))
}

/// A member that is left out when there is no value.
pub open spec fn optional_member(key: Seq<char>, value: Option<Seq<char>>) -> Seq<(Seq<char>, JsonModel)> {
    match value {
        Some(t) => seq![text_member(key, t)],
        None => seq![],
    }
}

/// A member that is `null` when there is no value.
pub open spec fn nullable_member(key: Seq<char>, value: Option<Seq<char>>) -> (Seq<char>, JsonModel) {
    match value {
        Some(t) => text_member(key, t),
        None => (key, JsonModel::Null),
    }
}

/// The two members that every request starts with.
pub open spec fn head(command: Command, id: nat) -> Seq<(Seq<char>, JsonModel)> {
    seq![
        text_member("command"@, command.wire_name()),
        ("id"@, JsonModel::Number(NumberModel::Whole(id))),
    ]
}

/// A request with the given members behind command and number.
pub open spec fn request_doc(command: Command, id: nat, rest: Seq<(Seq<char>, JsonModel)>) -> JsonModel {
    JsonModel::Object(head(command, id) + rest)
}

/// The dictionary of misheard words as an object: one member for each
/// entry, in order.
pub open spec fn dictionary_doc(entries: Seq<(String, String)>) -> JsonModel {
    JsonModel::Object(Seq::new(entries.len(), |i: int| text_member(entries[i].0@, entries[i].1@)))
}

/// The transcriptions to summarise as an array of objects.
pub open spec fn entries_doc(entries: Seq<SummarizeEntry>) -> JsonModel {
    JsonModel::List(
        Seq::new(
            entries.len(),
            |i: int|
                JsonModel::Object(
                    seq![
                        text_member("text"@, entries[i].text@),
                        text_member("created_at"@, entries[i].created_at@),
                    ],
                ),
        ),
    )
}

/// The members of a request to rewrite a text. Members without a value
/// are sent as `null`.
pub open spec fn postprocess_members(
    text: Seq<char>,
    app_name: Option<Seq<char>>,
    app_bundle_id: Option<Seq<char>>,
    dictionary: Option<Seq<(String, String)>>,
    custom_prompt: Option<Seq<char>>,
) -> Seq<(Seq<char>, JsonModel)> {
    seq![
        text_member("text"@, text),
        nullable_member("app_name"@, app_name),
        nullable_member("app_bundle_id"@, app_bundle_id),
        (
            "dictionary"@,
            match dictionary {
                Some(d) => dictionary_doc(d),
                None => JsonModel::Null,
            },
        ),
        nullable_member("custom_prompt"@, custom_prompt),
    ]
}

/// The members of a request for a summary. Members without a value are
/// sent as `null`.
pub open spec fn summarize_members(
    entries: Seq<SummarizeEntry>,
    language_hint: Option<Seq<char>>,
    custom_prompt: Option<Seq<char>>,
) -> Seq<(Seq<char>, JsonModel)> {
    seq![
        ("texts"@, entries_doc(entries)),
        nullable_member("language_hint"@, language_hint),
        nullable_member("custom_prompt"@, custom_prompt),
    ]
}

/// A request that is being put together.
pub struct Request {
    members: Vec<(String, Json)>,
}

impl View for Request {
    type V = JsonModel;

    closed spec fn view(&self) -> JsonModel {
        JsonModel::Object(members_model(self.members@))
    }
}

impl Request {
    /// A request for `command` with the number `id` and no other member.
    pub fn new(command: Command, id: u64) -> (r: Request)
        ensures
            r@ == request_doc(command, id as nat, seq![]),
    {
        let mut members: Vec<(String, Json)> = Vec::new();
        members.push((String::from_str("command"), Json::Text(String::from_str(command.name()))));
        members.push((String::from_str("id"), Json::Number(Number::Whole(id))));
        assert(members_model(members@) =~= head(command, id as nat) + seq![]);
        Request { members }
    }

    /// Adds a member behind those that are there.
    pub fn with(self, key: &str, value: Json) -> (r: Request)
        ensures
            r@ == JsonModel::Object(self@->Object_0.push((key@, value@))),
    {
        let mut members = self.members;
        members.push((String::from_str(key), value));
        assert(members_model(members@) =~= members_model(self.members@).push((key@, value@)));
        Request { members }
    }

    /// Adds a text member.
    pub fn with_text(self, key: &str, value: &str) -> (r: Request)
        ensures
            r@ == JsonModel::Object(self@->Object_0.push(text_member(key@, value@))),
    {
        self.with(key, Json::Text(String::from_str(value)))
    }

    /// Adds a text member if there is a value, and nothing otherwise.
    pub fn with_optional(self, key: &str, value: Option<&str>) -> (r: Request)
        ensures
            r@ == JsonModel::Object(self@->Object_0 + optional_member(key@, opt_str(value))),
    {
        match value {
            Some(t) => {
                let ghost before = self@->Object_0;
                let r = self.with_text(key, t);
                assert(before.push(text_member(key@, t@)) =~= before + optional_member(
                    key@,
                    opt_str(value),
                ));
                r
            },
            None => {
                assert(self@->Object_0 + optional_member(key@, opt_str(value)) =~= self@->Object_0);
                self
            },
        }
    }

    /// Adds a text member if there is a value, and a `null` member
    /// otherwise.
    pub fn with_nullable(self, key: &str, value: Option<&str>) -> (r: Request)
        ensures
            r@ == JsonModel::Object(self@->Object_0.push(nullable_member(key@, opt_str(value)))),
    {
        match value {
            Some(t) => self.with_text(key, t),
            None => self.with(key, Json::Null),
        }
    }

    /// The request as a JSON document.
    pub fn into_json(self) -> (doc: Json)
        ensures
            doc@ == self@,
    {
        proof {
            lemma_object_view(self.members);
            assert(members_model(self.members@) =~= Json::Object(self.members)@->Object_0);
        }
        Json::Object(self.members)
    }

    /// The request as the line that goes to the model process, without the
    /// line break that ends it. A request is one line: should the text of
    /// the document hold a line break itself, there is no line.
    pub fn into_line(self) -> (line: Option<String>)
        ensures
            match line {
                Some(l) => l@ == printed_json(self@) && !l@.contains('\n'),
                None => printed_json(self@).contains('\n'),
            },
    {
        let doc = self.into_json();
        let text = print_json(&doc);
        let chars = chars_of(text.as_str());
        if contains_char(&chars, '\n') {
            None
        } else {
            Some(text)
        }
    }
}

/// The dictionary of misheard words as a JSON object.
pub fn dictionary_json(entries: &Vec<(String, String)>) -> (doc: Json)
    ensures
        doc@ == dictionary_doc(entries@),
{
    let mut members: Vec<(String, Json)> = Vec::new();
    let mut i: usize = 0;
    while i < entries.len()
        invariant
            i <= entries@.len(),
            members@.len() == i,
            forall|k: int|
                0 <= k < i ==> (#[trigger] members@[k]).0@ == entries@[k].0@ && members@[k].1@
                    == JsonModel::Text(entries@[k].1@),
        decreases entries@.len() - i,
    {
        members.push((entries[i].0.clone(), Json::Text(entries[i].1.clone())));
        i = i + 1;
    }
    proof {
        lemma_object_view(members);
        assert(Json::Object(members)@->Object_0 =~= dictionary_doc(entries@)->Object_0);
    }
    Json::Object(members)
}

/// The transcriptions to summarise as a JSON array.
pub fn entries_json(entries: &Vec<SummarizeEntry>) -> (doc: Json)
    ensures
        doc@ == entries_doc(entries@),
{
    let mut items: Vec<Json> = Vec::new();
    let mut i: usize = 0;
    while i < entries.len()
        invariant
            i <= entries@.len(),
            items@.len() == i,
            forall|k: int|
                0 <= k < i ==> (#[trigger] items@[k])@ == JsonModel::Object(
                    seq![
                        text_member("text"@, entries@[k].text@),
                        text_member("created_at"@, entries@[k].created_at@),
                    ],
                ),
        decreases entries@.len() - i,
    {
        let mut members: Vec<(String, Json)> = Vec::new();
        members.push((String::from_str("text"), Json::Text(entries[i].text.clone())));
        members.push((String::from_str("created_at"), Json::Text(entries[i].created_at.clone())));
        proof {
            lemma_object_view(members);
            assert(Json::Object(members)@->Object_0 =~= seq![
                text_member("text"@, entries@[i as int].text@),
                text_member("created_at"@, entries@[i as int].created_at@),
            ]);
        }
        items.push(Json::Object(members));
        i = i + 1;
    }
    proof {
        crate::json::lemma_list_view(items);
        assert(Json::List(items)@->List_0 =~= entries_doc(entries@)->List_0);
    }
    Json::List(items)
}

/// The request to transcribe a recording, in a given language if there is
/// one.
pub fn transcribe_request(id: u64, audio_path: &str, language: Option<&str>) -> (r: Request)
    ensures
        r@ == request_doc(
            Command::Transcribe,
            id as nat,
            seq![text_member("audio_path"@, audio_path@)] + optional_member(
                "language"@,
                opt_str(language),
            ),
        ),
{
    let r = Request::new(Command::Transcribe, id).with_text("audio_path", audio_path).with_optional(
        "language",
        language,
    );
    assert(r@->Object_0 =~= head(Command::Transcribe, id as nat) + (seq![
        text_member("audio_path"@, audio_path@),
    ] + optional_member("language"@, opt_str(language))));
    r
}

/// A request that names a model, if there is a name: `set_model`,
/// `is_model_cached` and `set_postprocess_model` are of this shape.
pub fn model_request(command: Command, id: u64, model_name: Option<&str>) -> (r: Request)
    ensures
        r@ == request_doc(command, id as nat, optional_member("model_name"@, opt_str(model_name))),
{
    let r = Request::new(command, id).with_optional("model_name", model_name);
    assert(r@->Object_0 =~= head(command, id as nat) + optional_member(
        "model_name"@,
        opt_str(model_name),
    ));
    r
}

/// The request to rewrite a transcription for the application it goes to.
pub fn postprocess_request(
    id: u64,
    text: &str,
    app_name: Option<&str>,
    app_bundle_id: Option<&str>,
    dictionary: Option<&Vec<(String, String)>>,
    custom_prompt: Option<&str>,
) -> (r: Request)
    ensures
        r@ == request_doc(
            Command::PostprocessText,
            id as nat,
            postprocess_members(
                text@,
                opt_str(app_name),
                opt_str(app_bundle_id),
                match dictionary {
                    Some(d) => Some(d@),
                    None => None,
                },
                opt_str(custom_prompt),
            ),
        ),
{
    let words = match dictionary {
        Some(d) => dictionary_json(d),
        None => Json::Null,
    };
    let r = Request::new(Command::PostprocessText, id).with_text("text", text).with_nullable(
        "app_name",
        app_name,
    ).with_nullable("app_bundle_id", app_bundle_id).with("dictionary", words).with_nullable(
        "custom_prompt",
        custom_prompt,
    );
    assert(r@->Object_0 =~= head(Command::PostprocessText, id as nat) + postprocess_members(
        text@,
        opt_str(app_name),
        opt_str(app_bundle_id),
        match dictionary {
            Some(d) => Some(d@),
            None => None,
        },
        opt_str(custom_prompt),
    ));
    r
}

/// The request to summarise transcriptions.
pub fn summarize_request(
    id: u64,
    entries: &Vec<SummarizeEntry>,
    language_hint: Option<&str>,
    custom_prompt: Option<&str>,
) -> (r: Request)
    ensures
        r@ == request_doc(
            Command::SummarizeTranscriptions,
            id as nat,
            summarize_members(entries@, opt_str(language_hint), opt_str(custom_prompt)),
        ),
{
    let r = Request::new(Command::SummarizeTranscriptions, id).with(
        "texts",
        entries_json(entries),
    ).with_nullable("language_hint", language_hint).with_nullable("custom_prompt", custom_prompt);
    assert(r@->Object_0 =~= head(Command::SummarizeTranscriptions, id as nat) + summarize_members(
        entries@,
        opt_str(language_hint),
        opt_str(custom_prompt),
    ));
    r
}

} // verus!
