//! The options of one transcription job and their JSON form.

use vstd::prelude::*;
use crate::json::{
    compact_json, find, lemma_find_at, lemma_find_insert, lookup, parse_json, parsed_json,
    pretty_json, write_json, write_json_pretty, lemma_object_view, members_view, Json, JsonNumber, JsonValue};

verus! {

/// The options of one transcription job. Only `path` is always given; each
/// other optional field is `None` where the consumer is to choose.
#[derive(Debug)]
pub struct TranscribeOptions {
    /// Where the audio to transcribe is.
    pub path: String,
    /// A language hint such as "en"; `None` asks for detection.
    pub lang: Option<String>,
    /// Whether the consumer reports more as it works.
    pub verbose: bool,
    /// The number of worker threads.
    pub n_threads: Option<i32>,
    /// Text that seeds the model's initial context.
    pub init_prompt: Option<String>,
    /// The sampling temperature, kept as the JSON number that gives it.
    pub temperature: Option<JsonNumber>,
    /// Whether to translate rather than transcribe.
    pub translate: Option<bool>,
    /// A bound on the length of the text context.
    pub max_text_ctx: Option<i32>,
    /// Whether to time each word.
    pub word_timestamps: Option<bool>,
    /// A bound on the length of a sentence.
    pub max_sentence_len: Option<i32>,
}

/// The options as mathematical values.
pub struct OptionsModel {
    pub path: Seq<char>,
    pub lang: Option<Seq<char>>,
    pub verbose: bool,
    pub n_threads: Option<i32>,
    pub init_prompt: Option<Seq<char>>,
    pub temperature: Option<JsonNumber>,
    pub translate: Option<bool>,
    pub max_text_ctx: Option<i32>,
    pub word_timestamps: Option<bool>,
    pub max_sentence_len: Option<i32>,
}

/// The characters of an optional string.
pub open spec fn opt_view(s: Option<String>) -> Option<Seq<char>> {
    match s {
        Some(t) => Some(t@),
        None => None,
    }
}

impl View for TranscribeOptions {
    type V = OptionsModel;

    open spec fn view(&self) -> OptionsModel {
        OptionsModel {
            path: self.path@,
            lang: opt_view(self.lang),
            verbose: self.verbose,
            n_threads: self.n_threads,
            init_prompt: opt_view(self.init_prompt),
            temperature: self.temperature,
            translate: self.translate,
            max_text_ctx: self.max_text_ctx,
            word_timestamps: self.word_timestamps,
            max_sentence_len: self.max_sentence_len,
        }
    }
}

/// A field of the options, by the member that holds it.
#[derive(Clone, Copy, Debug, PartialEq, Eq, Structural)]
pub enum Field {
    Path,
    Lang,
    Verbose,
    NThreads,
    InitPrompt,
    Temperature,
    Translate,
    MaxTextCtx,
    WordTimestamps,
    MaxSentenceLen,
}

/// The name of the member that holds a field.
pub open spec fn key_of(f: Field) -> Seq<char> {
    match f {
        Field::Path => "path"@,
        Field::Lang => "lang"@,
        Field::Verbose => "verbose"@,
        Field::NThreads => "n_threads"@,
        Field::InitPrompt => "init_prompt"@,
        Field::Temperature => "temperature"@,
        Field::Translate => "translate"@,
        Field::MaxTextCtx => "max_text_ctx"@,
        Field::WordTimestamps => "word_timestamps"@,
        Field::MaxSentenceLen => "max_sentence_len"@,
    }
}

/// The name of the member that holds a field.
pub fn key(f: Field) -> (r: String)
    ensures
        r@ == key_of(f),
{
    match f {
        Field::Path => "path".to_owned(),
        Field::Lang => "lang".to_owned(),
        Field::Verbose => "verbose".to_owned(),
        Field::NThreads => "n_threads".to_owned(),
        Field::InitPrompt => "init_prompt".to_owned(),
        Field::Temperature => "temperature".to_owned(),
        Field::Translate => "translate".to_owned(),
        Field::MaxTextCtx => "max_text_ctx".to_owned(),
        Field::WordTimestamps => "word_timestamps".to_owned(),
        Field::MaxSentenceLen => "max_sentence_len".to_owned(),
    }
}

/// Why a document does not decode to options.
#[derive(Clone, Copy, Debug, PartialEq, Eq, Structural)]
pub enum SchemaError {
    /// The text is not a JSON document.
    Malformed,
    /// The document is not an object.
    NotAnObject,
    /// A required member is absent.
    Missing(Field),
    /// A member holds a value of the wrong kind.
    WrongType(Field),
    /// A member holds an integer that its field cannot hold.
    OutOfRange(Field),
}

/// The value of the member that holds `f`.
pub open spec fn member(members: Seq<(Seq<char>, Json)>, f: Field) -> Option<Json> {
    find(members, key_of(f))
}

/// An optional string field: absent and `null` give `None`.
pub open spec fn decode_opt_str(v: Option<Json>, f: Field) -> Result<Option<Seq<char>>, SchemaError> {
    match v {
        None => Ok(None),
        Some(Json::Null) => Ok(None),
        Some(Json::Str(s)) => Ok(Some(s)),
        Some(_) => Err(SchemaError::WrongType(f)),
    }
}

/// An optional boolean field: absent and `null` give `None`.
pub open spec fn decode_opt_bool(v: Option<Json>, f: Field) -> Result<Option<bool>, SchemaError> {
    match v {
        None => Ok(None),
        Some(Json::Null) => Ok(None),
        Some(Json::Bool(b)) => Ok(Some(b)),
        Some(_) => Err(SchemaError::WrongType(f)),
    }
}

/// An optional 32-bit integer field: absent and `null` give `None`; a number
/// with a fraction or an exponent is of the wrong kind.
pub open spec fn decode_opt_i32(v: Option<Json>, f: Field) -> Result<Option<i32>, SchemaError> {
    match v {
        None => Ok(None),
        Some(Json::Null) => Ok(None),
        Some(Json::Number(JsonNumber::PosInt(u))) => if u <= i32::MAX {
            Ok(Some(u as i32))
        } else {
            Err(SchemaError::OutOfRange(f))
        },
        Some(Json::Number(JsonNumber::NegInt(i))) => if i32::MIN <= i <= i32::MAX {
            Ok(Some(i as i32))
        } else {
            Err(SchemaError::OutOfRange(f))
        },
        Some(_) => Err(SchemaError::WrongType(f)),
    }
}

/// An optional number field: absent and `null` give `None`.
pub open spec fn decode_opt_number(v: Option<Json>, f: Field) -> Result<Option<JsonNumber>, SchemaError> {
    match v {
        None => Ok(None),
        Some(Json::Null) => Ok(None),
        Some(Json::Number(n)) => Ok(Some(n)),
        Some(_) => Err(SchemaError::WrongType(f)),
    }
}

/// The path: required, and a string.
pub open spec fn decode_path(v: Option<Json>) -> Result<Seq<char>, SchemaError> {
    match v {
        None => Err(SchemaError::Missing(Field::Path)),
        Some(Json::Str(s)) => Ok(s),
        Some(_) => Err(SchemaError::WrongType(Field::Path)),
    }
}

/// The verbose flag: absent gives `false`.
pub open spec fn decode_verbose(v: Option<Json>) -> Result<bool, SchemaError> {
    match v {
        None => Ok(false),
        Some(Json::Bool(b)) => Ok(b),
        Some(_) => Err(SchemaError::WrongType(Field::Verbose)),
    }
}

/// The options that an object's members give. The fields are read in their
/// order of declaration, and the first that fails gives the error. A member
/// that names no field is ignored; where a name repeats, the first member counts.
pub open spec fn decode_members(m: Seq<(Seq<char>, Json)>) -> Result<OptionsModel, SchemaError> {
    let path = decode_path(member(m, Field::Path));
    let lang = decode_opt_str(member(m, Field::Lang), Field::Lang);
    let verbose = decode_verbose(member(m, Field::Verbose));
    let n_threads = decode_opt_i32(member(m, Field::NThreads), Field::NThreads);
    let init_prompt = decode_opt_str(member(m, Field::InitPrompt), Field::InitPrompt);
    let temperature = decode_opt_number(member(m, Field::Temperature), Field::Temperature);
    let translate = decode_opt_bool(member(m, Field::Translate), Field::Translate);
    let max_text_ctx = decode_opt_i32(member(m, Field::MaxTextCtx), Field::MaxTextCtx);
    let word_timestamps = decode_opt_bool(member(m, Field::WordTimestamps), Field::WordTimestamps);
    let max_sentence_len = decode_opt_i32(member(m, Field::MaxSentenceLen), Field::MaxSentenceLen);
    if path is Err {
        Err(path->Err_0)
    } else if lang is Err {
        Err(lang->Err_0)
    } else if verbose is Err {
        Err(verbose->Err_0)
    } else if n_threads is Err {
        Err(n_threads->Err_0)
    } else if init_prompt is Err {
        Err(init_prompt->Err_0)
    } else if temperature is Err {
        Err(temperature->Err_0)
    } else if translate is Err {
        Err(translate->Err_0)
    } else if max_text_ctx is Err {
        Err(max_text_ctx->Err_0)
    } else if word_timestamps is Err {
        Err(word_timestamps->Err_0)
    } else if max_sentence_len is Err {
        Err(max_sentence_len->Err_0)
    } else {
        Ok(
            OptionsModel {
                path: path->Ok_0,
                lang: lang->Ok_0,
                verbose: verbose->Ok_0,
                n_threads: n_threads->Ok_0,
                init_prompt: init_prompt->Ok_0,
                temperature: temperature->Ok_0,
                translate: translate->Ok_0,
                max_text_ctx: max_text_ctx->Ok_0,
                word_timestamps: word_timestamps->Ok_0,
                max_sentence_len: max_sentence_len->Ok_0,
            },
        )
    }
}

/// The options that a document gives: it must be an object.
pub open spec fn decode_json(j: Json) -> Result<OptionsModel, SchemaError> {
    match j {
        Json::Object(m) => decode_members(m),
        _ => Err(SchemaError::NotAnObject),
    }
}

/// The document, if any, that a lookup found.
pub open spec fn json_opt(v: Option<&JsonValue>) -> Option<Json> {
    match v {
        Some(x) => Some(x@),
        None => None,
    }
}

fn read_opt_str(v: Option<&JsonValue>, f: Field) -> (r: Result<Option<String>, SchemaError>)
    ensures
        match r {
            Ok(x) => decode_opt_str(json_opt(v), f) == Ok::<Option<Seq<char>>, SchemaError>(opt_view(x)),
            Err(e) => decode_opt_str(json_opt(v), f) == Err::<Option<Seq<char>>, SchemaError>(e),
        },
{
    match v {
        None => Ok(None),
        Some(JsonValue::Null) => Ok(None),
        Some(JsonValue::Str(s)) => Ok(Some(s.clone())),
        Some(_) => Err(SchemaError::WrongType(f)),
    }
}

fn read_opt_bool(v: Option<&JsonValue>, f: Field) -> (r: Result<Option<bool>, SchemaError>)
    ensures
        r == decode_opt_bool(json_opt(v), f),
{
    match v {
        None => Ok(None),
        Some(JsonValue::Null) => Ok(None),
        Some(JsonValue::Bool(b)) => Ok(Some(*b)),
        Some(_) => Err(SchemaError::WrongType(f)),
    }
}

fn read_opt_i32(v: Option<&JsonValue>, f: Field) -> (r: Result<Option<i32>, SchemaError>)
    ensures
        r == decode_opt_i32(json_opt(v), f),
{
    match v {
        None => Ok(None),
        Some(JsonValue::Null) => Ok(None),
        Some(JsonValue::Number(JsonNumber::PosInt(u))) => {
            if *u <= i32::MAX as u64 {
                Ok(Some(*u as i32))
            } else {
                Err(SchemaError::OutOfRange(f))
            }
        },
        Some(JsonValue::Number(JsonNumber::NegInt(i))) => {
            if i32::MIN as i64 <= *i && *i <= i32::MAX as i64 {
                Ok(Some(*i as i32))
            } else {
                Err(SchemaError::OutOfRange(f))
            }
        },
        Some(_) => Err(SchemaError::WrongType(f)),
    }
}

fn read_opt_number(v: Option<&JsonValue>, f: Field) -> (r: Result<Option<JsonNumber>, SchemaError>)
    ensures
        r == decode_opt_number(json_opt(v), f),
{
    match v {
        None => Ok(None),
        Some(JsonValue::Null) => Ok(None),
        Some(JsonValue::Number(n)) => Ok(Some(n.copy())),
        Some(_) => Err(SchemaError::WrongType(f)),
    }
}

fn read_path(v: Option<&JsonValue>) -> (r: Result<String, SchemaError>)
    ensures
        match r {
            Ok(s) => decode_path(json_opt(v)) == Ok::<Seq<char>, SchemaError>(s@),
            Err(e) => decode_path(json_opt(v)) == Err::<Seq<char>, SchemaError>(e),
        },
{
    match v {
        None => Err(SchemaError::Missing(Field::Path)),
        Some(JsonValue::Str(s)) => Ok(s.clone()),
        Some(_) => Err(SchemaError::WrongType(Field::Path)),
    }
}

fn read_verbose(v: Option<&JsonValue>) -> (r: Result<bool, SchemaError>)
    ensures
        r == decode_verbose(json_opt(v)),
{
    match v {
        None => Ok(false),
        Some(JsonValue::Bool(b)) => Ok(*b),
        Some(_) => Err(SchemaError::WrongType(Field::Verbose)),
    }
}

fn member_value<'a>(members: &'a Vec<(String, JsonValue)>, f: Field) -> (r: Option<&'a JsonValue>)
    ensures
        json_opt(r) == member(members_view(members@), f),
{
    lookup(members, &key(f))
}

/// Decodes options from a document.
pub fn decode_value(v: &JsonValue) -> (r: Result<TranscribeOptions, SchemaError>)
    ensures
        match r {
            Ok(o) => decode_json(v@) == Ok::<OptionsModel, SchemaError>(o@),
            Err(e) => decode_json(v@) == Err::<OptionsModel, SchemaError>(e),
        },
{
    let members = match v {
        JsonValue::Object(members) => members,
        _ => {
            return Err(SchemaError::NotAnObject);
        },
    };
    proof {
        lemma_object_view(*members);
    }
    let ghost m = members_view(members@);
    let path = read_path(member_value(members, Field::Path))?;
    let lang = read_opt_str(member_value(members, Field::Lang), Field::Lang)?;
    let verbose = read_verbose(member_value(members, Field::Verbose))?;
    let n_threads = read_opt_i32(member_value(members, Field::NThreads), Field::NThreads)?;
    let init_prompt = read_opt_str(member_value(members, Field::InitPrompt), Field::InitPrompt)?;
    let temperature = read_opt_number(member_value(members, Field::Temperature), Field::Temperature)?;
    let translate = read_opt_bool(member_value(members, Field::Translate), Field::Translate)?;
    let max_text_ctx = read_opt_i32(member_value(members, Field::MaxTextCtx), Field::MaxTextCtx)?;
    let word_timestamps = read_opt_bool(
        member_value(members, Field::WordTimestamps),
        Field::WordTimestamps,
    )?;
    let max_sentence_len = read_opt_i32(
        member_value(members, Field::MaxSentenceLen),
        Field::MaxSentenceLen,
    )?;
    Ok(
        TranscribeOptions {
            path,
            lang,
            verbose,
            n_threads,
            init_prompt,
            temperature,
            translate,
            max_text_ctx,
            word_timestamps,
            max_sentence_len,
        },
    )
}

/// The document for an optional string: `null` where there is none.
pub open spec fn str_json(s: Option<Seq<char>>) -> Json {
    match s {
        Some(t) => Json::Str(t),
        None => Json::Null,
    }
}

/// The document for an optional boolean: `null` where there is none.
pub open spec fn bool_json(b: Option<bool>) -> Json {
    match b {
        Some(x) => Json::Bool(x),
        None => Json::Null,
    }
}

/// The JSON number for an integer.
pub open spec fn int_number(n: i32) -> JsonNumber {
    if n >= 0 {
        JsonNumber::PosInt(n as u64)
    } else {
        JsonNumber::NegInt(n as i64)
    }
}

/// The document for an optional integer: `null` where there is none.
pub open spec fn i32_json(n: Option<i32>) -> Json {
    match n {
        Some(x) => Json::Number(int_number(x)),
        None => Json::Null,
    }
}

/// The document for an optional number: `null` where there is none.
pub open spec fn number_json(n: Option<JsonNumber>) -> Json {
    match n {
        Some(x) => Json::Number(x),
        None => Json::Null,
    }
}

/// The document for options: an object with one member for each field, in
/// the order of declaration, where an absent value is `null`.
pub open spec fn encode_model(o: OptionsModel) -> Json {
    Json::Object(
        seq![
            (key_of(Field::Path), Json::Str(o.path)),
            (key_of(Field::Lang), str_json(o.lang)),
            (key_of(Field::Verbose), Json::Bool(o.verbose)),
            (key_of(Field::NThreads), i32_json(o.n_threads)),
            (key_of(Field::InitPrompt), str_json(o.init_prompt)),
            (key_of(Field::Temperature), number_json(o.temperature)),
            (key_of(Field::Translate), bool_json(o.translate)),
            (key_of(Field::MaxTextCtx), i32_json(o.max_text_ctx)),
            (key_of(Field::WordTimestamps), bool_json(o.word_timestamps)),
            (key_of(Field::MaxSentenceLen), i32_json(o.max_sentence_len)),
        ],
    )
}

fn str_value(s: &Option<String>) -> (r: JsonValue)
    ensures
        r@ == str_json(opt_view(*s)),
{
    match s {
        Some(t) => JsonValue::Str(t.clone()),
        None => JsonValue::Null,
    }
}

fn bool_value(b: Option<bool>) -> (r: JsonValue)
    ensures
        r@ == bool_json(b),
{
    match b {
        Some(x) => JsonValue::Bool(x),
        None => JsonValue::Null,
    }
}

fn i32_value(n: Option<i32>) -> (r: JsonValue)
    ensures
        r@ == i32_json(n),
{
    match n {
        Some(x) => {
            if x >= 0 {
                JsonValue::Number(JsonNumber::PosInt(x as u64))
            } else {
                JsonValue::Number(JsonNumber::NegInt(x as i64))
            }
        },
        None => JsonValue::Null,
    }
}

fn number_value(n: &Option<JsonNumber>) -> (r: JsonValue)
    ensures
        r@ == number_json(*n),
{
    match n {
        Some(x) => JsonValue::Number(x.copy()),
        None => JsonValue::Null,
    }
}

/// Encodes options as a document.
pub fn encode_value(o: &TranscribeOptions) -> (r: JsonValue)
    ensures
        r@ == encode_model(o@),
{
    let mut members: Vec<(String, JsonValue)> = Vec::new();
    members.push((key(Field::Path), JsonValue::Str(o.path.clone())));
    members.push((key(Field::Lang), str_value(&o.lang)));
    members.push((key(Field::Verbose), JsonValue::Bool(o.verbose)));
    members.push((key(Field::NThreads), i32_value(o.n_threads)));
    members.push((key(Field::InitPrompt), str_value(&o.init_prompt)));
    members.push((key(Field::Temperature), number_value(&o.temperature)));
    members.push((key(Field::Translate), bool_value(o.translate)));
    members.push((key(Field::MaxTextCtx), i32_value(o.max_text_ctx)));
    members.push((key(Field::WordTimestamps), bool_value(o.word_timestamps)));
    members.push((key(Field::MaxSentenceLen), i32_value(o.max_sentence_len)));
    proof {
        lemma_object_view(members);
        assert(members_view(members@) =~= encode_model(o@)->Object_0);
    }
    JsonValue::Object(members)
}

/// The field whose member stands at index `i` of an encoded document.
pub open spec fn field_at(i: int) -> Field {
    if i == 0 {
        Field::Path
    } else if i == 1 {
        Field::Lang
    } else if i == 2 {
        Field::Verbose
    } else if i == 3 {
        Field::NThreads
    } else if i == 4 {
        Field::InitPrompt
    } else if i == 5 {
        Field::Temperature
    } else if i == 6 {
        Field::Translate
    } else if i == 7 {
        Field::MaxTextCtx
    } else if i == 8 {
        Field::WordTimestamps
    } else {
        Field::MaxSentenceLen
    }
}

/// Distinct fields are held by members of distinct names.
pub proof fn lemma_keys_distinct(f: Field, g: Field)
    requires
        f != g,
    ensures
        key_of(f) != key_of(g),
{
    reveal_strlit("path");
    reveal_strlit("lang");
    reveal_strlit("verbose");
    reveal_strlit("n_threads");
    reveal_strlit("init_prompt");
    reveal_strlit("temperature");
    reveal_strlit("translate");
    reveal_strlit("max_text_ctx");
    reveal_strlit("word_timestamps");
    reveal_strlit("max_sentence_len");
    if key_of(f) == key_of(g) {
        assert(key_of(f).len() == key_of(g).len());
        assert(key_of(f)[0] == key_of(g)[0]);
    }
}

proof fn lemma_encoded_member(o: OptionsModel, i: int)
    requires
        0 <= i < 10,
    ensures
        member(encode_model(o)->Object_0, field_at(i)) == Some(encode_model(o)->Object_0[i].1),
{
    let m = encode_model(o)->Object_0;
    assert forall|j: int| 0 <= j < i implies m[j].0 != key_of(field_at(i)) by {
        lemma_keys_distinct(field_at(j), field_at(i));
    }
    lemma_find_at(m, key_of(field_at(i)), i);
}

/// Decoding the document that options encode to gives back the same options,
/// field by field, an absent value staying absent.
pub proof fn lemma_round_trip(o: OptionsModel)
    ensures
        decode_json(encode_model(o)) == Ok::<OptionsModel, SchemaError>(o),
{
    let m = encode_model(o)->Object_0;
    lemma_encoded_member(o, 0);
    lemma_encoded_member(o, 1);
    lemma_encoded_member(o, 2);
    lemma_encoded_member(o, 3);
    lemma_encoded_member(o, 4);
    lemma_encoded_member(o, 5);
    lemma_encoded_member(o, 6);
    lemma_encoded_member(o, 7);
    lemma_encoded_member(o, 8);
    lemma_encoded_member(o, 9);
}

/// A document without a `path` member never decodes: the error names the path.
pub proof fn lemma_path_required(members: Seq<(Seq<char>, Json)>)
    requires
        member(members, Field::Path) is None,
    ensures
        decode_json(Json::Object(members)) == Err::<OptionsModel, SchemaError>(
            SchemaError::Missing(Field::Path),
        ),
{
}

/// An object with a string `path` and no member for any other field decodes,
/// with `verbose` false and every optional field absent.
pub proof fn lemma_path_alone(members: Seq<(Seq<char>, Json)>, path: Seq<char>)
    requires
        member(members, Field::Path) == Some(Json::Str(path)),
        forall|f: Field| f != Field::Path ==> member(members, f) is None,
    ensures
        decode_json(Json::Object(members)) == Ok::<OptionsModel, SchemaError>(
            OptionsModel {
                path,
                lang: None,
                verbose: false,
                n_threads: None,
                init_prompt: None,
                temperature: None,
                translate: None,
                max_text_ctx: None,
                word_timestamps: None,
                max_sentence_len: None,
            },
        ),
{
    assert(member(members, Field::Lang) is None);
    assert(member(members, Field::Verbose) is None);
    assert(member(members, Field::NThreads) is None);
    assert(member(members, Field::InitPrompt) is None);
    assert(member(members, Field::Temperature) is None);
    assert(member(members, Field::Translate) is None);
    assert(member(members, Field::MaxTextCtx) is None);
    assert(member(members, Field::WordTimestamps) is None);
    assert(member(members, Field::MaxSentenceLen) is None);
}

/// Where an object decodes, each optional field without a member is absent
/// from the result, and `verbose` without one is false.
pub proof fn lemma_omitted_fields_absent(members: Seq<(Seq<char>, Json)>)
    requires
        decode_json(Json::Object(members)) is Ok,
    ensures
        ({
            let o = decode_json(Json::Object(members))->Ok_0;
            &&& member(members, Field::Lang) is None ==> o.lang is None
            &&& member(members, Field::Verbose) is None ==> !o.verbose
            &&& member(members, Field::NThreads) is None ==> o.n_threads is None
            &&& member(members, Field::InitPrompt) is None ==> o.init_prompt is None
            &&& member(members, Field::Temperature) is None ==> o.temperature is None
            &&& member(members, Field::Translate) is None ==> o.translate is None
            &&& member(members, Field::MaxTextCtx) is None ==> o.max_text_ctx is None
            &&& member(members, Field::WordTimestamps) is None ==> o.word_timestamps is None
            &&& member(members, Field::MaxSentenceLen) is None ==> o.max_sentence_len is None
        }),
{
}

/// A `temperature` member that is neither a number nor `null` makes decoding fail.
pub proof fn lemma_temperature_must_be_number(members: Seq<(Seq<char>, Json)>, t: Json)
    requires
        member(members, Field::Temperature) == Some(t),
        !(t is Number),
        !(t is Null),
    ensures
        decode_json(Json::Object(members)) is Err,
{
}

/// A member whose name is that of no field, inserted anywhere in an object,
/// leaves what the object decodes to unchanged.
pub proof fn lemma_unknown_member_ignored(
    members: Seq<(Seq<char>, Json)>,
    i: int,
    name: Seq<char>,
    value: Json,
)
    requires
        0 <= i <= members.len(),
        forall|f: Field| name != key_of(f),
    ensures
        decode_json(Json::Object(members.insert(i, (name, value)))) == decode_json(
            Json::Object(members),
        ),
{
    let m2 = members.insert(i, (name, value));
    assert forall|f: Field| member(m2, f) == member(members, f) by {
        lemma_find_insert(members, key_of(f), i, (name, value));
    }
    assert(member(m2, Field::Path) == member(members, Field::Path));
    assert(member(m2, Field::Lang) == member(members, Field::Lang));
    assert(member(m2, Field::Verbose) == member(members, Field::Verbose));
    assert(member(m2, Field::NThreads) == member(members, Field::NThreads));
    assert(member(m2, Field::InitPrompt) == member(members, Field::InitPrompt));
    assert(member(m2, Field::Temperature) == member(members, Field::Temperature));
    assert(member(m2, Field::Translate) == member(members, Field::Translate));
    assert(member(m2, Field::MaxTextCtx) == member(members, Field::MaxTextCtx));
    assert(member(m2, Field::WordTimestamps) == member(members, Field::WordTimestamps));
    assert(member(m2, Field::MaxSentenceLen) == member(members, Field::MaxSentenceLen));
}

/// Why options could not be rendered for reading.
#[derive(Clone, Copy, Debug, PartialEq, Eq, Structural)]
pub enum RenderError {
    /// The JSON writer failed.
    Format,
}

/// Decodes options from JSON text: text that is not one JSON document gives
/// `Malformed`; otherwise the document decodes as `decode_json` says.
pub fn decode(text: &str) -> (r: Result<TranscribeOptions, SchemaError>)
    ensures
        match parsed_json(text@) {
            None => r == Err::<TranscribeOptions, SchemaError>(SchemaError::Malformed),
            Some(j) => match r {
                Ok(o) => decode_json(j) == Ok::<OptionsModel, SchemaError>(o@),
                Err(e) => decode_json(j) == Err::<OptionsModel, SchemaError>(e),
            },
        },
{
    match parse_json(text) {
        Ok(v) => decode_value(&v),
        Err(_) => Err(SchemaError::Malformed),
    }
}

/// Encodes options as compact JSON text.
pub fn encode(o: &TranscribeOptions) -> (r: String)
    ensures
        r@ == compact_json(encode_model(o@)),
{
    let v = encode_value(o);
    match write_json(&v) {
        Ok(s) => s,
        Err(_) => String::new(),
    }
}

/// The indented JSON text that options render to.
pub open spec fn rendering(o: OptionsModel) -> Seq<char> {
    pretty_json(encode_model(o))
}

/// Renders options as indented JSON text for people to read, members in the
/// order of declaration. It does not fail.
pub fn render(o: &TranscribeOptions) -> (r: Result<String, RenderError>)
    ensures
        r matches Ok(s) && s@ == rendering(o@),
{
    let v = encode_value(o);
    match write_json_pretty(&v) {
        Ok(s) => Ok(s),
        Err(_) => Err(RenderError::Format),
    }
}

/// Options that are equal field by field render to the same text.
pub proof fn lemma_render_deterministic(a: OptionsModel, b: OptionsModel)
    requires
        a == b,
    ensures
        rendering(a) == rendering(b),
{
}

} // verus!
