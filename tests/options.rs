use transcribe_options::{
    decode, decode_value, encode, encode_value, render, Field, JsonNumber, JsonValue, SchemaError,
    TranscribeOptions,
};

fn sample() -> TranscribeOptions {
    TranscribeOptions {
        path: "/audio/in.wav".to_string(),
        lang: Some("en".to_string()),
        verbose: true,
        n_threads: Some(-4),
        init_prompt: Some("Hello \"world\"".to_string()),
        temperature: Some(JsonNumber::Float(serde_json::Number::from_f64(0.5).unwrap())),
        translate: Some(false),
        max_text_ctx: Some(2147483647),
        word_timestamps: Some(true),
        max_sentence_len: Some(0),
    }
}

fn bare(path: &str) -> TranscribeOptions {
    TranscribeOptions {
        path: path.to_string(),
        lang: None,
        verbose: false,
        n_threads: None,
        init_prompt: None,
        temperature: None,
        translate: None,
        max_text_ctx: None,
        word_timestamps: None,
        max_sentence_len: None,
    }
}

fn assert_same(a: &TranscribeOptions, b: &TranscribeOptions) {
    assert_eq!(a.path, b.path);
    assert_eq!(a.lang, b.lang);
    assert_eq!(a.verbose, b.verbose);
    assert_eq!(a.n_threads, b.n_threads);
    assert_eq!(a.init_prompt, b.init_prompt);
    assert_eq!(a.temperature, b.temperature);
    assert_eq!(a.translate, b.translate);
    assert_eq!(a.max_text_ctx, b.max_text_ctx);
    assert_eq!(a.word_timestamps, b.word_timestamps);
    assert_eq!(a.max_sentence_len, b.max_sentence_len);
}

fn err_of(text: &str) -> SchemaError {
    match decode(text) {
        Ok(_) => panic!("decoded: {}", text),
        Err(e) => e,
    }
}

const SCENARIO_COMPACT: &str = "{\"path\":\"/audio/in.wav\",\"lang\":\"en\",\"verbose\":true,\"n_threads\":null,\"init_prompt\":null,\"temperature\":null,\"translate\":null,\"max_text_ctx\":null,\"word_timestamps\":null,\"max_sentence_len\":null}";

#[test]
fn scenario_decodes_and_reencodes() {
    let o = decode("{\"path\": \"/audio/in.wav\", \"lang\": \"en\", \"verbose\": true}").unwrap();
    let mut expected = bare("/audio/in.wav");
    expected.lang = Some("en".to_string());
    expected.verbose = true;
    assert_same(&o, &expected);
    let text = encode(&o);
    assert_eq!(text, SCENARIO_COMPACT);
    assert_same(&decode(&text).unwrap(), &expected);
}

#[test]
fn round_trip_through_text() {
    let o = sample();
    let back = decode(&encode(&o)).unwrap();
    assert_same(&back, &o);
}

#[test]
fn round_trip_through_document() {
    let o = sample();
    let back = decode_value(&encode_value(&o)).unwrap();
    assert_same(&back, &o);
    let b = bare("x");
    assert_same(&decode_value(&encode_value(&b)).unwrap(), &b);
}

#[test]
fn round_trip_of_integer_bounds() {
    let mut o = bare("p");
    o.n_threads = Some(i32::MIN);
    o.max_text_ctx = Some(i32::MAX);
    o.max_sentence_len = Some(-1);
    o.temperature = Some(JsonNumber::PosInt(1));
    assert_same(&decode(&encode(&o)).unwrap(), &o);
}

#[test]
fn missing_path_fails() {
    assert_eq!(err_of("{}"), SchemaError::Missing(Field::Path));
    assert_eq!(err_of("{\"lang\": \"en\", \"verbose\": true}"), SchemaError::Missing(Field::Path));
}

#[test]
fn path_alone_decodes_with_nothing_else() {
    let o = decode("{\"path\": \"/a.wav\"}").unwrap();
    assert_same(&o, &bare("/a.wav"));
}

#[test]
fn null_optional_fields_are_absent() {
    let o = decode("{\"path\": \"/a.wav\", \"lang\": null, \"temperature\": null, \"n_threads\": null}").unwrap();
    assert_same(&o, &bare("/a.wav"));
}

#[test]
fn temperature_of_wrong_type_fails() {
    assert_eq!(
        err_of("{\"path\": \"/a.wav\", \"temperature\": \"hot\"}"),
        SchemaError::WrongType(Field::Temperature)
    );
    assert_eq!(
        err_of("{\"path\": \"/a.wav\", \"temperature\": true}"),
        SchemaError::WrongType(Field::Temperature)
    );
}

#[test]
fn temperature_reads_any_number() {
    let o = decode("{\"path\": \"/a.wav\", \"temperature\": 0.7}").unwrap();
    assert_eq!(o.temperature, Some(JsonNumber::Float(serde_json::Number::from_f64(0.7).unwrap())));
    let o = decode("{\"path\": \"/a.wav\", \"temperature\": 1}").unwrap();
    assert_eq!(o.temperature, Some(JsonNumber::PosInt(1)));
    let o = decode("{\"path\": \"/a.wav\", \"temperature\": -2}").unwrap();
    assert_eq!(o.temperature, Some(JsonNumber::NegInt(-2)));
}

#[test]
fn unknown_member_is_ignored() {
    let o = decode("{\"foo\": 1, \"path\": \"/a.wav\", \"verbose\": true, \"bar\": [1, {\"x\": null}]}").unwrap();
    let mut expected = bare("/a.wav");
    expected.verbose = true;
    assert_same(&o, &expected);
}

#[test]
fn malformed_text_fails() {
    assert_eq!(err_of("{\"path\": "), SchemaError::Malformed);
    assert_eq!(err_of(""), SchemaError::Malformed);
    assert_eq!(err_of("{\"path\": \"a\"} x"), SchemaError::Malformed);
}

#[test]
fn non_object_fails() {
    assert_eq!(err_of("[\"/a.wav\"]"), SchemaError::NotAnObject);
    assert_eq!(err_of("\"/a.wav\""), SchemaError::NotAnObject);
    assert_eq!(err_of("null"), SchemaError::NotAnObject);
}

#[test]
fn wrong_types_fail() {
    assert_eq!(err_of("{\"path\": null}"), SchemaError::WrongType(Field::Path));
    assert_eq!(err_of("{\"path\": 3}"), SchemaError::WrongType(Field::Path));
    assert_eq!(err_of("{\"path\": \"a\", \"verbose\": \"yes\"}"), SchemaError::WrongType(Field::Verbose));
    assert_eq!(err_of("{\"path\": \"a\", \"verbose\": null}"), SchemaError::WrongType(Field::Verbose));
    assert_eq!(err_of("{\"path\": \"a\", \"lang\": 1}"), SchemaError::WrongType(Field::Lang));
    assert_eq!(err_of("{\"path\": \"a\", \"n_threads\": 1.5}"), SchemaError::WrongType(Field::NThreads));
    assert_eq!(err_of("{\"path\": \"a\", \"translate\": 1}"), SchemaError::WrongType(Field::Translate));
    assert_eq!(err_of("{\"path\": \"a\", \"init_prompt\": []}"), SchemaError::WrongType(Field::InitPrompt));
}

#[test]
fn integers_out_of_range_fail() {
    assert_eq!(
        err_of("{\"path\": \"a\", \"n_threads\": 2147483648}"),
        SchemaError::OutOfRange(Field::NThreads)
    );
    assert_eq!(
        err_of("{\"path\": \"a\", \"max_text_ctx\": -2147483649}"),
        SchemaError::OutOfRange(Field::MaxTextCtx)
    );
    assert_eq!(
        err_of("{\"path\": \"a\", \"max_sentence_len\": 18446744073709551615}"),
        SchemaError::OutOfRange(Field::MaxSentenceLen)
    );
    let o = decode("{\"path\": \"a\", \"n_threads\": -2147483648, \"max_text_ctx\": 2147483647}").unwrap();
    assert_eq!(o.n_threads, Some(i32::MIN));
    assert_eq!(o.max_text_ctx, Some(i32::MAX));
}

#[test]
fn first_failing_field_in_declaration_order() {
    assert_eq!(
        err_of("{\"temperature\": \"x\", \"lang\": 2, \"path\": \"a\"}"),
        SchemaError::WrongType(Field::Lang)
    );
    assert_eq!(err_of("{\"lang\": 2}"), SchemaError::Missing(Field::Path));
}

#[test]
fn first_of_repeated_member_counts() {
    let members = vec![
        ("path".to_string(), JsonValue::Str("first".to_string())),
        ("path".to_string(), JsonValue::Str("second".to_string())),
    ];
    let o = decode_value(&JsonValue::Object(members)).unwrap();
    assert_eq!(o.path, "first");
}

#[test]
fn document_decodes_directly() {
    let members = vec![
        ("path".to_string(), JsonValue::Str("/b.wav".to_string())),
        ("n_threads".to_string(), JsonValue::Number(JsonNumber::PosInt(8))),
        ("word_timestamps".to_string(), JsonValue::Bool(true)),
    ];
    let o = decode_value(&JsonValue::Object(members)).unwrap();
    let mut expected = bare("/b.wav");
    expected.n_threads = Some(8);
    expected.word_timestamps = Some(true);
    assert_same(&o, &expected);
    assert!(matches!(decode_value(&JsonValue::Bool(true)), Err(SchemaError::NotAnObject)));
}

#[test]
fn encoded_document_lists_every_field_in_order() {
    let v = encode_value(&bare("/c.wav"));
    match v {
        JsonValue::Object(members) => {
            let names: Vec<&str> = members.iter().map(|(k, _)| k.as_str()).collect();
            assert_eq!(
                names,
                vec![
                    "path",
                    "lang",
                    "verbose",
                    "n_threads",
                    "init_prompt",
                    "temperature",
                    "translate",
                    "max_text_ctx",
                    "word_timestamps",
                    "max_sentence_len"
                ]
            );
            assert!(matches!(&members[1].1, JsonValue::Null));
            assert!(matches!(&members[2].1, JsonValue::Bool(false)));
        }
        _ => panic!("not an object"),
    }
}

#[test]
fn render_is_indented_and_stable() {
    let mut o = bare("/audio/in.wav");
    o.lang = Some("en".to_string());
    o.verbose = true;
    o.n_threads = Some(4);
    let first = render(&o).unwrap();
    let second = render(&o).unwrap();
    assert_eq!(first, second);
    let expected = "{\n  \"path\": \"/audio/in.wav\",\n  \"lang\": \"en\",\n  \"verbose\": true,\n  \"n_threads\": 4,\n  \"init_prompt\": null,\n  \"temperature\": null,\n  \"translate\": null,\n  \"max_text_ctx\": null,\n  \"word_timestamps\": null,\n  \"max_sentence_len\": null\n}";
    assert_eq!(first, expected);
}

#[test]
fn render_of_full_options() {
    let text = render(&sample()).unwrap();
    assert!(text.contains("\"temperature\": 0.5"));
    assert!(text.contains("\"n_threads\": -4"));
    assert!(text.contains("\"init_prompt\": \"Hello \\\"world\\\"\""));
}

#[test]
fn encode_escapes_strings() {
    let mut o = bare("a\"b\\c\n");
    o.init_prompt = Some("é".to_string());
    let text = encode(&o);
    assert!(text.starts_with("{\"path\":\"a\\\"b\\\\c\\n\",\"lang\":null,"));
    assert_same(&decode(&text).unwrap(), &o);
}
