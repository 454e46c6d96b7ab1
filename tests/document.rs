use mock_deepgram::decimal::write_nat;
use mock_deepgram::json::{write_array, write_string};
use mock_deepgram::{handler, Alternative, Decimal, Metadata, ToJson, Word};

const WORD_LOREM: &str = "{\"word\":\"lorem\",\"start\":0.0,\"end\":1.1,\"confidence\":2.0}";

fn decimal_text(d: &Decimal) -> String {
    let mut out = String::new();
    d.write_json(&mut out);
    out
}

fn json_of<T: ToJson>(v: &T) -> String {
    let mut out = String::new();
    v.write_json(&mut out);
    out
}

#[test]
fn canned_document_shape() {
    let doc = handler();
    assert_eq!(doc.results.channels.len(), 1);
    let channel = &doc.results.channels[0];
    assert_eq!(channel.alternatives.len(), 1);
    let alt = &channel.alternatives[0];
    let tokens: Vec<&str> = alt.words.iter().map(|w| w.word.as_str()).collect();
    assert_eq!(tokens, vec!["lorem", "ipsum", "dolor", "sit", "amet"]);
}

#[test]
fn canned_alternative_values() {
    let alt = Alternative::default();
    assert_eq!(alt.transcript, "lorem ipsum dolor sit amet");
    assert_eq!((alt.confidence.units(), alt.confidence.scale()), (95, 2));
    assert_eq!(alt.words.len(), 5);
    for w in &alt.words {
        assert_eq!((w.start.units(), w.start.scale()), (0, 1));
        assert_eq!((w.end.units(), w.end.scale()), (11, 1));
        assert_eq!((w.confidence.units(), w.confidence.scale()), (20, 1));
    }
}

#[test]
fn canned_metadata_values() {
    let m = Metadata::default();
    assert_eq!(m.transaction_key, "transaction_key");
    assert_eq!(m.request_id, "request_id");
    assert_eq!(m.sha256, "sha256");
    assert_eq!(m.created, "created");
    assert_eq!((m.duration.units(), m.duration.scale()), (200, 1));
    assert_eq!(m.channels, 0);
    assert_eq!(m.models, vec!["nova".to_string()]);
}

#[test]
fn word_json() {
    assert_eq!(json_of(&Word::new("lorem")), WORD_LOREM);
}

#[test]
fn metadata_json() {
    assert_eq!(
        json_of(&Metadata::default()),
        "{\"transaction_key\":\"transaction_key\",\"request_id\":\"request_id\",\"sha256\":\"sha256\",\"created\":\"created\",\"duration\":20.0,\"channels\":0,\"models\":[\"nova\"]}"
    );
}

#[test]
fn document_json_keeps_wire_spellings() {
    let text = handler().to_json();
    assert!(text.contains("\"alernatives\":"));
    assert!(text.contains("\"metdata\":"));
    assert!(!text.contains("\"alternatives\""));
    assert!(!text.contains("\"metadata\""));
}

#[test]
fn decimal_texts() {
    assert_eq!(decimal_text(&Decimal::new(95, 2)), "0.95");
    assert_eq!(decimal_text(&Decimal::new(200, 1)), "20.0");
    assert_eq!(decimal_text(&Decimal::new(0, 1)), "0.0");
    assert_eq!(decimal_text(&Decimal::new(11, 1)), "1.1");
    assert_eq!(decimal_text(&Decimal::new(5, 3)), "0.005");
    assert_eq!(decimal_text(&Decimal::new(123456, 2)), "1234.56");
    assert_eq!(decimal_text(&Decimal::new(u64::MAX, 19)), "1.8446744073709551615");
    assert_eq!(decimal_text(&Decimal::new(u64::MAX, 1)), "1844674407370955161.5");
}

#[test]
fn natural_numbers() {
    let mut out = String::from("n=");
    write_nat(&mut out, 0);
    assert_eq!(out, "n=0");
    let mut out = String::new();
    write_nat(&mut out, 1030);
    assert_eq!(out, "1030");
    let mut out = String::new();
    write_nat(&mut out, u64::MAX);
    assert_eq!(out, "18446744073709551615");
}

#[test]
fn string_escaping() {
    let mut out = String::new();
    write_string("a\"b\\c\nd\u{1f}é", &mut out);
    assert_eq!(out, "\"a\\\"b\\\\c\\u000ad\\u001fé\"");
    let mut out = String::new();
    write_string("", &mut out);
    assert_eq!(out, "\"\"");
}

#[test]
fn arrays() {
    let mut out = String::new();
    write_array(&Vec::<String>::new(), &mut out);
    assert_eq!(out, "[]");
    let mut out = String::new();
    write_array(&vec!["x".to_string(), "y\"".to_string()], &mut out);
    assert_eq!(out, "[\"x\",\"y\\\"\"]");
    let mut out = String::new();
    write_array(&vec![Word::new("lorem")], &mut out);
    assert_eq!(out, format!("[{}]", WORD_LOREM));
}
