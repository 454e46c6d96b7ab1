use vstd::prelude::*;
use vstd::string::StringExecFns;

use crate::decimal::{nat_text, write_nat, Decimal};
use crate::decimal::lemma_small_texts;
use crate::json::{
    is_plain, joined, json_array, json_items, json_string, lemma_plain_escaped, write_array,
    write_string, ToJson,
};

verus! {

/// One recognised word: its text, when it starts and ends (in seconds), and
/// how confident the recogniser is of it.
pub struct Word {
    pub word: String,
    pub start: Decimal,
    pub end: Decimal,
    pub confidence: Decimal,
}

/// One candidate transcription of a channel.
pub struct Alternative {
    pub transcript: String,
    pub confidence: Decimal,
    pub words: Vec<Word>,
}

/// One audio channel and its candidate transcriptions. On the wire the list
/// is keyed `alernatives`, the spelling that clients of the mocked service
/// depend on.
pub struct Channel {
    pub alternatives: Vec<Alternative>,
}

/// The transcription results, one entry per channel.
pub struct Results {
    pub channels: Vec<Channel>,
}

/// Facts about the request and the audio: identifiers, timestamps, duration,
/// channel count and the models used.
pub struct Metadata {
    pub transaction_key: String,
    pub request_id: String,
    pub sha256: String,
    pub created: String,
    pub duration: Decimal,
    pub channels: usize,
    pub models: Vec<String>,
}

/// A transcription document: results and metadata. On the wire the metadata
/// is keyed `metdata`, the spelling that clients of the mocked service depend
/// on.
pub struct DeepgramResponse {
    pub results: Results,
    pub metadata: Metadata,
}

/// The tokens of the canned transcript, in order.
pub open spec fn mock_tokens() -> Seq<Seq<char>> {
    seq!["lorem"@, "ipsum"@, "dolor"@, "sit"@, "amet"@]
}

impl Word {
    /// A word of the canned transcript: it runs from 0.0 s to 1.1 s and has
    /// confidence 2.0.
    pub fn new(word: &str) -> (r: Word)
        ensures
            r.is_mock_of(word@),
    {
        Word {
            end: Decimal::new(11, 1),
            start: Decimal::new(0, 1),
            confidence: Decimal::new(20, 1),
            word: String::from_str(word),
        }
    }

    /// This is the canned entry for `token`.
    pub open spec fn is_mock_of(&self, token: Seq<char>) -> bool {
        &&& self.word@ == token
        &&& self.start@ == (0nat, 1nat)
        &&& self.end@ == (11nat, 1nat)
        &&& self.confidence@ == (20nat, 1nat)
    }
}

impl Alternative {
    /// This is the canned alternative: the transcript
    /// `lorem ipsum dolor sit amet` with confidence 0.95, and its five words
    /// in order.
    pub open spec fn is_mock(&self) -> bool {
        &&& self.transcript@ == "lorem ipsum dolor sit amet"@
        &&& self.confidence@ == (95nat, 2nat)
        &&& self.words@.len() == mock_tokens().len()
        &&& forall|i: int|
            0 <= i < mock_tokens().len() ==> #[trigger] self.words@[i].is_mock_of(mock_tokens()[i])
    }
}

impl Default for Alternative {
    fn default() -> (r: Self)
        ensures
            r.is_mock(),
    {
        let words = vec![
            Word::new("lorem"),
            Word::new("ipsum"),
            Word::new("dolor"),
            Word::new("sit"),
            Word::new("amet"),
        ];
        Alternative {
            transcript: String::from_str("lorem ipsum dolor sit amet"),
            confidence: Decimal::new(95, 2),
            words,
        }
    }
}

impl Channel {
    /// This channel holds exactly the canned alternative.
    pub open spec fn is_mock(&self) -> bool {
        &&& self.alternatives@.len() == 1
        &&& self.alternatives@[0].is_mock()
    }
}

impl Results {
    /// These results hold exactly one channel, the canned one.
    pub open spec fn is_mock(&self) -> bool {
        &&& self.channels@.len() == 1
        &&& self.channels@[0].is_mock()
    }
}

impl Metadata {
    /// This is the canned metadata: placeholder identifiers, 20.0 seconds,
    /// no channels, and the one model `nova`.
    pub open spec fn is_mock(&self) -> bool {
        &&& self.transaction_key@ == "transaction_key"@
        &&& self.request_id@ == "request_id"@
        &&& self.sha256@ == "sha256"@
        &&& self.created@ == "created"@
        &&& self.duration@ == (200nat, 1nat)
        &&& self.channels == 0
        &&& self.models@.len() == 1
        &&& self.models@[0]@ == "nova"@
    }
}

impl Default for Metadata {
    fn default() -> (r: Self)
        ensures
            r.is_mock(),
    {
        Metadata {
            transaction_key: String::from_str("transaction_key"),
            request_id: String::from_str("request_id"),
            sha256: String::from_str("sha256"),
            created: String::from_str("created"),
            duration: Decimal::new(200, 1),
            channels: 0,
            models: vec![String::from_str("nova")],
        }
    }
}

impl DeepgramResponse {
    /// This is the canned document.
    pub open spec fn is_mock(&self) -> bool {
        &&& self.results.is_mock()
        &&& self.metadata.is_mock()
    }
}

impl ToJson for Word {
    open spec fn json(&self) -> Seq<char> {
        "{\"word\":"@ + json_string(self.word@) + ",\"start\":"@ + self.start.text()
            + ",\"end\":"@ + self.end.text() + ",\"confidence\":"@ + self.confidence.text() + "}"@
    }

    fn write_json(&self, out: &mut String) {
        let ghost start = out@;
        out.append("{\"word\":");
        write_string(self.word.as_str(), out);
        out.append(",\"start\":");
        self.start.write_json(out);
        out.append(",\"end\":");
        self.end.write_json(out);
        out.append(",\"confidence\":");
        self.confidence.write_json(out);
        out.append("}");
        assert(out@ =~= start + self.json());
    }
}

impl ToJson for Alternative {
    open spec fn json(&self) -> Seq<char> {
        "{\"transcript\":"@ + json_string(self.transcript@) + ",\"confidence\":"@
            + self.confidence.text() + ",\"words\":"@ + json_array(json_items(self.words@)) + "}"@
    }

    fn write_json(&self, out: &mut String) {
        let ghost start = out@;
        out.append("{\"transcript\":");
        write_string(self.transcript.as_str(), out);
        out.append(",\"confidence\":");
        self.confidence.write_json(out);
        out.append(",\"words\":");
        write_array(&self.words, out);
        out.append("}");
        assert(out@ =~= start + self.json());
    }
}

impl ToJson for Channel {
    open spec fn json(&self) -> Seq<char> {
        "{\"alernatives\":"@ + json_array(json_items(self.alternatives@)) + "}"@
    }

    fn write_json(&self, out: &mut String) {
        let ghost start = out@;
        out.append("{\"alernatives\":");
        write_array(&self.alternatives, out);
        out.append("}");
        assert(out@ =~= start + self.json());
    }
}

impl ToJson for Results {
    open spec fn json(&self) -> Seq<char> {
        "{\"channels\":"@ + json_array(json_items(self.channels@)) + "}"@
    }

    fn write_json(&self, out: &mut String) {
        let ghost start = out@;
        out.append("{\"channels\":");
        write_array(&self.channels, out);
        out.append("}");
        assert(out@ =~= start + self.json());
    }
}

impl ToJson for Metadata {
    open spec fn json(&self) -> Seq<char> {
        "{\"transaction_key\":"@ + json_string(self.transaction_key@) + ",\"request_id\":"@
            + json_string(self.request_id@) + ",\"sha256\":"@ + json_string(self.sha256@)
            + ",\"created\":"@ + json_string(self.created@) + ",\"duration\":"@
            + self.duration.text() + ",\"channels\":"@ + nat_text(self.channels as nat)
            + ",\"models\":"@ + json_array(json_items(self.models@)) + "}"@
    }

    fn write_json(&self, out: &mut String) {
        let ghost start = out@;
        out.append("{\"transaction_key\":");
        write_string(self.transaction_key.as_str(), out);
        out.append(",\"request_id\":");
        write_string(self.request_id.as_str(), out);
        out.append(",\"sha256\":");
        write_string(self.sha256.as_str(), out);
        out.append(",\"created\":");
        write_string(self.created.as_str(), out);
        out.append(",\"duration\":");
        self.duration.write_json(out);
        out.append(",\"channels\":");
        write_nat(out, self.channels as u64);
        out.append(",\"models\":");
        write_array(&self.models, out);
        out.append("}");
        assert(out@ =~= start + self.json());
    }
}

impl ToJson for DeepgramResponse {
    open spec fn json(&self) -> Seq<char> {
        "{\"results\":"@ + self.results.json() + ",\"metdata\":"@ + self.metadata.json() + "}"@
    }

    fn write_json(&self, out: &mut String) {
        let ghost start = out@;
        out.append("{\"results\":");
        self.results.write_json(out);
        out.append(",\"metdata\":");
        self.metadata.write_json(out);
        out.append("}");
        assert(out@ =~= start + self.json());
    }
}

impl DeepgramResponse {
    /// The JSON text of this document.
    pub fn to_json(&self) -> (r: String)
        ensures
            r@ == self.json(),
    {
        let mut out = String::new();
        self.write_json(&mut out);
        assert(out@ =~= self.json());
        out
    }
}

/// The JSON text of the canned entry for the word `token`.
pub open spec fn mock_word_json(token: Seq<char>) -> Seq<char> {
    "{\"word\":\""@ + token + "\",\"start\":0.0,\"end\":1.1,\"confidence\":2.0}"@
}

/// The JSON texts of the canned words, separated by commas.
pub open spec fn mock_words_json() -> Seq<char> {
    mock_word_json("lorem"@) + ","@ + mock_word_json("ipsum"@) + ","@ + mock_word_json("dolor"@)
        + ","@ + mock_word_json("sit"@) + ","@ + mock_word_json("amet"@)
}

/// The JSON text of the canned document.
pub open spec fn mock_document() -> Seq<char> {
    "{\"results\":{\"channels\":[{\"alernatives\":[{\"transcript\":\"lorem ipsum dolor sit amet\",\"confidence\":0.95,\"words\":["@
        + mock_words_json()
        + "]}]}]},\"metdata\":{\"transaction_key\":\"transaction_key\",\"request_id\":\"request_id\",\"sha256\":\"sha256\",\"created\":\"created\",\"duration\":20.0,\"channels\":0,\"models\":[\"nova\"]}}"@
}

proof fn lemma_word_json(w: Word, token: Seq<char>)
    requires
        w.is_mock_of(token),
        is_plain(token),
    ensures
        w.json() == mock_word_json(token),
{
    lemma_plain_escaped(token);
    lemma_small_texts(w.start);
    lemma_small_texts(w.end);
    lemma_small_texts(w.confidence);
    reveal_strlit("{\"word\":");
    reveal_strlit(",\"start\":");
    reveal_strlit(",\"end\":");
    reveal_strlit(",\"confidence\":");
    reveal_strlit("}");
    reveal_strlit("0.0");
    reveal_strlit("1.1");
    reveal_strlit("2.0");
    reveal_strlit("{\"word\":\"");
    reveal_strlit("\",\"start\":0.0,\"end\":1.1,\"confidence\":2.0}");
    assert(w.json() =~= mock_word_json(token));
}

proof fn lemma_plain_literals()
    ensures
        is_plain("lorem"@),
        is_plain("ipsum"@),
        is_plain("dolor"@),
        is_plain("sit"@),
        is_plain("amet"@),
        is_plain("lorem ipsum dolor sit amet"@),
        is_plain("transaction_key"@),
        is_plain("request_id"@),
        is_plain("sha256"@),
        is_plain("created"@),
        is_plain("nova"@),
{
    reveal_strlit("lorem");
    reveal_strlit("ipsum");
    reveal_strlit("dolor");
    reveal_strlit("sit");
    reveal_strlit("amet");
    reveal_strlit("lorem ipsum dolor sit amet");
    reveal_strlit("transaction_key");
    reveal_strlit("request_id");
    reveal_strlit("sha256");
    reveal_strlit("created");
    reveal_strlit("nova");
}

/// The JSON text of the words of the canned alternative.
proof fn lemma_words_json(a: Alternative)
    requires
        a.is_mock(),
    ensures
        joined(json_items(a.words@)) == mock_words_json(),
{
    lemma_plain_literals();
    let t = mock_tokens();
    let items = json_items(a.words@);
    assert forall|i: int| 0 <= i < 5 implies items[i] == mock_word_json(#[trigger] t[i]) by {
        assert(a.words@[i].is_mock_of(t[i]));
        lemma_word_json(a.words@[i], t[i]);
    }
    assert(items =~= seq![
        mock_word_json(t[0]),
        mock_word_json(t[1]),
        mock_word_json(t[2]),
        mock_word_json(t[3]),
        mock_word_json(t[4]),
    ]);
    reveal_with_fuel(joined, 6);
    reveal_strlit(",");
    assert(items.drop_last().drop_last().drop_last().drop_last() =~= seq![items[0]]);
    assert(items.drop_last().drop_last().drop_last() =~= seq![items[0], items[1]]);
    assert(items.drop_last().drop_last() =~= seq![items[0], items[1], items[2]]);
    assert(items.drop_last() =~= seq![items[0], items[1], items[2], items[3]]);
    assert(joined(items) =~= mock_words_json());
}

spec fn alternative_opening() -> Seq<char> {
    "{\"transcript\":"@ + json_string("lorem ipsum dolor sit amet"@) + ",\"confidence\":"@ + "0.95"@
        + ",\"words\":"@
}

spec fn opening_pieces() -> Seq<char> {
    "{\"results\":"@ + ("{\"channels\":"@ + (seq!['['] + ("{\"alernatives\":"@ + (seq!['['] + (
    alternative_opening() + seq!['['])))))
}

spec fn metadata_pieces() -> Seq<char> {
    "{\"transaction_key\":"@ + json_string("transaction_key"@) + ",\"request_id\":"@ + json_string(
        "request_id"@,
    ) + ",\"sha256\":"@ + json_string("sha256"@) + ",\"created\":"@ + json_string("created"@)
        + ",\"duration\":"@ + "20.0"@ + ",\"channels\":"@ + seq!['0'] + ",\"models\":"@ + seq!['[']
        + json_string("nova"@) + seq![']'] + "}"@
}

spec fn closing_pieces() -> Seq<char> {
    seq![']'] + "}"@ + seq![']'] + "}"@ + seq![']'] + "}"@ + ",\"metdata\":"@ + metadata_pieces()
        + "}"@
}

proof fn lemma_opening_text()
    ensures
        opening_pieces()
            == "{\"results\":{\"channels\":[{\"alernatives\":[{\"transcript\":\"lorem ipsum dolor sit amet\",\"confidence\":0.95,\"words\":["@,
{
    lemma_plain_literals();
    lemma_plain_escaped("lorem ipsum dolor sit amet"@);
    reveal_strlit("{\"results\":");
    reveal_strlit("{\"channels\":");
    reveal_strlit("{\"alernatives\":");
    reveal_strlit("{\"transcript\":");
    reveal_strlit(",\"confidence\":");
    reveal_strlit(",\"words\":");
    reveal_strlit("lorem ipsum dolor sit amet");
    reveal_strlit("0.95");
    reveal_strlit(
        "{\"results\":{\"channels\":[{\"alernatives\":[{\"transcript\":\"lorem ipsum dolor sit amet\",\"confidence\":0.95,\"words\":[",
    );
    assert(opening_pieces()
        =~= "{\"results\":{\"channels\":[{\"alernatives\":[{\"transcript\":\"lorem ipsum dolor sit amet\",\"confidence\":0.95,\"words\":["@);
}

proof fn lemma_closing_text()
    ensures
        closing_pieces()
            == "]}]}]},\"metdata\":{\"transaction_key\":\"transaction_key\",\"request_id\":\"request_id\",\"sha256\":\"sha256\",\"created\":\"created\",\"duration\":20.0,\"channels\":0,\"models\":[\"nova\"]}}"@,
{
    lemma_plain_literals();
    lemma_plain_escaped("transaction_key"@);
    lemma_plain_escaped("request_id"@);
    lemma_plain_escaped("sha256"@);
    lemma_plain_escaped("created"@);
    lemma_plain_escaped("nova"@);
    reveal_strlit("}");
    reveal_strlit(",\"metdata\":");
    reveal_strlit("{\"transaction_key\":");
    reveal_strlit(",\"request_id\":");
    reveal_strlit(",\"sha256\":");
    reveal_strlit(",\"created\":");
    reveal_strlit(",\"duration\":");
    reveal_strlit(",\"channels\":");
    reveal_strlit(",\"models\":");
    reveal_strlit("transaction_key");
    reveal_strlit("request_id");
    reveal_strlit("sha256");
    reveal_strlit("created");
    reveal_strlit("nova");
    reveal_strlit("20.0");
    reveal_strlit(
        "]}]}]},\"metdata\":{\"transaction_key\":\"transaction_key\",\"request_id\":\"request_id\",\"sha256\":\"sha256\",\"created\":\"created\",\"duration\":20.0,\"channels\":0,\"models\":[\"nova\"]}}",
    );
    assert(closing_pieces()
        =~= "]}]}]},\"metdata\":{\"transaction_key\":\"transaction_key\",\"request_id\":\"request_id\",\"sha256\":\"sha256\",\"created\":\"created\",\"duration\":20.0,\"channels\":0,\"models\":[\"nova\"]}}"@);
}

proof fn lemma_metadata_json(m: Metadata)
    requires
        m.is_mock(),
    ensures
        m.json() == metadata_pieces(),
{
    lemma_small_texts(m.duration);
    assert(json_items(m.models@) =~= seq![json_string("nova"@)]);
    reveal_with_fuel(joined, 2);
    reveal_with_fuel(crate::decimal::nat_text, 1);
    reveal_strlit("0123456789");
    assert(m.json() =~= metadata_pieces());
}

proof fn lemma_wrap(a: Seq<char>, b: Seq<char>, x: Seq<char>, c: Seq<char>, d: Seq<char>)
    ensures
        a + (b + x + c) + d == (a + b) + x + (c + d),
{
    assert(a + (b + x + c) + d =~= (a + b) + x + (c + d));
}

proof fn lemma_tail(p: Seq<char>, x: Seq<char>, s: Seq<char>, m: Seq<char>, e: Seq<char>)
    ensures
        p + x + s + m + e == p + x + (s + m + e),
{
    assert(p + x + s + m + e =~= p + x + (s + m + e));
}

/// Every canned document is written as the same JSON text, `mock_document()`.
pub proof fn lemma_mock_json(d: DeepgramResponse)
    requires
        d.is_mock(),
    ensures
        d.json() == mock_document(),
{
    let r = d.results;
    let c = r.channels@[0];
    let a = c.alternatives@[0];
    let w = joined(json_items(a.words@));
    let close = seq![']'];
    let brace = "}"@;
    reveal_with_fuel(joined, 2);
    lemma_small_texts(a.confidence);
    lemma_metadata_json(d.metadata);
    lemma_words_json(a);
    // the alternative
    let alt_pre = alternative_opening() + seq!['['];
    let alt_post = close + brace;
    lemma_wrap(alternative_opening(), seq!['['], w, close, brace);
    assert(a.json() == alt_pre + w + alt_post);
    // the channel
    assert(json_items(c.alternatives@) =~= seq![a.json()]);
    lemma_wrap(seq!['['], alt_pre, w, alt_post, close);
    let alts_pre = seq!['['] + alt_pre;
    let alts_post = alt_post + close;
    lemma_wrap("{\"alernatives\":"@, alts_pre, w, alts_post, brace);
    let chan_pre = "{\"alernatives\":"@ + alts_pre;
    let chan_post = alts_post + brace;
    assert(c.json() == chan_pre + w + chan_post);
    // the results
    assert(json_items(r.channels@) =~= seq![c.json()]);
    lemma_wrap(seq!['['], chan_pre, w, chan_post, close);
    let chans_pre = seq!['['] + chan_pre;
    let chans_post = chan_post + close;
    lemma_wrap("{\"channels\":"@, chans_pre, w, chans_post, brace);
    let res_pre = "{\"channels\":"@ + chans_pre;
    let res_post = chans_post + brace;
    assert(r.json() == res_pre + w + res_post);
    // the document
    lemma_wrap("{\"results\":"@, res_pre, w, res_post, ",\"metdata\":"@);
    let doc_pre = "{\"results\":"@ + res_pre;
    let doc_post = res_post + ",\"metdata\":"@;
    lemma_tail(doc_pre, w, doc_post, metadata_pieces(), brace);
    assert(doc_pre == opening_pieces());
    assert(doc_post + metadata_pieces() + brace == closing_pieces());
    assert(d.json() == opening_pieces() + w + closing_pieces());
    lemma_opening_text();
    lemma_closing_text();
}

/// Builds the canned transcription document.
pub fn handler() -> (r: DeepgramResponse)
    ensures
        r.is_mock(),
        r.json() == mock_document(),
{
    let r = DeepgramResponse {
        results: Results { channels: vec![Channel { alternatives: vec![Alternative::default()] }] },
        metadata: Metadata::default(),
    };
    proof {
        lemma_mock_json(r);
    }
    r
}

} // verus!
