//! What a worker hands a WSGI application, and what it reads of the answer.
use vstd::prelude::*;
use vstd::utf8::{decode_utf8, encode_utf8, valid_utf8};

verus! {

/// A value of the WSGI environment.
#[derive(Debug, Clone, PartialEq, Eq)]
pub enum EnvironValue {
    Text(String),
    Flag(bool),
    /// A version as a pair of numbers, such as `wsgi.version`.
    Version(u32, u32),
}

/// The text of an environment value.
pub enum EnvironValueText {
    Text(Seq<char>),
    Flag(bool),
    Version(u32, u32),
}

impl View for EnvironValue {
    type V = EnvironValueText;

    open spec fn view(&self) -> EnvironValueText {
        match self {
            EnvironValue::Text(s) => EnvironValueText::Text(s@),
            EnvironValue::Flag(b) => EnvironValueText::Flag(*b),
            EnvironValue::Version(major, minor) => EnvironValueText::Version(*major, *minor),
        }
    }
}

/// An entry of the WSGI environment: a key and its value.
#[derive(Debug, Clone, PartialEq, Eq)]
pub struct EnvironEntry {
    pub key: String,
    pub value: EnvironValue,
}

impl View for EnvironEntry {
    type V = (Seq<char>, EnvironValueText);

    open spec fn view(&self) -> (Seq<char>, EnvironValueText) {
        (self.key@, self.value@)
    }
}

/// The text of a list of environment entries.
pub open spec fn environ_text(entries: Seq<EnvironEntry>) -> Seq<(Seq<char>, EnvironValueText)> {
    entries.map_values(|e: EnvironEntry| e@)
}

/// The environment a worker runs an application in through CGI, entry by
/// entry, in order.
pub open spec fn cgi_environ_text() -> Seq<(Seq<char>, EnvironValueText)> {
    seq![
        ("HTTP_ACCEPT"@, EnvironValueText::Text("*/*"@)),
        ("HTTP_HOST"@, EnvironValueText::Text("127.0.0.1:8000"@)),
        ("HTTP_USER_AGENT"@, EnvironValueText::Text("TestAgent/1.0"@)),
        ("PATH_INFO"@, EnvironValueText::Text("/"@)),
        ("QUERY_STRING"@, EnvironValueText::Text(""@)),
        ("REQUEST_METHOD"@, EnvironValueText::Text("GET"@)),
        ("Worker_NAME"@, EnvironValueText::Text("127.0.0.1"@)),
        ("Worker_PORT"@, EnvironValueText::Text("8000"@)),
        ("Worker_PROTOCOL"@, EnvironValueText::Text("HTTP/1.1"@)),
        ("Worker_SOFTWARE"@, EnvironValueText::Text("TestWorker/1.0"@)),
        ("wsgi.errors"@, EnvironValueText::Text(""@)),
        ("wsgi.input"@, EnvironValueText::Text(""@)),
        ("wsgi.multiprocess"@, EnvironValueText::Flag(false)),
        ("wsgi.multithread"@, EnvironValueText::Flag(false)),
        ("wsgi.run_once"@, EnvironValueText::Flag(false)),
        ("wsgi.url_scheme"@, EnvironValueText::Text("http"@)),
        ("wsgi.version"@, EnvironValueText::Version(1, 0)),
    ]
}

fn text_entry(key: &str, value: &str) -> (res: EnvironEntry)
    ensures
        res@ == (key@, EnvironValueText::Text(value@)),
{
    EnvironEntry { key: key.to_owned(), value: EnvironValue::Text(value.to_owned()) }
}

fn flag_entry(key: &str, value: bool) -> (res: EnvironEntry)
    ensures
        res@ == (key@, EnvironValueText::Flag(value)),
{
    EnvironEntry { key: key.to_owned(), value: EnvironValue::Flag(value) }
}

/// The environment a worker runs an application in through CGI.
pub fn cgi_environ() -> (res: Vec<EnvironEntry>)
    ensures
        environ_text(res@) == cgi_environ_text(),
        forall|i: int|
            0 <= i < res@.len() ==> (#[trigger] res@[i]@).1 is Flag ==> !res@[i]@.1->Flag_0,
{
    let mut env: Vec<EnvironEntry> = Vec::new();
    env.push(text_entry("HTTP_ACCEPT", "*/*"));
    env.push(text_entry("HTTP_HOST", "127.0.0.1:8000"));
    env.push(text_entry("HTTP_USER_AGENT", "TestAgent/1.0"));
    env.push(text_entry("PATH_INFO", "/"));
    env.push(text_entry("QUERY_STRING", ""));
    env.push(text_entry("REQUEST_METHOD", "GET"));
    env.push(text_entry("Worker_NAME", "127.0.0.1"));
    env.push(text_entry("Worker_PORT", "8000"));
    env.push(text_entry("Worker_PROTOCOL", "HTTP/1.1"));
    env.push(text_entry("Worker_SOFTWARE", "TestWorker/1.0"));
    env.push(text_entry("wsgi.errors", ""));
    env.push(text_entry("wsgi.input", ""));
    env.push(flag_entry("wsgi.multiprocess", false));
    env.push(flag_entry("wsgi.multithread", false));
    env.push(flag_entry("wsgi.run_once", false));
    env.push(text_entry("wsgi.url_scheme", "http"));
    env.push(
        EnvironEntry { key: "wsgi.version".to_owned(), value: EnvironValue::Version(1, 0) },
    );
    assert(environ_text(env@) =~= cgi_environ_text());
    assert forall|i: int| 0 <= i < env@.len() implies (#[trigger] env@[i]@).1 is Flag
        ==> !env@[i]@.1->Flag_0 by {
        assert(env@[i]@ == cgi_environ_text()[i]);
        lemma_cgi_environ_flags(i);
    }
    env
}

/// The text that the bytes `bytes` encode in UTF-8, by `std::str::from_utf8`:
/// `Some` exactly where the bytes are valid UTF-8, and then their decoding.
#[verifier::external_body]
fn utf8_text(bytes: &[u8]) -> (res: Option<String>)
    ensures
        res is Some <==> valid_utf8(bytes@),
        res matches Some(s) ==> s@ == decode_utf8(bytes@),
{
    match std::str::from_utf8(bytes) {
        Ok(s) => Some(s.to_string()),
        Err(_) => None,
    }
}

/// Every message of a response body is text in UTF-8.
pub open spec fn is_text_body(messages: Seq<Vec<u8>>) -> bool {
    forall|i: int| 0 <= i < messages.len() ==> valid_utf8(#[trigger] messages[i]@)
}

/// Whether every message of a response body is text in UTF-8.
pub fn response_body_is_text(messages: &Vec<Vec<u8>>) -> (res: bool)
    ensures
        res == is_text_body(messages@),
        res == (forall|i: int| 0 <= i < messages@.len() ==> valid_utf8(#[trigger] messages@[i]@)),
{
    let mut i: usize = 0;
    while i < messages.len()
        invariant
            i <= messages@.len(),
            forall|j: int| 0 <= j < i ==> valid_utf8(#[trigger] messages@[j]@),
        decreases messages@.len() - i,
    {
        if utf8_text(messages[i].as_slice()).is_none() {
            return false;
        }
        i = i + 1;
    }
    true
}

/// The messages of a response body as text, one for each message, in order.
pub fn decode_response_body(messages: &Vec<Vec<u8>>) -> (res: Vec<String>)
    requires
        is_text_body(messages@),
    ensures
        res@.len() == messages@.len(),
        forall|i: int| 0 <= i < messages@.len() ==> #[trigger] res@[i]@ == decode_utf8(messages@[i]@),
{
    let mut lines: Vec<String> = Vec::new();
    let mut i: usize = 0;
    while i < messages.len()
        invariant
            i <= messages@.len(),
            is_text_body(messages@),
            lines@.len() == i,
            forall|j: int| 0 <= j < i ==> #[trigger] lines@[j]@ == decode_utf8(messages@[j]@),
        decreases messages@.len() - i,
    {
        let line = match utf8_text(messages[i].as_slice()) {
            Some(s) => s,
            None => String::new(),
        };
        proof {
            assert(valid_utf8(messages@[i as int]@));
        }
        lines.push(line);
        i = i + 1;
    }
    lines
}

/// A response body is text exactly when every one of its messages is valid
/// UTF-8, with no other condition on the bytes.
pub proof fn lemma_text_body_is_valid_utf8(messages: Seq<Vec<u8>>)
    ensures
        is_text_body(messages) <==> (forall|i: int|
            0 <= i < messages.len() ==> valid_utf8(#[trigger] messages[i]@)),
{
}

/// Messages that are the UTF-8 encoding of some texts, whatever the texts
/// (newlines and any other characters included), form a text body, and each
/// decodes back to its text; decoding a text message loses no byte.
pub proof fn lemma_encoded_texts_are_text_body(messages: Seq<Vec<u8>>, texts: Seq<Seq<char>>)
    requires
        messages.len() == texts.len(),
        forall|i: int| 0 <= i < messages.len() ==> #[trigger] messages[i]@ == encode_utf8(texts[i]),
    ensures
        is_text_body(messages),
        forall|i: int| 0 <= i < messages.len() ==> #[trigger] decode_utf8(messages[i]@) == texts[i],
        forall|i: int|
            0 <= i < messages.len() ==> encode_utf8(decode_utf8(#[trigger] messages[i]@))
                == messages[i]@,
{
    broadcast use vstd::utf8::encode_utf8_valid_utf8, vstd::utf8::encode_utf8_decode_utf8;

    assert forall|i: int| 0 <= i < messages.len() implies valid_utf8(#[trigger] messages[i]@) by {
        assert(messages[i]@ == encode_utf8(texts[i]));
    }
    assert forall|i: int| 0 <= i < messages.len() implies #[trigger] decode_utf8(messages[i]@)
        == texts[i] by {
        assert(messages[i]@ == encode_utf8(texts[i]));
    }
}

/// The worker runs the application as one process among others, one thread
/// among others, and more than once: every flag of its environment
/// (`wsgi.multiprocess`, `wsgi.multithread`, `wsgi.run_once`) is present and
/// false, and `wsgi.version` is `(1, 0)` wherever a version stands.
pub proof fn lemma_cgi_environ_flags(i: int)
    requires
        0 <= i < cgi_environ_text().len(),
    ensures
        cgi_environ_text()[i].1 is Flag ==> !cgi_environ_text()[i].1->Flag_0,
        cgi_environ_text()[i].1 is Version ==> cgi_environ_text()[i].1 == EnvironValueText::Version(
            1,
            0,
        ),
        exists|j: int|
            0 <= j < cgi_environ_text().len() && cgi_environ_text()[j] == (
                "wsgi.run_once"@,
                EnvironValueText::Flag(false),
            ),
        exists|j: int|
            0 <= j < cgi_environ_text().len() && cgi_environ_text()[j] == (
                "wsgi.multiprocess"@,
                EnvironValueText::Flag(false),
            ),
        exists|j: int|
            0 <= j < cgi_environ_text().len() && cgi_environ_text()[j] == (
                "wsgi.multithread"@,
                EnvironValueText::Flag(false),
            ),
{
    assert(cgi_environ_text()[12] == ("wsgi.multiprocess"@, EnvironValueText::Flag(false)));
    assert(cgi_environ_text()[13] == ("wsgi.multithread"@, EnvironValueText::Flag(false)));
    assert(cgi_environ_text()[14] == ("wsgi.run_once"@, EnvironValueText::Flag(false)));
}

/// The host the request names is the server's name and port joined by `:`.
pub proof fn lemma_cgi_environ_host_is_name_and_port()
    ensures
        exists|h: int, n: int, p: int|
            0 <= h < cgi_environ_text().len() && 0 <= n < cgi_environ_text().len() && 0 <= p
                < cgi_environ_text().len() && cgi_environ_text()[h].0 == "HTTP_HOST"@
                && cgi_environ_text()[n].0 == "Worker_NAME"@ && cgi_environ_text()[p].0
                == "Worker_PORT"@ && (cgi_environ_text()[h].1 matches EnvironValueText::Text(host)
                && cgi_environ_text()[n].1 matches EnvironValueText::Text(name)
                && cgi_environ_text()[p].1 matches EnvironValueText::Text(port) && host == name
                + ":"@ + port),
{
    reveal_strlit("127.0.0.1:8000");
    reveal_strlit("127.0.0.1");
    reveal_strlit("8000");
    reveal_strlit(":");
    let env = cgi_environ_text();
    assert(env[1].1 == EnvironValueText::Text("127.0.0.1:8000"@));
    assert(env[6].1 == EnvironValueText::Text("127.0.0.1"@));
    assert(env[7].1 == EnvironValueText::Text("8000"@));
    assert("127.0.0.1:8000"@ =~= "127.0.0.1"@ + ":"@ + "8000"@);
    assert(env[1].0 == "HTTP_HOST"@ && env[6].0 == "Worker_NAME"@ && env[7].0 == "Worker_PORT"@);
}

} // verus!
