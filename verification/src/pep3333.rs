//! The `write` callable of a WSGI (PEP 3333) gateway: frames what the
//! application writes, sending the response head in front of the first chunk.
use vstd::prelude::*;
use vstd::utf8::encode_utf8;

verus! {

/// A response header: its name and its value.
#[derive(Debug, Clone, PartialEq, Eq)]
pub struct Header(pub String, pub String);

impl View for Header {
    type V = (Seq<char>, Seq<char>);

    open spec fn view(&self) -> (Seq<char>, Seq<char>) {
        (self.0@, self.1@)
    }
}

/// The text of a list of headers.
pub open spec fn headers_text(headers: Seq<Header>) -> Seq<(Seq<char>, Seq<char>)> {
    headers.map_values(|h: Header| h@)
}

/// The text of a response head: its status and its headers.
pub open spec fn head_text(head: (String, Vec<Header>)) -> (Seq<char>, Seq<(Seq<char>, Seq<char>)>) {
    (head.0@, headers_text(head.1@))
}

/// The text of an optional response head.
pub open spec fn opt_head_text(head: Option<(String, Vec<Header>)>) -> Option<
    (Seq<char>, Seq<(Seq<char>, Seq<char>)>),
> {
    match head {
        Some(h) => Some(head_text(h)),
        None => None,
    }
}

/// The state of a connection: the response head that the application set,
/// and the one that was sent, if any.
pub struct ConnectionState {
    pub headers_set: Option<(Seq<char>, Seq<(Seq<char>, Seq<char>)>)>,
    pub headers_sent: Option<(Seq<char>, Seq<(Seq<char>, Seq<char>)>)>,
}

/// A line end, `\r\n`.
pub open spec fn crlf() -> Seq<u8> {
    seq![13u8, 10u8]
}

/// `Status: <status>\r\n`.
pub open spec fn status_line(status: Seq<char>) -> Seq<u8> {
    seq![83u8, 116u8, 97u8, 116u8, 117u8, 115u8, 58u8, 32u8] + encode_utf8(status) + crlf()
}

/// `<name>: <value>\r\n`.
pub open spec fn header_line(header: (Seq<char>, Seq<char>)) -> Seq<u8> {
    encode_utf8(header.0) + seq![58u8, 32u8] + encode_utf8(header.1) + crlf()
}

/// One header line for each header, in order.
pub open spec fn header_lines(headers: Seq<(Seq<char>, Seq<char>)>) -> Seq<u8>
    decreases headers.len(),
{
    if headers.len() == 0 {
        seq![]
    } else {
        header_lines(headers.drop_last()) + header_line(headers.last())
    }
}

/// The response head as sent: the status line, the header lines and an
/// empty line.
pub open spec fn response_head(head: (Seq<char>, Seq<(Seq<char>, Seq<char>)>)) -> Seq<u8> {
    status_line(head.0) + header_lines(head.1) + crlf()
}

/// A chunk of the body as sent: the data and a line end.
pub open spec fn body_chunk(data: Seq<u8>) -> Seq<u8> {
    data + crlf()
}

/// One write of `data` on a connection whose head was set: the next state and
/// the bytes sent. The head goes out in front of the first chunk only.
pub open spec fn write_step(c: ConnectionState, data: Seq<u8>) -> (ConnectionState, Seq<u8>) {
    if c.headers_sent is None {
        (
            ConnectionState { headers_set: c.headers_set, headers_sent: c.headers_set },
            response_head(c.headers_set.unwrap()) + body_chunk(data),
        )
    } else {
        (c, body_chunk(data))
    }
}

/// A series of writes, one after the other: the final state and all bytes sent.
pub open spec fn write_all(c: ConnectionState, writes: Seq<Seq<u8>>) -> (ConnectionState, Seq<u8>)
    decreases writes.len(),
{
    if writes.len() == 0 {
        (c, seq![])
    } else {
        let (c1, sent) = write_all(c, writes.drop_last());
        let (c2, more) = write_step(c1, writes.last());
        (c2, sent + more)
    }
}

/// The body chunks of a series of writes, in order.
pub open spec fn body_chunks(writes: Seq<Seq<u8>>) -> Seq<u8>
    decreases writes.len(),
{
    if writes.len() == 0 {
        seq![]
    } else {
        body_chunks(writes.drop_last()) + body_chunk(writes.last())
    }
}

/// The `write` side of a WSGI request: the response head that the
/// application set and the one that was sent.
#[derive(Debug)]
pub struct RequestConnection {
    pub headers_set: Option<(String, Vec<Header>)>,
    pub headers_sent: Option<(String, Vec<Header>)>,
}

impl View for RequestConnection {
    type V = ConnectionState;

    open spec fn view(&self) -> ConnectionState {
        ConnectionState {
            headers_set: opt_head_text(self.headers_set),
            headers_sent: opt_head_text(self.headers_sent),
        }
    }
}

fn append_bytes(out: &mut Vec<u8>, bytes: &[u8])
    ensures
        final(out)@ == old(out)@ + bytes@,
{
    let mut i: usize = 0;
    while i < bytes.len()
        invariant
            i <= bytes@.len(),
            out@ == old(out)@ + bytes@.take(i as int),
        decreases bytes@.len() - i,
    {
        out.push(bytes[i]);
        i = i + 1;
        assert(bytes@.take(i as int) =~= bytes@.take(i - 1) + seq![bytes@[i - 1]]);
    }
    assert(bytes@.take(i as int) =~= bytes@);
}

fn append_text(out: &mut Vec<u8>, text: &str)
    ensures
        final(out)@ == old(out)@ + encode_utf8(text@),
{
    append_bytes(out, text.as_bytes());
}

fn append_crlf(out: &mut Vec<u8>)
    ensures
        final(out)@ == old(out)@ + seq![13u8, 10u8],
{
    out.push(13u8);
    out.push(10u8);
}

fn copy_head(head: &(String, Vec<Header>)) -> (res: (String, Vec<Header>))
    ensures
        head_text(res) == head_text(*head),
{
    let headers = &head.1;
    let mut copy: Vec<Header> = Vec::new();
    let mut i: usize = 0;
    while i < headers.len()
        invariant
            i <= headers@.len(),
            copy@.len() == i,
            forall|j: int| 0 <= j < i ==> #[trigger] copy@[j]@ == headers@[j]@,
        decreases headers@.len() - i,
    {
        let h = &headers[i];
        copy.push(Header(h.0.clone(), h.1.clone()));
        i = i + 1;
    }
    assert(headers_text(copy@) =~= headers_text(headers@));
    (head.0.clone(), copy)
}

fn write_head(out: &mut Vec<u8>, head: &(String, Vec<Header>))
    ensures
        final(out)@ == old(out)@ + response_head(head_text(*head)),
{
    let ghost hs = headers_text(head.1@);
    let ghost before = out@;
    out.push(83u8);
    out.push(116u8);
    out.push(97u8);
    out.push(116u8);
    out.push(117u8);
    out.push(115u8);
    out.push(58u8);
    out.push(32u8);
    assert(out@ =~= before + seq![83u8, 116u8, 97u8, 116u8, 117u8, 115u8, 58u8, 32u8]);
    append_text(out, head.0.as_str());
    append_crlf(out);
    let ghost start = out@;
    let headers = &head.1;
    let mut i: usize = 0;
    while i < headers.len()
        invariant
            i <= headers@.len(),
            hs == headers_text(headers@),
            out@ == start + header_lines(hs.take(i as int)),
        decreases headers@.len() - i,
    {
        let h = &headers[i];
        append_text(out, h.0.as_str());
        let ghost mid = out@;
        out.push(58u8);
        out.push(32u8);
        assert(out@ =~= mid + seq![58u8, 32u8]);
        append_text(out, h.1.as_str());
        append_crlf(out);
        assert(hs.take(i + 1).drop_last() =~= hs.take(i as int));
        i = i + 1;
    }
    assert(hs.take(i as int) =~= hs);
    append_crlf(out);
}

impl RequestConnection {
    /// A connection on which no response head was set or sent yet.
    pub fn new() -> (res: RequestConnection)
        ensures
            res.headers_set is None,
            res.headers_sent is None,
    {
        RequestConnection { headers_set: None, headers_sent: None }
    }

    /// Writes `data` as the next chunk of the response body and returns the
    /// bytes to send: the response head that was set, in front of the first
    /// chunk only, then the data and a line end. The head is then recorded as
    /// sent.
    pub fn __call__(&mut self, data: &[u8]) -> (out: Vec<u8>)
        requires
            old(self).headers_set is Some,
        ensures
            (final(self)@, out@) == write_step(old(self)@, data@),
            out@.len() >= data@.len() + 2,
            out@.subrange(out@.len() - data@.len() - 2, out@.len() as int) == data@ + seq![
                13u8,
                10u8,
            ],
            old(self).headers_sent is Some ==> out@ == data@ + seq![13u8, 10u8],
            final(self).headers_sent is Some,
    {
        proof {
            lemma_write_sends_whole_chunk(self@, data@);
        }
        let mut out: Vec<u8> = Vec::new();
        if self.headers_sent.is_none() {
            if let Some(head) = &self.headers_set {
                write_head(&mut out, head);
                let sent = copy_head(head);
                self.headers_sent = Some(sent);
            }
        }
        append_bytes(&mut out, data);
        append_crlf(&mut out);
        out
    }
}

/// A series of writes on a connection whose head was set and not yet sent
/// sends that head exactly once, in front of the first chunk, followed by the
/// chunks in order; afterwards the head is recorded as sent and stays set.
pub proof fn lemma_head_sent_once(c: ConnectionState, writes: Seq<Seq<u8>>)
    requires
        c.headers_set is Some,
        c.headers_sent is None,
        writes.len() > 0,
    ensures
        write_all(c, writes).1 == response_head(c.headers_set.unwrap()) + body_chunks(writes),
        write_all(c, writes).0 == (ConnectionState {
            headers_set: c.headers_set,
            headers_sent: c.headers_set,
        }),
    decreases writes.len(),
{
    if writes.len() == 1 {
        assert(writes.drop_last().len() == 0);
        assert(body_chunks(writes.drop_last()) == Seq::<u8>::empty());
        assert(response_head(c.headers_set.unwrap()) + body_chunk(writes.last()) =~= response_head(
            c.headers_set.unwrap(),
        ) + body_chunks(writes));
    } else {
        lemma_head_sent_once(c, writes.drop_last());
        let head = response_head(c.headers_set.unwrap());
        assert(head + body_chunks(writes.drop_last()) + body_chunk(writes.last()) =~= head
            + body_chunks(writes));
    }
}

/// Once the head was sent, each write sends its chunk alone and leaves the
/// connection as it was.
pub proof fn lemma_only_body_after_head(c: ConnectionState, writes: Seq<Seq<u8>>)
    requires
        c.headers_sent is Some,
    ensures
        write_all(c, writes) == (c, body_chunks(writes)),
    decreases writes.len(),
{
    if writes.len() > 0 {
        lemma_only_body_after_head(c, writes.drop_last());
    }
}

/// Each write sends the whole chunk it was given, followed by a line end:
/// whatever the state, the bytes sent end with all of `data` and then `\r\n`;
/// once the head was sent, they are exactly that.
pub proof fn lemma_write_sends_whole_chunk(c: ConnectionState, data: Seq<u8>)
    ensures
        write_step(c, data).1.len() >= data.len() + 2,
        write_step(c, data).1.subrange(
            write_step(c, data).1.len() - data.len() - 2,
            write_step(c, data).1.len() as int,
        ) == data + seq![13u8, 10u8],
        c.headers_sent is Some ==> write_step(c, data).1 == data + seq![13u8, 10u8],
{
    let out = write_step(c, data).1;
    let tail = data + seq![13u8, 10u8];
    let front = out.subrange(0, out.len() - tail.len());
    assert(out =~= front + tail);
    assert(out.subrange(out.len() - data.len() - 2, out.len() as int) =~= tail);
}

/// The first write on a connection whose head was set sends, in this order:
/// `Status: `, the status, `\r\n`, the header lines, an empty line, the data
/// and `\r\n`.
pub proof fn lemma_first_write_layout(c: ConnectionState, data: Seq<u8>)
    requires
        c.headers_set is Some,
        c.headers_sent is None,
    ensures
        write_step(c, data).1 == seq![83u8, 116u8, 97u8, 116u8, 117u8, 115u8, 58u8, 32u8]
            + encode_utf8(c.headers_set.unwrap().0) + seq![13u8, 10u8] + header_lines(
            c.headers_set.unwrap().1,
        ) + seq![13u8, 10u8] + data + seq![13u8, 10u8],
        write_step(c, data).0.headers_sent == c.headers_set,
{
}

/// The head carries one line per header, in order, whatever the names
/// (repeated names included): no headers give no lines, and one more header
/// adds exactly the line `name: value\r\n` after the others.
pub proof fn lemma_one_line_per_header(
    headers: Seq<(Seq<char>, Seq<char>)>,
    header: (Seq<char>, Seq<char>),
)
    ensures
        header_lines(Seq::<(Seq<char>, Seq<char>)>::empty()) == Seq::<u8>::empty(),
        header_lines(headers.push(header)) == header_lines(headers) + encode_utf8(header.0) + seq![
            58u8,
            32u8,
        ] + encode_utf8(header.1) + seq![13u8, 10u8],
{
    assert(headers.push(header).drop_last() =~= headers);
    assert(headers.push(header).last() == header);
}

} // verus!
