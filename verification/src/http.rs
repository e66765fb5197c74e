//! Plain HTTP answers that the servers give to requests that are not WebSocket
//! upgrades, and the test that tells the two apart.
use vstd::prelude::*;

use crate::text::{chars_contain, chars_of, seq_contains, seq_starts_with, str_starts_with};

verus! {

/// The decimal digit character for `d < 10`.
pub open spec fn digit_char(d: nat) -> char {
    (48 + d) as char
}

/// The decimal representation of `n`, most significant digit first, without
/// leading zeros.
pub open spec fn decimal(n: nat) -> Seq<char>
    decreases n,
{
    if n < 10 {
        seq![digit_char(n)]
    } else {
        decimal(n / 10) + seq![digit_char(n % 10)]
    }
}

/// The number that a string of decimal digits denotes.
pub open spec fn decimal_value(s: Seq<char>) -> nat
    decreases s.len(),
{
    if s.len() == 0 {
        0
    } else {
        decimal_value(s.drop_last()) * 10 + ((s.last() as nat) - 48) as nat
    }
}

/// Reading back the decimal representation of `n` gives `n`.
pub proof fn lemma_decimal_round_trip(n: nat)
    ensures
        decimal_value(decimal(n)) == n,
        forall|i: int| 0 <= i < decimal(n).len() ==> '0' <= #[trigger] decimal(n)[i] <= '9',
    decreases n,
{
    assert(digit_char(n % 10) as nat == 48 + n % 10);
    let s = decimal(n);
    if n >= 10 {
        lemma_decimal_round_trip(n / 10);
        assert(s.drop_last() =~= decimal(n / 10));
        assert(s.last() == digit_char(n % 10));
        assert(decimal_value(s) == decimal_value(decimal(n / 10)) * 10 + n % 10);
    } else {
        assert(s.drop_last() =~= Seq::<char>::empty());
        assert(decimal_value(s.drop_last()) == 0);
        assert(s.last() == digit_char(n));
    }
}

fn digit_str(d: usize) -> (r: &'static str)
    requires
        d < 10,
    ensures
        r@ == seq![digit_char(d as nat)],
{
    proof {
        reveal_strlit("0");
        reveal_strlit("1");
        reveal_strlit("2");
        reveal_strlit("3");
        reveal_strlit("4");
        reveal_strlit("5");
        reveal_strlit("6");
        reveal_strlit("7");
        reveal_strlit("8");
        reveal_strlit("9");
    }
    match d {
        0 => "0",
        1 => "1",
        2 => "2",
        3 => "3",
        4 => "4",
        5 => "5",
        6 => "6",
        7 => "7",
        8 => "8",
        _ => "9",
    }
}

/// The decimal representation of `n`.
pub fn usize_to_decimal(n: usize) -> (r: String)
    ensures
        r@ == decimal(n as nat),
    decreases n,
{
    if n < 10 {
        String::from_str(digit_str(n))
    } else {
        let mut s = usize_to_decimal(n / 10);
        s.append(digit_str(n % 10));
        s
    }
}

/// The text of an HTTP/1.1 response that closes the connection after `body`,
/// whose length in bytes is `body_len`.
pub open spec fn response_text(
    status: Seq<char>,
    content_type: Seq<char>,
    body_len: nat,
    body: Seq<char>,
) -> Seq<char> {
    "HTTP/1.1 "@ + status + "\r\nContent-Type: "@ + content_type + "\r\nContent-Length: "@
        + decimal(body_len) + "\r\nConnection: close\r\n\r\n"@ + body
}

/// An HTTP/1.1 response with the given status and content type that carries
/// `body` and closes the connection. The `Content-Length` header is the
/// length of `body` in UTF-8 bytes.
pub fn http_response(status: &str, content_type: &str, body: &str) -> (r: String)
    ensures
        r@ == response_text(status@, content_type@, body.len() as nat, body@),
{
    let mut r = String::from_str("HTTP/1.1 ");
    r.append(status);
    r.append("\r\nContent-Type: ");
    r.append(content_type);
    r.append("\r\nContent-Length: ");
    let len = usize_to_decimal(body.len());
    r.append(len.as_str());
    r.append("\r\nConnection: close\r\n\r\n");
    r.append(body);
    r
}

/// The inspector page is served for `GET /` and for paths under `/inspector`.
pub open spec fn requests_inspector_page(request: Seq<char>) -> bool {
    seq_starts_with(request, "GET / "@) || seq_starts_with(request, "GET /inspector"@)
}

/// The answer of the inspector's HTTP server to `request`: the inspector page
/// `html` for `GET /` and `GET /inspector`, and a plain-text 404 otherwise.
pub fn inspector_http_response(request: &str, html: &str) -> (r: String)
    ensures
        requests_inspector_page(request@) ==> r@ == response_text(
            "200 OK"@,
            "text/html; charset=utf-8"@,
            html.len() as nat,
            html@,
        ),
        !requests_inspector_page(request@) ==> r@ == response_text(
            "404 Not Found"@,
            "text/plain"@,
            "Not found".len() as nat,
            "Not found"@,
        ),
{
    if str_starts_with(request, "GET / ") || str_starts_with(request, "GET /inspector") {
        http_response("200 OK", "text/html; charset=utf-8", html)
    } else {
        http_response("404 Not Found", "text/plain", "Not found")
    }
}

/// The answer of the streaming server to a plain HTTP request: the viewer page.
pub fn viewer_http_response(html: &str) -> (r: String)
    ensures
        r@ == response_text(
            "200 OK"@,
            "text/html; charset=utf-8"@,
            html.len() as nat,
            html@,
        ),
{
    http_response("200 OK", "text/html; charset=utf-8", html)
}

/// A request asks for a WebSocket upgrade when it holds the upgrade header,
/// capitalized or not.
pub open spec fn asks_websocket_upgrade(request: Seq<char>) -> bool {
    seq_contains(request, "Upgrade: websocket"@) || seq_contains(request, "upgrade: websocket"@)
}

/// Whether the first bytes of a connection, read as text, ask for a WebSocket upgrade.
pub fn is_websocket_upgrade(request: &str) -> (r: bool)
    ensures
        r == asks_websocket_upgrade(request@),
{
    let chars = chars_of(request);
    chars_contain(&chars, "Upgrade: websocket") || chars_contain(&chars, "upgrade: websocket")
}

/// A response starts with the HTTP/1.1 status line, ends with the body, and
/// holds a `Content-Length` header line with the given length in decimal.
pub proof fn lemma_response_shape(
    status: Seq<char>,
    content_type: Seq<char>,
    body_len: nat,
    body: Seq<char>,
)
    ensures
        seq_starts_with(response_text(status, content_type, body_len, body), "HTTP/1.1 "@ + status),
        ({
            let r = response_text(status, content_type, body_len, body);
            r.subrange(r.len() - body.len(), r.len() as int) == body
        }),
        seq_contains(
            response_text(status, content_type, body_len, body),
            "\r\nContent-Length: "@ + decimal(body_len) + "\r\n"@,
        ),
{
    let r = response_text(status, content_type, body_len, body);
    let head = "HTTP/1.1 "@ + status + "\r\nContent-Type: "@ + content_type;
    let line = "\r\nContent-Length: "@ + decimal(body_len) + "\r\n"@;
    reveal_strlit("\r\nConnection: close\r\n\r\n");
    reveal_strlit("\r\n");
    let tail = "\r\nConnection: close\r\n\r\n"@;
    assert(tail =~= "\r\n"@ + "Connection: close\r\n\r\n"@) by {
        reveal_strlit("Connection: close\r\n\r\n");
    }
    assert(r =~= head + line + "Connection: close\r\n\r\n"@ + body);
    assert(r.subrange(0, ("HTTP/1.1 "@ + status).len() as int) =~= "HTTP/1.1 "@ + status);
    assert(r.subrange(r.len() - body.len(), r.len() as int) =~= body);
    let i = head.len() as int;
    assert(r.subrange(i, i + line.len()) =~= line);
}

/// The inspector page answers exactly the requests for `/` and for paths that
/// start with `/inspector`; a connection is upgraded exactly when its request
/// holds the header `Upgrade: websocket`, with the header name capitalized or
/// all lowercase.
pub proof fn lemma_request_routing(request: Seq<char>)
    ensures
        requests_inspector_page(request) <==> (seq_starts_with(request, "GET / "@)
            || seq_starts_with(request, "GET /inspector"@)),
        asks_websocket_upgrade(request) <==> (seq_contains(request, "Upgrade: websocket"@)
            || seq_contains(request, "upgrade: websocket"@)),
{
}

} // verus!
