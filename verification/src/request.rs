use vstd::prelude::*;

verus! {

use vstd::string::*;
use crate::text::push_char;

/// An HTTP request, as plain data handed to the host's transport.
pub struct HttpRequest {
    pub method: String,
    pub url: String,
    pub content_type: String,
    pub body: String,
}

/// The mathematical content of an `HttpRequest`.
#[verifier::ext_equal]
pub struct RequestM {
    pub method: Seq<char>,
    pub url: Seq<char>,
    pub content_type: Seq<char>,
    pub body: Seq<char>,
}

impl View for HttpRequest {
    type V = RequestM;

    open spec fn view(&self) -> RequestM {
        RequestM {
            method: self.method@,
            url: self.url@,
            content_type: self.content_type@,
            body: self.body@,
        }
    }
}

/// The lowercase hexadecimal digit for a value below sixteen.
pub open spec fn hex_digit(n: int) -> char {
    if n == 0 {
        '0'
    } else if n == 1 {
        '1'
    } else if n == 2 {
        '2'
    } else if n == 3 {
        '3'
    } else if n == 4 {
        '4'
    } else if n == 5 {
        '5'
    } else if n == 6 {
        '6'
    } else if n == 7 {
        '7'
    } else if n == 8 {
        '8'
    } else if n == 9 {
        '9'
    } else if n == 10 {
        'a'
    } else if n == 11 {
        'b'
    } else if n == 12 {
        'c'
    } else if n == 13 {
        'd'
    } else if n == 14 {
        'e'
    } else {
        'f'
    }
}

fn hex_digit_char(n: u8) -> (c: char)
    requires
        n < 16,
    ensures
        c == hex_digit(n as int),
{
    if n == 0 {
        '0'
    } else if n == 1 {
        '1'
    } else if n == 2 {
        '2'
    } else if n == 3 {
        '3'
    } else if n == 4 {
        '4'
    } else if n == 5 {
        '5'
    } else if n == 6 {
        '6'
    } else if n == 7 {
        '7'
    } else if n == 8 {
        '8'
    } else if n == 9 {
        '9'
    } else if n == 10 {
        'a'
    } else if n == 11 {
        'b'
    } else if n == 12 {
        'c'
    } else if n == 13 {
        'd'
    } else if n == 14 {
        'e'
    } else {
        'f'
    }
}

/// How one character is written inside a JSON string literal: quote and
/// backslash take a backslash escape, control characters a \u00XX escape,
/// every other character stands as itself.
pub open spec fn esc_char(c: char) -> Seq<char> {
    if c == '"' {
        seq!['\\', '"']
    } else if c == '\\' {
        seq!['\\', '\\']
    } else if (c as int) < 0x20 {
        seq!['\\', 'u', '0', '0', hex_digit(c as int / 16), hex_digit(c as int % 16)]
    } else {
        seq![c]
    }
}

/// The inside of a JSON string literal holding `s`: each character escaped.
pub open spec fn json_escaped(s: Seq<char>) -> Seq<char>
    decreases s.len(),
{
    if s.len() == 0 {
        Seq::<char>::empty()
    } else {
        json_escaped(s.drop_last()) + esc_char(s.last())
    }
}

/// A complete JSON string literal holding `s`.
pub open spec fn json_string(s: Seq<char>) -> Seq<char> {
    seq!['"'] + json_escaped(s) + seq!['"']
}

/// Append to `out` the escaped form of every character of `s`.
fn append_json_escaped(out: &mut String, s: &str)
    ensures
        final(out)@ == old(out)@ + json_escaped(s@),
{
    let n = s.unicode_len();
    let mut i: usize = 0;
    proof {
        assert(out@ =~= old(out)@ + json_escaped(s@.take(0)));
    }
    while i < n
        invariant
            i <= n,
            n == s@.len(),
            out@ == old(out)@ + json_escaped(s@.take(i as int)),
        decreases n - i,
    {
        let c = s.get_char(i);
        if c == '"' {
            push_char(out, '\\');
            push_char(out, '"');
        } else if c == '\\' {
            push_char(out, '\\');
            push_char(out, '\\');
        } else if (c as u32) < 0x20 {
            push_char(out, '\\');
            push_char(out, 'u');
            push_char(out, '0');
            push_char(out, '0');
            push_char(out, hex_digit_char((c as u32 / 16) as u8));
            push_char(out, hex_digit_char((c as u32 % 16) as u8));
        } else {
            push_char(out, c);
        }
        proof {
            assert(s@.take(i + 1).drop_last() =~= s@.take(i as int));
            assert(s@.take(i + 1).last() == s@[i as int]);
            assert(out@ =~= old(out)@ + json_escaped(s@.take(i + 1)));
        }
        i += 1;
    }
    proof {
        assert(s@.take(n as int) =~= s@);
    }
}

/// The endpoint every operation is sent to.
pub open spec fn api_endpoint_spec() -> Seq<char> {
    "http://localhost:8080/graphql"@
}

/// The JSON body carrying one GraphQL operation.
pub open spec fn query_body_spec(q: Seq<char>) -> Seq<char> {
    "{\"query\":"@ + json_string(q) + "}"@
}

/// The POST request that carries one GraphQL operation: fixed endpoint,
/// JSON content type, and the operation wrapped as {"query": <literal>}.
pub open spec fn request_spec(q: Seq<char>) -> RequestM {
    RequestM {
        method: "POST"@,
        url: api_endpoint_spec(),
        content_type: "application/json"@,
        body: query_body_spec(q),
    }
}

/// Build the HTTP POST that carries one GraphQL operation to the fixed
/// endpoint, with the operation text escaped into a JSON string literal.
pub fn build_request(query: &str) -> (r: HttpRequest)
    ensures
        r@ == request_spec(query@),
{
    let mut body = String::from_str("{\"query\":");
    push_char(&mut body, '"');
    append_json_escaped(&mut body, query);
    push_char(&mut body, '"');
    push_char(&mut body, '}');
    proof {
        reveal_strlit("}");
        assert(body@ =~= query_body_spec(query@));
    }
    HttpRequest {
        method: String::from_str("POST"),
        url: String::from_str("http://localhost:8080/graphql"),
        content_type: String::from_str("application/json"),
        body,
    }
}

/// The fixed list query.
pub open spec fn videos_query_spec() -> Seq<char> {
    "{ videos { src } }"@
}

/// The registration mutation for one pending upload: the key and the base64
/// payload are written as escaped string literals, so a quote or backslash
/// in a file name cannot break the operation text.
pub open spec fn register_mutation_spec(key: Seq<char>, data: Seq<char>) -> Seq<char> {
    "mutation { registerVideo(key: "@ + json_string(key) + ", data: "@ + json_string(data)
        + ") { src } }"@
}

/// Build the registration mutation text for one pending upload.
pub fn register_video_mutation(key: &str, data: &str) -> (r: String)
    ensures
        r@ == register_mutation_spec(key@, data@),
{
    let mut q = String::from_str("mutation { registerVideo(key: ");
    push_char(&mut q, '"');
    append_json_escaped(&mut q, key);
    push_char(&mut q, '"');
    q.append(", data: ");
    push_char(&mut q, '"');
    append_json_escaped(&mut q, data);
    push_char(&mut q, '"');
    q.append(") { src } }");
    proof {
        assert(q@ =~= register_mutation_spec(key@, data@));
    }
    q
}

} // verus!
