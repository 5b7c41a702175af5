//! Laws relating the pipeline's pieces: route selection, body
//! suppression, and the status-line round trip.

use vstd::prelude::*;
use crate::http1::Selection;
use crate::http1::first_route;
use crate::http1::lemma_first_route_bounds;
use crate::http1::select_route;
use crate::method::HttpMethod;
use crate::response::RespView;
use crate::response_factory::cookie_block;
use crate::response_factory::header_block;
use crate::response_factory::spec_serialize;
use crate::response_factory::upserted_headers;
use crate::route::Route;
use crate::text;

verus! {

/// A request whose method and path equal a registered route's is answered
/// by such a route: the router never passes it to the CORS fallback, the
/// `HEAD` fallback or a `404`. Since the parser lower-cases the request
/// path and leaves registered patterns untouched, matching is
/// case-insensitive on the request side only.
pub proof fn lemma_exact_route_selected<F, C>(
    routes: Seq<Route<F, C>>,
    cors_active: bool,
    m: HttpMethod,
    url: Seq<char>,
)
    requires
        exists|i: int| 0 <= i < routes.len() && #[trigger] routes[i].url@ == url && routes[i].method == m,
    ensures
        select_route(routes, cors_active, m, url) matches Selection::Direct(j) && 0 <= j
            < routes.len() && routes[j].url@ == url && routes[j].method == m,
{
    lemma_first_route_bounds(routes, m, url);
    match first_route(routes, m, url) {
        Some(_) => {},
        None => {
            let i = choose|i: int|
                0 <= i < routes.len() && #[trigger] routes[i].url@ == url && routes[i].method == m;
            assert(!(routes[i].url@ == url && routes[i].method == m));
        },
    }
}

/// Body suppression: for any method other than `GET` — notably `HEAD` —
/// the serialized response is exactly the `GET` serialization with the
/// body cut off. Status line, headers (the `Content-Length` of the unsent
/// body included) and cookies are identical.
pub proof fn lemma_body_suppression(r: RespView, version: u8, m: HttpMethod)
    requires
        m != HttpMethod::GET,
    ensures
        spec_serialize(r, version, HttpMethod::GET) == spec_serialize(r, version, m) + r.body,
{
    assert(spec_serialize(r, version, HttpMethod::GET) =~= spec_serialize(r, version, m) + r.body);
}

/// The first line of a wire message: everything before the first `\r\n`.
pub open spec fn first_line(s: Seq<char>) -> Seq<char> {
    match text::find_sub(s, "\r\n"@) {
        Some(i) => s.take(i),
        None => s,
    }
}

/// The text after the first space.
pub open spec fn after_first_space(s: Seq<char>) -> Seq<char> {
    match text::find_char(s, ' ') {
        Some(i) => s.skip(i + 1),
        None => s,
    }
}

/// Status-line round trip: re-parsing the first line of a serialized
/// response recovers the numeric status code — the second space-separated
/// token read as a decimal numeral — and the title — everything after the
/// second space — exactly. It holds for every response whose title is
/// free of line breaks; a custom status carrying `\r` or `\n` in its title
/// forges its own framing and is excluded.
pub proof fn lemma_status_line_round_trip(r: RespView, version: u8, m: HttpMethod)
    requires
        0 <= r.status_code,
        forall|i: int| 0 <= i < r.title.len() ==> r.title[i] != '\r' && r.title[i] != '\n',
    ensures
        ({
            let line = first_line(spec_serialize(r, version, m));
            let toks = text::split_char(line, ' ');
            &&& toks.len() >= 3
            &&& text::dec_value(toks[1]) == r.status_code
            &&& after_first_space(after_first_space(line)) == r.title
        }),
{
    reveal_strlit("HTTP/1.");
    reveal_strlit(" ");
    reveal_strlit("\r\n");
    let out = spec_serialize(r, version, m);
    let dv = text::dec_digits(version as nat);
    let dc = text::dec_digits(r.status_code as nat);
    text::lemma_dec_digits_are_digits(version as nat);
    text::lemma_dec_digits_are_digits(r.status_code as nat);
    text::lemma_dec_value_of_digits(r.status_code as nat);
    let a = "HTTP/1."@ + dv;
    let lineexp = a + " "@ + dc + " "@ + r.title;
    let tail = header_block(upserted_headers(r)) + cookie_block(r.cookies) + "\r\n"@ + (if m
        == HttpMethod::GET {
        r.body
    } else {
        Seq::<char>::empty()
    });
    assert(out =~= lineexp + "\r\n"@ + tail);
    let iL = lineexp.len() as int;
    assert(out.subrange(iL, iL + 2) =~= "\r\n"@);
    assert forall|j: int| 0 <= j < iL implies #[trigger] out.subrange(j, j + 2) != "\r\n"@ by {
        lemma_line_chars(r, version, j);
        assert(out[j] == lineexp[j]);
        assert(out.subrange(j, j + 2)[0] == out[j]);
        assert("\r\n"@[0] == '\r');
    }
    text::lemma_find_sub_at(out, "\r\n"@, iL);
    let line = first_line(out);
    assert(line =~= lineexp);
    // The line splits at its two framing spaces.
    assert(" "@ =~= seq![' ']);
    assert forall|j: int| 0 <= j < a.len() implies a[j] != ' ' by {
        lemma_line_chars(r, version, j);
        assert(lineexp[j] == a[j]);
    }
    let bc = dc + " "@ + r.title;
    assert(lineexp =~= a + seq![' '] + bc);
    text::lemma_split_char_head(a, ' ', bc);
    assert forall|j: int| 0 <= j < dc.len() implies dc[j] != ' ' by {
        assert(48 <= dc[j] as int <= 57);
    }
    assert(bc =~= dc + seq![' '] + r.title);
    text::lemma_split_char_head(dc, ' ', r.title);
    let toks = text::split_char(line, ' ');
    assert(toks =~= seq![a] + (seq![dc] + text::split_char(r.title, ' ')));
    assert(toks[1] == dc);
    assert(text::split_char(r.title, ' ').len() >= 1) by {
        text::lemma_find_char_bounds(r.title, ' ');
    }
    // Recovering the title: skip past the two framing spaces.
    text::lemma_find_char_at(lineexp, ' ', a.len() as int);
    let s2 = lineexp.skip(a.len() as int + 1);
    assert(s2 =~= bc);
    assert forall|j: int| 0 <= j < dc.len() implies bc[j] != ' ' by {
        assert(bc[j] == dc[j]);
        assert(48 <= dc[j] as int <= 57);
    }
    assert(bc[dc.len() as int] == ' ');
    text::lemma_find_char_at(bc, ' ', dc.len() as int);
    assert(bc.skip(dc.len() as int + 1) =~= r.title);
}

/// Which kind of character stands at position `j` of the status line:
/// every position left of the title holds a character that is neither a
/// carriage return, a line feed, nor — outside the two separators — a
/// space.
proof fn lemma_line_chars(r: RespView, version: u8, j: int)
    requires
        0 <= r.status_code,
    ensures
        ({
            let dv = text::dec_digits(version as nat);
            let dc = text::dec_digits(r.status_code as nat);
            let a = "HTTP/1."@ + dv;
            let lineexp = a + " "@ + dc + " "@ + r.title;
            0 <= j < lineexp.len() ==> {
                &&& (j < a.len() ==> lineexp[j] != ' ')
                &&& (j < a.len() + 1 + dc.len() + 1 ==> lineexp[j] != '\r' && lineexp[j] != '\n')
                &&& (j >= a.len() + 1 + dc.len() + 1 ==> lineexp[j] == r.title[j - (a.len() + 1
                    + dc.len() + 1)])
            }
        }),
{
    reveal_strlit("HTTP/1.");
    reveal_strlit(" ");
    let dv = text::dec_digits(version as nat);
    let dc = text::dec_digits(r.status_code as nat);
    text::lemma_dec_digits_are_digits(version as nat);
    text::lemma_dec_digits_are_digits(r.status_code as nat);
    let a = "HTTP/1."@ + dv;
    let lineexp = a + " "@ + dc + " "@ + r.title;
    assert(" "@ =~= seq![' ']);
    if 0 <= j < lineexp.len() {
        if j < 7 {
            assert(lineexp[j] == "HTTP/1."@[j]);
            assert("HTTP/1."@[0] == 'H' && "HTTP/1."@[1] == 'T' && "HTTP/1."@[2] == 'T'
                && "HTTP/1."@[3] == 'P' && "HTTP/1."@[4] == '/' && "HTTP/1."@[5] == '1'
                && "HTTP/1."@[6] == '.');
        } else if j < a.len() {
            assert(lineexp[j] == dv[j - 7]);
            assert(48 <= dv[j - 7] as int <= 57);
        } else if j == a.len() {
            assert(lineexp[j] == ' ');
        } else if j < a.len() + 1 + dc.len() {
            assert(lineexp[j] == dc[j - (a.len() + 1)]);
            assert(48 <= dc[j - (a.len() + 1)] as int <= 57);
        } else if j == a.len() + 1 + dc.len() {
            assert(lineexp[j] == ' ');
        } else {
            assert(lineexp[j] == r.title[j - (a.len() + 1 + dc.len() + 1)]);
        }
    }
}

} // verus!
