//! The structured request and the HTTP/1.x request parser.

use vstd::prelude::*;
use vstd::string::StrSliceExecFns;
use vstd::string::StringExecFns;
use crate::method::HttpMethod;
use crate::method::spec_method_from;
use crate::status::StatusCode;
use crate::stringmap::Entries;
use crate::stringmap::StringMap;
use crate::stringmap::map_upsert;
use crate::text;

verus! {

/// A parsed request. Immutable once parsed: every pipeline stage and
/// handler receives its own copy.
#[derive(Debug)]
pub struct Request {
    pub method: HttpMethod,
    pub url: String,
    pub headers: StringMap,
    pub cookies: StringMap,
    pub param: StringMap,
    pub body: String,
}

/// The model of a [`Request`].
pub ghost struct ReqView {
    pub method: HttpMethod,
    pub url: Seq<char>,
    pub headers: Entries,
    pub cookies: Entries,
    pub param: Entries,
    pub body: Seq<char>,
}

impl View for Request {
    type V = ReqView;

    open spec fn view(&self) -> ReqView {
        ReqView {
            method: self.method,
            url: self.url@,
            headers: self.headers@,
            cookies: self.cookies@,
            param: self.param@,
            body: self.body@,
        }
    }
}

/// `m` after reading every `key=value` piece in order: a piece without a
/// `=` is dropped, the others are split at their first `=` and stored,
/// later values overriding earlier ones.
pub open spec fn add_pairs(m: Entries, pieces: Seq<Seq<char>>) -> Entries
    decreases pieces.len(),
{
    if pieces.len() == 0 {
        m
    } else {
        let prev = add_pairs(m, pieces.drop_last());
        match text::split_once(pieces.last(), '=') {
            Some(kv) => map_upsert(prev, kv.0, kv.1),
            None => prev,
        }
    }
}

/// One header-section line folded into the header and cookie maps: a
/// `Cookie: ` line contributes its `;`-separated pairs to the cookies,
/// any other line with a `:` is split at the first `:` into a header,
/// and a line with neither shape is dropped.
pub open spec fn fold_header_line(h: Entries, c: Entries, line: Seq<char>) -> (Entries, Entries) {
    if text::is_prefix("Cookie: "@, line) {
        (h, add_pairs(c, text::split_char(line.skip("Cookie: "@.len() as int), ';')))
    } else {
        match text::split_once(line, ':') {
            Some(kv) => (map_upsert(h, kv.0, kv.1), c),
            None => (h, c),
        }
    }
}

/// The header and cookie maps read from the header-section lines, in order.
pub open spec fn fold_header_lines(lines: Seq<Seq<char>>) -> (Entries, Entries)
    decreases lines.len(),
{
    if lines.len() == 0 {
        (Seq::<(Seq<char>, Seq<char>)>::empty(), Seq::<(Seq<char>, Seq<char>)>::empty())
    } else {
        let prev = fold_header_lines(lines.drop_last());
        fold_header_line(prev.0, prev.1, lines.last())
    }
}

/// What parsing a raw HTTP/1.x request yields. The text before the first
/// blank line is the header section; the text after it is the body. The
/// first line gives the method (unknown tokens default to `GET`), the
/// path — lower-cased, so route matching is case-insensitive on the
/// request side — and, after a `?`, the `&`-separated query parameters.
/// A request without a first line is rejected as a server-side invariant
/// violation.
pub open spec fn spec_parse_request(raw: Seq<char>) -> Result<ReqView, StatusCode> {
    let pos = match text::find_sub(raw, "\r\n\r\n"@) {
        Some(i) => i,
        None => raw.len() as int,
    };
    let head = raw.take(pos);
    let body = if pos + 4 <= raw.len() {
        raw.skip(pos + 4)
    } else {
        Seq::<char>::empty()
    };
    let ls = text::spec_lines(head);
    if ls.len() == 0 {
        Err(StatusCode::InternalServerError)
    } else {
        let tokens = text::split_char(ls[0], ' ');
        if tokens.len() < 2 {
            Err(StatusCode::InternalServerError)
        } else {
            let up = text::split_char(tokens[1], '?');
            let folded = fold_header_lines(ls.skip(1));
            Ok(
                ReqView {
                    method: spec_method_from(tokens[0]),
                    url: text::lower_seq(up[0]),
                    headers: folded.0,
                    cookies: folded.1,
                    param: if up.len() >= 2 {
                        add_pairs(Seq::<(Seq<char>, Seq<char>)>::empty(), text::split_char(up[1], '&'))
                    } else {
                        Seq::<(Seq<char>, Seq<char>)>::empty()
                    },
                    body,
                },
            )
        }
    }
}

/// Reads every `key=value` piece of `list`, separated by `sep`, into `m`.
fn add_pairs_from(m: &mut StringMap, list: &str, sep: char)
    ensures
        final(m)@ == add_pairs(old(m)@, text::split_char(list@, sep)),
{
    let ghost m0 = old(m)@;
    let pieces = text::split_str(list, sep);
    let ghost pv = pieces.deep_view();
    let n = pieces.len();
    let mut j: usize = 0;
    while j < n
        invariant
            n == pieces.len(),
            pv == pieces.deep_view(),
            pv.len() == n,
            0 <= j <= n,
            m@ == add_pairs(m0, pv.take(j as int)),
        decreases n - j,
    {
        proof {
            assert(pv.take(j + 1).drop_last() =~= pv.take(j as int));
            assert(pv.take(j + 1).last() == pv[j as int]);
            assert(pieces@[j as int]@ == pv[j as int]);
        }
        match text::split_once_str(pieces[j].as_str(), '=') {
            Some(kv) => {
                m.insert(kv.0, kv.1);
            },
            None => {},
        }
        proof {
            assert(m@ == add_pairs(m0, pv.take(j + 1)));
        }
        j += 1;
    }
    proof {
        assert(pv.take(n as int) =~= pv);
    }
}

impl Request {
    /// Parses a raw HTTP/1.x request into a structured request, exactly as
    /// [`spec_parse_request`] describes.
    pub fn parse(raw_request: &str) -> (r: Result<Request, StatusCode>)
        ensures
            r matches Ok(q) ==> spec_parse_request(raw_request@) == Ok::<ReqView, StatusCode>(q@),
            r matches Err(e) ==> spec_parse_request(raw_request@) == Err::<ReqView, StatusCode>(e),
    {
        let n = raw_request.unicode_len();
        let pos = match text::find_sub_in(raw_request, "\r\n\r\n") {
            Some(i) => {
                proof {
                    text::lemma_find_sub_bounds(raw_request@, "\r\n\r\n"@);
                }
                i
            },
            None => n,
        };
        let head = raw_request.substring_char(0, pos);
        let body = if n >= 4 && pos <= n - 4 {
            proof {
                assert(raw_request@.subrange(pos + 4, n as int) =~= raw_request@.skip(pos + 4));
            }
            String::from_str(raw_request.substring_char(pos + 4, n))
        } else {
            String::new()
        };
        proof {
            if !(n >= 4 && pos <= n - 4) {
                assert(pos + 4 > raw_request@.len());
            }
        }
        let lines = text::lines_of(head);
        let ghost ls = text::spec_lines(head@);
        if lines.len() == 0 {
            proof {
                assert(ls.len() == lines.deep_view().len());
            }
            return Err(StatusCode::InternalServerError);
        }
        proof {
            assert(ls.len() == lines.deep_view().len());
            assert(lines@[0]@ == ls[0]);
        }
        let tokens = text::split_str(lines[0].as_str(), ' ');
        let ghost tv = text::split_char(ls[0], ' ');
        proof {
            assert(tokens.deep_view() == tv);
            assert(tokens@[0]@ == tv[0]);
        }
        let method = HttpMethod::from_str(tokens[0].as_str());
        if tokens.len() < 2 {
            proof {
                assert(tv.len() == tokens.deep_view().len());
            }
            return Err(StatusCode::InternalServerError);
        }
        proof {
            assert(tokens@[1]@ == tv[1]);
        }
        let up = text::split_str(tokens[1].as_str(), '?');
        let ghost uv = text::split_char(tv[1], '?');
        proof {
            assert(up.deep_view() == uv);
            assert(up@[0]@ == uv[0]);
        }
        let url = text::to_lowercase_ascii(up[0].as_str());
        let mut param = StringMap::new();
        if up.len() >= 2 {
            proof {
                assert(up@[1]@ == uv[1]);
            }
            add_pairs_from(&mut param, up[1].as_str(), '&');
        }
        proof {
            assert(uv.len() == up.deep_view().len());
        }
        let mut headers = StringMap::new();
        let mut cookies = StringMap::new();
        let nl = lines.len();
        let ghost rest = ls.skip(1);
        proof {
            assert(fold_header_lines(rest.take(0)) == (headers@, cookies@)) by {
                assert(rest.take(0) =~= Seq::<Seq<char>>::empty());
            }
        }
        let mut i: usize = 1;
        while i < nl
            invariant
                1 <= i <= nl,
                nl == lines.len(),
                ls == lines.deep_view(),
                ls.len() == nl,
                rest == ls.skip(1),
                fold_header_lines(rest.take(i - 1)) == (headers@, cookies@),
            decreases nl - i,
        {
            proof {
                assert(rest.take(i as int).drop_last() =~= rest.take(i - 1));
                assert(rest.take(i as int).last() == rest[i - 1]);
                assert(rest[i - 1] == ls[i as int]);
                assert(lines@[i as int]@ == ls[i as int]);
            }
            let line = &lines[i];
            match text::strip_prefix_str(line.as_str(), "Cookie: ") {
                Some(rest_str) => {
                    add_pairs_from(&mut cookies, rest_str.as_str(), ';');
                },
                None => {
                    match text::split_once_str(line.as_str(), ':') {
                        Some(kv) => {
                            headers.insert(kv.0, kv.1);
                        },
                        None => {},
                    }
                },
            }
            proof {
                assert(fold_header_lines(rest.take(i as int)) == (headers@, cookies@));
            }
            i += 1;
        }
        proof {
            assert(rest.take(nl - 1) =~= rest);
        }
        let req = Request { method, url, headers, cookies, param, body };
        proof {
            let m = spec_parse_request(raw_request@);
            assert(m matches Ok(v) && v == req@);
        }
        Ok(req)
    }

    /// A field-for-field copy of the request.
    pub fn duplicate(&self) -> (r: Request)
        ensures
            r@ == self@,
    {
        Request {
            method: self.method,
            url: self.url.clone(),
            headers: self.headers.duplicate(),
            cookies: self.cookies.duplicate(),
            param: self.param.duplicate(),
            body: self.body.clone(),
        }
    }
}

} // verus!
