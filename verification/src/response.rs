use vstd::prelude::*;

verus! {

use vstd::string::*;
use crate::text::{match_at, matches_at};
use crate::video::Video;

/// The response to the list query: every video the server knows.
pub struct VideosResponse {
    pub videos: Vec<Video>,
}

/// The response to the registration mutation: the video the server accepted.
pub struct RegisterVideoResponse {
    pub register_video: Video,
}

/// JSON whitespace.
pub open spec fn is_ws(c: char) -> bool {
    c == ' ' || c == '\t' || c == '\n' || c == '\r'
}

/// The first position at or after `i` holding no whitespace.
pub open spec fn skip_ws(s: Seq<char>, i: int) -> int
    decreases s.len() - i,
{
    if 0 <= i < s.len() && is_ws(s[i]) {
        skip_ws(s, i + 1)
    } else {
        i
    }
}

/// After whitespace, the character `c` must stand; the position after it.
pub open spec fn expect_ch(s: Seq<char>, i: int, c: char) -> Option<int> {
    let i0 = skip_ws(s, i);
    if i0 < s.len() && s[i0] == c {
        Some(i0 + 1)
    } else {
        None
    }
}

/// After whitespace, the text `pat` must stand; the position after it.
pub open spec fn expect_lit(s: Seq<char>, i: int, pat: Seq<char>) -> Option<int> {
    let i0 = skip_ws(s, i);
    if matches_at(s, i0, pat) {
        Some(i0 + pat.len())
    } else {
        None
    }
}

/// The first position at or after `i` holding a quote, a backslash, or the end.
pub open spec fn string_end(s: Seq<char>, i: int) -> int
    decreases s.len() - i,
{
    if 0 <= i < s.len() && s[i] != '"' && s[i] != '\\' {
        string_end(s, i + 1)
    } else {
        i
    }
}

/// A string literal after whitespace: a quote, content free of quotes and
/// backslashes, and a closing quote. The content and the position after.
pub open spec fn parse_string(s: Seq<char>, i: int) -> Option<(Seq<char>, int)> {
    let i0 = skip_ws(s, i);
    if i0 < s.len() && s[i0] == '"' {
        let j = string_end(s, i0 + 1);
        if j < s.len() && s[j] == '"' {
            Some((s.subrange(i0 + 1, j), j + 1))
        } else {
            None
        }
    } else {
        None
    }
}

/// A video record: an object with the one key "src" holding a string.
pub open spec fn parse_video(s: Seq<char>, i: int) -> Option<(Seq<char>, int)> {
    match expect_ch(s, i, '{') {
        Some(i1) => match expect_lit(s, i1, "\"src\""@) {
            Some(i2) => match expect_ch(s, i2, ':') {
                Some(i3) => match parse_string(s, i3) {
                    Some((v, i4)) => match expect_ch(s, i4, '}') {
                        Some(i5) => Some((v, i5)),
                        None => None,
                    },
                    None => None,
                },
                None => None,
            },
            None => None,
        },
        None => None,
    }
}

/// One or more comma-separated video records followed by the closing bracket.
pub open spec fn parse_video_items(s: Seq<char>, i: int) -> Option<(Seq<Seq<char>>, int)>
    decreases s.len() - i,
{
    match parse_video(s, i) {
        Some((v, j)) => match expect_ch(s, j, ']') {
            Some(k) => Some((seq![v], k)),
            None => match expect_ch(s, j, ',') {
                Some(k) => if i < k <= s.len() {
                    match parse_video_items(s, k) {
                        Some((vs, m)) => Some((seq![v] + vs, m)),
                        None => None,
                    }
                } else {
                    None
                },
                None => None,
            },
        },
        None => None,
    }
}

/// A bracketed, possibly empty list of video records.
pub open spec fn parse_video_array(s: Seq<char>, i: int) -> Option<(Seq<Seq<char>>, int)> {
    match expect_ch(s, i, '[') {
        Some(i1) => match expect_ch(s, i1, ']') {
            Some(i2) => Some((Seq::<Seq<char>>::empty(), i2)),
            None => parse_video_items(s, i1),
        },
        None => None,
    }
}

/// The whole list-fetch envelope: {"data":{"videos":[...]}} and nothing after
/// it. The sources of the listed videos, in the order the server sent them.
pub open spec fn parse_videos_response_spec(s: Seq<char>) -> Option<Seq<Seq<char>>> {
    match expect_ch(s, 0, '{') {
        Some(i1) => match expect_lit(s, i1, "\"data\""@) {
            Some(i2) => match expect_ch(s, i2, ':') {
                Some(i3) => match expect_ch(s, i3, '{') {
                    Some(i4) => match expect_lit(s, i4, "\"videos\""@) {
                        Some(i5) => match expect_ch(s, i5, ':') {
                            Some(i6) => match parse_video_array(s, i6) {
                                Some((vs, i7)) => match expect_ch(s, i7, '}') {
                                    Some(i8) => match expect_ch(s, i8, '}') {
                                        Some(i9) => if skip_ws(s, i9) == s.len() {
                                            Some(vs)
                                        } else {
                                            None
                                        },
                                        None => None,
                                    },
                                    None => None,
                                },
                                None => None,
                            },
                            None => None,
                        },
                        None => None,
                    },
                    None => None,
                },
                None => None,
            },
            None => None,
        },
        None => None,
    }
}

/// The whole registration envelope: {"data":{"registerVideo":{...}}} and
/// nothing after it. The source of the registered video.
pub open spec fn parse_register_response_spec(s: Seq<char>) -> Option<Seq<char>> {
    match expect_ch(s, 0, '{') {
        Some(i1) => match expect_lit(s, i1, "\"data\""@) {
            Some(i2) => match expect_ch(s, i2, ':') {
                Some(i3) => match expect_ch(s, i3, '{') {
                    Some(i4) => match expect_lit(s, i4, "\"registerVideo\""@) {
                        Some(i5) => match expect_ch(s, i5, ':') {
                            Some(i6) => match parse_video(s, i6) {
                                Some((v, i7)) => match expect_ch(s, i7, '}') {
                                    Some(i8) => match expect_ch(s, i8, '}') {
                                        Some(i9) => if skip_ws(s, i9) == s.len() {
                                            Some(v)
                                        } else {
                                            None
                                        },
                                        None => None,
                                    },
                                    None => None,
                                },
                                None => None,
                            },
                            None => None,
                        },
                        None => None,
                    },
                    None => None,
                },
                None => None,
            },
            None => None,
        },
        None => None,
    }
}

/// Walk past JSON whitespace.
fn scan_ws(s: &str, i: usize) -> (r: usize)
    requires
        i <= s@.len(),
    ensures
        r == skip_ws(s@, i as int),
        i <= r <= s@.len(),
{
    let n = s.unicode_len();
    let mut j: usize = i;
    loop
        invariant
            i <= j <= n,
            n == s@.len(),
            skip_ws(s@, i as int) == skip_ws(s@, j as int),
        ensures
            i <= j <= n,
            skip_ws(s@, i as int) == j,
        decreases n - j,
    {
        if j == n {
            proof {
                assert(skip_ws(s@, j as int) == j);
            }
            break;
        }
        let c = s.get_char(j);
        if c == ' ' || c == '\t' || c == '\n' || c == '\r' {
            proof {
                assert(skip_ws(s@, j as int) == skip_ws(s@, j + 1));
            }
            j += 1;
        } else {
            proof {
                assert(skip_ws(s@, j as int) == j);
            }
            break;
        }
    }
    j
}

/// Walk past whitespace, then demand the character `c`.
fn expect_ch_at(s: &str, i: usize, c: char) -> (r: Option<usize>)
    requires
        i <= s@.len(),
    ensures
        r is Some <==> expect_ch(s@, i as int, c) is Some,
        r is Some ==> expect_ch(s@, i as int, c) == Some(r->0 as int),
        r is Some ==> i < r->0 <= s@.len(),
{
    let n = s.unicode_len();
    let i0 = scan_ws(s, i);
    if i0 < n && s.get_char(i0) == c {
        Some(i0 + 1)
    } else {
        None
    }
}

/// Walk past whitespace, then demand the text `pat`.
fn expect_lit_at(s: &str, i: usize, pat: &str) -> (r: Option<usize>)
    requires
        i <= s@.len(),
    ensures
        r is Some <==> expect_lit(s@, i as int, pat@) is Some,
        r is Some ==> expect_lit(s@, i as int, pat@) == Some(r->0 as int),
        r is Some ==> i <= r->0 <= s@.len(),
{
    let n = s.unicode_len();
    let i0 = scan_ws(s, i);
    let pn = pat.unicode_len();
    if match_at(s, i0, pat) {
        proof {
            assert(i0 + pn <= n);
        }
        Some(i0 + pn)
    } else {
        None
    }
}

/// Parse a string literal after whitespace.
fn parse_string_at(s: &str, i: usize) -> (r: Option<(String, usize)>)
    requires
        i <= s@.len(),
    ensures
        r is Some <==> parse_string(s@, i as int) is Some,
        r is Some ==> parse_string(s@, i as int) == Some(((r->0).0@, (r->0).1 as int)),
        r is Some ==> i < (r->0).1 <= s@.len(),
{
    let n = s.unicode_len();
    let i0 = scan_ws(s, i);
    if i0 == n {
        return None;
    }
    if s.get_char(i0) != '"' {
        return None;
    }
    let mut j: usize = i0 + 1;
    loop
        invariant
            i0 + 1 <= j <= n,
            n == s@.len(),
            string_end(s@, i0 + 1) == string_end(s@, j as int),
        ensures
            i0 + 1 <= j <= n,
            n == s@.len(),
            string_end(s@, i0 + 1) == j,
            j < n ==> (s@[j as int] == '"' || s@[j as int] == '\\'),
        decreases n - j,
    {
        if j == n {
            proof {
                assert(string_end(s@, j as int) == j);
            }
            break;
        }
        let c = s.get_char(j);
        if c == '"' || c == '\\' {
            proof {
                assert(string_end(s@, j as int) == j);
            }
            break;
        }
        proof {
            assert(string_end(s@, j as int) == string_end(s@, j + 1));
        }
        j += 1;
    }
    if j == n {
        return None;
    }
    let c = s.get_char(j);
    if c != '"' {
        return None;
    }
    let content = s.substring_char(i0 + 1, j);
    Some((content.to_owned(), j + 1))
}

/// Parse a video record after whitespace.
fn parse_video_at(s: &str, i: usize) -> (r: Option<(Video, usize)>)
    requires
        i <= s@.len(),
    ensures
        r is Some <==> parse_video(s@, i as int) is Some,
        r is Some ==> parse_video(s@, i as int) == Some(((r->0).0.src@, (r->0).1 as int)),
        r is Some ==> i < (r->0).1 <= s@.len(),
{
    let i1 = match expect_ch_at(s, i, '{') {
        Some(x) => x,
        None => {
            return None;
        },
    };
    let i2 = match expect_lit_at(s, i1, "\"src\"") {
        Some(x) => x,
        None => {
            return None;
        },
    };
    let i3 = match expect_ch_at(s, i2, ':') {
        Some(x) => x,
        None => {
            return None;
        },
    };
    let (src, i4) = match parse_string_at(s, i3) {
        Some(x) => x,
        None => {
            return None;
        },
    };
    let i5 = match expect_ch_at(s, i4, '}') {
        Some(x) => x,
        None => {
            return None;
        },
    };
    Some((Video { src }, i5))
}

/// Parse one or more comma-separated video records and the closing bracket.
fn parse_video_items_at(s: &str, i: usize) -> (r: Option<(Vec<Video>, usize)>)
    requires
        i <= s@.len(),
    ensures
        r is Some <==> parse_video_items(s@, i as int) is Some,
        r is Some ==> parse_video_items(s@, i as int) == Some(
            ((r->0).0.deep_view(), (r->0).1 as int),
        ),
        r is Some ==> i < (r->0).1 <= s@.len(),
    decreases s@.len() - i,
{
    let (v, j) = match parse_video_at(s, i) {
        Some(x) => x,
        None => {
            return None;
        },
    };
    match expect_ch_at(s, j, ']') {
        Some(k) => {
            let mut out: Vec<Video> = Vec::new();
            let ghost vsrc = v.src@;
            out.push(v);
            proof {
                assert(out.deep_view() =~= seq![vsrc]);
            }
            Some((out, k))
        },
        None => {
            let k = match expect_ch_at(s, j, ',') {
                Some(x) => x,
                None => {
                    return None;
                },
            };
            let (rest, m) = match parse_video_items_at(s, k) {
                Some(x) => x,
                None => {
                    return None;
                },
            };
            let ghost rest_m = rest.deep_view();
            let ghost vsrc = v.src@;
            let mut out: Vec<Video> = Vec::new();
            out.push(v);
            let mut tail = rest;
            out.append(&mut tail);
            proof {
                assert(out.deep_view() =~= seq![vsrc] + rest_m);
            }
            Some((out, m))
        },
    }
}

/// Parse a bracketed, possibly empty list of video records.
fn parse_video_array_at(s: &str, i: usize) -> (r: Option<(Vec<Video>, usize)>)
    requires
        i <= s@.len(),
    ensures
        r is Some <==> parse_video_array(s@, i as int) is Some,
        r is Some ==> parse_video_array(s@, i as int) == Some(
            ((r->0).0.deep_view(), (r->0).1 as int),
        ),
        r is Some ==> i < (r->0).1 <= s@.len(),
{
    let i1 = match expect_ch_at(s, i, '[') {
        Some(x) => x,
        None => {
            return None;
        },
    };
    match expect_ch_at(s, i1, ']') {
        Some(i2) => {
            let out: Vec<Video> = Vec::new();
            proof {
                assert(out.deep_view() =~= Seq::<Seq<char>>::empty());
            }
            Some((out, i2))
        },
        None => parse_video_items_at(s, i1),
    }
}

/// Parse the list-fetch envelope; the envelope grammar decides exactly which
/// bodies succeed, and the listed videos come back in server order.
pub fn parse_videos_response(body: &str) -> (r: Option<VideosResponse>)
    ensures
        r is Some <==> parse_videos_response_spec(body@) is Some,
        r is Some ==> Some((r->0).videos.deep_view()) == parse_videos_response_spec(body@),
{
    let i1 = match expect_ch_at(body, 0, '{') {
        Some(x) => x,
        None => {
            return None;
        },
    };
    let i2 = match expect_lit_at(body, i1, "\"data\"") {
        Some(x) => x,
        None => {
            return None;
        },
    };
    let i3 = match expect_ch_at(body, i2, ':') {
        Some(x) => x,
        None => {
            return None;
        },
    };
    let i4 = match expect_ch_at(body, i3, '{') {
        Some(x) => x,
        None => {
            return None;
        },
    };
    let i5 = match expect_lit_at(body, i4, "\"videos\"") {
        Some(x) => x,
        None => {
            return None;
        },
    };
    let i6 = match expect_ch_at(body, i5, ':') {
        Some(x) => x,
        None => {
            return None;
        },
    };
    let (videos, i7) = match parse_video_array_at(body, i6) {
        Some(x) => x,
        None => {
            return None;
        },
    };
    let i8 = match expect_ch_at(body, i7, '}') {
        Some(x) => x,
        None => {
            return None;
        },
    };
    let i9 = match expect_ch_at(body, i8, '}') {
        Some(x) => x,
        None => {
            return None;
        },
    };
    let n = body.unicode_len();
    if scan_ws(body, i9) != n {
        return None;
    }
    Some(VideosResponse { videos })
}

/// Parse the registration envelope; the envelope grammar decides exactly
/// which bodies succeed.
pub fn parse_register_video_response(body: &str) -> (r: Option<RegisterVideoResponse>)
    ensures
        r is Some <==> parse_register_response_spec(body@) is Some,
        r is Some ==> Some((r->0).register_video.src@) == parse_register_response_spec(body@),
{
    let i1 = match expect_ch_at(body, 0, '{') {
        Some(x) => x,
        None => {
            return None;
        },
    };
    let i2 = match expect_lit_at(body, i1, "\"data\"") {
        Some(x) => x,
        None => {
            return None;
        },
    };
    let i3 = match expect_ch_at(body, i2, ':') {
        Some(x) => x,
        None => {
            return None;
        },
    };
    let i4 = match expect_ch_at(body, i3, '{') {
        Some(x) => x,
        None => {
            return None;
        },
    };
    let i5 = match expect_lit_at(body, i4, "\"registerVideo\"") {
        Some(x) => x,
        None => {
            return None;
        },
    };
    let i6 = match expect_ch_at(body, i5, ':') {
        Some(x) => x,
        None => {
            return None;
        },
    };
    let (video, i7) = match parse_video_at(body, i6) {
        Some(x) => x,
        None => {
            return None;
        },
    };
    let i8 = match expect_ch_at(body, i7, '}') {
        Some(x) => x,
        None => {
            return None;
        },
    };
    let i9 = match expect_ch_at(body, i8, '}') {
        Some(x) => x,
        None => {
            return None;
        },
    };
    let n = body.unicode_len();
    if scan_ws(body, i9) != n {
        return None;
    }
    Some(RegisterVideoResponse { register_video: video })
}

} // verus!
