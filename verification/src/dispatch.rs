//! Download dispatch: the structured download request and the argument
//! vector it is dispatched with. The core builds the whole vector itself,
//! including the JSON texts for the chapter list and the per-resolution
//! bitrate map, so the flag layout is pinned down here. SponsorBlock is
//! silently forced off whenever a non-empty chapter list is supplied, since
//! segment removal invalidates chapter timestamps.

use vstd::prelude::*;
use vstd::string::*;
use crate::text::{dec_str, hex_digit, hex_str, join_strings, joined, u32_to_string};

verus! {

/// One requested chapter. The core never does arithmetic on the start and
/// end times (seconds), so they are carried as the text of the JSON number
/// that will be dispatched.
#[derive(Debug, Clone, PartialEq)]
pub struct ChapterRequest {
    pub title: String,
    pub start_time: String,
    pub end_time: String,
}

/// A download start request.
#[derive(Debug, Clone, PartialEq)]
pub struct DownloadRequest {
    pub url: String,
    pub quality: String,
    pub output_dir: String,
    pub audio_only: bool,
    pub sponsorblock: bool,
    pub trim_start: Option<String>,
    pub trim_end: Option<String>,
    pub cookies_browser: Option<String>,
    pub cookies_profile: Option<String>,
    pub bitrate_mode: Option<String>,
    pub custom_bitrate: Option<u32>,
    pub per_resolution: Option<Vec<(String, u32)>>,
    pub chapters: Option<Vec<ChapterRequest>>,
}

// ---------------------------------------------------------------------------
// JSON string escaping
// ---------------------------------------------------------------------------
/// How one character appears inside a JSON string token: quote and backslash
/// escaped, control characters as their short escapes or `\u00..`, anything
/// else verbatim.
pub open spec fn escaped_char(c: char) -> Seq<char> {
    let u = c as u32;
    if c == '"' {
        seq!['\\', '"']
    } else if c == '\\' {
        seq!['\\', '\\']
    } else if u == 0x08 {
        seq!['\\', 'b']
    } else if u == 0x09 {
        seq!['\\', 't']
    } else if u == 0x0a {
        seq!['\\', 'n']
    } else if u == 0x0c {
        seq!['\\', 'f']
    } else if u == 0x0d {
        seq!['\\', 'r']
    } else if u < 0x20 {
        seq!['\\', 'u', '0', '0', hex_digit((u / 16) as nat), hex_digit((u % 16) as nat)]
    } else {
        seq![c]
    }
}

/// A text with every character escaped for a JSON string token.
pub open spec fn escaped(s: Seq<char>) -> Seq<char>
    decreases s.len(),
{
    if s.len() == 0 {
        Seq::empty()
    } else {
        escaped_char(s[0]) + escaped(s.drop_first())
    }
}

/// A text rendered as a JSON string token, quotes included.
pub open spec fn json_string(s: Seq<char>) -> Seq<char> {
    "\""@ + escaped(s) + "\""@
}

/// Escaping one more character appends its escape.
proof fn lemma_escaped_push(s: Seq<char>, c: char)
    ensures
        escaped(s.push(c)) == escaped(s) + escaped_char(c),
    decreases s.len(),
{
    let t = s.push(c);
    if s.len() == 0 {
        assert(t[0] == c);
        assert(t.drop_first() =~= Seq::<char>::empty());
        assert(escaped(t) == escaped_char(c) + escaped(Seq::<char>::empty()));
        assert(escaped_char(c) + Seq::<char>::empty() =~= Seq::<char>::empty() + escaped_char(c));
    } else {
        assert(t[0] == s[0]);
        assert(t.drop_first() =~= s.drop_first().push(c));
        lemma_escaped_push(s.drop_first(), c);
        assert(escaped(t) == escaped_char(s[0]) + (escaped(s.drop_first()) + escaped_char(c)));
        assert(escaped_char(s[0]) + (escaped(s.drop_first()) + escaped_char(c)) =~= (escaped_char(
            s[0],
        ) + escaped(s.drop_first())) + escaped_char(c));
    }
}

/// Escape a text for inclusion in a JSON string token (without the quotes).
pub fn escape_json_text(s: &str) -> (r: String)
    ensures
        r@ == escaped(s@),
{
    let n = s.unicode_len();
    let mut r = String::new();
    let mut i: usize = 0;
    while i < n
        invariant
            0 <= i <= n,
            n == s@.len(),
            r@ == escaped(s@.take(i as int)),
        decreases n - i,
    {
        proof {
            reveal_strlit("\\\"");
            reveal_strlit("\\\\");
            reveal_strlit("\\b");
            reveal_strlit("\\t");
            reveal_strlit("\\n");
            reveal_strlit("\\f");
            reveal_strlit("\\r");
            reveal_strlit("\\u00");
            assert(s@.take(i + 1) =~= s@.take(i as int).push(s@[i as int]));
            lemma_escaped_push(s@.take(i as int), s@[i as int]);
        }
        let c = s.get_char(i);
        let u = c as u32;
        if c == '"' {
            r.append("\\\"");
            assert("\\\""@ =~= escaped_char(c));
        } else if c == '\\' {
            r.append("\\\\");
            assert("\\\\"@ =~= escaped_char(c));
        } else if u == 0x08 {
            r.append("\\b");
            assert("\\b"@ =~= escaped_char(c));
        } else if u == 0x09 {
            r.append("\\t");
            assert("\\t"@ =~= escaped_char(c));
        } else if u == 0x0a {
            r.append("\\n");
            assert("\\n"@ =~= escaped_char(c));
        } else if u == 0x0c {
            r.append("\\f");
            assert("\\f"@ =~= escaped_char(c));
        } else if u == 0x0d {
            r.append("\\r");
            assert("\\r"@ =~= escaped_char(c));
        } else if u < 0x20 {
            r.append("\\u00");
            let hi = hex_str(u / 16);
            r.append(hi.as_str());
            let lo = hex_str(u % 16);
            r.append(lo.as_str());
            assert("\\u00"@ + seq![hex_digit((u / 16) as nat)] + seq![hex_digit((u % 16) as nat)]
                =~= escaped_char(c));
        } else {
            let piece = s.substring_char(i, i + 1);
            r.append(piece);
            assert(s@.subrange(i as int, i + 1) =~= seq![s@[i as int]]);
            assert(seq![c] =~= escaped_char(c));
        }
        i += 1;
    }
    proof {
        assert(s@.take(n as int) =~= s@);
    }
    r
}

/// Render a text as a JSON string token.
pub fn json_string_exec(s: &str) -> (r: String)
    ensures
        r@ == json_string(s@),
{
    let mut r = "\"".to_owned();
    let e = escape_json_text(s);
    r.append(e.as_str());
    r.append("\"");
    proof {
        assert(r@ =~= json_string(s@));
    }
    r
}

// ---------------------------------------------------------------------------
// JSON number texts
// ---------------------------------------------------------------------------
/// A decimal digit.
pub open spec fn is_digit_char(c: char) -> bool {
    0x30 <= c as u32 && c as u32 <= 0x39
}

/// First position at or after `i` holding no digit.
pub open spec fn digits_end(s: Seq<char>, i: int) -> int
    decreases s.len() - i,
{
    if i < s.len() && is_digit_char(s[i]) {
        digits_end(s, i + 1)
    } else {
        i
    }
}

/// Where the optional fraction part starting at `i` ends, or nothing when a
/// decimal point is not followed by a digit.
pub open spec fn frac_end(s: Seq<char>, i: int) -> Option<int> {
    if i < s.len() && s[i] == '.' {
        if i + 1 < s.len() && is_digit_char(s[i + 1]) {
            Some(digits_end(s, i + 1))
        } else {
            None
        }
    } else {
        Some(i)
    }
}

/// Where the optional exponent part starting at `i` ends, or nothing when an
/// exponent marker is not followed by digits.
pub open spec fn exp_end(s: Seq<char>, i: int) -> Option<int> {
    if i < s.len() && (s[i] == 'e' || s[i] == 'E') {
        let j = if i + 1 < s.len() && (s[i + 1] == '+' || s[i + 1] == '-') {
            i + 2
        } else {
            i + 1
        };
        if j < s.len() && is_digit_char(s[j]) {
            Some(digits_end(s, j))
        } else {
            None
        }
    } else {
        Some(i)
    }
}

/// The JSON number grammar: an optional minus sign, an integer part with no
/// leading zero, an optional fraction, an optional exponent, and nothing
/// after it.
pub open spec fn is_json_number(s: Seq<char>) -> bool {
    let i0: int = if s.len() > 0 && s[0] == '-' {
        1
    } else {
        0
    };
    if i0 < s.len() && is_digit_char(s[i0]) {
        let i1 = if s[i0] == '0' {
            i0 + 1
        } else {
            digits_end(s, i0)
        };
        match frac_end(s, i1) {
            Some(i2) => match exp_end(s, i2) {
                Some(i3) => i3 == s.len(),
                None => false,
            },
            None => false,
        }
    } else {
        false
    }
}

/// Executable decimal digit test.
fn digit_char(c: char) -> (r: bool)
    ensures
        r == is_digit_char(c),
{
    let u = c as u32;
    0x30 <= u && u <= 0x39
}

/// Scan past digits from `start`.
fn skip_digits(s: &str, start: usize) -> (j: usize)
    requires
        start <= s@.len(),
    ensures
        j as int == digits_end(s@, start as int),
        start <= j <= s@.len(),
{
    let n = s.unicode_len();
    let mut j = start;
    while j < n && digit_char(s.get_char(j))
        invariant
            start <= j <= n,
            n == s@.len(),
            digits_end(s@, start as int) == digits_end(s@, j as int),
        decreases n - j,
    {
        j += 1;
    }
    j
}

/// Whether a text is one complete JSON number.
pub fn is_number_text(s: &str) -> (r: bool)
    ensures
        r == is_json_number(s@),
{
    let n = s.unicode_len();
    if n == 0 {
        return false;
    }
    let mut i: usize = 0;
    if s.get_char(0) == '-' {
        i = 1;
    }
    if i >= n {
        return false;
    }
    let c0 = s.get_char(i);
    if !digit_char(c0) {
        return false;
    }
    let i1: usize = if c0 == '0' {
        i + 1
    } else {
        skip_digits(s, i)
    };
    let mut i2: usize = i1;
    if i1 < n && s.get_char(i1) == '.' {
        if i1 + 1 < n && digit_char(s.get_char(i1 + 1)) {
            i2 = skip_digits(s, i1 + 1);
        } else {
            return false;
        }
    }
    if i2 >= n {
        return true;
    }
    let ce = s.get_char(i2);
    if !(ce == 'e' || ce == 'E') {
        return false;
    }
    let j: usize = if i2 + 1 < n {
        let cs2 = s.get_char(i2 + 1);
        if cs2 == '+' || cs2 == '-' {
            i2 + 2
        } else {
            i2 + 1
        }
    } else {
        i2 + 1
    };
    if j < n && digit_char(s.get_char(j)) {
        let i3 = skip_digits(s, j);
        i3 == n
    } else {
        false
    }
}

// ---------------------------------------------------------------------------
// JSON rendering of the structured flags
// ---------------------------------------------------------------------------
/// A chapter time as dispatched: its text when that is one complete JSON
/// number, `null` otherwise (as a serializer renders a number it cannot
/// represent), so the dispatched document is always well-formed.
pub open spec fn time_json(t: Seq<char>) -> Seq<char> {
    if is_json_number(t) {
        t
    } else {
        "null"@
    }
}

/// Render one chapter time.
fn time_json_exec(t: &str) -> (r: String)
    ensures
        r@ == time_json(t@),
{
    if is_number_text(t) {
        t.to_owned()
    } else {
        "null".to_owned()
    }
}

/// One chapter as a JSON object, fields in declaration order.
pub open spec fn chapter_json(c: ChapterRequest) -> Seq<char> {
    "{\"title\":"@ + json_string(c.title@) + ",\"start_time\":"@ + time_json(c.start_time@)
        + ",\"end_time\":"@ + time_json(c.end_time@) + "}"@
}

/// A chapter list as a JSON array.
pub open spec fn chapters_json(cs: Seq<ChapterRequest>) -> Seq<char> {
    "["@ + joined(cs.map_values(|c: ChapterRequest| chapter_json(c)), ","@) + "]"@
}

/// One per-resolution bitrate as a JSON object member.
pub open spec fn per_res_entry(k: Seq<char>, v: u32) -> Seq<char> {
    json_string(k) + ":"@ + dec_str(v as nat)
}

/// A per-resolution bitrate map as a JSON object, entries in the order the
/// request carries them.
pub open spec fn per_res_json(m: Seq<(String, u32)>) -> Seq<char> {
    "{"@ + joined(m.map_values(|kv: (String, u32)| per_res_entry(kv.0@, kv.1)), ","@) + "}"@
}

/// Render one chapter.
fn chapter_json_exec(c: &ChapterRequest) -> (r: String)
    ensures
        r@ == chapter_json(*c),
{
    let mut r = "{\"title\":".to_owned();
    let t = json_string_exec(c.title.as_str());
    r.append(t.as_str());
    r.append(",\"start_time\":");
    let start = time_json_exec(c.start_time.as_str());
    r.append(start.as_str());
    r.append(",\"end_time\":");
    let end = time_json_exec(c.end_time.as_str());
    r.append(end.as_str());
    r.append("}");
    proof {
        assert(r@ =~= chapter_json(*c));
    }
    r
}

/// Render a chapter list.
pub fn chapters_json_exec(cs: &Vec<ChapterRequest>) -> (r: String)
    ensures
        r@ == chapters_json(cs@),
{
    let mut parts: Vec<String> = Vec::new();
    let mut i: usize = 0;
    while i < cs.len()
        invariant
            0 <= i <= cs@.len(),
            parts@.map_values(|p: String| p@) == cs@.take(i as int).map_values(
                |c: ChapterRequest| chapter_json(c),
            ),
        decreases cs@.len() - i,
    {
        let ghost before = parts@;
        let piece = chapter_json_exec(&cs[i]);
        parts.push(piece);
        proof {
            assert(cs@.take(i + 1) =~= cs@.take(i as int).push(cs@[i as int]));
            assert(cs@.take(i + 1).map_values(|c: ChapterRequest| chapter_json(c)) =~= before
                .map_values(|p: String| p@).push(chapter_json(cs@[i as int])));
            assert(parts@.map_values(|p: String| p@) =~= before.map_values(|p: String| p@).push(
                chapter_json(cs@[i as int]),
            ));
        }
        i += 1;
    }
    proof {
        assert(cs@.take(cs@.len() as int) =~= cs@);
    }
    let body = join_strings(&parts, ",");
    let mut r = "[".to_owned();
    r.append(body.as_str());
    r.append("]");
    proof {
        assert(r@ =~= chapters_json(cs@));
    }
    r
}

/// Render a per-resolution bitrate map.
pub fn per_res_json_exec(m: &Vec<(String, u32)>) -> (r: String)
    ensures
        r@ == per_res_json(m@),
{
    let mut parts: Vec<String> = Vec::new();
    let mut i: usize = 0;
    while i < m.len()
        invariant
            0 <= i <= m@.len(),
            parts@.map_values(|p: String| p@) == m@.take(i as int).map_values(
                |kv: (String, u32)| per_res_entry(kv.0@, kv.1),
            ),
        decreases m@.len() - i,
    {
        let ghost before = parts@;
        let mut piece = json_string_exec(m[i].0.as_str());
        piece.append(":");
        let v = u32_to_string(m[i].1);
        piece.append(v.as_str());
        proof {
            assert(piece@ =~= per_res_entry(m@[i as int].0@, m@[i as int].1));
        }
        parts.push(piece);
        proof {
            assert(m@.take(i + 1) =~= m@.take(i as int).push(m@[i as int]));
            assert(m@.take(i + 1).map_values(|kv: (String, u32)| per_res_entry(kv.0@, kv.1))
                =~= before.map_values(|p: String| p@).push(
                per_res_entry(m@[i as int].0@, m@[i as int].1),
            ));
            assert(parts@.map_values(|p: String| p@) =~= before.map_values(|p: String| p@).push(
                per_res_entry(m@[i as int].0@, m@[i as int].1),
            ));
        }
        i += 1;
    }
    proof {
        assert(m@.take(m@.len() as int) =~= m@);
    }
    let body = join_strings(&parts, ",");
    let mut r = "{".to_owned();
    r.append(body.as_str());
    r.append("}");
    proof {
        assert(r@ =~= per_res_json(m@));
    }
    r
}

// ---------------------------------------------------------------------------
// The dispatched argument vector
// ---------------------------------------------------------------------------
/// Whether the request carries a non-empty chapter list.
pub open spec fn spec_has_chapters(r: DownloadRequest) -> bool {
    r.chapters matches Some(cs) && cs@.len() > 0
}

/// The positional arguments every download starts with.
pub open spec fn base_args(r: DownloadRequest) -> Seq<Seq<char>> {
    seq!["run"@, "--url"@, r.url@, "--quality"@, r.quality@, "--output-dir"@, r.output_dir@]
}

/// The audio-only flag, when requested.
pub open spec fn audio_args(r: DownloadRequest) -> Seq<Seq<char>> {
    if r.audio_only {
        seq!["--audio-only"@]
    } else {
        Seq::empty()
    }
}

/// The SponsorBlock flag: only when requested and no non-empty chapter list
/// is supplied (segment removal would shift chapter timestamps).
pub open spec fn sponsor_args(r: DownloadRequest) -> Seq<Seq<char>> {
    if r.sponsorblock && !spec_has_chapters(r) {
        seq!["--sponsorblock"@]
    } else {
        Seq::empty()
    }
}

/// The chapter list flag: present exactly for a non-empty list, its value
/// the list as a JSON array.
pub open spec fn chapter_args(r: DownloadRequest) -> Seq<Seq<char>> {
    match r.chapters {
        Some(cs) => if cs@.len() > 0 {
            seq!["--chapters"@, chapters_json(cs@)]
        } else {
            Seq::empty()
        },
        None => Seq::empty(),
    }
}

/// A flag with a value, when the request carries one.
pub open spec fn opt_flag_arg(flag: Seq<char>, o: Option<String>) -> Seq<Seq<char>> {
    match o {
        Some(v) => seq![flag, v@],
        None => Seq::empty(),
    }
}

/// The custom bitrate flag, its value in decimal.
pub open spec fn bitrate_args(r: DownloadRequest) -> Seq<Seq<char>> {
    match r.custom_bitrate {
        Some(b) => seq!["--custom-bitrate"@, dec_str(b as nat)],
        None => Seq::empty(),
    }
}

/// The per-resolution bitrate flag, its value as a JSON object.
pub open spec fn per_res_args(r: DownloadRequest) -> Seq<Seq<char>> {
    match r.per_resolution {
        Some(m) => seq!["--per-res-bitrates"@, per_res_json(m@)],
        None => Seq::empty(),
    }
}

/// The per-resolution bitrate entries carry pairwise distinct keys: what
/// makes the sequence a map.
pub open spec fn per_res_keys_unique(m: Seq<(String, u32)>) -> bool {
    forall|i: int, j: int| 0 <= i < j < m.len() ==> (#[trigger] m[i]).0@ != (#[trigger] m[j]).0@
}

/// A well-formed download request: its per-resolution bitrate mapping, when
/// present, is a map (no resolution named twice).
pub open spec fn wf_download_request(r: DownloadRequest) -> bool {
    match r.per_resolution {
        Some(m) => per_res_keys_unique(m@),
        None => true,
    }
}

/// The whole argument vector a download request is dispatched with.
pub open spec fn spec_download_args(r: DownloadRequest) -> Seq<Seq<char>> {
    base_args(r) + audio_args(r) + sponsor_args(r) + chapter_args(r) + opt_flag_arg(
        "--trim-start"@,
        r.trim_start,
    ) + opt_flag_arg("--trim-end"@, r.trim_end) + opt_flag_arg(
        "--cookies-browser"@,
        r.cookies_browser,
    ) + opt_flag_arg("--cookies-profile"@, r.cookies_profile) + opt_flag_arg(
        "--bitrate-mode"@,
        r.bitrate_mode,
    ) + bitrate_args(r) + per_res_args(r)
}

/// Push a flag and its value when the request carries one.
fn push_opt(args: &mut Vec<String>, flag: &str, o: &Option<String>)
    ensures
        final(args)@.map_values(|s: String| s@) == old(args)@.map_values(|s: String| s@)
            + opt_flag_arg(flag@, *o),
{
    let ghost before = args@;
    match o {
        Some(v) => {
            args.push(flag.to_owned());
            args.push(v.clone());
            proof {
                assert(args@.map_values(|s: String| s@) =~= before.map_values(|s: String| s@)
                    + seq![flag@, v@]);
            }
        },
        None => {
            proof {
                assert(args@.map_values(|s: String| s@) =~= before.map_values(|s: String| s@)
                    + Seq::<Seq<char>>::empty());
            }
        },
    }
}

/// Build the argument vector for a download request, exactly as specified by
/// `spec_download_args`.
pub fn build_download_args(req: &DownloadRequest) -> (args: Vec<String>)
    requires
        wf_download_request(*req),
    ensures
        args@.map_values(|s: String| s@) == spec_download_args(*req),
{
    let mut args: Vec<String> = Vec::new();
    args.push("run".to_owned());
    args.push("--url".to_owned());
    args.push(req.url.clone());
    args.push("--quality".to_owned());
    args.push(req.quality.clone());
    args.push("--output-dir".to_owned());
    args.push(req.output_dir.clone());
    proof {
        assert(args@.map_values(|s: String| s@) =~= base_args(*req));
    }
    let has_ch = match &req.chapters {
        Some(cs) => cs.len() > 0,
        None => false,
    };
    proof {
        assert(has_ch == spec_has_chapters(*req));
    }
    if req.audio_only {
        let ghost before = args@;
        args.push("--audio-only".to_owned());
        proof {
            assert(args@.map_values(|s: String| s@) =~= before.map_values(|s: String| s@)
                + audio_args(*req));
        }
    }
    proof {
        assert(args@.map_values(|s: String| s@) =~= base_args(*req) + audio_args(*req));
    }
    if req.sponsorblock && !has_ch {
        let ghost before = args@;
        args.push("--sponsorblock".to_owned());
        proof {
            assert(args@.map_values(|s: String| s@) =~= before.map_values(|s: String| s@)
                + sponsor_args(*req));
        }
    }
    proof {
        assert(args@.map_values(|s: String| s@) =~= base_args(*req) + audio_args(*req)
            + sponsor_args(*req));
    }
    match &req.chapters {
        Some(cs) => {
            if cs.len() > 0 {
                let ghost before = args@;
                args.push("--chapters".to_owned());
                let rendered = chapters_json_exec(cs);
                args.push(rendered);
                proof {
                    assert(args@.map_values(|s: String| s@) =~= before.map_values(|s: String| s@)
                        + chapter_args(*req));
                }
            }
        },
        None => {},
    }
    proof {
        assert(args@.map_values(|s: String| s@) =~= base_args(*req) + audio_args(*req)
            + sponsor_args(*req) + chapter_args(*req));
    }
    push_opt(&mut args, "--trim-start", &req.trim_start);
    push_opt(&mut args, "--trim-end", &req.trim_end);
    push_opt(&mut args, "--cookies-browser", &req.cookies_browser);
    push_opt(&mut args, "--cookies-profile", &req.cookies_profile);
    push_opt(&mut args, "--bitrate-mode", &req.bitrate_mode);
    proof {
        assert(args@.map_values(|s: String| s@) =~= base_args(*req) + audio_args(*req)
            + sponsor_args(*req) + chapter_args(*req) + opt_flag_arg("--trim-start"@, req.trim_start)
            + opt_flag_arg("--trim-end"@, req.trim_end) + opt_flag_arg(
            "--cookies-browser"@,
            req.cookies_browser,
        ) + opt_flag_arg("--cookies-profile"@, req.cookies_profile) + opt_flag_arg(
            "--bitrate-mode"@,
            req.bitrate_mode,
        ));
    }
    match &req.custom_bitrate {
        Some(b) => {
            let ghost before = args@;
            args.push("--custom-bitrate".to_owned());
            args.push(u32_to_string(*b));
            proof {
                assert(args@.map_values(|s: String| s@) =~= before.map_values(|s: String| s@)
                    + bitrate_args(*req));
            }
        },
        None => {},
    }
    match &req.per_resolution {
        Some(m) => {
            let ghost before = args@;
            args.push("--per-res-bitrates".to_owned());
            let rendered = per_res_json_exec(m);
            args.push(rendered);
            proof {
                assert(args@.map_values(|s: String| s@) =~= before.map_values(|s: String| s@)
                    + per_res_args(*req));
            }
        },
        None => {},
    }
    proof {
        assert(args@.map_values(|s: String| s@) =~= spec_download_args(*req));
    }
    args
}

/// Law: a non-empty chapter list silently forces SponsorBlock off. Two
/// requests equal in everything but the SponsorBlock flag, both carrying a
/// non-empty chapter list, dispatch the same argument vector: the flag the
/// first one requested never appears.
pub proof fn lemma_chapters_suppress_sponsorblock(r1: DownloadRequest, r2: DownloadRequest)
    requires
        spec_has_chapters(r1),
        r1.sponsorblock,
        !r2.sponsorblock,
        r2.url == r1.url,
        r2.quality == r1.quality,
        r2.output_dir == r1.output_dir,
        r2.audio_only == r1.audio_only,
        r2.trim_start == r1.trim_start,
        r2.trim_end == r1.trim_end,
        r2.cookies_browser == r1.cookies_browser,
        r2.cookies_profile == r1.cookies_profile,
        r2.bitrate_mode == r1.bitrate_mode,
        r2.custom_bitrate == r1.custom_bitrate,
        r2.per_resolution == r1.per_resolution,
        r2.chapters == r1.chapters,
    ensures
        spec_download_args(r1) == spec_download_args(r2),
{
    assert(sponsor_args(r1) =~= sponsor_args(r2));
    assert(spec_download_args(r1) =~= spec_download_args(r2));
}

} // verus!
