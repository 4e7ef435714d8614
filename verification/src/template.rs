//! Template composition: the rendered fragment and the page and site values
//! are encoded as a JSON context — the encoding is verified here — and the
//! configured template is rendered against it by the template engine.

use vstd::prelude::*;

use crate::config::Config;

verus! {

/// Per-document values handed to the template: the home flag and the
/// captured page title.
pub struct State {
    pub is_home: bool,
    pub page_title: Option<String>,
}

/// Failure to render the template; holds the renderer's message.
#[derive(Debug)]
pub struct TemplateError {
    pub message: String,
}

/// The character for digit `d`, up to base 16.
pub open spec fn digit_char(d: int) -> char {
    if d == 0 {
        '0'
    } else if d == 1 {
        '1'
    } else if d == 2 {
        '2'
    } else if d == 3 {
        '3'
    } else if d == 4 {
        '4'
    } else if d == 5 {
        '5'
    } else if d == 6 {
        '6'
    } else if d == 7 {
        '7'
    } else if d == 8 {
        '8'
    } else if d == 9 {
        '9'
    } else if d == 10 {
        'a'
    } else if d == 11 {
        'b'
    } else if d == 12 {
        'c'
    } else if d == 13 {
        'd'
    } else if d == 14 {
        'e'
    } else {
        'f'
    }
}

/// The JSON escape of one character: quote and backslash get a backslash,
/// control characters become a \u00XX escape, everything else stands as is.
pub open spec fn json_escape_char(c: char) -> Seq<char> {
    if c == '"' {
        seq!['\\', '"']
    } else if c == '\\' {
        seq!['\\', '\\']
    } else if (c as u32) < 32 {
        seq!['\\', 'u', '0', '0', digit_char((c as u32) as int / 16), digit_char((c as u32) as int % 16)]
    } else {
        seq![c]
    }
}

/// `s` with every character JSON-escaped.
pub open spec fn json_escaped(s: Seq<char>) -> Seq<char>
    decreases s.len(),
{
    if s.len() == 0 {
        Seq::empty()
    } else {
        json_escaped(s.drop_last()) + json_escape_char(s.last())
    }
}

/// `s` as a JSON string literal.
pub open spec fn json_string(s: Seq<char>) -> Seq<char> {
    seq!['"'] + json_escaped(s) + seq!['"']
}

/// The decimal digits of `n`, most significant first.
pub open spec fn dec_digits(n: nat) -> Seq<char>
    decreases n,
{
    if n < 10 {
        seq![digit_char(n as int)]
    } else {
        dec_digits(n / 10) + seq![digit_char((n % 10) as int)]
    }
}

/// `n` in decimal, with a sign when negative.
pub open spec fn int_str(n: int) -> Seq<char> {
    if n < 0 {
        seq!['-'] + dec_digits((-n) as nat)
    } else {
        dec_digits(n as nat)
    }
}

pub open spec fn bool_str(b: bool) -> Seq<char> {
    if b {
        "true"@
    } else {
        "false"@
    }
}

/// An optional title: a JSON string when present, JSON null when absent.
pub open spec fn json_opt_string(t: Option<Seq<char>>) -> Seq<char> {
    match t {
        Some(s) => json_string(s),
        None => "null"@,
    }
}

/// The JSON context handed to the template renderer: the `page` namespace
/// with body, home flag and title, and the `site` namespace with title,
/// copyright and build year.
pub open spec fn context_json(
    body: Seq<char>,
    is_home: bool,
    title: Option<Seq<char>>,
    site_title: Seq<char>,
    copyright: Seq<char>,
    year: int,
) -> Seq<char> {
    "{\"page\":{\"body\":"@ + json_string(body) + ",\"is-home\":"@ + bool_str(is_home)
        + ",\"title\":"@ + json_opt_string(title) + "},\"site\":{\"title\":"@ + json_string(
        site_title,
    ) + ",\"copyright\":"@ + json_string(copyright) + ",\"year\":"@ + int_str(year) + "}}"@
}

/// The character for digit `d` as a string slice.
fn digit_str(d: u8) -> (r: &'static str)
    requires
        d < 16,
    ensures
        r@ == seq![digit_char(d as int)],
{
    if d == 0 {
        proof { reveal_strlit("0"); }
        "0"
    } else if d == 1 {
        proof { reveal_strlit("1"); }
        "1"
    } else if d == 2 {
        proof { reveal_strlit("2"); }
        "2"
    } else if d == 3 {
        proof { reveal_strlit("3"); }
        "3"
    } else if d == 4 {
        proof { reveal_strlit("4"); }
        "4"
    } else if d == 5 {
        proof { reveal_strlit("5"); }
        "5"
    } else if d == 6 {
        proof { reveal_strlit("6"); }
        "6"
    } else if d == 7 {
        proof { reveal_strlit("7"); }
        "7"
    } else if d == 8 {
        proof { reveal_strlit("8"); }
        "8"
    } else if d == 9 {
        proof { reveal_strlit("9"); }
        "9"
    } else if d == 10 {
        proof { reveal_strlit("a"); }
        "a"
    } else if d == 11 {
        proof { reveal_strlit("b"); }
        "b"
    } else if d == 12 {
        proof { reveal_strlit("c"); }
        "c"
    } else if d == 13 {
        proof { reveal_strlit("d"); }
        "d"
    } else if d == 14 {
        proof { reveal_strlit("e"); }
        "e"
    } else {
        proof { reveal_strlit("f"); }
        "f"
    }
}

/// Appends `s` to `out` with every character JSON-escaped.
fn append_json_escaped(out: &mut String, s: &str)
    ensures
        final(out)@ == old(out)@ + json_escaped(s@),
{
    let n = s.unicode_len();
    let mut i: usize = 0;
    while i < n
        invariant
            i <= n,
            n == s@.len(),
            out@ == old(out)@ + json_escaped(s@.take(i as int)),
        decreases n - i,
    {
        let c = s.get_char(i);
        proof {
            assert(s@.take(i + 1).drop_last() =~= s@.take(i as int));
            assert(s@.take(i + 1).last() == s@[i as int]);
            reveal_strlit("\\\"");
            reveal_strlit("\\\\");
            reveal_strlit("\\u00");
        }
        if c == '"' {
            out.append("\\\"");
        } else if c == '\\' {
            out.append("\\\\");
        } else if (c as u32) < 32 {
            let v = c as u32;
            out.append("\\u00");
            out.append(digit_str((v / 16) as u8));
            out.append(digit_str((v % 16) as u8));
        } else {
            let piece = s.substring_char(i, i + 1);
            out.append(piece);
        }
        proof {
            assert(out@ =~= old(out)@ + json_escaped(s@.take(i + 1)));
        }
        i = i + 1;
    }
    proof {
        assert(s@.take(n as int) =~= s@);
    }
}

/// Appends `s` to `out` as a JSON string literal.
fn append_json_string(out: &mut String, s: &str)
    ensures
        final(out)@ == old(out)@ + json_string(s@),
{
    proof {
        reveal_strlit("\"");
    }
    out.append("\"");
    append_json_escaped(out, s);
    out.append("\"");
    proof {
        assert(out@ =~= old(out)@ + json_string(s@));
    }
}

/// Appends the decimal digits of `n` to `out`.
fn append_dec(out: &mut String, n: u64)
    ensures
        final(out)@ == old(out)@ + dec_digits(n as nat),
    decreases n,
{
    if n >= 10 {
        append_dec(out, n / 10);
    }
    out.append(digit_str((n % 10) as u8));
    proof {
        assert(out@ =~= old(out)@ + dec_digits(n as nat));
    }
}

/// Appends `year` in decimal, with a sign when negative.
fn append_year(out: &mut String, year: i64)
    requires
        year > i64::MIN,
    ensures
        final(out)@ == old(out)@ + int_str(year as int),
{
    if year < 0 {
        proof {
            reveal_strlit("-");
        }
        out.append("-");
        append_dec(out, (-year) as u64);
        proof {
            assert(out@ =~= old(out)@ + int_str(year as int));
        }
    } else {
        append_dec(out, year as u64);
    }
}

/// Builds the JSON context for one document.
pub fn build_context_json(body: &str, state: &State, conf: &Config, year: i64) -> (r: String)
    requires
        year > i64::MIN,
    ensures
        r@ == context_json(
            body@,
            state.is_home,
            state.page_title.deep_view(),
            conf.title@,
            conf.copyright@,
            year as int,
        ),
{
    let mut r = String::new();
    r.append("{\"page\":{\"body\":");
    append_json_string(&mut r, body);
    r.append(",\"is-home\":");
    if state.is_home {
        r.append("true");
    } else {
        r.append("false");
    }
    r.append(",\"title\":");
    match &state.page_title {
        Some(t) => append_json_string(&mut r, t.as_str()),
        None => r.append("null"),
    }
    r.append("},\"site\":{\"title\":");
    append_json_string(&mut r, conf.title.as_str());
    r.append(",\"copyright\":");
    append_json_string(&mut r, conf.copyright.as_str());
    r.append(",\"year\":");
    append_year(&mut r, year);
    r.append("}}");
    proof {
        assert(r@ =~= context_json(
            body@,
            state.is_home,
            state.page_title.deep_view(),
            conf.title@,
            conf.copyright@,
            year as int,
        ));
    }
    r
}

/// What the template engine produces for template text `tpl` rendered
/// against the JSON context `ctx`: the final page on success, the
/// renderer's message on failure; a function of the two texts alone.
pub uninterp spec fn rendered_json_of(tpl: Seq<char>, ctx: Seq<char>) -> Result<Seq<char>, Seq<char>>;

/// Relies on serde_json::from_str, which turns the context text into the
/// value handlebars takes, and on handlebars::Handlebars::render_template
/// of a fresh registry, which renders deterministically from the template
/// text and that value alone.
#[verifier::external_body]
fn hbs_render(tpl: &str, ctx_json: &str) -> (r: Result<String, String>)
    ensures
        match r {
            Ok(page) => rendered_json_of(tpl@, ctx_json@) matches Ok(p) && page@ == p,
            Err(msg) => rendered_json_of(tpl@, ctx_json@) matches Err(m) && msg@ == m,
        },
{
    let value: serde_json::Value = match serde_json::from_str(ctx_json) {
        Ok(v) => v,
        Err(e) => return Err(e.to_string()),
    };
    match handlebars::Handlebars::new().render_template(tpl, &value) {
        Ok(page) => Ok(page),
        Err(e) => Err(e.to_string()),
    }
}

/// Relies on chrono::Utc::now and chrono::Datelike::year: the current UTC
/// calendar year. chrono returns it as an i32, so it fits that range.
#[verifier::external_body]
fn current_utc_year() -> (y: i64)
    ensures
        i32::MIN <= y <= i32::MAX,
{
    chrono::Datelike::year(&chrono::Utc::now()) as i64
}

/// Replaces `body` by the template rendered against the context built from
/// `body` itself, the per-document `state`, the site configuration and
/// `year`; on failure `body` is left unchanged and the renderer's message
/// is returned.
pub fn wrap_with_year(
    body: &mut String,
    template: &str,
    conf: &Config,
    state: &State,
    year: i64,
) -> (r: Result<(), TemplateError>)
    requires
        year > i64::MIN,
    ensures
        ({
            let outcome = rendered_json_of(
                template@,
                context_json(
                    old(body)@,
                    state.is_home,
                    state.page_title.deep_view(),
                    conf.title@,
                    conf.copyright@,
                    year as int,
                ),
            );
            match r {
                Ok(_) => outcome matches Ok(p) && final(body)@ == p,
                Err(e) => outcome matches Err(m) && e.message@ == m && final(body)@ == old(body)@,
            }
        }),
{
    let ctx = build_context_json(body.as_str(), state, conf, year);
    match hbs_render(template, ctx.as_str()) {
        Ok(page) => {
            *body = page;
            Ok(())
        },
        Err(message) => Err(TemplateError { message }),
    }
}

/// As `wrap_with_year`, with the year taken from the clock at the moment of
/// the call.
pub fn wrap(body: &mut String, template: &str, conf: &Config, state: &State) -> (r: Result<
    (),
    TemplateError,
>)
    ensures
        exists|year: int|
            #![trigger context_json(
                old(body)@,
                state.is_home,
                state.page_title.deep_view(),
                conf.title@,
                conf.copyright@,
                year,
            )]
            i32::MIN <= year <= i32::MAX && {
                let outcome = rendered_json_of(
                    template@,
                    context_json(
                        old(body)@,
                        state.is_home,
                        state.page_title.deep_view(),
                        conf.title@,
                        conf.copyright@,
                        year,
                    ),
                );
                match r {
                    Ok(_) => outcome matches Ok(p) && final(body)@ == p,
                    Err(e) => outcome matches Err(m) && e.message@ == m && final(body)@ == old(
                        body,
                    )@,
                }
            },
{
    let year = current_utc_year();
    wrap_with_year(body, template, conf, state, year)
}

} // verus!
