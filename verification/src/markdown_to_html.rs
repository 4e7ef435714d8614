//! The per-document event pipeline: markdown is parsed into an ordered event
//! stream, one streaming pass applies orphan prevention to body text and
//! captures the page title from level-1 headings, and the stream is rendered
//! back to an HTML fragment.

use vstd::prelude::*;

use pulldown_cmark::{CowStr, Event, Options, Parser, Tag};

use crate::config::Config;
use crate::files::{home_path, is_home};
use crate::template::{context_json, rendered_json_of, wrap_with_year, State, TemplateError};
use crate::typography::{replace_last_bsp_with_nbsp, replace_last_space};

verus! {

/// One parse event, as far as the pipeline reads it: a text run, the start
/// or end of a heading with its level, or any other structural event, which
/// passes through the transform untouched.
#[derive(Debug, PartialEq)]
pub enum MdEvent {
    Text(String),
    HeadingStart(u32),
    HeadingEnd(u32),
    Other,
}

/// The mathematical shape of an `MdEvent`.
pub enum MdEventView {
    Text(Seq<char>),
    HeadingStart(u32),
    HeadingEnd(u32),
    Other,
}

impl View for MdEvent {
    type V = MdEventView;

    open spec fn view(&self) -> MdEventView {
        match self {
            MdEvent::Text(t) => MdEventView::Text(t@),
            MdEvent::HeadingStart(l) => MdEventView::HeadingStart(*l),
            MdEvent::HeadingEnd(l) => MdEventView::HeadingEnd(*l),
            MdEvent::Other => MdEventView::Other,
        }
    }
}

impl DeepView for MdEvent {
    type V = MdEventView;

    open spec fn deep_view(&self) -> MdEventView {
        self.view()
    }
}

/// How one event moves the "inside a level-1 heading" flag.
pub open spec fn next_flag(flag: bool, e: MdEventView) -> bool {
    match e {
        MdEventView::HeadingStart(l) => if l == 1 {
            true
        } else {
            flag
        },
        MdEventView::HeadingEnd(l) => if l == 1 {
            false
        } else {
            flag
        },
        _ => flag,
    }
}

/// Whether event `i` of `evs` is observed inside a level-1 heading.
pub open spec fn flag_at(evs: Seq<MdEventView>, i: int) -> bool
    decreases i,
{
    if i <= 0 {
        false
    } else {
        next_flag(flag_at(evs, i - 1), evs[i - 1])
    }
}

/// How one event moves the captured title: a text run inside a level-1
/// heading overwrites it, everything else leaves it alone.
pub open spec fn step_title(title: Option<Seq<char>>, flag: bool, e: MdEventView) -> Option<Seq<char>> {
    match e {
        MdEventView::Text(t) => if flag {
            Some(t)
        } else {
            title
        },
        _ => title,
    }
}

/// The captured title after the first `i` events of `evs`.
pub open spec fn title_at(evs: Seq<MdEventView>, i: int) -> Option<Seq<char>>
    decreases i,
{
    if i <= 0 {
        None
    } else {
        step_title(title_at(evs, i - 1), flag_at(evs, i - 1), evs[i - 1])
    }
}

/// The page title the streaming pass captures: the content of the last text
/// run observed inside a level-1 heading, if any.
pub open spec fn captured_title(evs: Seq<MdEventView>) -> Option<Seq<char>> {
    title_at(evs, evs.len() as int)
}

/// What the transform emits for one event: body text gets orphan prevention,
/// heading text and structural events pass through unchanged.
pub open spec fn out_event(flag: bool, e: MdEventView) -> MdEventView {
    match e {
        MdEventView::Text(t) => if flag {
            MdEventView::Text(t)
        } else {
            MdEventView::Text(replace_last_space(t))
        },
        _ => e,
    }
}

/// The event sequence after the streaming transform.
pub open spec fn transformed(evs: Seq<MdEventView>) -> Seq<MdEventView> {
    Seq::new(evs.len(), |i: int| out_event(flag_at(evs, i), evs[i]))
}

/// The contents of the text runs of `evs`, in order.
pub open spec fn texts_of(evs: Seq<MdEventView>) -> Seq<Seq<char>>
    decreases evs.len(),
{
    if evs.len() == 0 {
        Seq::empty()
    } else {
        texts_of(evs.drop_last()) + match evs.last() {
            MdEventView::Text(t) => seq![t],
            _ => Seq::<Seq<char>>::empty(),
        }
    }
}

/// One streaming pass over the event sequence: every text run outside a
/// level-1 heading has its last space replaced by a non-breaking space;
/// text runs inside a level-1 heading are emitted unchanged and the last
/// one observed becomes the captured title.
pub fn transform_events(evs: &Vec<MdEvent>) -> (r: (Vec<MdEvent>, Option<String>))
    ensures
        r.0.deep_view() == transformed(evs.deep_view()),
        r.1.deep_view() == captured_title(evs.deep_view()),
{
    let mut out: Vec<MdEvent> = Vec::new();
    let mut title: Option<String> = None;
    let mut flag = false;
    let mut i: usize = 0;
    while i < evs.len()
        invariant
            i <= evs.len(),
            out.deep_view().len() == i,
            forall|j: int|
                0 <= j < i ==> out.deep_view()[j] == out_event(
                    flag_at(evs.deep_view(), j),
                    evs.deep_view()[j],
                ),
            flag == flag_at(evs.deep_view(), i as int),
            title.deep_view() == title_at(evs.deep_view(), i as int),
        decreases evs.len() - i,
    {
        let ghost d = evs.deep_view();
        let mut new_flag = flag;
        let new_ev: MdEvent;
        match &evs[i] {
            MdEvent::Text(t) => {
                if flag {
                    title = Some(t.clone());
                    new_ev = MdEvent::Text(t.clone());
                } else {
                    new_ev = MdEvent::Text(replace_last_bsp_with_nbsp(t.as_str()));
                }
            },
            MdEvent::HeadingStart(l) => {
                if *l == 1 {
                    new_flag = true;
                }
                new_ev = MdEvent::HeadingStart(*l);
            },
            MdEvent::HeadingEnd(l) => {
                if *l == 1 {
                    new_flag = false;
                }
                new_ev = MdEvent::HeadingEnd(*l);
            },
            MdEvent::Other => {
                new_ev = MdEvent::Other;
            },
        }
        let ghost pre = out.deep_view();
        proof {
            assert(new_ev.deep_view() == out_event(flag_at(d, i as int), d[i as int]));
        }
        out.push(new_ev);
        proof {
            assert(out.deep_view() =~= pre.push(out_event(flag_at(d, i as int), d[i as int])));
        }
        flag = new_flag;
        i = i + 1;
    }
    proof {
        assert(out.deep_view() =~= transformed(evs.deep_view()));
    }
    (out, title)
}

/// The contents of the text runs of `evs`, in order.
pub fn extract_texts(evs: &Vec<MdEvent>) -> (r: Vec<String>)
    ensures
        r.deep_view() == texts_of(evs.deep_view()),
{
    let mut out: Vec<String> = Vec::new();
    let mut i: usize = 0;
    while i < evs.len()
        invariant
            i <= evs.len(),
            out.deep_view() == texts_of(evs.deep_view().take(i as int)),
        decreases evs.len() - i,
    {
        let ghost pre = evs.deep_view().take(i as int);
        let ghost cur = evs.deep_view().take(i + 1);
        proof {
            assert(cur.drop_last() =~= pre);
            assert(cur.last() == evs.deep_view()[i as int]);
        }
        match &evs[i] {
            MdEvent::Text(t) => {
                out.push(t.clone());
                proof {
                    assert(out.deep_view() =~= texts_of(cur));
                }
            },
            _ => {
                proof {
                    assert(out.deep_view() =~= texts_of(cur));
                }
            },
        }
        i = i + 1;
    }
    proof {
        assert(evs.deep_view().take(evs.deep_view().len() as int) =~= evs.deep_view());
    }
    out
}

/// `flag_at` only reads the events before `i`, so any extension of the
/// sequence past `i` sees the same flag.
proof fn lemma_flag_at_prefix(evs: Seq<MdEventView>, k: int, i: int)
    requires
        0 <= i <= k <= evs.len(),
    ensures
        flag_at(evs.take(k), i) == flag_at(evs, i),
    decreases i,
{
    if i > 0 {
        lemma_flag_at_prefix(evs, k, i - 1);
        assert(evs.take(k)[i - 1] == evs[i - 1]);
    }
}

/// The transform maps text runs to text runs, so it keeps the number of
/// text events.
proof fn lemma_texts_of_transformed(evs: Seq<MdEventView>)
    ensures
        texts_of(transformed(evs)).len() == texts_of(evs).len(),
    decreases evs.len(),
{
    if evs.len() > 0 {
        lemma_texts_of_transformed(evs.drop_last());
        assert(evs.drop_last() =~= evs.take(evs.len() - 1));
        assert forall|j: int| 0 <= j < evs.len() - 1 implies transformed(evs.drop_last())[j]
            == transformed(evs)[j] by {
            lemma_flag_at_prefix(evs, evs.len() - 1, j);
        }
        assert(transformed(evs).drop_last() =~= transformed(evs.drop_last()));
        assert(transformed(evs).last() == out_event(
            flag_at(evs, evs.len() - 1),
            evs.last(),
        ));
    }
}

/// The event sequence the markdown parser produces for a document, as this
/// pipeline models it: a function of the document text alone.
pub uninterp spec fn events_of(text: Seq<char>) -> Seq<MdEventView>;

/// Relies on pulldown_cmark::Parser::new_ext, run with the tables,
/// footnotes, strikethrough and tasklists extensions: parsing is a function
/// of the document text alone. Each event is classified one variant at a
/// time; heading levels and text contents are moved over unchanged.
#[verifier::external_body]
fn parse_markdown(text: &str) -> (r: Vec<MdEvent>)
    ensures
        r.deep_view() == events_of(text@),
{
    let mut opts = Options::empty();
    opts.insert(Options::ENABLE_TABLES);
    opts.insert(Options::ENABLE_FOOTNOTES);
    opts.insert(Options::ENABLE_STRIKETHROUGH);
    opts.insert(Options::ENABLE_TASKLISTS);
    Parser::new_ext(text, opts).map(|ev| match ev {
        Event::Start(Tag::Heading(l)) => MdEvent::HeadingStart(l),
        Event::End(Tag::Heading(l)) => MdEvent::HeadingEnd(l),
        Event::Text(t) => MdEvent::Text(t.into_string()),
        _ => MdEvent::Other,
    }).collect()
}

/// The HTML fragment pulldown_cmark's renderer produces for the events of
/// `text` once the content of the i-th text run is replaced by `texts[i]`:
/// a function of the document text and the replacement texts alone.
pub uninterp spec fn html_of(text: Seq<char>, texts: Seq<Seq<char>>) -> Seq<char>;

/// Relies on pulldown_cmark::html::push_html: re-parses `text` with the
/// same options as `parse_markdown` — parsing is deterministic, so the
/// events are those of `events_of(text@)` — and renders them with each text
/// run's content replaced by the next entry of `texts`.
#[verifier::external_body]
fn render_html(text: &str, texts: Vec<String>) -> (r: String)
    requires
        texts.deep_view().len() == texts_of(events_of(text@)).len(),
    ensures
        r@ == html_of(text@, texts.deep_view()),
{
    let mut opts = Options::empty();
    opts.insert(Options::ENABLE_TABLES);
    opts.insert(Options::ENABLE_FOOTNOTES);
    opts.insert(Options::ENABLE_STRIKETHROUGH);
    opts.insert(Options::ENABLE_TASKLISTS);
    let mut it = texts.into_iter();
    let events = Parser::new_ext(text, opts).map(|ev| match ev {
        Event::Text(_) => Event::Text(CowStr::from(it.next().unwrap())),
        other => other,
    });
    let mut out = String::new();
    pulldown_cmark::html::push_html(&mut out, events);
    out
}

/// Parses one document, applies the orphan-prevention and title-capture
/// pass, and renders the result: returns the HTML fragment and the captured
/// page title.
pub fn markdown_to_html(content: &str) -> (r: (String, Option<String>))
    ensures
        r.0@ == html_of(content@, texts_of(transformed(events_of(content@)))),
        r.1.deep_view() == captured_title(events_of(content@)),
{
    let evs = parse_markdown(content);
    let (tevs, title) = transform_events(&evs);
    let texts = extract_texts(&tevs);
    proof {
        lemma_texts_of_transformed(events_of(content@));
    }
    let html = render_html(content, texts);
    (html, title)
}

/// The outcome of building one document: the template rendered against the
/// context made of the transformed fragment, the captured title and the
/// home flag. It is a function of the document text, its path, the two
/// roots, the template text, the site values and the build year alone, so
/// rebuilding unchanged sources with the same configuration in the same
/// year produces byte-identical output.
pub open spec fn page_outcome(
    content: Seq<char>,
    path: Seq<char>,
    src_dir: Seq<char>,
    src_ext: Seq<char>,
    template: Seq<char>,
    site_title: Seq<char>,
    copyright: Seq<char>,
    year: int,
) -> Result<Seq<char>, Seq<char>> {
    rendered_json_of(
        template,
        context_json(
            html_of(content, texts_of(transformed(events_of(content)))),
            path == home_path(src_dir, src_ext),
            captured_title(events_of(content)),
            site_title,
            copyright,
            year,
        ),
    )
}

/// Builds the final page for one document: the rendered fragment, the
/// captured title and the home flag for `path` are composed into the
/// template's context, and the template is rendered against it.
pub fn build_page(
    content: &str,
    path: &str,
    src_dir: &str,
    src_ext: &str,
    template: &str,
    conf: &Config,
    year: i64,
) -> (r: Result<String, TemplateError>)
    requires
        year > i64::MIN,
    ensures
        ({
            let outcome = page_outcome(
                content@,
                path@,
                src_dir@,
                src_ext@,
                template@,
                conf.title@,
                conf.copyright@,
                year as int,
            );
            match r {
                Ok(page) => outcome matches Ok(p) && page@ == p,
                Err(e) => outcome matches Err(m) && e.message@ == m,
            }
        }),
{
    let (mut body, title) = markdown_to_html(content);
    let home = is_home(path, src_dir, src_ext);
    let state = State { is_home: home, page_title: title };
    match wrap_with_year(&mut body, template, conf, &state, year) {
        Ok(()) => Ok(body),
        Err(e) => Err(e),
    }
}

/// A document whose events hold no start of a level-1 heading captures no
/// title.
pub proof fn lemma_no_h1_no_title(evs: Seq<MdEventView>)
    requires
        forall|i: int| 0 <= i < evs.len() ==> evs[i] != MdEventView::HeadingStart(1u32),
    ensures
        captured_title(evs) is None,
{
    lemma_no_h1_no_title_upto(evs, evs.len() as int);
}

proof fn lemma_no_h1_no_title_upto(evs: Seq<MdEventView>, n: int)
    requires
        0 <= n <= evs.len(),
        forall|i: int| 0 <= i < evs.len() ==> evs[i] != MdEventView::HeadingStart(1u32),
    ensures
        !flag_at(evs, n),
        title_at(evs, n) is None,
    decreases n,
{
    if n > 0 {
        lemma_no_h1_no_title_upto(evs, n - 1);
    }
}

/// A captured title is the content of a text run that was observed inside a
/// level-1 heading.
pub proof fn lemma_title_from_heading_text(evs: Seq<MdEventView>, t: Seq<char>)
    requires
        captured_title(evs) == Some(t),
    ensures
        exists|i: int| 0 <= i < evs.len() && evs[i] == MdEventView::Text(t) && flag_at(evs, i),
{
    lemma_title_from_heading_text_upto(evs, evs.len() as int, t);
}

proof fn lemma_title_from_heading_text_upto(evs: Seq<MdEventView>, n: int, t: Seq<char>)
    requires
        0 <= n <= evs.len(),
        title_at(evs, n) == Some(t),
    ensures
        exists|i: int| 0 <= i < n && evs[i] == MdEventView::Text(t) && flag_at(evs, i),
    decreases n,
{
    assert(n > 0);
    if evs[n - 1] == MdEventView::Text(t) && flag_at(evs, n - 1) {
        assert(0 <= n - 1 < n && evs[n - 1] == MdEventView::Text(t) && flag_at(evs, n - 1));
    } else {
        lemma_title_from_heading_text_upto(evs, n - 1, t);
    }
}

} // verus!
