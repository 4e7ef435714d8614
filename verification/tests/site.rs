use distillate::markdown_to_html::build_page;
use distillate::Config;

fn conf() -> Config {
    Config {
        title: "My Site".to_owned(),
        copyright: "Someone".to_owned(),
        template_path: "tpl.html".to_owned(),
    }
}

const TPL: &str = "<title>{{page.title}}</title>\n\
                   {{#if page.[is-home]}}<nav>home</nav>{{/if}}\n\
                   {{{page.body}}}\n\
                   <p>(c) {{site.year}} {{site.copyright}}</p>";

#[test]
fn home_document_builds_completely() {
    let page = build_page(
        "# Home\n\nHello world.",
        "src/index.md",
        "src",
        "md",
        TPL,
        &conf(),
        2024,
    )
    .unwrap();
    assert_eq!(
        page,
        "<title>Home</title>\n<nav>home</nav>\n\
         <h1>Home</h1>\n<p>Hello\u{00A0}world.</p>\n\n\
         <p>(c) 2024 Someone</p>"
    );
}

#[test]
fn nested_document_is_not_home() {
    let page = build_page(
        "# Team\n\nWho we are.",
        "src/about/team.md",
        "src",
        "md",
        TPL,
        &conf(),
        2024,
    )
    .unwrap();
    assert!(!page.contains("<nav>home</nav>"));
    assert!(page.contains("<title>Team</title>"));
    assert!(page.contains("<p>Who we\u{00A0}are.</p>"));
}

#[test]
fn rebuilding_the_same_source_is_byte_identical() {
    let a = build_page("# T\n\nx y z.", "src/a.md", "src", "md", TPL, &conf(), 2024).unwrap();
    let b = build_page("# T\n\nx y z.", "src/a.md", "src", "md", TPL, &conf(), 2024).unwrap();
    assert_eq!(a, b);
}

#[test]
fn broken_template_fails_the_build() {
    let r = build_page("x", "src/a.md", "src", "md", "{{#each}}", &conf(), 2024);
    assert!(r.is_err());
}
