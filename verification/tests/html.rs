use string_conversions::highlight::{
    gen_html_content, html_content, html_or_error, render_content, Highlighter, RenderError, Rgba,
};
use string_conversions::html::{gen_html_nav, html_section};
use string_conversions::kind::Type;
use syntect::highlighting::ThemeSet;
use syntect::parsing::SyntaxSet;

#[test]
fn the_navigation_lists_every_anchor() {
    let nav = gen_html_nav();
    let mut expected = String::from("<ul>");
    for (short, ty) in [
        ("str", "&str"),
        ("string", "String"),
        ("u8_slice", "&[u8]"),
        ("u8_vec", "Vec&lt;u8&gt;"),
        ("path", "&Path"),
        ("path_buf", "PathBuf"),
        ("os_str", "&OsStr"),
        ("os_string", "OsString"),
        ("c_str", "&CStr"),
        ("c_string", "CString"),
    ] {
        expected.push_str(&format!(
            "<li><a href=\"#{}\">From <code>{}</code></a></li>",
            short, ty
        ));
    }
    expected.push_str("</ul>");
    assert_eq!(nav, expected);
}

#[test]
fn a_section_is_a_heading_and_the_source() {
    assert_eq!(
        html_section(Type::U8Vec, "<pre>code</pre>\n"),
        "<a name=u8_vec><h2>From <code>Vec&lt;u8&gt;</code></h2></a><pre>code</pre>\n"
    );
    assert_eq!(
        html_section(Type::Str, ""),
        "<a name=str><h2>From <code>&str</code></h2></a>"
    );
}

#[test]
fn the_highlighter_colours_rust_on_a_pale_background() {
    let highlighter = Highlighter::new().unwrap();
    let code = "pub fn f(input: &str) -> String {\n    input.to_string()\n}\n";
    let html = highlighter.highlight(code).unwrap();
    assert!(html.starts_with("<pre style=\"background-color:#f3f6fa;\">\n"), "{}", html);
    assert!(html.ends_with("</pre>\n"));
    assert!(html.contains("<span style="));
    assert!(html.contains("to_string"));
    assert_ne!(html, code);
    assert_eq!(highlighter.highlight(code).unwrap(), html);
}

#[test]
fn the_content_is_a_section_for_each_module() {
    let first = "pub fn a() {}\n".to_string();
    let second = "use std::path::Path;\n".to_string();
    let gen = vec![(Type::Str, first.clone()), (Type::PathBuf, second.clone())];
    let content = gen_html_content(&gen).unwrap();
    let highlighter = Highlighter::new().unwrap();
    let expected = [
        "<a name=str><h2>From <code>&str</code></h2></a>".to_string(),
        highlighter.highlight(&first).unwrap(),
        "<a name=path_buf><h2>From <code>PathBuf</code></h2></a>".to_string(),
        highlighter.highlight(&second).unwrap(),
    ]
    .concat();
    assert_eq!(content, expected);
    assert_eq!(gen_html_content(&Vec::new()), Ok(String::new()));
}

#[test]
fn a_theme_that_syntect_lacks() {
    assert_eq!(
        Highlighter::with("NoSuchTheme", "rs").err(),
        Some(RenderError::MissingTheme)
    );
}

#[test]
fn an_extension_that_syntect_has_no_syntax_for() {
    assert_eq!(
        Highlighter::with("InspiredGitHub", "no-such-extension").err(),
        Some(RenderError::MissingSyntax)
    );
    assert!(Highlighter::with("base16-ocean.dark", "py").is_ok());
}

#[test]
fn the_highlighter_keeps_what_it_was_made_for() {
    let h = Highlighter::new().unwrap();
    assert_eq!(h.theme_name(), "InspiredGitHub");
    assert_eq!(h.extension(), "rs");
    assert_eq!(h.background(), Rgba { r: 243, g: 246, b: 250, a: 255 });
    let h = Highlighter::with("base16-ocean.dark", "py").unwrap();
    assert_eq!(h.theme_name(), "base16-ocean.dark");
    assert_eq!(h.extension(), "py");
    assert_eq!(h.background(), Rgba { r: 243, g: 246, b: 250, a: 255 });
    assert!(h.highlight("x = 1\n").unwrap().starts_with("<pre style=\"background-color:#f3f6fa;\">"));
}

#[test]
fn a_highlighter_from_the_outcomes_of_the_lookups() {
    let ss = SyntaxSet::load_defaults_newlines();
    let ts = ThemeSet::load_defaults();
    let theme = ts.themes.get("InspiredGitHub").cloned();
    let syntax = ss.find_syntax_by_extension("rs").cloned();
    let white = Rgba { r: 255, g: 255, b: 255, a: 255 };
    assert_eq!(
        Highlighter::from_parts(ss.clone(), None, syntax.clone(), "none", "rs", white).err(),
        Some(RenderError::MissingTheme)
    );
    assert_eq!(
        Highlighter::from_parts(ss.clone(), None, None, "none", "none", white).err(),
        Some(RenderError::MissingTheme)
    );
    assert_eq!(
        Highlighter::from_parts(ss.clone(), theme.clone(), None, "InspiredGitHub", "none", white)
            .err(),
        Some(RenderError::MissingSyntax)
    );
    let h = Highlighter::from_parts(ss, theme, syntax, "InspiredGitHub", "rs", white).unwrap();
    assert_eq!(h.theme_name(), "InspiredGitHub");
    assert_eq!(h.extension(), "rs");
    assert_eq!(h.background(), white);
    let html = h.highlight("fn f() {}\n").unwrap();
    assert!(html.starts_with("<pre style=\"background-color:#ffffff;\">"), "{}", html);
}

#[test]
fn the_outcome_of_syntect_becomes_html_or_the_one_error() {
    assert_eq!(html_or_error(Ok("<pre></pre>".to_string())), Ok("<pre></pre>".to_string()));
    assert_eq!(html_or_error(Ok(String::new())), Ok(String::new()));
    assert_eq!(
        html_or_error(Err(syntect::Error::Fmt(std::fmt::Error))),
        Err(RenderError::Highlight)
    );
}

#[test]
fn the_content_for_given_highlighted_sources() {
    let gen = vec![(Type::Str, "a".to_string()), (Type::U8Vec, "b".to_string())];
    let highlighted = vec!["<pre>A</pre>".to_string(), "<pre>B</pre>".to_string()];
    assert_eq!(
        html_content(&gen, &highlighted),
        "<a name=str><h2>From <code>&str</code></h2></a><pre>A</pre>\
         <a name=u8_vec><h2>From <code>Vec&lt;u8&gt;</code></h2></a><pre>B</pre>"
    );
    assert_eq!(html_content(&Vec::new(), &Vec::new()), "");
}

#[test]
fn the_themes_that_syntect_carries() {
    let names = [
        "InspiredGitHub",
        "Solarized (dark)",
        "Solarized (light)",
        "base16-eighties.dark",
        "base16-mocha.dark",
        "base16-ocean.dark",
        "base16-ocean.light",
    ];
    let themes = ThemeSet::load_defaults();
    let keys: Vec<&str> = themes.themes.keys().map(|k| k.as_str()).collect();
    assert_eq!(keys, names);
    for name in names {
        assert!(Highlighter::with(name, "rs").is_ok(), "{}", name);
    }
    for name in ["", "inspiredgithub", "InspiredGitHub ", "Monokai"] {
        assert_eq!(Highlighter::with(name, "rs").err(), Some(RenderError::MissingTheme));
    }
}

#[test]
fn a_missing_theme_is_reported_before_a_missing_syntax() {
    assert_eq!(
        Highlighter::with("NoSuchTheme", "no-such-extension").err(),
        Some(RenderError::MissingTheme)
    );
}

#[test]
fn the_content_with_a_given_highlighter() {
    let highlighter = Highlighter::with("base16-ocean.dark", "rs").unwrap();
    let first = "pub fn a() {}\n".to_string();
    let second = "use std::path::Path;\n".to_string();
    let gen = vec![(Type::CStr, first.clone()), (Type::OsString, second.clone())];
    let expected = [
        "<a name=c_str><h2>From <code>&CStr</code></h2></a>".to_string(),
        highlighter.highlight(&first).unwrap(),
        "<a name=os_string><h2>From <code>OsString</code></h2></a>".to_string(),
        highlighter.highlight(&second).unwrap(),
    ]
    .concat();
    assert_eq!(render_content(&highlighter, &gen), Ok(expected));
    assert_eq!(render_content(&highlighter, &Vec::new()), Ok(String::new()));
    let rust = Highlighter::new().unwrap();
    assert_eq!(render_content(&rust, &gen), gen_html_content(&gen));
    assert_ne!(render_content(&rust, &gen), render_content(&highlighter, &gen));
}
