use crate::html::{html_section, section_text};
use crate::kind::Type;
use syntect::highlighting::{Color, Theme, ThemeSet};
use syntect::parsing::{SyntaxReference, SyntaxSet};
use vstd::prelude::*;
use vstd::string::*;

verus! {

/// The syntaxes that syntect knows. Nothing inside is seen here.
#[verifier::external_type_specification]
#[verifier::external_body]
pub struct ExSyntaxSet(syntect::parsing::SyntaxSet);

/// One syntax of a `SyntaxSet`. Nothing inside is seen here.
#[verifier::external_type_specification]
#[verifier::external_body]
pub struct ExSyntaxReference(syntect::parsing::SyntaxReference);

/// A colour theme of syntect. Nothing inside is seen here.
#[verifier::external_type_specification]
#[verifier::external_body]
pub struct ExTheme(syntect::highlighting::Theme);

/// The themes that syntect knows, by name. Nothing inside is seen here.
#[verifier::external_type_specification]
#[verifier::external_body]
pub struct ExThemeSet(syntect::highlighting::ThemeSet);

/// The error of syntect. Nothing inside is seen here.
#[verifier::external_type_specification]
#[verifier::external_body]
pub struct ExSyntectError(syntect::Error);

/// Whether `ss` is the set of syntaxes that syntect carries, as
/// `SyntaxSet::load_defaults_newlines` loads it.
pub uninterp spec fn is_default_syntaxes(ss: &SyntaxSet) -> bool;

/// Whether `themes` is the set of themes that syntect carries, as
/// `ThemeSet::load_defaults` loads it.
pub uninterp spec fn is_default_themes(themes: &ThemeSet) -> bool;

/// The theme that the themes which syntect carries hold under `name`,
/// if they hold one.
pub uninterp spec fn default_theme(name: Seq<char>) -> Option<Theme>;

/// The syntax that `SyntaxSet::find_syntax_by_extension` finds among
/// the syntaxes which syntect carries for files with the given extension,
/// if it finds one.
pub uninterp spec fn default_syntax(extension: Seq<char>) -> Option<SyntaxReference>;

/// Whether `syntax` is one of the syntaxes of `ss`, so that what it
/// refers to is found in `ss`.
pub uninterp spec fn syntax_in(ss: &SyntaxSet, syntax: &SyntaxReference) -> bool;

/// `theme` with the given colour as the background of its settings.
pub uninterp spec fn with_background(theme: Theme, r: u8, g: u8, b: u8, a: u8) -> Theme;

/// The HTML that `highlighted_html_for_string` makes of `code` with the
/// given syntaxes, syntax and theme, or nothing where it fails.
pub uninterp spec fn highlighted_html(
    code: Seq<char>,
    ss: &SyntaxSet,
    syntax: &SyntaxReference,
    theme: &Theme,
) -> Option<Seq<char>>;

/// The names of the themes that syntect carries, as the documentation of
/// `ThemeSet::load_defaults` lists the keys of its map.
pub open spec fn default_theme_names() -> Set<Seq<char>> {
    set![
        "base16-ocean.dark"@,
        "base16-eighties.dark"@,
        "base16-mocha.dark"@,
        "base16-ocean.light"@,
        "InspiredGitHub"@,
        "Solarized (dark)"@,
        "Solarized (light)"@,
    ]
}

/// `SyntaxSet::load_defaults_newlines` gives the syntaxes that syntect
/// carries.
pub assume_specification[ syntect::parsing::SyntaxSet::load_defaults_newlines ]() -> (r:
    syntect::parsing::SyntaxSet)
    ensures
        is_default_syntaxes(&r),
;

/// `ThemeSet::load_defaults` gives the themes that syntect carries.
pub assume_specification[ syntect::highlighting::ThemeSet::load_defaults ]() -> (r:
    syntect::highlighting::ThemeSet)
    ensures
        is_default_themes(&r),
;

/// `highlighted_html_for_string` gives the text as coloured HTML, or the
/// error of the parser; which of the two, and the HTML, depend on its
/// four arguments alone. A syntax refers into the set that it comes from
/// by position, and with another set the parser may panic; so may it on
/// a set built by hand from a syntax without a start. The call is
/// therefore admitted only for a syntax of the set, and the set that
/// syntect carries.
pub assume_specification[ syntect::html::highlighted_html_for_string ](
    s: &str,
    ss: &syntect::parsing::SyntaxSet,
    syntax: &syntect::parsing::SyntaxReference,
    theme: &syntect::highlighting::Theme,
) -> (r: Result<std::string::String, syntect::Error>)
    requires
        is_default_syntaxes(ss),
        syntax_in(ss, syntax),
    ensures
        r is Ok <==> highlighted_html(s@, ss, syntax, theme) is Some,
        r is Ok ==> r.unwrap()@ == highlighted_html(s@, ss, syntax, theme).unwrap(),
;

/// A copy of the theme that `themes` holds under `name`, if there is
/// one. Looks it up in the public map of the `ThemeSet`. Of the themes
/// that syntect carries the result is named, and there is one exactly
/// for the names that syntect documents.
#[verifier::external_body]
fn theme_named(themes: &ThemeSet, name: &str) -> (r: Option<Theme>)
    ensures
        is_default_themes(themes) ==> r == default_theme(name@),
        is_default_themes(themes) ==> (r is Some <==> default_theme_names().contains(name@)),
{
    themes.themes.get(name).cloned()
}

/// Sets the background colour in the settings of `theme`.
#[verifier::external_body]
fn set_background(theme: &mut Theme, r: u8, g: u8, b: u8, a: u8)
    ensures
        *final(theme) == with_background(*old(theme), r, g, b, a),
{
    theme.settings.background = Some(Color { r, g, b, a });
}

/// A copy of what `SyntaxSet::find_syntax_by_extension` finds: the syntax
/// for files with the given extension, if `ss` has one. What is found is
/// a syntax of `ss`; among the syntaxes that syntect carries it is named.
#[verifier::external_body]
fn syntax_by_extension(ss: &SyntaxSet, extension: &str) -> (r: Option<SyntaxReference>)
    ensures
        r matches Some(syntax) ==> syntax_in(ss, &syntax),
        is_default_syntaxes(ss) ==> r == default_syntax(extension@),
{
    ss.find_syntax_by_extension(extension).cloned()
}

/// Why a page cannot be rendered.
#[derive(Clone, Copy, Debug, PartialEq, Eq, Structural)]
pub enum RenderError {
    /// The themes hold none of the wanted name.
    MissingTheme,
    /// The syntaxes hold none for the wanted file extension.
    MissingSyntax,
    /// The highlighter failed on a source text.
    Highlight,
}

/// A colour, by its red, green, blue and alpha parts.
#[derive(Clone, Copy, Debug, PartialEq, Eq, Structural)]
pub struct Rgba {
    pub r: u8,
    pub g: u8,
    pub b: u8,
    pub a: u8,
}

/// The pale background on which the page shows its code.
pub open spec fn pale() -> Rgba {
    Rgba { r: 243, g: 246, b: 250, a: 255 }
}

/// `theme` on the background `colour`.
pub open spec fn on_background(theme: Theme, colour: Rgba) -> Theme {
    with_background(theme, colour.r, colour.g, colour.b, colour.a)
}

/// Colours source text as HTML. Its syntax is one of its syntaxes, and
/// these are the ones that syntect carries. Beside the values of syntect
/// that do the work it keeps what it was made for: the name of the
/// theme, the file extension of the language and the background colour.
pub struct Highlighter {
    ss: SyntaxSet,
    syntax: SyntaxReference,
    theme: Theme,
    theme_name: String,
    extension: String,
    background: Rgba,
}

impl Highlighter {
    #[verifier::type_invariant]
    spec fn inv(&self) -> bool {
        is_default_syntaxes(&self.ss) && syntax_in(&self.ss, &self.syntax)
    }

    /// The name of the theme that the highlighter was made for.
    pub closed spec fn spec_theme_name(&self) -> Seq<char> {
        self.theme_name@
    }

    /// The file extension of the language that the highlighter was made
    /// for.
    pub closed spec fn spec_extension(&self) -> Seq<char> {
        self.extension@
    }

    /// The background colour that the highlighter was made with.
    pub closed spec fn spec_background(&self) -> Rgba {
        self.background
    }

    /// The syntaxes that the highlighter parses with.
    pub closed spec fn syntaxes(&self) -> SyntaxSet {
        self.ss
    }

    /// The syntax of the highlighter's language.
    pub closed spec fn syntax(&self) -> SyntaxReference {
        self.syntax
    }

    /// The theme that the highlighter colours with.
    pub closed spec fn theme(&self) -> Theme {
        self.theme
    }

    /// What the highlighter makes of `code`: the HTML, or nothing where
    /// syntect fails on the text.
    pub open spec fn spec_highlight(&self, code: Seq<char>) -> Option<Seq<char>> {
        highlighted_html(code, &self.syntaxes(), &self.syntax(), &self.theme())
    }

    /// Whether the highlighter is the one for the given theme and
    /// extension on the given background: its theme is the one that
    /// syntect carries under the name, with that background; its syntax is
    /// the one that syntect carries for the extension; and its syntaxes are
    /// those that syntect carries.
    pub open spec fn is_for(&self, theme_name: Seq<char>, extension: Seq<char>, colour: Rgba) -> bool {
        &&& default_theme(theme_name) is Some
        &&& default_syntax(extension) is Some
        &&& self.theme() == on_background(default_theme(theme_name).unwrap(), colour)
        &&& self.syntax() == default_syntax(extension).unwrap()
        &&& is_default_syntaxes(&self.syntaxes())
        &&& self.spec_theme_name() == theme_name
        &&& self.spec_extension() == extension
        &&& self.spec_background() == colour
    }

    /// A highlighter for Rust, in the theme `InspiredGitHub` on a pale
    /// background. syntect carries that theme, so this succeeds exactly
    /// if it carries a syntax for files that end in `rs`.
    pub fn new() -> (r: Result<Highlighter, RenderError>)
        ensures
            default_syntax("rs"@) is Some ==> (r matches Ok(h) && h.is_for(
                "InspiredGitHub"@,
                "rs"@,
                pale(),
            )),
            default_syntax("rs"@) is None ==> (r matches Err(e) && e == RenderError::MissingSyntax),
    {
        Highlighter::with("InspiredGitHub", "rs")
    }

    /// A highlighter for files with the given extension, in the theme
    /// of the given name on a pale background. It succeeds exactly if
    /// syntect carries a theme of that name, which it does for the names
    /// that it documents, and a syntax for such files; a missing theme is
    /// reported before a missing syntax.
    pub fn with(theme_name: &str, extension: &str) -> (r: Result<Highlighter, RenderError>)
        ensures
            default_theme(theme_name@) is Some <==> default_theme_names().contains(theme_name@),
            default_theme(theme_name@) is None ==> (r matches Err(e) && e
                == RenderError::MissingTheme),
            default_theme(theme_name@) is Some && default_syntax(extension@) is None ==> (r matches Err(
                e,
            ) && e == RenderError::MissingSyntax),
            default_theme(theme_name@) is Some && default_syntax(extension@) is Some ==> (r matches Ok(
                h,
            ) && h.is_for(theme_name@, extension@, pale())),
    {
        let background = Rgba { r: 243, g: 246, b: 250, a: 255 };
        let ss = SyntaxSet::load_defaults_newlines();
        let ts = ThemeSet::load_defaults();
        let theme = match theme_named(&ts, theme_name) {
            Some(mut theme) => {
                set_background(&mut theme, background.r, background.g, background.b, background.a);
                Some(theme)
            },
            None => None,
        };
        let syntax = syntax_by_extension(&ss, extension);
        Highlighter::from_parts(ss, theme, syntax, theme_name, extension, background)
    }

    /// The highlighter of the given syntaxes, theme and syntax, where the
    /// lookups found both: a missing theme is reported before a missing
    /// syntax. The name, the extension and the colour are kept as what
    /// the parts were looked up and made with. The syntaxes are those
    /// that syntect carries, and the syntax is one of them.
    pub fn from_parts(
        ss: SyntaxSet,
        theme: Option<Theme>,
        syntax: Option<SyntaxReference>,
        theme_name: &str,
        extension: &str,
        background: Rgba,
    ) -> (r: Result<Highlighter, RenderError>)
        requires
            is_default_syntaxes(&ss),
            syntax matches Some(found) ==> syntax_in(&ss, &found),
        ensures
            theme is None ==> (r matches Err(e) && e == RenderError::MissingTheme),
            theme is Some && syntax is None ==> (r matches Err(e) && e
                == RenderError::MissingSyntax),
            theme is Some && syntax is Some ==> (r matches Ok(h) && {
                &&& h.syntaxes() == ss
                &&& h.theme() == theme.unwrap()
                &&& h.syntax() == syntax.unwrap()
                &&& h.spec_theme_name() == theme_name@
                &&& h.spec_extension() == extension@
                &&& h.spec_background() == background
            }),
    {
        let theme = match theme {
            Some(theme) => theme,
            None => {
                return Err(RenderError::MissingTheme);
            },
        };
        let syntax = match syntax {
            Some(syntax) => syntax,
            None => {
                return Err(RenderError::MissingSyntax);
            },
        };
        Ok(
            Highlighter {
                ss,
                syntax,
                theme,
                theme_name: String::from_str(theme_name),
                extension: String::from_str(extension),
                background,
            },
        )
    }

    /// The name of the theme that the highlighter was made for.
    pub fn theme_name(&self) -> (r: &str)
        ensures
            r@ == self.spec_theme_name(),
    {
        self.theme_name.as_str()
    }

    /// The file extension of the language that the highlighter was made
    /// for.
    pub fn extension(&self) -> (r: &str)
        ensures
            r@ == self.spec_extension(),
    {
        self.extension.as_str()
    }

    /// The background colour that the highlighter was made with.
    pub fn background(&self) -> (r: Rgba)
        ensures
            r == self.spec_background(),
    {
        self.background
    }

    /// `code` as coloured HTML: what syntect makes of it with the
    /// highlighter's syntaxes, syntax and theme. Fails exactly where
    /// syntect does.
    pub fn highlight(&self, code: &str) -> (r: Result<String, RenderError>)
        ensures
            self.spec_highlight(code@) matches Some(html) ==> (r matches Ok(out) && out@ == html),
            self.spec_highlight(code@) is None ==> (r matches Err(e) && e
                == RenderError::Highlight),
    {
        proof {
            use_type_invariant(self);
        }
        html_or_error(
            syntect::html::highlighted_html_for_string(code, &self.ss, &self.syntax, &self.theme),
        )
    }
}

/// What the highlighter returns for an outcome of syntect: the HTML as it
/// is, or the one error that stands for every failure of syntect.
pub fn html_or_error(outcome: Result<String, syntect::Error>) -> (r: Result<String, RenderError>)
    ensures
        outcome matches Ok(html) ==> (r matches Ok(out) && out@ == html@),
        outcome is Err ==> (r matches Err(e) && e == RenderError::Highlight),
{
    match outcome {
        Ok(html) => Ok(html),
        Err(_) => Err(RenderError::Highlight),
    }
}

/// The sections of the given anchors with the given highlighted sources,
/// in a row.
pub open spec fn content_text(kinds: Seq<Type>, highlighted: Seq<Seq<char>>) -> Seq<char>
    decreases kinds.len(),
{
    if kinds.len() == 0 || highlighted.len() == 0 {
        Seq::empty()
    } else {
        content_text(kinds.drop_last(), highlighted.drop_last()) + section_text(
            kinds.last(),
            highlighted.last(),
        )
    }
}

/// The anchors of the given modules.
pub open spec fn kinds_of(gen: Seq<(Type, String)>) -> Seq<Type> {
    Seq::new(gen.len(), |i: int| gen[i].0)
}

/// The content of the page for the given modules and what the
/// highlighter made of the source of each: a section for each module, in
/// the given order.
pub fn html_content(gen: &Vec<(Type, String)>, highlighted: &Vec<String>) -> (out: String)
    requires
        gen@.len() == highlighted@.len(),
        forall|i: int| 0 <= i < gen@.len() ==> (#[trigger] gen@[i]).0.is_anchor(),
    ensures
        out@ == content_text(kinds_of(gen@), highlighted.deep_view()),
{
    let ghost kinds = kinds_of(gen@);
    let ghost all = highlighted.deep_view();
    let mut out = String::new();
    let mut i: usize = 0;
    while i < gen.len()
        invariant
            i <= gen.len(),
            gen@.len() == highlighted@.len(),
            forall|j: int| 0 <= j < gen@.len() ==> (#[trigger] gen@[j]).0.is_anchor(),
            kinds == kinds_of(gen@),
            all == highlighted.deep_view(),
            out@ == content_text(kinds.take(i as int), all.take(i as int)),
        decreases gen.len() - i,
    {
        out.append(html_section(gen[i].0, highlighted[i].as_str()).as_str());
        proof {
            assert(kinds.take(i + 1).drop_last() =~= kinds.take(i as int));
            assert(all.take(i + 1).drop_last() =~= all.take(i as int));
        }
        i = i + 1;
    }
    proof {
        assert(kinds.take(i as int) =~= kinds);
        assert(all.take(i as int) =~= all);
    }
    out
}

/// Whether the highlighter makes HTML of the source of module `i`.
pub open spec fn highlights(h: Highlighter, gen: Seq<(Type, String)>, i: int) -> bool {
    h.spec_highlight(gen[i].1@) is Some
}

/// Whether the highlighter makes HTML of the source of every module.
pub open spec fn highlights_all(h: Highlighter, gen: Seq<(Type, String)>) -> bool {
    forall|i: int| 0 <= i < gen.len() ==> #[trigger] highlights(h, gen, i)
}

/// What the highlighter makes of the sources of the modules.
pub open spec fn highlighted_sources(h: Highlighter, gen: Seq<(Type, String)>) -> Seq<Seq<char>> {
    Seq::new(gen.len(), |i: int| h.spec_highlight(gen[i].1@).unwrap())
}

/// The content of the page that the highlighter gives for the modules:
/// a section for each with its source highlighted, or the error where
/// the highlighter fails on a source.
pub open spec fn page_of(h: Highlighter, gen: Seq<(Type, String)>) -> Result<
    Seq<char>,
    RenderError,
> {
    if highlights_all(h, gen) {
        Ok(content_text(kinds_of(gen), highlighted_sources(h, gen)))
    } else {
        Err(RenderError::Highlight)
    }
}

/// Whether `r` is the outcome `page`: the same text, or the same error.
pub open spec fn is_page(r: Result<String, RenderError>, page: Result<Seq<char>, RenderError>) -> bool {
    match page {
        Ok(text) => r matches Ok(out) && out@ == text,
        Err(error) => r matches Err(e) && e == error,
    }
}

/// The content of the page with the given highlighter: for each anchor
/// and its generated source, in the given order, a section with the
/// source highlighted. Succeeds exactly if the highlighter makes HTML of
/// every source.
pub fn render_content(highlighter: &Highlighter, gen: &Vec<(Type, String)>) -> (r: Result<
    String,
    RenderError,
>)
    requires
        forall|i: int| 0 <= i < gen@.len() ==> (#[trigger] gen@[i]).0.is_anchor(),
    ensures
        is_page(r, page_of(*highlighter, gen@)),
{
    let mut highlighted: Vec<String> = Vec::new();
    let mut i: usize = 0;
    while i < gen.len()
        invariant
            i <= gen.len(),
            highlighted@.len() == i,
            forall|j: int| 0 <= j < i ==> #[trigger] highlights(*highlighter, gen@, j),
            forall|j: int|
                0 <= j < i ==> (#[trigger] highlighted@[j])@ == highlighter.spec_highlight(
                    gen@[j].1@,
                ).unwrap(),
        decreases gen.len() - i,
    {
        let html = match highlighter.highlight(gen[i].1.as_str()) {
            Ok(html) => html,
            Err(e) => {
                assert(!highlights(*highlighter, gen@, i as int));
                return Err(e);
            },
        };
        assert(highlights(*highlighter, gen@, i as int));
        highlighted.push(html);
        i = i + 1;
    }
    assert(highlighted.deep_view() =~= highlighted_sources(*highlighter, gen@));
    Ok(html_content(gen, &highlighted))
}

/// The content of the page: for each anchor and its generated source, in
/// the given order, a section with the source highlighted for Rust, in
/// the theme `InspiredGitHub` on a pale background. It fails where
/// syntect carries no syntax for Rust, and where the highlighter fails on
/// a source. Two loads of the syntaxes that syntect carries are not known
/// here to be one value, so the page is stated for a highlighter of that
/// kind.
pub fn gen_html_content(gen: &Vec<(Type, String)>) -> (r: Result<String, RenderError>)
    requires
        forall|i: int| 0 <= i < gen@.len() ==> (#[trigger] gen@[i]).0.is_anchor(),
    ensures
        default_syntax("rs"@) is None ==> (r matches Err(e) && e == RenderError::MissingSyntax),
        default_syntax("rs"@) is Some ==> exists|h: Highlighter|
            h.is_for("InspiredGitHub"@, "rs"@, pale()) && is_page(r, page_of(h, gen@)),
{
    let highlighter = match Highlighter::new() {
        Ok(highlighter) => highlighter,
        Err(e) => {
            return Err(e);
        },
    };
    let r = render_content(&highlighter, gen);
    assert(highlighter.is_for("InspiredGitHub"@, "rs"@, pale()) && is_page(
        r,
        page_of(highlighter, gen@),
    ));
    r
}

} // verus!
