use crate::kind::Type;
use vstd::prelude::*;
use vstd::string::*;

verus! {

/// The entry of the navigation list that leads to the section of the
/// anchor `t`.
pub open spec fn nav_item(t: Type) -> Seq<char> {
    "<li><a href=\"#"@ + t.spec_short_name() + "\">From <code>"@ + t.spec_html_type_str()
        + "</code></a></li>"@
}

/// The entries of the first `n` anchors.
pub open spec fn nav_items(n: nat) -> Seq<char>
    decreases n,
{
    if n == 0 {
        Seq::empty()
    } else {
        nav_items((n - 1) as nat) + nav_item(Type::spec_anchors()[n - 1])
    }
}

/// The navigation list: an entry for every anchor, in their order.
pub open spec fn nav_text() -> Seq<char> {
    "<ul>"@ + nav_items(Type::spec_anchors().len()) + "</ul>"@
}

/// The heading of the section of the anchor `t`, which the navigation
/// list links to.
pub open spec fn section_head(t: Type) -> Seq<char> {
    "<a name="@ + t.spec_short_name() + "><h2>From <code>"@ + t.spec_html_type_str()
        + "</code></h2></a>"@
}

/// The section of the anchor `t`: its heading, then the highlighted
/// source.
pub open spec fn section_text(t: Type, highlighted: Seq<char>) -> Seq<char> {
    section_head(t) + highlighted
}

/// The navigation list of the page.
pub fn gen_html_nav() -> (nav: String)
    ensures
        nav@ == nav_text(),
{
    let anchors = Type::anchors();
    let mut nav = String::from_str("<ul>");
    let mut i: usize = 0;
    while i < anchors.len()
        invariant
            anchors@ == Type::spec_anchors(),
            i <= anchors.len(),
            nav@ == "<ul>"@ + nav_items(i as nat),
        decreases anchors.len() - i,
    {
        let a = anchors[i];
        proof {
            Type::anchors_are_the_anchors();
        }
        nav.append("<li><a href=\"#");
        nav.append(a.short_name());
        nav.append("\">From <code>");
        nav.append(a.html_type_str().as_str());
        nav.append("</code></a></li>");
        i = i + 1;
    }
    nav.append("</ul>");
    nav
}

/// The section of the anchor `t` with the given highlighted source.
pub fn html_section(t: Type, highlighted: &str) -> (out: String)
    requires
        t.is_anchor(),
    ensures
        out@ == section_text(t, highlighted@),
{
    let mut out = String::from_str("<a name=");
    out.append(t.short_name());
    out.append("><h2>From <code>");
    out.append(t.html_type_str().as_str());
    out.append("</code></h2></a>");
    out.append(highlighted);
    out
}

} // verus!
