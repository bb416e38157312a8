use crate::kind::Type;
use crate::text::spec_replace;
use crate::transform::transform;
use vstd::prelude::*;

verus! {

/// Whether `s` holds no opening brace.
pub open spec fn brace_free(s: Seq<char>) -> bool {
    forall|i: int| 0 <= i < s.len() ==> s[i] != '{'
}

/// Whether `t` is `pre`, the placeholder `{}` and `post`, and holds no
/// other brace that could begin a placeholder.
pub open spec fn splits_at_placeholder(t: Seq<char>, pre: Seq<char>, post: Seq<char>) -> bool {
    brace_free(pre) && brace_free(post) && t == pre + "{}"@ + post
}

/// Whether `t` holds the placeholder `{}` exactly once.
pub open spec fn has_one_placeholder(t: Seq<char>) -> bool {
    exists|pre: Seq<char>, post: Seq<char>| splits_at_placeholder(t, pre, post)
}

/// A text without an opening brace has no placeholder to fill.
pub proof fn lemma_nothing_to_fill(t: Seq<char>, expr: Seq<char>)
    requires
        brace_free(t),
    ensures
        spec_replace(t, "{}"@, expr) == t,
    decreases t.len(),
{
    reveal_strlit("{}");
    if t.len() >= 2 {
        assert(t.subrange(0, 2)[0] == t[0]);
        lemma_nothing_to_fill(t.skip(1), expr);
    }
}

/// Filling a template that holds the placeholder once puts the
/// expression in its place and leaves the rest as it is.
pub proof fn lemma_fill_one_placeholder(pre: Seq<char>, post: Seq<char>, expr: Seq<char>)
    requires
        brace_free(pre),
        brace_free(post),
    ensures
        spec_replace(pre + "{}"@ + post, "{}"@, expr) == pre + expr + post,
    decreases pre.len(),
{
    reveal_strlit("{}");
    let t = pre + "{}"@ + post;
    if pre.len() == 0 {
        assert(t.subrange(0, 2) =~= "{}"@);
        assert(t.skip(2) =~= post);
        lemma_nothing_to_fill(post, expr);
    } else {
        assert(t.subrange(0, 2)[0] == pre[0]);
        assert(t.skip(1) =~= pre.skip(1) + "{}"@ + post);
        lemma_fill_one_placeholder(pre.skip(1), post, expr);
    }
}

// The templates of the table, each split at its placeholder.

proof fn lemma_to_string()
    ensures
        splits_at_placeholder("{}.to_string()"@, ""@, ".to_string()"@),
{
    reveal_strlit("{}.to_string()");
    reveal_strlit("{}");
    reveal_strlit("");
    reveal_strlit(".to_string()");
    assert("{}.to_string()"@ =~= ""@ + "{}"@ + ".to_string()"@);
}

proof fn lemma_as_bytes()
    ensures
        splits_at_placeholder("{}.as_bytes()"@, ""@, ".as_bytes()"@),
{
    reveal_strlit("{}.as_bytes()");
    reveal_strlit("{}");
    reveal_strlit("");
    reveal_strlit(".as_bytes()");
    assert("{}.as_bytes()"@ =~= ""@ + "{}"@ + ".as_bytes()"@);
}

proof fn lemma_path_new()
    ensures
        splits_at_placeholder("Path::new({})"@, "Path::new("@, ")"@),
{
    reveal_strlit("Path::new({})");
    reveal_strlit("{}");
    reveal_strlit("Path::new(");
    reveal_strlit(")");
    assert("Path::new({})"@ =~= "Path::new("@ + "{}"@ + ")"@);
}

proof fn lemma_pathbuf_from()
    ensures
        splits_at_placeholder("PathBuf::from({})"@, "PathBuf::from("@, ")"@),
{
    reveal_strlit("PathBuf::from({})");
    reveal_strlit("{}");
    reveal_strlit("PathBuf::from(");
    reveal_strlit(")");
    assert("PathBuf::from({})"@ =~= "PathBuf::from("@ + "{}"@ + ")"@);
}

proof fn lemma_osstr_new()
    ensures
        splits_at_placeholder("OsStr::new({})"@, "OsStr::new("@, ")"@),
{
    reveal_strlit("OsStr::new({})");
    reveal_strlit("{}");
    reveal_strlit("OsStr::new(");
    reveal_strlit(")");
    assert("OsStr::new({})"@ =~= "OsStr::new("@ + "{}"@ + ")"@);
}

proof fn lemma_osstring_from()
    ensures
        splits_at_placeholder("OsString::from({})"@, "OsString::from("@, ")"@),
{
    reveal_strlit("OsString::from({})");
    reveal_strlit("{}");
    reveal_strlit("OsString::from(");
    reveal_strlit(")");
    assert("OsString::from({})"@ =~= "OsString::from("@ + "{}"@ + ")"@);
}

proof fn lemma_as_str()
    ensures
        splits_at_placeholder("{}.as_str()"@, ""@, ".as_str()"@),
{
    reveal_strlit("{}.as_str()");
    reveal_strlit("{}");
    reveal_strlit("");
    reveal_strlit(".as_str()");
    assert("{}.as_str()"@ =~= ""@ + "{}"@ + ".as_str()"@);
}

proof fn lemma_into_bytes()
    ensures
        splits_at_placeholder("{}.into_bytes()"@, ""@, ".into_bytes()"@),
{
    reveal_strlit("{}.into_bytes()");
    reveal_strlit("{}");
    reveal_strlit("");
    reveal_strlit(".into_bytes()");
    assert("{}.into_bytes()"@ =~= ""@ + "{}"@ + ".into_bytes()"@);
}

proof fn lemma_std_str_from_utf8()
    ensures
        splits_at_placeholder("std::str::from_utf8({})"@, "std::str::from_utf8("@, ")"@),
{
    reveal_strlit("std::str::from_utf8({})");
    reveal_strlit("{}");
    reveal_strlit("std::str::from_utf8(");
    reveal_strlit(")");
    assert("std::str::from_utf8({})"@ =~= "std::str::from_utf8("@ + "{}"@ + ")"@);
}

proof fn lemma_string_from_utf8_to_vec()
    ensures
        splits_at_placeholder("String::from_utf8({}.to_vec())"@, "String::from_utf8("@, ".to_vec())"@),
{
    reveal_strlit("String::from_utf8({}.to_vec())");
    reveal_strlit("{}");
    reveal_strlit("String::from_utf8(");
    reveal_strlit(".to_vec())");
    assert("String::from_utf8({}.to_vec())"@ =~= "String::from_utf8("@ + "{}"@ + ".to_vec())"@);
}

proof fn lemma_string_from_utf8_lossy()
    ensures
        splits_at_placeholder("String::from_utf8_lossy({})"@, "String::from_utf8_lossy("@, ")"@),
{
    reveal_strlit("String::from_utf8_lossy({})");
    reveal_strlit("{}");
    reveal_strlit("String::from_utf8_lossy(");
    reveal_strlit(")");
    assert("String::from_utf8_lossy({})"@ =~= "String::from_utf8_lossy("@ + "{}"@ + ")"@);
}

proof fn lemma_to_vec()
    ensures
        splits_at_placeholder("{}.to_vec()"@, ""@, ".to_vec()"@),
{
    reveal_strlit("{}.to_vec()");
    reveal_strlit("{}");
    reveal_strlit("");
    reveal_strlit(".to_vec()");
    assert("{}.to_vec()"@ =~= ""@ + "{}"@ + ".to_vec()"@);
}

proof fn lemma_osstr_from_bytes()
    ensures
        splits_at_placeholder("OsStr::from_bytes({})"@, "OsStr::from_bytes("@, ")"@),
{
    reveal_strlit("OsStr::from_bytes({})");
    reveal_strlit("{}");
    reveal_strlit("OsStr::from_bytes(");
    reveal_strlit(")");
    assert("OsStr::from_bytes({})"@ =~= "OsStr::from_bytes("@ + "{}"@ + ")"@);
}

proof fn lemma_cstr_from_bytes_with_nul()
    ensures
        splits_at_placeholder("CStr::from_bytes_with_nul({})"@, "CStr::from_bytes_with_nul("@, ")"@),
{
    reveal_strlit("CStr::from_bytes_with_nul({})");
    reveal_strlit("{}");
    reveal_strlit("CStr::from_bytes_with_nul(");
    reveal_strlit(")");
    assert("CStr::from_bytes_with_nul({})"@ =~= "CStr::from_bytes_with_nul("@ + "{}"@ + ")"@);
}

proof fn lemma_string_from_utf8()
    ensures
        splits_at_placeholder("String::from_utf8({})"@, "String::from_utf8("@, ")"@),
{
    reveal_strlit("String::from_utf8({})");
    reveal_strlit("{}");
    reveal_strlit("String::from_utf8(");
    reveal_strlit(")");
    assert("String::from_utf8({})"@ =~= "String::from_utf8("@ + "{}"@ + ")"@);
}

proof fn lemma_as_slice()
    ensures
        splits_at_placeholder("{}.as_slice()"@, ""@, ".as_slice()"@),
{
    reveal_strlit("{}.as_slice()");
    reveal_strlit("{}");
    reveal_strlit("");
    reveal_strlit(".as_slice()");
    assert("{}.as_slice()"@ =~= ""@ + "{}"@ + ".as_slice()"@);
}

proof fn lemma_osstring_from_vec()
    ensures
        splits_at_placeholder("OsString::from_vec({})"@, "OsString::from_vec("@, ")"@),
{
    reveal_strlit("OsString::from_vec({})");
    reveal_strlit("{}");
    reveal_strlit("OsString::from_vec(");
    reveal_strlit(")");
    assert("OsString::from_vec({})"@ =~= "OsString::from_vec("@ + "{}"@ + ")"@);
}

proof fn lemma_to_str()
    ensures
        splits_at_placeholder("{}.to_str()"@, ""@, ".to_str()"@),
{
    reveal_strlit("{}.to_str()");
    reveal_strlit("{}");
    reveal_strlit("");
    reveal_strlit(".to_str()");
    assert("{}.to_str()"@ =~= ""@ + "{}"@ + ".to_str()"@);
}

proof fn lemma_to_str_map_s_s_to_string()
    ensures
        splits_at_placeholder("{}.to_str().map(|s| s.to_string())"@, ""@, ".to_str().map(|s| s.to_string())"@),
{
    reveal_strlit("{}.to_str().map(|s| s.to_string())");
    reveal_strlit("{}");
    reveal_strlit("");
    reveal_strlit(".to_str().map(|s| s.to_string())");
    assert("{}.to_str().map(|s| s.to_string())"@ =~= ""@ + "{}"@ + ".to_str().map(|s| s.to_string())"@);
}

proof fn lemma_to_os_string()
    ensures
        splits_at_placeholder("{}.to_os_string()"@, ""@, ".to_os_string()"@),
{
    reveal_strlit("{}.to_os_string()");
    reveal_strlit("{}");
    reveal_strlit("");
    reveal_strlit(".to_os_string()");
    assert("{}.to_os_string()"@ =~= ""@ + "{}"@ + ".to_os_string()"@);
}

proof fn lemma_into_string()
    ensures
        splits_at_placeholder("{}.into_string()"@, ""@, ".into_string()"@),
{
    reveal_strlit("{}.into_string()");
    reveal_strlit("{}");
    reveal_strlit("");
    reveal_strlit(".into_string()");
    assert("{}.into_string()"@ =~= ""@ + "{}"@ + ".into_string()"@);
}

proof fn lemma_into_vec()
    ensures
        splits_at_placeholder("{}.into_vec()"@, ""@, ".into_vec()"@),
{
    reveal_strlit("{}.into_vec()");
    reveal_strlit("{}");
    reveal_strlit("");
    reveal_strlit(".into_vec()");
    assert("{}.into_vec()"@ =~= ""@ + "{}"@ + ".into_vec()"@);
}

proof fn lemma_as_os_str()
    ensures
        splits_at_placeholder("{}.as_os_str()"@, ""@, ".as_os_str()"@),
{
    reveal_strlit("{}.as_os_str()");
    reveal_strlit("{}");
    reveal_strlit("");
    reveal_strlit(".as_os_str()");
    assert("{}.as_os_str()"@ =~= ""@ + "{}"@ + ".as_os_str()"@);
}

proof fn lemma_to_path_buf()
    ensures
        splits_at_placeholder("{}.to_path_buf()"@, ""@, ".to_path_buf()"@),
{
    reveal_strlit("{}.to_path_buf()");
    reveal_strlit("{}");
    reveal_strlit("");
    reveal_strlit(".to_path_buf()");
    assert("{}.to_path_buf()"@ =~= ""@ + "{}"@ + ".to_path_buf()"@);
}

proof fn lemma_as_path()
    ensures
        splits_at_placeholder("{}.as_path()"@, ""@, ".as_path()"@),
{
    reveal_strlit("{}.as_path()");
    reveal_strlit("{}");
    reveal_strlit("");
    reveal_strlit(".as_path()");
    assert("{}.as_path()"@ =~= ""@ + "{}"@ + ".as_path()"@);
}

proof fn lemma_into_os_string()
    ensures
        splits_at_placeholder("{}.into_os_string()"@, ""@, ".into_os_string()"@),
{
    reveal_strlit("{}.into_os_string()");
    reveal_strlit("{}");
    reveal_strlit("");
    reveal_strlit(".into_os_string()");
    assert("{}.into_os_string()"@ =~= ""@ + "{}"@ + ".into_os_string()"@);
}

proof fn lemma_to_bytes()
    ensures
        splits_at_placeholder("{}.to_bytes()"@, ""@, ".to_bytes()"@),
{
    reveal_strlit("{}.to_bytes()");
    reveal_strlit("{}");
    reveal_strlit("");
    reveal_strlit(".to_bytes()");
    assert("{}.to_bytes()"@ =~= ""@ + "{}"@ + ".to_bytes()"@);
}

proof fn lemma_cstring_from()
    ensures
        splits_at_placeholder("CString::from({})"@, "CString::from("@, ")"@),
{
    reveal_strlit("CString::from({})");
    reveal_strlit("{}");
    reveal_strlit("CString::from(");
    reveal_strlit(")");
    assert("CString::from({})"@ =~= "CString::from("@ + "{}"@ + ")"@);
}

proof fn lemma_as_c_str()
    ensures
        splits_at_placeholder("{}.as_c_str()"@, ""@, ".as_c_str()"@),
{
    reveal_strlit("{}.as_c_str()");
    reveal_strlit("{}");
    reveal_strlit("");
    reveal_strlit(".as_c_str()");
    assert("{}.as_c_str()"@ =~= ""@ + "{}"@ + ".as_c_str()"@);
}

proof fn lemma_map_s_s_to_string()
    ensures
        splits_at_placeholder("{}.map(|s| s.to_string())"@, ""@, ".map(|s| s.to_string())"@),
{
    reveal_strlit("{}.map(|s| s.to_string())");
    reveal_strlit("{}");
    reveal_strlit("");
    reveal_strlit(".map(|s| s.to_string())");
    assert("{}.map(|s| s.to_string())"@ =~= ""@ + "{}"@ + ".map(|s| s.to_string())"@);
}

proof fn lemma_map_cstring_from()
    ensures
        splits_at_placeholder("{}.map(CString::from)"@, ""@, ".map(CString::from)"@),
{
    reveal_strlit("{}.map(CString::from)");
    reveal_strlit("{}");
    reveal_strlit("");
    reveal_strlit(".map(CString::from)");
    assert("{}.map(CString::from)"@ =~= ""@ + "{}"@ + ".map(CString::from)"@);
}

/// Every template of the table holds the placeholder exactly once.
pub proof fn lemma_templates_have_one_placeholder(t1: Type, t2: Type)
    requires
        transform(t1, t2) is Some,
    ensures
        has_one_placeholder(transform(t1, t2).unwrap().format@),
{
    lemma_to_string();
    lemma_as_bytes();
    lemma_path_new();
    lemma_pathbuf_from();
    lemma_osstr_new();
    lemma_osstring_from();
    lemma_as_str();
    lemma_into_bytes();
    lemma_std_str_from_utf8();
    lemma_string_from_utf8_to_vec();
    lemma_string_from_utf8_lossy();
    lemma_to_vec();
    lemma_osstr_from_bytes();
    lemma_cstr_from_bytes_with_nul();
    lemma_string_from_utf8();
    lemma_as_slice();
    lemma_osstring_from_vec();
    lemma_to_str();
    lemma_to_str_map_s_s_to_string();
    lemma_to_os_string();
    lemma_into_string();
    lemma_into_vec();
    lemma_as_os_str();
    lemma_to_path_buf();
    lemma_as_path();
    lemma_into_os_string();
    lemma_to_bytes();
    lemma_cstring_from();
    lemma_as_c_str();
    lemma_map_s_s_to_string();
    lemma_map_cstring_from();
}

/// What filling the template of a registered conversion gives: the
/// template with the expression in the place of its one placeholder.
pub proof fn lemma_format_expr_fills_the_placeholder(t1: Type, t2: Type, expr: Seq<char>)
    requires
        transform(t1, t2) is Some,
    ensures
        exists|pre: Seq<char>, post: Seq<char>|
            splits_at_placeholder(transform(t1, t2).unwrap().format@, pre, post) && transform(
                t1,
                t2,
            ).unwrap().spec_format_expr(expr) == pre + expr + post,
{
    lemma_templates_have_one_placeholder(t1, t2);
    let format = transform(t1, t2).unwrap().format@;
    let (pre, post) = choose|pre: Seq<char>, post: Seq<char>|
        splits_at_placeholder(format, pre, post);
    lemma_fill_one_placeholder(pre, post, expr);
}

} // verus!
