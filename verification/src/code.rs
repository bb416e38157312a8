use crate::string_set::{in_order, lemma_ascending_no_duplicates, lemma_in_order, StringSet};
use crate::text::{join, spec_join};
use vstd::prelude::*;
use vstd::string::*;

verus! {

/// The path of the item `name` of the module `pre`.
pub open spec fn full_path(pre: Seq<char>, name: Seq<char>) -> Seq<char> {
    pre + "::"@ + name
}

/// The one import that stands for the items `a` and `b` of the module
/// `pre`.
pub open spec fn grouped(pre: Seq<char>, a: Seq<char>, b: Seq<char>) -> Seq<char> {
    pre + "::{"@ + a + ", "@ + b + "}"@
}

/// `uses` with the imports of `a` and of `b` merged into one, where it
/// holds both.
pub open spec fn combine_pair(
    uses: Set<Seq<char>>,
    pre: Seq<char>,
    a: Seq<char>,
    b: Seq<char>,
) -> Set<Seq<char>> {
    if uses.contains(full_path(pre, a)) && uses.contains(full_path(pre, b)) {
        uses.remove(full_path(pre, a)).remove(full_path(pre, b)).insert(grouped(pre, a, b))
    } else {
        uses
    }
}

/// `uses` after grouping: of three pairs of sibling items, each is merged
/// where both are imported.
pub open spec fn combined(uses: Set<Seq<char>>) -> Set<Seq<char>> {
    let first = combine_pair(uses, "std::ffi"@, "CStr"@, "CString"@);
    let second = combine_pair(first, "std::ffi"@, "OsStr"@, "OsString"@);
    combine_pair(second, "std::path"@, "Path"@, "PathBuf"@)
}

/// The statement that imports `path`.
pub open spec fn use_line(path: Seq<char>) -> Seq<char> {
    "use "@ + path + ";"@
}

/// The import statement of each of `paths`.
pub open spec fn use_lines(paths: Seq<Seq<char>>) -> Seq<Seq<char>> {
    Seq::new(paths.len(), |i: int| use_line(paths[i]))
}

/// The text of a source file that imports `paths` and holds
/// `functions`: one import to a line, an empty line, the functions.
pub open spec fn source_text(paths: Seq<Seq<char>>, functions: Seq<char>) -> Seq<char> {
    spec_join(use_lines(paths), "\n"@) + "\n\n"@ + functions
}

/// The source that a pass has generated so far: the paths to import and
/// the text of the functions.
#[derive(Debug)]
pub struct Code {
    pub uses: StringSet,
    pub functions: String,
}

impl Default for Code {
    fn default() -> (r: Code)
        ensures
            r.uses@ == Set::<Seq<char>>::empty(),
            r.functions@ == Seq::<char>::empty(),
    {
        Code { uses: StringSet::new(), functions: String::new() }
    }
}

/// `pre`, `mid` and `post` in a row.
fn concat3(pre: &str, mid: &str, post: &str) -> (r: String)
    ensures
        r@ == pre@ + mid@ + post@,
{
    let mut r = String::from_str(pre);
    r.append(mid);
    r.append(post);
    r
}

/// Merges the imports of `a` and of `b` into one, where `uses` holds
/// both.
fn combine(uses: &mut StringSet, pre: &str, a: &str, b: &str)
    ensures
        final(uses)@ == combine_pair(old(uses)@, pre@, a@, b@),
{
    let full_a = concat3(pre, "::", a);
    let full_b = concat3(pre, "::", b);
    if uses.contains(full_a.as_str()) && uses.contains(full_b.as_str()) {
        uses.remove(full_a.as_str());
        uses.remove(full_b.as_str());
        let mut both = concat3(pre, "::{", a);
        both.append(", ");
        both.append(b);
        both.append("}");
        uses.insert(both);
    }
}

impl Code {
    /// The imports after grouping, in ascending order and none twice.
    pub fn combine_uses(&self) -> (r: StringSet)
        ensures
            r@ == combined(self.uses@),
            r.order() == in_order(combined(self.uses@)),
            r.order().no_duplicates(),
    {
        let mut uses = self.uses.clone();
        combine(&mut uses, "std::ffi", "CStr", "CString");
        combine(&mut uses, "std::ffi", "OsStr", "OsString");
        combine(&mut uses, "std::path", "Path", "PathBuf");
        proof {
            use_type_invariant(&uses);
            lemma_in_order(uses.order());
            lemma_ascending_no_duplicates(uses.order());
        }
        uses
    }

    /// The text of the source file: the grouped imports in ascending
    /// order, then the functions.
    pub fn gen(&self) -> (out: String)
        ensures
            out@ == source_text(in_order(combined(self.uses@)), self.functions@),
    {
        let uses = self.combine_uses();
        let ghost paths = uses.order();
        let mut lines: Vec<String> = Vec::new();
        let mut i: usize = 0;
        while i < uses.len()
            invariant
                i <= uses.order().len(),
                paths == uses.order(),
                lines@.len() == i,
                lines.deep_view() == use_lines(paths.take(i as int)),
            decreases uses.order().len() - i,
        {
            let line = concat3("use ", uses.get(i).as_str(), ";");
            let ghost before = lines.deep_view();
            lines.push(line);
            i = i + 1;
            proof {
                let next = use_lines(paths.take(i as int));
                assert forall|k: int| 0 <= k < i implies lines.deep_view()[k] == next[k] by {
                    if k < i - 1 {
                        assert(before[k] == use_lines(paths.take(i - 1))[k]);
                    }
                }
            }
        }
        assert(paths.take(i as int) =~= paths);
        let mut out = join(&lines, "\n");
        out.append("\n\n");
        out.append(self.functions.as_str());
        out
    }
}

/// Whether `set` provides the import `path`: as it is, or within the one
/// import that stands for it and its sibling.
pub open spec fn provides(set: Set<Seq<char>>, path: Seq<char>) -> bool {
    ||| set.contains(path)
    ||| provides_grouped(set, path, "std::ffi"@, "CStr"@, "CString"@)
    ||| provides_grouped(set, path, "std::ffi"@, "OsStr"@, "OsString"@)
    ||| provides_grouped(set, path, "std::path"@, "Path"@, "PathBuf"@)
}

/// Whether `path` is the item `a` or the item `b` of the module `pre`,
/// and `set` holds the one import that stands for both.
pub open spec fn provides_grouped(
    set: Set<Seq<char>>,
    path: Seq<char>,
    pre: Seq<char>,
    a: Seq<char>,
    b: Seq<char>,
) -> bool {
    (path == full_path(pre, a) || path == full_path(pre, b)) && set.contains(grouped(pre, a, b))
}

/// Grouping loses no import: what was imported before is provided
/// after.
pub proof fn lemma_grouping_keeps_imports(uses: Set<Seq<char>>, path: Seq<char>)
    requires
        uses.contains(path),
    ensures
        provides(combined(uses), path),
{
    reveal_strlit("std::ffi");
    reveal_strlit("std::path");
    reveal_strlit("CStr");
    reveal_strlit("CString");
    reveal_strlit("OsStr");
    reveal_strlit("OsString");
    reveal_strlit("Path");
    reveal_strlit("PathBuf");
    reveal_strlit("::");
    reveal_strlit("::{");
    reveal_strlit(", ");
    reveal_strlit("}");
    // A grouped import is longer than every path that grouping takes out,
    // so that none is taken out again.
    assert(full_path("std::ffi"@, "CStr"@).len() == 14);
    assert(full_path("std::ffi"@, "CString"@).len() == 17);
    assert(full_path("std::ffi"@, "OsStr"@).len() == 15);
    assert(full_path("std::ffi"@, "OsString"@).len() == 18);
    assert(full_path("std::path"@, "Path"@).len() == 15);
    assert(full_path("std::path"@, "PathBuf"@).len() == 18);
    assert(grouped("std::ffi"@, "CStr"@, "CString"@).len() == 25);
    assert(grouped("std::ffi"@, "OsStr"@, "OsString"@).len() == 27);
    assert(grouped("std::path"@, "Path"@, "PathBuf"@).len() == 26);
}

} // verus!
