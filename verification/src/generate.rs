use crate::chains::{
    chain_valid, chains, conversion_chains, lemma_catalog_chains_valid,
    lemma_chains_between_anchors, step,
};
use crate::code::{combined, source_text, Code};
use crate::comment::{comment_text, lemma_plain_line, paragraph, plain_line, Comment};
use crate::text::occurs;
use crate::kind::Type;
use crate::string_set::{in_order, StringSet};
use crate::text::{join, spec_join};
use crate::transform::find_conversion;
use vstd::prelude::*;
use vstd::string::*;

verus! {

/// Why a pass stops. Either way the catalog is incomplete, and nothing
/// is generated.
#[derive(Clone, Copy, Debug, PartialEq, Eq, Structural)]
pub enum GenError {
    /// The catalog lists no chain from the first kind to the second.
    MissingChain { from: Type, to: Type },
    /// A chain steps from the first kind to the second, and no
    /// conversion is registered for that step.
    MissingTransform { from: Type, to: Type },
}

/// The expression that follows the first `n` steps of `chain`, applied
/// to the parameter `input`.
pub open spec fn expr_upto(chain: Seq<Type>, n: nat) -> Seq<char>
    decreases n,
{
    if n == 0 {
        "input"@
    } else {
        match step(chain, n - 1) {
            Some(conv) => conv.spec_format_expr(expr_upto(chain, (n - 1) as nat)),
            None => expr_upto(chain, (n - 1) as nat),
        }
    }
}

/// The expression that converts along the whole of `chain`.
pub open spec fn chain_expr(chain: Seq<Type>) -> Seq<char> {
    expr_upto(chain, (chain.len() - 1) as nat)
}

/// Whether step `i` of `chain` exists on Unix only.
pub open spec fn step_unix_only(chain: Seq<Type>, i: int) -> bool {
    step(chain, i) is Some && step(chain, i).unwrap().spec_unix_only()
}

/// Whether one of the first `n` steps of `chain` exists on Unix only.
pub open spec fn unix_only_upto(chain: Seq<Type>, n: int) -> bool {
    exists|i: int| 0 <= i < n && #[trigger] step_unix_only(chain, i)
}

/// Whether one of the steps of `chain` exists on Unix only.
pub open spec fn chain_unix_only(chain: Seq<Type>) -> bool {
    unix_only_upto(chain, chain.len() - 1)
}

/// Whether step `i` of `chain` needs the import `path`: for the kind
/// that it starts from, for the kind that it leads to, or for the
/// conversion between them.
pub open spec fn step_uses(chain: Seq<Type>, i: int, path: Seq<char>) -> bool {
    ||| chain[i].spec_uses().contains(path)
    ||| chain[i + 1].spec_uses().contains(path)
    ||| (step(chain, i) is Some && step(chain, i).unwrap().spec_uses().contains(path))
}

/// The imports that the first `n` steps of `chain` need.
pub open spec fn uses_upto(chain: Seq<Type>, n: int) -> Set<Seq<char>> {
    Set::new(|path: Seq<char>| exists|i: int| 0 <= i < n && #[trigger] step_uses(chain, i, path))
}

/// The imports that the steps of `chain` need.
pub open spec fn chain_uses(chain: Seq<Type>) -> Set<Seq<char>> {
    uses_upto(chain, chain.len() - 1)
}

/// Whether step `i` is the first step of `chain` for which no conversion
/// is registered.
pub open spec fn first_dangling(chain: Seq<Type>, i: int) -> bool {
    &&& 0 <= i < chain.len() - 1
    &&& step(chain, i) is None
    &&& forall|j: int| 0 <= j < i ==> (#[trigger] step(chain, j)) is Some
}

/// A chain folded into one conversion.
#[derive(Debug)]
pub struct ComposedConversion {
    /// The converting expression, over the parameter `input`.
    pub expr: String,
    /// The kind that the conversion takes.
    pub input: Type,
    /// The kind that it gives.
    pub output: Type,
    /// Whether a step of the chain exists on Unix only.
    pub unix_only: bool,
    /// The imports that the steps of the chain need.
    pub uses: StringSet,
}

impl ComposedConversion {
    /// What the name of the function ends in, behind the names of the two
    /// anchors: the mark of a function that exists on Unix only, then
    /// the mark of one that decodes lossily.
    pub fn suffix(&self) -> (r: String)
        ensures
            r@ == unix_marker(self.unix_only) + lossy_marker(self.output),
    {
        let mut suffix = String::new();
        if self.unix_only {
            suffix.append("_unix");
        }
        if self.output == Type::CowStr {
            suffix.append("_lossy");
        }
        suffix
    }

    /// Whether this is what `chain` folds into.
    pub open spec fn composes(self, chain: Seq<Type>) -> bool {
        &&& self.expr@ == chain_expr(chain)
        &&& self.input == chain.first()
        &&& self.output == chain.last()
        &&& self.unix_only == chain_unix_only(chain)
        &&& self.uses@ == chain_uses(chain)
    }
}

/// Folds `chain` into one conversion, step by step from the left: the
/// expression so far goes into the template of the next step. Fails at the
/// first step for which no conversion is registered.
pub fn compose(chain: &Vec<Type>) -> (r: Result<ComposedConversion, GenError>)
    requires
        chain.len() > 0,
    ensures
        chain_valid(chain@) ==> r is Ok && r.unwrap().composes(chain@),
        !chain_valid(chain@) ==> exists|i: int|
            first_dangling(chain@, i) && r == Err::<ComposedConversion, GenError>(
                GenError::MissingTransform { from: chain@[i], to: chain@[i + 1] },
            ),
{
    let mut expr = String::from_str("input");
    let mut unix_only = false;
    let mut uses = StringSet::new();
    let mut i: usize = 0;
    while i + 1 < chain.len()
        invariant
            i < chain.len(),
            forall|j: int| 0 <= j < i ==> (#[trigger] step(chain@, j)) is Some,
            expr@ == expr_upto(chain@, i as nat),
            unix_only == unix_only_upto(chain@, i as int),
            uses@ == uses_upto(chain@, i as int),
        decreases chain.len() - i,
    {
        let t3 = chain[i];
        let t4 = chain[i + 1];
        let conv = match find_conversion(t3, t4) {
            Some(conv) => conv,
            None => {
                assert(first_dangling(chain@, i as int));
                return Err(GenError::MissingTransform { from: t3, to: t4 });
            },
        };
        expr = conv.format_expr(expr);
        uses.extend(&t3.uses());
        uses.extend(&t4.uses());
        uses.extend(&conv.uses());
        if conv.unix_only() {
            unix_only = true;
        }
        proof {
            let n = i as int;
            assert(unix_only == unix_only_upto(chain@, n + 1)) by {
                if conv.spec_unix_only() {
                    assert(step_unix_only(chain@, n));
                }
            }
            assert forall|path: Seq<char>| uses@.contains(path) <==> uses_upto(
                chain@,
                n + 1,
            ).contains(path) by {
                assert(step_uses(chain@, n, path) ==> uses_upto(chain@, n + 1).contains(path));
            }
        }
        i = i + 1;
    }
    Ok(
        ComposedConversion {
            expr,
            input: chain[0],
            output: chain[chain.len() - 1],
            unix_only,
            uses,
        },
    )
}

/// What a generated function is made of, as plain text.
pub struct FunctionView {
    pub name: Seq<char>,
    pub input_type: Seq<char>,
    pub output_type: Seq<char>,
    pub body: Seq<char>,
    pub comment: Seq<Seq<char>>,
    pub unix_only: bool,
}

/// A generated function: one conversion from an anchor to an anchor.
#[derive(Debug)]
pub struct GeneratedFunction {
    pub name: String,
    /// The type of the parameter, as it is written in the signature.
    pub input_type: &'static str,
    /// The type of the result, as it is written in the signature.
    pub output_type: &'static str,
    /// The expression that the function returns.
    pub body: String,
    pub comment: Comment,
    /// Whether the function exists on Unix only. Its name and its comment
    /// say so too.
    pub unix_only: bool,
}

impl View for GeneratedFunction {
    type V = FunctionView;

    open spec fn view(&self) -> FunctionView {
        FunctionView {
            name: self.name@,
            input_type: self.input_type@,
            output_type: self.output_type@,
            body: self.body@,
            comment: self.comment@,
            unix_only: self.unix_only,
        }
    }
}

/// The notice in the comment of a function that exists on Unix only.
pub open spec fn unix_notice() -> Seq<char> {
    "This conversion is only allowed on Unix."@
}

/// The note on a kind that holds a text only if the input is valid
/// UTF-8.
pub open spec fn none_note() -> Seq<char> {
    "Returns None if the input is not valid UTF-8."@
}

/// The notice and the note on an absent text are plain lines, so that
/// as paragraphs they stay as they are.
pub proof fn lemma_notices_are_plain()
    ensures
        plain_line(unix_notice()),
        plain_line(none_note()),
{
    reveal_strlit("This conversion is only allowed on Unix.");
    reveal_strlit("Returns None if the input is not valid UTF-8.");
    let a = unix_notice();
    let b = none_note();
    let feed = seq!['\n'];
    let spaces = seq![' ', ' '];
    assert forall|i: int| !#[trigger] occurs(a, i, feed) by {
        if 0 <= i <= a.len() - 1 {
            assert(a.subrange(i, i + 1)[0] == a[i]);
        }
    }
    assert forall|i: int| !#[trigger] occurs(a, i, spaces) by {
        if 0 <= i <= a.len() - 2 {
            assert(a.subrange(i, i + 2)[0] == a[i]);
            assert(a.subrange(i, i + 2)[1] == a[i + 1]);
        }
    }
    assert forall|i: int| !#[trigger] occurs(b, i, feed) by {
        if 0 <= i <= b.len() - 1 {
            assert(b.subrange(i, i + 1)[0] == b[i]);
        }
    }
    assert forall|i: int| !#[trigger] occurs(b, i, spaces) by {
        if 0 <= i <= b.len() - 2 {
            assert(b.subrange(i, i + 2)[0] == b[i]);
            assert(b.subrange(i, i + 2)[1] == b[i + 1]);
        }
    }
}

/// What the name of a function that exists on Unix only ends in, before
/// the mark of a lossy one.
pub open spec fn unix_marker(unix_only: bool) -> Seq<char> {
    if unix_only {
        "_unix"@
    } else {
        Seq::empty()
    }
}

/// What the name of a function ends in that decodes lossily, which is one
/// that returns a `Cow<str>`.
pub open spec fn lossy_marker(output: Type) -> Seq<char> {
    if output == Type::CowStr {
        "_lossy"@
    } else {
        Seq::empty()
    }
}

/// The name of the function that converts from the anchor `anchor1` to
/// the anchor `anchor2`.
pub open spec fn function_name(anchor1: Type, anchor2: Type, unix_only: bool, output: Type) -> Seq<
    char,
> {
    anchor1.spec_short_name() + "_to_"@ + anchor2.spec_short_name() + unix_marker(unix_only)
        + lossy_marker(output)
}

/// The paragraphs of the comment above a function: the notice, if it
/// exists on Unix only, then the note on the kind that it returns, if
/// that kind has one.
pub open spec fn doc_comment(unix_only: bool, output: Type) -> Seq<Seq<char>> {
    let notice = if unix_only {
        seq![paragraph(unix_notice())]
    } else {
        Seq::empty()
    };
    let note = match output.spec_return_comment() {
        Some(text) => seq![paragraph(text)],
        None => Seq::empty(),
    };
    notice + note
}

/// The function that converts from `anchor1` to `anchor2` by the given
/// composed conversion.
pub open spec fn function_view(
    anchor1: Type,
    anchor2: Type,
    input: Type,
    output: Type,
    unix_only: bool,
    expr: Seq<char>,
) -> FunctionView {
    FunctionView {
        name: function_name(anchor1, anchor2, unix_only, output),
        input_type: input.spec_type_str(),
        output_type: output.spec_type_str(),
        body: expr,
        comment: doc_comment(unix_only, output),
        unix_only,
    }
}

/// The function that converts from `anchor1` to `anchor2` along `chain`.
pub open spec fn function_of(anchor1: Type, anchor2: Type, chain: Seq<Type>) -> FunctionView {
    function_view(
        anchor1,
        anchor2,
        chain.first(),
        chain.last(),
        chain_unix_only(chain),
        chain_expr(chain),
    )
}

/// The source text of a function: the comment, then the definition,
/// whose body is the expression alone.
pub open spec fn function_text(f: FunctionView) -> Seq<char> {
    comment_text(f.comment) + "pub fn "@ + f.name + "(input: "@ + f.input_type + ") -> "@
        + f.output_type + " {\n    "@ + f.body + "\n}"@
}

/// Makes the function that converts from `anchor1` to `anchor2` of a
/// composed conversion. The notice and the note on an absent text are
/// short enough to stay as they are written.
pub fn synthesize(anchor1: Type, anchor2: Type, composed: &ComposedConversion) -> (f:
    GeneratedFunction)
    requires
        anchor1.is_anchor(),
        anchor2.is_anchor(),
    ensures
        f@ == function_view(
            anchor1,
            anchor2,
            composed.input,
            composed.output,
            composed.unix_only,
            composed.expr@,
        ),
        composed.unix_only ==> f@.comment[0] == unix_notice(),
        composed.output.spec_return_comment() == Some(none_note()) ==> f@.comment.last()
            == none_note(),
{
    proof {
        lemma_notices_are_plain();
        lemma_plain_line(unix_notice());
        lemma_plain_line(none_note());
    }
    let mut name = String::from_str(anchor1.short_name());
    name.append("_to_");
    name.append(anchor2.short_name());
    name.append(composed.suffix().as_str());
    let mut comment = Comment::new();
    if composed.unix_only {
        comment.add_paragraph("This conversion is only allowed on Unix.");
    }
    if let Some(para) = composed.output.return_comment() {
        comment.add_paragraph(para);
    }
    let f = GeneratedFunction {
        name,
        input_type: composed.input.type_str(),
        output_type: composed.output.type_str(),
        body: composed.expr.clone(),
        comment,
        unix_only: composed.unix_only,
    };
    proof {
        let v = function_view(
            anchor1,
            anchor2,
            composed.input,
            composed.output,
            composed.unix_only,
            composed.expr@,
        );
        assert(f@.name =~= v.name);
        assert(f@.comment =~= v.comment);
    }
    f
}

impl GeneratedFunction {
    /// The source text of the function.
    pub fn render(&self) -> (out: String)
        ensures
            out@ == function_text(self@),
    {
        let mut out = self.comment.format();
        out.append("pub fn ");
        out.append(self.name.as_str());
        out.append("(input: ");
        out.append(self.input_type);
        out.append(") -> ");
        out.append(self.output_type);
        out.append(" {\n    ");
        out.append(self.body.as_str());
        out.append("\n}");
        out
    }
}

/// Generates the function that converts from `anchor1` to `anchor2` along
/// `chain`, and adds it to `code`: its text, followed by an empty line, to
/// the functions, its imports to the imports. Every step of the chain has
/// to have a conversion: a dangling step is a fault of the catalog, for
/// which no function is generated, and `compose` tells where a chain has
/// one.
pub fn gen_one_conversion(anchor1: Type, anchor2: Type, chain: &Vec<Type>, code: &mut Code)
    requires
        anchor1.is_anchor(),
        anchor2.is_anchor(),
        chain_valid(chain@),
    ensures
        final(code).functions@ == old(code).functions@ + function_text(
            function_of(anchor1, anchor2, chain@),
        ) + "\n\n"@,
        final(code).uses@ == old(code).uses@.union(chain_uses(chain@)),
        chain_unix_only(chain@) ==> paragraph(unix_notice()) == unix_notice(),
        chain@.last().spec_return_comment() == Some(none_note()) ==> paragraph(none_note())
            == none_note(),
{
    let composed = match compose(chain) {
        Ok(composed) => composed,
        Err(_) => unreached(),
    };
    let func = synthesize(anchor1, anchor2, &composed);
    code.uses.merge(&composed.uses);
    code.functions.append(func.render().as_str());
    code.functions.append("\n\n");
}

/// The functions that convert from `t1` to `t2`: one for each chain that
/// the catalog lists for the pair, in the order of the catalog.
pub open spec fn pair_functions(t1: Type, t2: Type) -> Seq<FunctionView> {
    match chains(t1, t2) {
        Some(list) => Seq::new(list.len(), |k: int| function_of(t1, t2, list[k])),
        None => Seq::empty(),
    }
}

/// The functions that convert from `t1` to the first `n` anchors other
/// than `t1` itself.
pub open spec fn pass_functions_upto(t1: Type, n: nat) -> Seq<FunctionView>
    decreases n,
{
    if n == 0 {
        Seq::empty()
    } else {
        let t2 = Type::spec_anchors()[n - 1];
        let last = if t2 == t1 {
            Seq::empty()
        } else {
            pair_functions(t1, t2)
        };
        pass_functions_upto(t1, (n - 1) as nat) + last
    }
}

/// The functions of the pass for `t1`: those that convert from `t1` to
/// every other anchor, in the order of the anchors.
pub open spec fn pass_functions(t1: Type) -> Seq<FunctionView> {
    pass_functions_upto(t1, Type::spec_anchors().len())
}

/// The text of the functions `fs`, an empty line after each.
pub open spec fn functions_text(fs: Seq<FunctionView>) -> Seq<char>
    decreases fs.len(),
{
    if fs.len() == 0 {
        Seq::empty()
    } else {
        functions_text(fs.drop_last()) + function_text(fs.last()) + "\n\n"@
    }
}

/// Whether chain `m` of those from `t1` to `t2` needs the import `path`.
pub open spec fn pair_chain_uses(t1: Type, t2: Type, m: int, path: Seq<char>) -> bool {
    &&& chains(t1, t2) is Some
    &&& 0 <= m < chains(t1, t2).unwrap().len()
    &&& chain_uses(chains(t1, t2).unwrap()[m]).contains(path)
}

/// The imports that the first `k` chains from `t1` to `t2` need.
pub open spec fn pair_uses_upto(t1: Type, t2: Type, k: int) -> Set<Seq<char>> {
    Set::new(|path: Seq<char>| exists|m: int| 0 <= m < k && #[trigger] pair_chain_uses(t1, t2, m, path))
}

/// Whether a chain from `t1` to anchor number `j`, which is another than
/// `t1`, needs the import `path`.
pub open spec fn pass_chain_uses(t1: Type, j: int, m: int, path: Seq<char>) -> bool {
    &&& 0 <= j < Type::spec_anchors().len()
    &&& Type::spec_anchors()[j] != t1
    &&& pair_chain_uses(t1, Type::spec_anchors()[j], m, path)
}

/// The imports that the chains from `t1` to the first `n` anchors need.
pub open spec fn pass_uses_upto(t1: Type, n: int) -> Set<Seq<char>> {
    Set::new(
        |path: Seq<char>|
            exists|j: int, m: int| 0 <= j < n && #[trigger] pass_chain_uses(t1, j, m, path),
    )
}

/// The imports of the pass for `t1`: what the chains from `t1` to every
/// other anchor need.
pub open spec fn pass_uses(t1: Type) -> Set<Seq<char>> {
    pass_uses_upto(t1, Type::spec_anchors().len() as int)
}

/// Generates the functions that convert from `t1` to every other anchor,
/// one for each chain of the catalog. From an anchor this succeeds. From
/// any other kind the catalog lists no chain, and nothing is generated.
pub fn gen_code(t1: Type) -> (r: Result<Code, GenError>)
    ensures
        t1.is_anchor() ==> {
            &&& r is Ok
            &&& r.unwrap().functions@ == functions_text(pass_functions(t1))
            &&& r.unwrap().uses@ == pass_uses(t1)
        },
        !t1.is_anchor() ==> (r matches Err(e) && e == (GenError::MissingChain {
            from: t1,
            to: Type::spec_anchors()[0],
        })),
{
    if !t1.is_anchor() {
        return Err(GenError::MissingChain { from: t1, to: Type::Str });
    }
    let mut code = Code::default();
    let anchors = Type::anchors();
    let mut i: usize = 0;
    proof {
        Type::anchors_are_the_anchors();
    }
    while i < anchors.len()
        invariant
            anchors@ == Type::spec_anchors(),
            i <= anchors.len(),
            t1.is_anchor(),
            code.functions@ == functions_text(pass_functions_upto(t1, i as nat)),
            code.uses@ == pass_uses_upto(t1, i as int),
        decreases anchors.len() - i,
    {
        let t2 = anchors[i];
        let ghost before = pass_functions_upto(t1, i as nat);
        let ghost uses_before = pass_uses_upto(t1, i as int);
        proof {
            lemma_chains_between_anchors(t1, t2);
        }
        if t1 != t2 {
            let list = conversion_chains(t1, t2);
            let ghost all = chains(t1, t2).unwrap();
            let mut k: usize = 0;
            while k < list.len()
                invariant
                    k <= list.len(),
                    t1.is_anchor(),
                    t2.is_anchor(),
                    chains(t1, t2) == Some(all),
                    list.deep_view() == all,
                    code.functions@ == functions_text(
                        before + pair_functions(t1, t2).take(k as int),
                    ),
                    code.uses@ == uses_before.union(pair_uses_upto(t1, t2, k as int)),
                decreases list.len() - k,
            {
                let chain = &list[k];
                proof {
                    lemma_catalog_chains_valid(t1, t2, k as int);
                    assert(chain@ =~= all[k as int]);
                }
                gen_one_conversion(t1, t2, chain, &mut code);
                proof {
                    let done = before + pair_functions(t1, t2).take(k as int);
                    let next = before + pair_functions(t1, t2).take(k + 1);
                    assert(next.drop_last() =~= done);
                    assert forall|path: Seq<char>|
                        code.uses@.contains(path) <==> uses_before.union(
                            pair_uses_upto(t1, t2, k + 1),
                        ).contains(path) by {
                        if chain_uses(chain@).contains(path) {
                            assert(pair_chain_uses(t1, t2, k as int, path));
                        }
                    }
                }
                k = k + 1;
            }
            proof {
                let n = i as int;
                assert(pair_functions(t1, t2).take(k as int) =~= pair_functions(t1, t2));
                assert forall|path: Seq<char>|
                    code.uses@.contains(path) <==> pass_uses_upto(t1, n + 1).contains(path) by {
                    if pair_uses_upto(t1, t2, k as int).contains(path) {
                        let m = choose|m: int|
                            0 <= m < k && #[trigger] pair_chain_uses(t1, t2, m, path);
                        assert(pass_chain_uses(t1, n, m, path));
                    }
                    if pass_uses_upto(t1, n + 1).contains(path) {
                        let (j, m) = choose|j: int, m: int|
                            0 <= j < n + 1 && #[trigger] pass_chain_uses(t1, j, m, path);
                    }
                }
            }
        } else {
            proof {
                let n = i as int;
                assert forall|path: Seq<char>|
                    uses_before.contains(path) <==> pass_uses_upto(t1, n + 1).contains(path) by {
                    if pass_uses_upto(t1, n + 1).contains(path) {
                        let (j, m) = choose|j: int, m: int|
                            0 <= j < n + 1 && #[trigger] pass_chain_uses(t1, j, m, path);
                        assert(j < n);
                    }
                }
            }
        }
        i = i + 1;
    }
    Ok(code)
}

/// The name of the module that holds the conversions from the anchor
/// `t`.
pub open spec fn mod_name(t: Type) -> Seq<char> {
    "from_"@ + t.spec_short_name()
}

/// The source file that a pass for the anchor `t1` gives: the grouped
/// imports in ascending order, then the functions.
pub open spec fn pass_source(t1: Type) -> Seq<char> {
    source_text(in_order(combined(pass_uses(t1))), functions_text(pass_functions(t1)))
}

/// The generated module of one anchor.
#[derive(Debug)]
pub struct SourceFile {
    /// The anchor that the functions of the module convert from.
    pub anchor: Type,
    /// The name of the module.
    pub mod_name: String,
    /// The text of its source file.
    pub text: String,
}

/// What the root file of the generated crate begins with.
pub open spec fn lib_head() -> Seq<char> {
    "
// The conversion functions use some argument types that you don't
// ordinarly see, such as `&String`. The types are normally implicit,
// for example `String::as_str` takes a `&String`. Since all of our
// conversions are in separate functions, we have to explicitly use
// these types.
#![allow(clippy::ptr_arg)]

"@
}

/// The line that declares the public module `name`.
pub open spec fn pub_mod(name: Seq<char>) -> Seq<char> {
    "pub mod "@ + name + ";\n"@
}

/// The declarations of the public modules `names`, one to a line.
pub open spec fn pub_mods(names: Seq<Seq<char>>) -> Seq<Seq<char>> {
    Seq::new(names.len(), |i: int| pub_mod(names[i]))
}

/// The text of the root file of the generated crate, which declares the
/// modules `mod_names`.
pub open spec fn lib_text(mod_names: Seq<Seq<char>>) -> Seq<char> {
    lib_head() + spec_join(pub_mods(mod_names), Seq::empty())
}

/// The root file of the generated crate: a lint setting, and a public
/// module for each of `mod_names`.
pub fn gen_lib_code(mod_names: &Vec<String>) -> (out: String)
    ensures
        out@ == lib_text(mod_names.deep_view()),
{
    let ghost names = mod_names.deep_view();
    let mut lines: Vec<String> = Vec::new();
    let mut i: usize = 0;
    while i < mod_names.len()
        invariant
            i <= mod_names.len(),
            names == mod_names.deep_view(),
            lines@.len() == i,
            lines.deep_view() == pub_mods(names.take(i as int)),
        decreases mod_names.len() - i,
    {
        let mut line = String::from_str("pub mod ");
        line.append(mod_names[i].as_str());
        line.append(";\n");
        let ghost before = lines.deep_view();
        lines.push(line);
        i = i + 1;
        proof {
            let next = pub_mods(names.take(i as int));
            assert forall|k: int| 0 <= k < i implies lines.deep_view()[k] == next[k] by {
                if k < i - 1 {
                    assert(before[k] == pub_mods(names.take(i - 1))[k]);
                }
            }
        }
    }
    proof {
        reveal_strlit("");
        assert(""@ =~= Seq::<char>::empty());
        assert(names.take(i as int) =~= names);
    }
    let mut out = String::from_str(
        "
// The conversion functions use some argument types that you don't
// ordinarly see, such as `&String`. The types are normally implicit,
// for example `String::as_str` takes a `&String`. Since all of our
// conversions are in separate functions, we have to explicitly use
// these types.
#![allow(clippy::ptr_arg)]

",
    );
    out.append(join(&lines, "").as_str());
    out
}

/// Generates the module of every anchor, in the order of the anchors.
/// The result depends on nothing but the catalog, so every run gives the
/// same files.
pub fn gen_sources() -> (r: Result<Vec<SourceFile>, GenError>)
    ensures
        r is Ok,
        r.unwrap()@.len() == Type::spec_anchors().len(),
        forall|i: int|
            0 <= i < Type::spec_anchors().len() ==> {
                let file = #[trigger] r.unwrap()@[i];
                &&& file.anchor == Type::spec_anchors()[i]
                &&& file.mod_name@ == mod_name(file.anchor)
                &&& file.text@ == pass_source(file.anchor)
            },
{
    let anchors = Type::anchors();
    let mut out: Vec<SourceFile> = Vec::new();
    let mut i: usize = 0;
    while i < anchors.len()
        invariant
            anchors@ == Type::spec_anchors(),
            i <= anchors.len(),
            out@.len() == i,
            forall|j: int|
                0 <= j < i ==> {
                    let file = #[trigger] out@[j];
                    &&& file.anchor == Type::spec_anchors()[j]
                    &&& file.mod_name@ == mod_name(file.anchor)
                    &&& file.text@ == pass_source(file.anchor)
                },
        decreases anchors.len() - i,
    {
        let t1 = anchors[i];
        proof {
            Type::anchors_are_the_anchors();
        }
        let code = match gen_code(t1) {
            Ok(code) => code,
            Err(e) => {
                return Err(e);
            },
        };
        let mut name = String::from_str("from_");
        name.append(t1.short_name());
        out.push(SourceFile { anchor: t1, mod_name: name, text: code.gen() });
        i = i + 1;
    }
    Ok(out)
}

/// The functions of the first anchors stay among those of more anchors.
proof fn lemma_pass_functions_grow(t1: Type, j: int, n: nat, f: FunctionView)
    requires
        0 <= j < n <= Type::spec_anchors().len(),
        Type::spec_anchors()[j] != t1,
        pair_functions(t1, Type::spec_anchors()[j]).contains(f),
    ensures
        pass_functions_upto(t1, n).contains(f),
    decreases n,
{
    let t2 = Type::spec_anchors()[n - 1];
    let head = pass_functions_upto(t1, (n - 1) as nat);
    let last = if t2 == t1 {
        Seq::empty()
    } else {
        pair_functions(t1, t2)
    };
    if j == n - 1 {
        let k = choose|k: int| 0 <= k < last.len() && last[k] == f;
        assert((head + last)[head.len() + k] == f);
    } else {
        lemma_pass_functions_grow(t1, j, (n - 1) as nat, f);
        let k = choose|k: int| 0 <= k < head.len() && head[k] == f;
        assert((head + last)[k] == f);
    }
}

/// For every two different anchors a function is generated: the pass for
/// `a` holds a function for each chain that leads from `a` to `b`, and
/// there is at least one such chain.
pub proof fn lemma_every_pair_is_covered(a: Type, b: Type)
    requires
        a.is_anchor(),
        b.is_anchor(),
        a != b,
    ensures
        chains(a, b) is Some,
        pair_functions(a, b).len() == chains(a, b).unwrap().len(),
        pair_functions(a, b).len() >= 1,
        forall|k: int|
            0 <= k < pair_functions(a, b).len() ==> {
                &&& #[trigger] pair_functions(a, b)[k] == function_of(
                    a,
                    b,
                    chains(a, b).unwrap()[k],
                )
                &&& pass_functions(a).contains(pair_functions(a, b)[k])
            },
{
    lemma_chains_between_anchors(a, b);
    Type::anchors_are_the_anchors();
    let anchors = Type::spec_anchors();
    let j = choose|j: int| 0 <= j < anchors.len() && anchors[j] == b;
    assert forall|k: int| 0 <= k < pair_functions(a, b).len() implies {
        &&& #[trigger] pair_functions(a, b)[k] == function_of(a, b, chains(a, b).unwrap()[k])
        &&& pass_functions(a).contains(pair_functions(a, b)[k])
    } by {
        let f = pair_functions(a, b)[k];
        lemma_pass_functions_grow(a, j, anchors.len(), f);
    }
}

/// A generated function takes the type of the first kind of its chain and
/// returns the type of the last, and its body is the expression that the
/// chain folds into.
pub proof fn lemma_function_follows_chain(anchor1: Type, anchor2: Type, chain: Seq<Type>)
    requires
        chain.len() > 0,
    ensures
        function_of(anchor1, anchor2, chain).input_type == chain[0].spec_type_str(),
        function_of(anchor1, anchor2, chain).output_type == chain[chain.len() - 1].spec_type_str(),
        function_of(anchor1, anchor2, chain).body == chain_expr(chain),
{
}

/// A generated function is marked as existing on Unix only exactly if a
/// step of its chain exists on Unix only, be it one step among many. The
/// mark shows in its name, which is by `_unix` longer than without it, and
/// in its comment, which then begins with the notice.
pub proof fn lemma_unix_only_propagates(anchor1: Type, anchor2: Type, chain: Seq<Type>)
    requires
        chain.len() > 0,
    ensures
        ({
            let f = function_of(anchor1, anchor2, chain);
            let output = chain.last();
            &&& f.unix_only <==> exists|i: int|
                0 <= i < chain.len() - 1 && #[trigger] step_unix_only(chain, i)
            &&& f.name == function_name(anchor1, anchor2, f.unix_only, output)
            &&& f.comment == doc_comment(f.unix_only, output)
            &&& function_name(anchor1, anchor2, true, output).len() == function_name(
                anchor1,
                anchor2,
                false,
                output,
            ).len() + 5
            &&& doc_comment(true, output)[0] == paragraph(unix_notice())
        }),
{
    reveal_strlit("_unix");
}

/// The imports of a pass are complete: whatever a step of a chain of the
/// pass needs, for one of its two kinds or for its conversion, is among
/// them.
pub proof fn lemma_pass_uses_complete(t1: Type, t2: Type, k: int, i: int, path: Seq<char>)
    requires
        t1.is_anchor(),
        t2.is_anchor(),
        t1 != t2,
        chains(t1, t2) is Some,
        0 <= k < chains(t1, t2).unwrap().len(),
        0 <= i < chains(t1, t2).unwrap()[k].len() - 1,
        step_uses(chains(t1, t2).unwrap()[k], i, path),
    ensures
        pass_uses(t1).contains(path),
{
    Type::anchors_are_the_anchors();
    let anchors = Type::spec_anchors();
    let j = choose|j: int| 0 <= j < anchors.len() && anchors[j] == t2;
    assert(pass_chain_uses(t1, j, k, path));
}

} // verus!
