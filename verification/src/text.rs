use vstd::prelude::*;
use vstd::string::*;
use vstd::utf8::*;

verus! {

/// `String::push` appends the character to the end of the string.
pub assume_specification[ std::string::String::push ](s: &mut std::string::String, c: char)
    ensures
        final(s)@ == old(s)@.push(c),
;

/// The characters of `s`, in order.
pub fn to_chars(s: &str) -> (out: Vec<char>)
    ensures
        out@ == s@,
{
    let mut out: Vec<char> = Vec::new();
    for c in it: s.chars()
        invariant
            out@ == s@.subrange(0, it.index() as int),
            it.seq() == s@,
    {
        out.push(c);
    }
    out
}

/// Appends the characters `v[from..to]` to `out`.
pub fn push_range(out: &mut String, v: &Vec<char>, from: usize, to: usize)
    requires
        from <= to <= v.len(),
    ensures
        final(out)@ == old(out)@ + v@.subrange(from as int, to as int),
{
    let mut i: usize = from;
    while i < to
        invariant
            from <= i <= to <= v.len(),
            out@ == old(out)@ + v@.subrange(from as int, i as int),
        decreases to - i,
    {
        out.push(v[i]);
        i = i + 1;
    }
}

/// What replacing every occurrence of `p` in `t` by `w` gives. Occurrences
/// are found from the left and do not overlap. The empty pattern occurs
/// before every character and at the end.
pub open spec fn spec_replace(t: Seq<char>, p: Seq<char>, w: Seq<char>) -> Seq<char>
    decreases t.len(),
{
    if p.len() == 0 {
        if t.len() == 0 {
            w
        } else {
            w + seq![t[0]] + spec_replace(t.skip(1), p, w)
        }
    } else if t.len() < p.len() {
        t
    } else if t.subrange(0, p.len() as int) == p {
        w + spec_replace(t.skip(p.len() as int), p, w)
    } else {
        seq![t[0]] + spec_replace(t.skip(1), p, w)
    }
}

/// Whether `p` occurs in `t` at position `i`.
pub open spec fn occurs(t: Seq<char>, i: int, p: Seq<char>) -> bool {
    0 <= i <= t.len() - p.len() && t.subrange(i, i + p.len()) == p
}

/// Whether `p` occurs nowhere in `t`.
pub open spec fn absent(t: Seq<char>, p: Seq<char>) -> bool {
    forall|i: int| !#[trigger] occurs(t, i, p)
}

/// Replacing what does not occur changes nothing.
pub proof fn lemma_replace_absent(t: Seq<char>, p: Seq<char>, w: Seq<char>)
    requires
        p.len() > 0,
        absent(t, p),
    ensures
        spec_replace(t, p, w) == t,
    decreases t.len(),
{
    if t.len() >= p.len() {
        assert(!occurs(t, 0, p));
        let rest = t.skip(1);
        assert forall|i: int| !#[trigger] occurs(rest, i, p) by {
            if 0 <= i <= rest.len() - p.len() {
                assert(!occurs(t, i + 1, p));
                assert(rest.subrange(i, i + p.len()) =~= t.subrange(i + 1, i + 1 + p.len()));
            }
        }
        lemma_replace_absent(rest, p, w);
        assert(t =~= seq![t[0]] + rest);
    }
}

/// Whether `p` occurs in `t` at position `i`.
pub fn occurs_at(t: &Vec<char>, i: usize, p: &Vec<char>) -> (r: bool)
    requires
        i + p.len() <= t.len(),
    ensures
        r == (t@.subrange(i as int, i + p.len()) == p@),
{
    let mut k: usize = 0;
    while k < p.len()
        invariant
            k <= p.len(),
            i + p.len() <= t.len(),
            forall|j: int| 0 <= j < k ==> t@[i + j] == p@[j],
        decreases p.len() - k,
    {
        if t[i + k] != p[k] {
            return false;
        }
        k = k + 1;
    }
    assert(t@.subrange(i as int, i + p.len()) =~= p@);
    true
}

/// Replaces every occurrence of `pat` in `text` by `with`.
pub fn replace(text: &str, pat: &str, with: &str) -> (out: String)
    ensures
        out@ == spec_replace(text@, pat@, with@),
{
    let t = to_chars(text);
    let p = to_chars(pat);
    let ghost whole = spec_replace(t@, p@, with@);
    let mut out = String::new();
    let mut i: usize = 0;
    assert(t@.skip(0) =~= t@);
    if p.len() == 0 {
        while i < t.len()
            invariant
                i <= t.len(),
                p@.len() == 0,
                out@ + spec_replace(t@.skip(i as int), p@, with@) == whole,
            decreases t.len() - i,
        {
            let ghost before = out@;
            out.append(with);
            out.push(t[i]);
            proof {
                let rest = t@.skip(i as int);
                assert(rest.skip(1) =~= t@.skip(i + 1));
                assert(out@ + spec_replace(rest.skip(1), p@, with@) =~= before + spec_replace(
                    rest,
                    p@,
                    with@,
                ));
            }
            i = i + 1;
        }
        out.append(with);
        return out;
    }
    while t.len() - i >= p.len()
        invariant
            i <= t.len(),
            p@.len() > 0,
            out@ + spec_replace(t@.skip(i as int), p@, with@) == whole,
        decreases t.len() - i,
    {
        let ghost before = out@;
        let ghost rest = t@.skip(i as int);
        assert(rest.subrange(0, p@.len() as int) =~= t@.subrange(i as int, i + p@.len()));
        if occurs_at(&t, i, &p) {
            out.append(with);
            proof {
                assert(rest.skip(p@.len() as int) =~= t@.skip(i + p@.len()));
                assert(out@ + spec_replace(rest.skip(p@.len() as int), p@, with@) =~= before
                    + spec_replace(rest, p@, with@));
            }
            i = i + p.len();
        } else {
            out.push(t[i]);
            proof {
                assert(rest.skip(1) =~= t@.skip(i + 1));
                assert(out@ + spec_replace(rest.skip(1), p@, with@) =~= before + spec_replace(
                    rest,
                    p@,
                    with@,
                ));
            }
            i = i + 1;
        }
    }
    push_range(&mut out, &t, i, t.len());
    out
}

/// The order of byte strings: by the first byte in which they differ, a
/// proper prefix before what it is a prefix of.
pub open spec fn bytes_lt(a: Seq<u8>, b: Seq<u8>) -> bool
    decreases a.len(),
{
    if b.len() == 0 {
        false
    } else if a.len() == 0 {
        true
    } else if a[0] != b[0] {
        a[0] < b[0]
    } else {
        bytes_lt(a.skip(1), b.skip(1))
    }
}

/// The order of strings: that of their UTF-8 encodings.
pub open spec fn str_lt(a: Seq<char>, b: Seq<char>) -> bool {
    bytes_lt(encode_utf8(a), encode_utf8(b))
}

/// No byte string comes before itself.
pub proof fn lemma_bytes_lt_irreflexive(a: Seq<u8>)
    ensures
        !bytes_lt(a, a),
    decreases a.len(),
{
    if a.len() > 0 {
        lemma_bytes_lt_irreflexive(a.skip(1));
    }
}

/// What comes before a byte string comes before all that the byte string
/// comes before.
pub proof fn lemma_bytes_lt_transitive(a: Seq<u8>, b: Seq<u8>, c: Seq<u8>)
    requires
        bytes_lt(a, b),
        bytes_lt(b, c),
    ensures
        bytes_lt(a, c),
    decreases a.len(),
{
    if a.len() > 0 && a[0] == b[0] && b[0] == c[0] {
        lemma_bytes_lt_transitive(a.skip(1), b.skip(1), c.skip(1));
    }
}

/// Of two different byte strings one comes before the other.
pub proof fn lemma_bytes_lt_total(a: Seq<u8>, b: Seq<u8>)
    ensures
        a == b || bytes_lt(a, b) || bytes_lt(b, a),
    decreases a.len(),
{
    if a.len() > 0 && b.len() > 0 && a[0] == b[0] {
        lemma_bytes_lt_total(a.skip(1), b.skip(1));
        if a.skip(1) == b.skip(1) {
            assert(a =~= seq![a[0]] + a.skip(1));
            assert(b =~= seq![b[0]] + b.skip(1));
        }
    } else if a.len() == 0 && b.len() == 0 {
        assert(a =~= b);
    }
}

/// No string comes before itself.
pub proof fn lemma_str_lt_irreflexive(a: Seq<char>)
    ensures
        !str_lt(a, a),
{
    lemma_bytes_lt_irreflexive(encode_utf8(a));
}

/// What comes before a string comes before all that the string comes
/// before.
pub proof fn lemma_str_lt_transitive(a: Seq<char>, b: Seq<char>, c: Seq<char>)
    requires
        str_lt(a, b),
        str_lt(b, c),
    ensures
        str_lt(a, c),
{
    lemma_bytes_lt_transitive(encode_utf8(a), encode_utf8(b), encode_utf8(c));
}

/// Of two different strings one comes before the other.
pub proof fn lemma_str_lt_total(a: Seq<char>, b: Seq<char>)
    ensures
        a == b || str_lt(a, b) || str_lt(b, a),
{
    lemma_bytes_lt_total(encode_utf8(a), encode_utf8(b));
    encode_utf8_decode_utf8(a);
    encode_utf8_decode_utf8(b);
}

/// Whether `a` comes before `b`.
pub fn less(a: &str, b: &str) -> (r: bool)
    ensures
        r == str_lt(a@, b@),
{
    let x = a.as_bytes();
    let y = b.as_bytes();
    let mut k: usize = 0;
    assert(x@.skip(0) =~= x@);
    assert(y@.skip(0) =~= y@);
    while k < x.len() && k < y.len()
        invariant
            k <= x@.len(),
            k <= y@.len(),
            x@ == encode_utf8(a@),
            y@ == encode_utf8(b@),
            bytes_lt(x@, y@) == bytes_lt(x@.skip(k as int), y@.skip(k as int)),
        decreases x@.len() - k,
    {
        assert(x@.skip(k as int).skip(1) =~= x@.skip(k + 1));
        assert(y@.skip(k as int).skip(1) =~= y@.skip(k + 1));
        if x[k] != y[k] {
            return x[k] < y[k];
        }
        k = k + 1;
    }
    k < y.len()
}

/// Whether `a` and `b` hold the same characters.
pub fn same(a: &str, b: &str) -> (r: bool)
    ensures
        r == (a@ == b@),
{
    proof {
        lemma_str_lt_total(a@, b@);
        lemma_str_lt_irreflexive(a@);
    }
    !less(a, b) && !less(b, a)
}

/// The strings of `parts` in a row, with `sep` between each two of them.
pub open spec fn spec_join(parts: Seq<Seq<char>>, sep: Seq<char>) -> Seq<char>
    decreases parts.len(),
{
    if parts.len() == 0 {
        Seq::empty()
    } else if parts.len() == 1 {
        parts[0]
    } else {
        spec_join(parts.drop_last(), sep) + sep + parts.last()
    }
}

/// Joins the strings of `parts`, with `sep` between each two of them.
pub fn join(parts: &Vec<String>, sep: &str) -> (out: String)
    ensures
        out@ == spec_join(parts.deep_view(), sep@),
{
    let ghost all = parts.deep_view();
    let mut out = String::new();
    let mut i: usize = 0;
    while i < parts.len()
        invariant
            i <= parts.len(),
            all == parts.deep_view(),
            out@ == spec_join(all.take(i as int), sep@),
        decreases parts.len() - i,
    {
        if i > 0 {
            out.append(sep);
        }
        out.append(parts[i].as_str());
        proof {
            let next = all.take(i + 1);
            assert(next.drop_last() =~= all.take(i as int));
        }
        i = i + 1;
    }
    assert(all.take(i as int) =~= all);
    out
}

/// The number of characters before the first line feed of `t`, or the
/// length of `t` where it holds none.
pub open spec fn first_line_len(t: Seq<char>) -> nat
    decreases t.len(),
{
    if t.len() == 0 || t[0] == '\n' {
        0
    } else {
        1 + first_line_len(t.skip(1))
    }
}

/// `line` without the carriage return at its end, if it has one.
pub open spec fn strip_cr(line: Seq<char>) -> Seq<char> {
    if line.len() > 0 && line.last() == '\r' {
        line.drop_last()
    } else {
        line
    }
}

/// The lines of `t`. A line ends with a line feed, or with a carriage
/// return and a line feed; neither belongs to the line. The last line
/// need not be ended, and the empty text has no line.
pub open spec fn spec_lines(t: Seq<char>) -> Seq<Seq<char>>
    decreases t.len(),
{
    if t.len() == 0 {
        Seq::empty()
    } else {
        let n = first_line_len(t) as int;
        if n >= t.len() {
            seq![t]
        } else {
            seq![strip_cr(t.take(n))] + spec_lines(t.skip(n + 1))
        }
    }
}

/// The place of the first line feed of `t` at or after `from`, or the
/// length of `t` where none follows.
pub fn line_end(t: &Vec<char>, from: usize) -> (j: usize)
    requires
        from <= t.len(),
    ensures
        from <= j <= t.len(),
        j - from == first_line_len(t@.skip(from as int)),
{
    let mut j: usize = from;
    while j < t.len() && t[j] != '\n'
        invariant
            from <= j <= t.len(),
            first_line_len(t@.skip(from as int)) == (j - from) + first_line_len(t@.skip(j as int)),
        decreases t.len() - j,
    {
        assert(t@.skip(j as int).skip(1) =~= t@.skip(j + 1));
        j = j + 1;
    }
    j
}

} // verus!
