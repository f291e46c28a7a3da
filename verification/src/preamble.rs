//! Macro-preamble construction and injection into GLSL source text.
//!
//! A caller supplies macro definitions as lines of the form `NAME` or
//! `NAME=VALUE`. Each is rendered as a GLSL `#define` statement: text from
//! the first newline on is discarded, and exactly the first `=` becomes a
//! single space. The rendered lines are concatenated in caller order into
//! one preamble block, which is spliced into the source immediately after
//! the newline that ends the first `#version` directive. A source without
//! any `#version` directive is returned unchanged: the splice is silently
//! skipped, never an error.

use vstd::prelude::*;
use vstd::string::*;

verus! {

/// Index of the first occurrence of `c` in `s` at or after `i`, or `s.len()`
/// if there is none.
pub open spec fn find_char_from(s: Seq<char>, c: char, i: int) -> int
    decreases s.len() - i,
{
    if i < 0 || i >= s.len() {
        s.len() as int
    } else if s[i] == c {
        i
    } else {
        find_char_from(s, c, i + 1)
    }
}

/// `pat` occurs in `s` starting exactly at index `i`.
pub open spec fn is_match_at(s: Seq<char>, pat: Seq<char>, i: int) -> bool {
    0 <= i && i + pat.len() <= s.len() && s.subrange(i, i + pat.len()) == pat
}

/// Index of the first occurrence of `pat` in `s` at or after `i`, or
/// `s.len()` if there is none; an empty pattern counts as absent.
pub open spec fn find_seq_from(s: Seq<char>, pat: Seq<char>, i: int) -> int
    decreases s.len() - i,
{
    if i < 0 || pat.len() == 0 || i + pat.len() > s.len() {
        s.len() as int
    } else if s.subrange(i, i + pat.len()) == pat {
        i
    } else {
        find_seq_from(s, pat, i + 1)
    }
}

/// What `find_char_from` returns: the first index holding `c`, with nothing
/// equal to `c` before it, or `s.len()` when `c` does not occur.
pub proof fn lemma_find_char_from_props(s: Seq<char>, c: char, i: int)
    requires
        0 <= i <= s.len(),
    ensures
        i <= find_char_from(s, c, i) <= s.len(),
        find_char_from(s, c, i) < s.len() ==> s[find_char_from(s, c, i)] == c,
        forall|k: int| i <= k < find_char_from(s, c, i) ==> s[k] != c,
    decreases s.len() - i,
{
    if i < s.len() && s[i] != c {
        lemma_find_char_from_props(s, c, i + 1);
    }
}

/// What `find_seq_from` returns: the first index where `pat` matches, with
/// no match before it, or `s.len()` when `pat` does not occur at or after `i`.
pub proof fn lemma_find_seq_from_props(s: Seq<char>, pat: Seq<char>, i: int)
    requires
        0 <= i <= s.len(),
        pat.len() > 0,
    ensures
        i <= find_seq_from(s, pat, i) <= s.len(),
        find_seq_from(s, pat, i) < s.len() ==> is_match_at(s, pat, find_seq_from(s, pat, i)),
        forall|k: int| i <= k < find_seq_from(s, pat, i) ==> !is_match_at(s, pat, k),
        find_seq_from(s, pat, i) == s.len() ==> forall|k: int|
            i <= k ==> !is_match_at(s, pat, k),
    decreases s.len() - i,
{
    if i + pat.len() > s.len() {
        assert forall|k: int| i <= k implies !is_match_at(s, pat, k) by {}
    } else if s.subrange(i, i + pat.len()) == pat {
    } else {
        lemma_find_seq_from_props(s, pat, i + 1);
    }
}

/// The text of `def` up to (excluding) its first newline.
pub open spec fn first_line(def: Seq<char>) -> Seq<char> {
    def.subrange(0, find_char_from(def, '\n', 0))
}

/// `s` with exactly its first `=`, if any, replaced by a single space.
pub open spec fn replace_first_eq(s: Seq<char>) -> Seq<char> {
    let e = find_char_from(s, '=', 0);
    if e == s.len() {
        s
    } else {
        s.update(e, ' ')
    }
}

/// One macro definition rendered as a GLSL `#define` statement: only the
/// first line of `def` is honored, and its first `=` becomes a space.
pub open spec fn rendered_define(def: Seq<char>) -> Seq<char> {
    "#define "@ + replace_first_eq(first_line(def)) + "\n"@
}

/// The whole preamble block: every definition rendered, concatenated in
/// caller-supplied order.
pub open spec fn preamble_of(defs: Seq<Seq<char>>) -> Seq<char>
    decreases defs.len(),
{
    if defs.len() == 0 {
        Seq::empty()
    } else {
        preamble_of(defs.drop_last()) + rendered_define(defs.last())
    }
}

/// `source` with `preamble` inserted immediately after the newline that ends
/// the first `#version` directive; `source` unchanged when it has no
/// `#version`, or no newline after the first one.
pub open spec fn spliced_source(source: Seq<char>, preamble: Seq<char>) -> Seq<char> {
    let v = find_seq_from(source, "#version"@, 0);
    if v == source.len() {
        source
    } else {
        let n = find_char_from(source, '\n', v);
        if n == source.len() {
            source
        } else {
            source.subrange(0, n + 1) + preamble + source.subrange(n + 1, source.len() as int)
        }
    }
}

/// The source text handed to the engine: unchanged when no definitions were
/// supplied, otherwise the preamble block spliced in after the `#version`
/// line.
pub open spec fn prepared_source(code: Seq<char>, defs: Option<Seq<Seq<char>>>) -> Seq<char> {
    match defs {
        Option::None => code,
        Option::Some(ds) => spliced_source(code, preamble_of(ds)),
    }
}

/// Rendering is injective on names: two definitions that are bare names
/// (no newline, no `=`) render to the same `#define` statement only if they
/// are the same name.
pub proof fn lemma_render_injective_on_names(a: Seq<char>, b: Seq<char>)
    requires
        !a.contains('\n'),
        !a.contains('='),
        !b.contains('\n'),
        !b.contains('='),
        rendered_define(a) == rendered_define(b),
    ensures
        a == b,
{
    lemma_bare_name_renders_plain(a);
    lemma_bare_name_renders_plain(b);
    reveal_strlit("#define ");
    reveal_strlit("\n");
    assert(rendered_define(a).len() == 9 + a.len());
    assert(rendered_define(b).len() == 9 + b.len());
    assert forall|i: int| 0 <= i < a.len() implies a[i] == b[i] by {
        assert(rendered_define(a)[8 + i] == a[i]);
        assert(rendered_define(b)[8 + i] == b[i]);
    }
    assert(a =~= b);
}

/// A definition that is a bare name (no newline, no `=`) renders with no
/// value: the whole name, unaltered, between `#define ` and the newline.
pub proof fn lemma_bare_name_renders_plain(def: Seq<char>)
    requires
        !def.contains('\n'),
        !def.contains('='),
    ensures
        rendered_define(def) == "#define "@ + def + "\n"@,
{
    lemma_find_char_from_props(def, '\n', 0);
    if find_char_from(def, '\n', 0) < def.len() {
        assert(def[find_char_from(def, '\n', 0)] == '\n');
        assert(def.contains('\n'));
    }
    assert(first_line(def) =~= def);
    lemma_find_char_from_props(def, '=', 0);
    if find_char_from(def, '=', 0) < def.len() {
        assert(def[find_char_from(def, '=', 0)] == '=');
        assert(def.contains('='));
    }
}

/// A source without any `#version` directive is left unchanged by the
/// splice, whatever definitions were supplied: compiling it behaves exactly
/// as if no macros had been given.
pub proof fn lemma_no_version_no_splice(code: Seq<char>, defs: Seq<Seq<char>>)
    requires
        forall|i: int| !is_match_at(code, "#version"@, i),
    ensures
        prepared_source(code, Option::Some(defs)) == prepared_source(code, Option::None),
        prepared_source(code, Option::Some(defs)) == code,
{
    reveal_strlit("#version");
    lemma_find_seq_from_props(code, "#version"@, 0);
}

/// An empty definition list leaves any source unchanged, whether or not it
/// has a `#version` directive.
pub proof fn lemma_empty_defs_unchanged(code: Seq<char>)
    ensures
        prepared_source(code, Option::Some(Seq::empty())) == code,
{
    reveal_strlit("#version");
    let v = find_seq_from(code, "#version"@, 0);
    lemma_find_seq_from_props(code, "#version"@, 0);
    if v != code.len() {
        let n = find_char_from(code, '\n', v);
        lemma_find_char_from_props(code, '\n', v);
        if n != code.len() {
            assert(code.subrange(0, n + 1) + preamble_of(Seq::empty()) + code.subrange(
                n + 1,
                code.len() as int,
            ) =~= code);
        }
    }
}

/// The views of an optional list of macro-definition strings.
pub open spec fn defs_view(shader_defs: Option<&[String]>) -> Option<Seq<Seq<char>>> {
    match shader_defs {
        Option::None => Option::None,
        Option::Some(ds) => Option::Some(ds@.map_values(|d: String| d@)),
    }
}

/// First occurrence of `c` in `s` at or after `from`, as a character index;
/// `s`'s character length when `c` does not occur there.
fn find_char_in(s: &str, c: char, from: usize) -> (r: usize)
    requires
        from <= s@.len(),
    ensures
        r == find_char_from(s@, c, from as int),
{
    let n = s.unicode_len();
    let mut j: usize = from;
    while j < n
        invariant
            from <= j <= n,
            n == s@.len(),
            find_char_from(s@, c, from as int) == find_char_from(s@, c, j as int),
        decreases n - j,
    {
        if s.get_char(j) == c {
            return j;
        }
        j = j + 1;
    }
    n
}

/// Whether the literal `#version` occurs in `s` starting at character `j`.
fn version_match_at(s: &str, j: usize) -> (b: bool)
    requires
        j + 8 <= s@.len(),
        s@.len() <= usize::MAX,
    ensures
        b == is_match_at(s@, "#version"@, j as int),
{
    proof {
        reveal_strlit("#version");
    }
    let b = s.get_char(j) == '#' && s.get_char(j + 1) == 'v' && s.get_char(j + 2) == 'e'
        && s.get_char(j + 3) == 'r' && s.get_char(j + 4) == 's' && s.get_char(j + 5) == 'i'
        && s.get_char(j + 6) == 'o' && s.get_char(j + 7) == 'n';
    proof {
        let ghost pat = "#version"@;
        let ghost ji = j as int;
        if b {
            assert(s@.subrange(ji, ji + 8) =~= pat);
        } else {
            if s@.subrange(ji, ji + 8) == pat {
                assert forall|k: int| 0 <= k < 8 implies s@[ji + k] == pat[k] by {
                    assert(s@.subrange(ji, ji + 8)[k] == s@[ji + k]);
                }
                assert(s@[ji] == pat[0]);
                assert(s@[ji + 1] == pat[1]);
                assert(s@[ji + 2] == pat[2]);
                assert(s@[ji + 3] == pat[3]);
                assert(s@[ji + 4] == pat[4]);
                assert(s@[ji + 5] == pat[5]);
                assert(s@[ji + 6] == pat[6]);
                assert(s@[ji + 7] == pat[7]);
                assert(false);
            }
        }
    }
    b
}

/// Replacing one character splits a sequence into the part before it, the
/// new character, and the part after it.
proof fn lemma_update_is_splice(s: Seq<char>, i: int, c: char)
    requires
        0 <= i < s.len(),
    ensures
        s.update(i, c) =~= s.subrange(0, i) + seq![c] + s.subrange(i + 1, s.len() as int),
{
}

/// One macro definition rendered as a GLSL `#define` statement.
pub fn render_define(def: &str) -> (out: String)
    ensures
        out@ == rendered_define(def@),
{
    let nl = find_char_in(def, '\n', 0);
    proof {
        lemma_find_char_from_props(def@, '\n', 0);
    }
    let line = def.substring_char(0, nl);
    let ll = line.unicode_len();
    let e = find_char_in(line, '=', 0);
    proof {
        lemma_find_char_from_props(line@, '=', 0);
    }
    let mut out = String::from_str("#define ");
    if e < ll {
        out.append(line.substring_char(0, e));
        out.append(" ");
        out.append(line.substring_char(e + 1, ll));
    } else {
        out.append(line);
    }
    out.append("\n");
    proof {
        reveal_strlit("#define ");
        reveal_strlit(" ");
        reveal_strlit("\n");
        if (e as int) < ll as int {
            assert(" "@ =~= seq![' ']);
            lemma_update_is_splice(line@, e as int, ' ');
        }
        assert(out@ =~= rendered_define(def@));
    }
    out
}

/// The whole preamble block for the given definitions, in caller order.
pub fn build_preamble(defs: &[String]) -> (out: String)
    ensures
        out@ == preamble_of(defs@.map_values(|d: String| d@)),
{
    let ghost ds = defs@.map_values(|d: String| d@);
    let mut out = String::new();
    let mut i: usize = 0;
    while i < defs.len()
        invariant
            i <= defs@.len(),
            ds == defs@.map_values(|d: String| d@),
            out@ == preamble_of(ds.take(i as int)),
        decreases defs@.len() - i,
    {
        let rendered = render_define(defs[i].as_str());
        out.append(rendered.as_str());
        proof {
            assert(ds.take(i + 1).drop_last() =~= ds.take(i as int));
            assert(ds.take(i + 1).last() == ds[i as int]);
        }
        i = i + 1;
    }
    proof {
        assert(ds.take(defs@.len() as int) =~= ds);
    }
    out
}

/// `source` with `preamble` inserted immediately after the newline ending
/// the first `#version` directive, or unchanged when there is no splice
/// point.
pub fn splice_after_version(source: &str, preamble: &str) -> (out: String)
    ensures
        out@ == spliced_source(source@, preamble@),
{
    let n = source.unicode_len();
    let v = find_version(source);
    proof {
        reveal_strlit("#version");
        lemma_find_seq_from_props(source@, "#version"@, 0);
    }
    if v == n {
        return String::from_str(source);
    }
    let nl = find_char_in(source, '\n', v);
    proof {
        lemma_find_char_from_props(source@, '\n', v as int);
    }
    if nl == n {
        return String::from_str(source);
    }
    let mut out = String::from_str(source.substring_char(0, nl + 1));
    out.append(preamble);
    out.append(source.substring_char(nl + 1, n));
    out
}

/// The source text handed to the engine: unchanged when `shader_defs` is
/// absent, otherwise the rendered preamble spliced in after the `#version`
/// line (a no-op when the source has no `#version` directive).
pub fn prepare_source(code: &str, shader_defs: Option<&[String]>) -> (out: String)
    ensures
        out@ == prepared_source(code@, defs_view(shader_defs)),
{
    match shader_defs {
        Option::None => String::from_str(code),
        Option::Some(defs) => {
            let preamble = build_preamble(defs);
            splice_after_version(code, preamble.as_str())
        },
    }
}

/// Character index of the first `#version` occurrence in `s`, or `s`'s
/// character length when there is none.
fn find_version(s: &str) -> (r: usize)
    ensures
        r == find_seq_from(s@, "#version"@, 0),
{
    proof {
        reveal_strlit("#version");
    }
    let n = s.unicode_len();
    if n < 8 {
        return n;
    }
    let mut j: usize = 0;
    while j <= n - 8
        invariant
            j <= n - 8 + 1,
            8 <= n == s@.len(),
            find_seq_from(s@, "#version"@, 0) == find_seq_from(s@, "#version"@, j as int),
        decreases n - j,
    {
        proof {
            reveal_strlit("#version");
        }
        if version_match_at(s, j) {
            return j;
        }
        j = j + 1;
    }
    n
}

} // verus!
