//! Parsing the package manager's list output into an ordered list of
//! package identifiers.
//!
//! The raw output is multi-line text. The first line is a header and is
//! discarded. Every other line contributes its first whitespace-delimited
//! field, in input order; lines with no field are skipped, and fields that
//! end in the 32-bit architecture suffix `.i686` are excluded so that the
//! menu does not offer 32-bit shadows of 64-bit packages.

use vstd::prelude::*;

verus! {

/// Whitespace that separates fields within a line.
pub open spec fn is_space(c: char) -> bool {
    c == ' ' || c == '\t' || c == '\r'
}

/// The text split at `'\n'`: always at least one line, with the line breaks
/// removed. `n` line breaks give `n + 1` lines.
pub open spec fn split_lines(s: Seq<char>) -> Seq<Seq<char>>
    decreases s.len(),
{
    if s.len() == 0 {
        seq![Seq::<char>::empty()]
    } else if s[0] == '\n' {
        seq![Seq::<char>::empty()] + split_lines(s.drop_first())
    } else {
        let rest = split_lines(s.drop_first());
        seq![seq![s[0]] + rest[0]] + rest.drop_first()
    }
}

/// The line with its leading field separators removed.
pub open spec fn skip_spaces(s: Seq<char>) -> Seq<char>
    decreases s.len(),
{
    if s.len() > 0 && is_space(s[0]) {
        skip_spaces(s.drop_first())
    } else {
        s
    }
}

/// The maximal field at the front of `s`: everything up to the first
/// whitespace or line break. Empty when `s` starts with neither field
/// character.
pub open spec fn leading_field(s: Seq<char>) -> Seq<char>
    decreases s.len(),
{
    if s.len() > 0 && !is_space(s[0]) && s[0] != '\n' {
        seq![s[0]] + leading_field(s.drop_first())
    } else {
        Seq::<char>::empty()
    }
}

/// The first whitespace-delimited field of a line; empty when the line has
/// no field at all.
pub open spec fn first_field(line: Seq<char>) -> Seq<char> {
    leading_field(skip_spaces(line))
}

/// Whether a field carries the 32-bit architecture marker: it ends in the
/// five characters `.i686`.
pub open spec fn is_arch32_variant(t: Seq<char>) -> bool {
    &&& t.len() >= 5
    &&& t[t.len() - 5] == '.'
    &&& t[t.len() - 4] == 'i'
    &&& t[t.len() - 3] == '6'
    &&& t[t.len() - 2] == '8'
    &&& t[t.len() - 1] == '6'
}

/// Whether a data line contributes a package identifier: it has a first
/// field, and that field is not a 32-bit architecture variant.
pub open spec fn line_kept(line: Seq<char>) -> bool {
    first_field(line).len() > 0 && !is_arch32_variant(first_field(line))
}

/// The package identifiers contributed by a sequence of data lines, in
/// order.
pub open spec fn fields_of_lines(lines: Seq<Seq<char>>) -> Seq<Seq<char>>
    decreases lines.len(),
{
    if lines.len() == 0 {
        Seq::<Seq<char>>::empty()
    } else if line_kept(lines[0]) {
        seq![first_field(lines[0])] + fields_of_lines(lines.drop_first())
    } else {
        fields_of_lines(lines.drop_first())
    }
}

/// The whole parse: discard the first line (the header), then collect the
/// first field of every remaining line, in input order, excluding the
/// 32-bit architecture variants.
pub open spec fn spec_parse(s: Seq<char>) -> Seq<Seq<char>> {
    fields_of_lines(split_lines(s).drop_first())
}

proof fn lemma_split_lines_nonempty(s: Seq<char>)
    ensures
        split_lines(s).len() >= 1,
    decreases s.len(),
{
    if s.len() == 0 {
    } else if s[0] == '\n' {
        lemma_split_lines_nonempty(s.drop_first());
    } else {
        lemma_split_lines_nonempty(s.drop_first());
    }
}

/// Splitting off the first line: if the first line break of `s` stands at
/// `j`, the lines of `s` are `s[..j]` followed by the lines of `s[j+1..]`;
/// if `s` has no line break, `s` is its own single line.
proof fn lemma_split_lines_head(s: Seq<char>, j: int)
    requires
        0 <= j <= s.len(),
        forall|k: int| 0 <= k < j ==> s[k] != '\n',
        j < s.len() ==> s[j] == '\n',
    ensures
        j < s.len() ==> split_lines(s) == seq![s.take(j)] + split_lines(s.skip(j + 1)),
        j == s.len() ==> split_lines(s) == seq![s],
    decreases j,
{
    lemma_split_lines_nonempty(s.drop_first());
    if j == 0 {
        if s.len() == 0 {
            assert(split_lines(s) =~~= seq![s]);
        } else {
            assert(s[0] == '\n');
            assert(s.take(0) =~= Seq::<char>::empty());
            assert(s.skip(1) =~= s.drop_first());
            assert(split_lines(s) =~~= seq![s.take(0)] + split_lines(s.skip(1)));
        }
    } else {
        assert(s[0] != '\n');
        let d = s.drop_first();
        lemma_split_lines_head(d, j - 1);
        let rest = split_lines(d);
        if j < s.len() {
            assert(rest == seq![d.take(j - 1)] + split_lines(d.skip(j)));
            assert(rest[0] == d.take(j - 1));
            assert(seq![s[0]] + d.take(j - 1) =~= s.take(j));
            assert(rest.drop_first() =~~= split_lines(d.skip(j)));
            assert(d.skip(j) =~= s.skip(j + 1));
            assert(split_lines(s) =~~= seq![s.take(j)] + split_lines(s.skip(j + 1)));
        } else {
            assert(rest == seq![d]);
            assert(rest[0] == d);
            assert(seq![s[0]] + d =~= s);
            assert(rest.drop_first() =~~= Seq::<Seq<char>>::empty());
            assert(split_lines(s) =~~= seq![s]);
        }
    }
}

/// `skip_spaces` on the slice `s[a..b]`: when `s[a..k]` is all whitespace
/// and `k` is the first non-whitespace position (or `b`), the result is
/// `s[k..b]`.
proof fn lemma_skip_spaces_subrange(s: Seq<char>, a: int, k: int, b: int)
    requires
        0 <= a <= k <= b <= s.len(),
        forall|i: int| a <= i < k ==> is_space(s[i]),
        k < b ==> !is_space(s[k]),
    ensures
        skip_spaces(s.subrange(a, b)) == s.subrange(k, b),
    decreases k - a,
{
    let sub = s.subrange(a, b);
    if k == a {
        if a == b {
            assert(sub.len() == 0);
        } else {
            assert(sub[0] == s[a]);
            assert(!is_space(sub[0]));
        }
        assert(skip_spaces(sub) == sub);
    } else {
        assert(is_space(sub[0]));
        assert(sub.drop_first() =~= s.subrange(a + 1, b));
        lemma_skip_spaces_subrange(s, a + 1, k, b);
    }
}

/// `leading_field` on the slice `s[k..b]`: when `s[k..m]` is all field
/// characters and `m` is the first delimiter position (or `b`), the field
/// is `s[k..m]`.
proof fn lemma_leading_field_subrange(s: Seq<char>, k: int, m: int, b: int)
    requires
        0 <= k <= m <= b <= s.len(),
        forall|i: int| k <= i < m ==> !is_space(s[i]) && s[i] != '\n',
        m < b ==> is_space(s[m]) || s[m] == '\n',
    ensures
        leading_field(s.subrange(k, b)) == s.subrange(k, m),
    decreases m - k,
{
    let sub = s.subrange(k, b);
    if m == k {
        if k == b {
            assert(sub.len() == 0);
        } else {
            assert(sub[0] == s[k]);
        }
        assert(leading_field(sub) =~= s.subrange(k, m));
    } else {
        assert(sub[0] == s[k]);
        assert(!is_space(sub[0]) && sub[0] != '\n');
        assert(sub.drop_first() =~= s.subrange(k + 1, b));
        lemma_leading_field_subrange(s, k + 1, m, b);
        assert(seq![s[k]] + s.subrange(k + 1, m) =~= s.subrange(k, m));
    }
}

/// Unfolding `fields_of_lines` over a first line.
proof fn lemma_fields_of_lines_cons(l: Seq<char>, rest: Seq<Seq<char>>)
    ensures
        line_kept(l) ==> fields_of_lines(seq![l] + rest) == seq![first_field(l)]
            + fields_of_lines(rest),
        !line_kept(l) ==> fields_of_lines(seq![l] + rest) == fields_of_lines(rest),
{
    let lines = seq![l] + rest;
    assert(lines[0] == l);
    assert(lines.drop_first() =~~= rest);
}

/// Parsing is deterministic: any two parses of the same text are the same
/// sequence of identifiers, so querying and parsing twice offers the user
/// the same list twice.
pub proof fn lemma_parse_deterministic(s: Seq<char>, r1: Seq<Seq<char>>, r2: Seq<Seq<char>>)
    requires
        r1 == spec_parse(s),
        r2 == spec_parse(s),
    ensures
        r1 == r2,
{
}

fn is_space_char(c: char) -> (r: bool)
    ensures
        r == is_space(c),
{
    c == ' ' || c == '\t' || c == '\r'
}

/// Whether the field `tok` ends in the `.i686` architecture marker.
fn is_arch32_field(tok: &str) -> (r: bool)
    ensures
        r == is_arch32_variant(tok@),
{
    let tl = tok.unicode_len();
    if tl >= 5 {
        tok.get_char(tl - 5) == '.' && tok.get_char(tl - 4) == 'i' && tok.get_char(tl - 3) == '6'
            && tok.get_char(tl - 2) == '8' && tok.get_char(tl - 1) == '6'
    } else {
        false
    }
}

/// Parses the raw multi-line output of a package-manager list query into
/// the ordered list of package identifiers it reports: the first line is
/// discarded as a header, every other line contributes its first
/// whitespace-delimited field in input order, lines without a field are
/// skipped, and fields ending in `.i686` are excluded.
pub fn parse_package_list(text: &str) -> (r: Vec<String>)
    ensures
        r.deep_view() == spec_parse(text@),
{
    let ghost s = text@;
    let n = text.unicode_len();
    let mut r: Vec<String> = Vec::new();
    // Scan past the header line.
    let mut i: usize = 0;
    while i < n && text.get_char(i) != '\n'
        invariant
            text@ == s,
            n == s.len(),
            i <= n,
            forall|t: int| 0 <= t < i ==> s[t] != '\n',
        decreases n - i,
    {
        i = i + 1;
    }
    proof {
        lemma_split_lines_head(s, i as int);
    }
    if i == n {
        // The whole text is one header line: no data.
        proof {
            assert(split_lines(s).drop_first() =~~= Seq::<Seq<char>>::empty());
            assert(r.deep_view() =~~= spec_parse(s));
        }
        return r;
    }
    let mut start: usize = i + 1;
    proof {
        assert(split_lines(s).drop_first() =~~= split_lines(s.skip(start as int)));
    }
    let mut done = false;
    while !done
        invariant
            text@ == s,
            n == s.len(),
            start <= n,
            !done ==> spec_parse(s) == r.deep_view() + fields_of_lines(
                split_lines(s.skip(start as int)),
            ),
            done ==> spec_parse(s) == r.deep_view(),
        decreases n - start + (if done {
            0int
        } else {
            1int
        }),
    {
        // Skip the line's leading whitespace.
        let mut k: usize = start;
        while k < n && is_space_char(text.get_char(k))
            invariant
                text@ == s,
                n == s.len(),
                start <= k <= n,
                forall|t: int| start <= t < k ==> is_space(s[t]),
            decreases n - k,
        {
            k = k + 1;
        }
        // Scan the first field.
        let mut m: usize = k;
        while m < n && !is_space_char(text.get_char(m)) && text.get_char(m) != '\n'
            invariant
                text@ == s,
                n == s.len(),
                k <= m <= n,
                forall|t: int| k <= t < m ==> !is_space(s[t]) && s[t] != '\n',
            decreases n - m,
        {
            m = m + 1;
        }
        // Scan to the end of the line.
        let mut j: usize = m;
        while j < n && text.get_char(j) != '\n'
            invariant
                text@ == s,
                n == s.len(),
                m <= j <= n,
                forall|t: int| m <= t < j ==> s[t] != '\n',
            decreases n - j,
        {
            j = j + 1;
        }
        let ghost line = s.subrange(start as int, j as int);
        proof {
            lemma_skip_spaces_subrange(s, start as int, k as int, j as int);
            lemma_leading_field_subrange(s, k as int, m as int, j as int);
            assert(first_field(line) == s.subrange(k as int, m as int));
        }
        let ghost old_dv = r.deep_view();
        if m > k {
            let tok: &str = text.substring_char(k, m);
            if !is_arch32_field(tok) {
                let owned: String = tok.to_owned();
                r.push(owned);
                proof {
                    assert(line_kept(line));
                    assert(r.deep_view() =~= old_dv.push(tok@));
                    assert(old_dv.push(tok@) =~= old_dv + seq![first_field(line)]);
                }
            } else {
                proof {
                    assert(!line_kept(line));
                }
            }
        } else {
            proof {
                assert(first_field(line).len() == 0);
                assert(!line_kept(line));
            }
        }
        proof {
            let tail = s.skip(start as int);
            lemma_split_lines_head(tail, j - start);
            if j < n {
                assert(tail.take(j - start) =~= line);
                assert(tail.skip(j - start + 1) =~= s.skip(j + 1));
                lemma_fields_of_lines_cons(line, split_lines(s.skip(j + 1)));
            } else {
                assert(tail =~= line);
                lemma_fields_of_lines_cons(line, Seq::<Seq<char>>::empty());
                assert(seq![line] + Seq::<Seq<char>>::empty() =~~= seq![line]);
                assert(split_lines(tail) == seq![line]);
            }
        }
        if j < n {
            proof {
                assert(spec_parse(s) =~~= r.deep_view() + fields_of_lines(
                    split_lines(s.skip(j + 1)),
                ));
            }
            start = j + 1;
        } else {
            proof {
                assert(fields_of_lines(Seq::<Seq<char>>::empty()) =~~= Seq::<Seq<char>>::empty());
                assert(spec_parse(s) =~~= r.deep_view());
            }
            done = true;
        }
    }
    r
}

} // verus!
