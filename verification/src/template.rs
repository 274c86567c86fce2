//! The template parser: scans a template literal for `{ref[:formatspec]}`
//! placeholders, strips each reference text out of the literal (leaving the
//! braces and any format spec in place for the host's render call) and
//! resolves the references in order of appearance.
//!
//! The scan repeats leftmost-match-then-delete until no placeholder remains:
//! removal shifts later offsets, so each round restarts from the beginning.

use vstd::prelude::*;
use vstd::string::*;
use vstd::arithmetic::div_mod::lemma_fundamental_div_mod;
use crate::text::{all_digits, digit_char, digit_val, digits_val, escape, is_digit_char,
    is_word_char, lit_token, word_char};
use crate::model::{ArgToken, ArgTokenSpec, CompiledTemplate, CompiledTemplateSpec, Diag,
    DiagKind, FieldRef, FieldRefSpec};

verus! {

// ---------------------------------------------------------------------------
// The placeholder grammar: `'{' word+ (':' spec+)? '}'`, where a format spec
// runs up to the first `}` and may not contain a newline.
// ---------------------------------------------------------------------------

/// End of the run of word characters starting at `j`.
pub open spec fn word_end(s: Seq<char>, j: int) -> int
    decreases s.len() - j when 0 <= j <= s.len()
{
    if j < s.len() && is_word_char(s[j]) {
        word_end(s, j + 1)
    } else {
        j
    }
}

/// First position at or after `j` holding `}` or a newline, or the length.
pub open spec fn fmt_end(s: Seq<char>, j: int) -> int
    decreases s.len() - j when 0 <= j <= s.len()
{
    if j < s.len() && s[j] != '}' && s[j] != '\n' {
        fmt_end(s, j + 1)
    } else {
        j
    }
}

pub proof fn lemma_word_end_bounds(s: Seq<char>, j: int)
    requires
        0 <= j <= s.len(),
    ensures
        j <= word_end(s, j) <= s.len(),
    decreases s.len() - j,
{
    if j < s.len() && is_word_char(s[j]) {
        lemma_word_end_bounds(s, j + 1);
    }
}

/// Whether a placeholder match begins at position `i`.
pub open spec fn match_at(s: Seq<char>, i: int) -> bool {
    &&& 0 <= i < s.len()
    &&& s[i] == '{'
    &&& {
        let j = word_end(s, i + 1);
        &&& j > i + 1
        &&& j < s.len()
        &&& (s[j] == '}' || (s[j] == ':' && {
            let m = fmt_end(s, j + 1);
            &&& m > j + 1
            &&& m < s.len()
            &&& s[m] == '}'
        }))
    }
}

/// First position at or after `from` where a placeholder match begins,
/// or -1 if there is none.
pub open spec fn first_match_from(s: Seq<char>, from: int) -> int
    decreases s.len() - from when 0 <= from <= s.len()
{
    if from >= s.len() {
        -1
    } else if match_at(s, from) {
        from
    } else {
        first_match_from(s, from + 1)
    }
}

pub proof fn lemma_first_match_from(s: Seq<char>, from: int)
    requires
        0 <= from <= s.len(),
    ensures
        first_match_from(s, from) == -1 ==> forall|k: int|
            from <= k < s.len() ==> !match_at(s, k),
        first_match_from(s, from) != -1 ==> {
            let i = first_match_from(s, from);
            &&& from <= i < s.len()
            &&& match_at(s, i)
            &&& forall|k: int| from <= k < i ==> !match_at(s, k)
        },
    decreases s.len() - from,
{
    if from < s.len() && !match_at(s, from) {
        lemma_first_match_from(s, from + 1);
    }
}

/// If a match begins at `i` and none begins earlier (at or after `from`),
/// then `i` is the first match position.
pub proof fn lemma_first_match_from_is(s: Seq<char>, from: int, i: int)
    requires
        0 <= from <= i < s.len(),
        match_at(s, i),
        forall|k: int| from <= k < i ==> !match_at(s, k),
    ensures
        first_match_from(s, from) == i,
    decreases i - from,
{
    if from < i {
        lemma_first_match_from_is(s, from + 1, i);
    }
}

pub proof fn lemma_first_match_from_none(s: Seq<char>, from: int)
    requires
        0 <= from <= s.len(),
        forall|k: int| from <= k < s.len() ==> !match_at(s, k),
    ensures
        first_match_from(s, from) == -1,
    decreases s.len() - from,
{
    if from < s.len() {
        lemma_first_match_from_none(s, from + 1);
    }
}

// ---------------------------------------------------------------------------
// The iterated scan.
// ---------------------------------------------------------------------------

/// What the literal looks like after one placeholder's reference text is
/// removed: the text between the opening brace and the end of the word run
/// disappears, braces and format spec stay.
pub open spec fn after_removal(s: Seq<char>, i: int) -> Seq<char>
    recommends
        match_at(s, i),
{
    s.subrange(0, i + 1) + s.subrange(word_end(s, i + 1), s.len() as int)
}

#[via_fn]
proof fn scan_literal_decreases(s: Seq<char>) {
    lemma_scan_step(s);
}

/// The literal after the scan reaches its fixpoint.
pub open spec fn scan_literal(s: Seq<char>) -> Seq<char>
    decreases s.len() via scan_literal_decreases
{
    let i = first_match_from(s, 0);
    if i == -1 {
        s
    } else {
        scan_literal(after_removal(s, i))
    }
}

#[via_fn]
proof fn scan_refs_decreases(s: Seq<char>) {
    lemma_scan_step(s);
}

/// The reference texts of all placeholders, in order of appearance.
pub open spec fn scan_refs(s: Seq<char>) -> Seq<Seq<char>>
    decreases s.len() via scan_refs_decreases
{
    let i = first_match_from(s, 0);
    if i == -1 {
        Seq::empty()
    } else {
        seq![s.subrange(i + 1, word_end(s, i + 1))] + scan_refs(after_removal(s, i))
    }
}

#[via_fn]
proof fn placeholder_count_decreases(s: Seq<char>) {
    lemma_scan_step(s);
}

/// How many placeholders the scan consumes before reaching its fixpoint.
pub open spec fn placeholder_count(s: Seq<char>) -> nat
    decreases s.len() via placeholder_count_decreases
{
    let i = first_match_from(s, 0);
    if i == -1 {
        0
    } else {
        1 + placeholder_count(after_removal(s, i))
    }
}

/// One scan step removes at least one character.
pub proof fn lemma_scan_step(s: Seq<char>)
    ensures
        first_match_from(s, 0) != -1 ==> {
            let i = first_match_from(s, 0);
            &&& 0 <= i < s.len()
            &&& match_at(s, i)
            &&& i + 1 < word_end(s, i + 1) <= s.len()
            &&& after_removal(s, i).len() < s.len()
        },
{
    if s.len() > 0 {
        lemma_first_match_from(s, 0);
        let i = first_match_from(s, 0);
        if i != -1 {
            lemma_word_end_bounds(s, i + 1);
        }
    }
}

// ---------------------------------------------------------------------------
// Executable match finding.
// ---------------------------------------------------------------------------

/// Looks for a placeholder match beginning exactly at `i`; on success returns
/// the end of the reference text (the word run after the brace).
fn try_match_at(s: &str, i: usize, n: usize) -> (r: Option<usize>)
    requires
        n == s@.len(),
        i < n,
    ensures
        match r {
            Some(j) => match_at(s@, i as int) && j == word_end(s@, i + 1),
            None => !match_at(s@, i as int),
        },
{
    if s.get_char(i) != '{' {
        return None;
    }
    let mut j = i + 1;
    while j < n && word_char(s.get_char(j))
        invariant
            n == s@.len(),
            i + 1 <= j <= n,
            word_end(s@, i + 1) == word_end(s@, j as int),
        decreases n - j,
    {
        proof {
            assert(word_end(s@, j as int) == word_end(s@, j + 1 as int));
        }
        j = j + 1;
    }
    proof {
        assert(word_end(s@, j as int) == j);
    }
    if j == i + 1 || j >= n {
        return None;
    }
    let c = s.get_char(j);
    if c == '}' {
        return Some(j);
    }
    if c != ':' {
        return None;
    }
    let mut m = j + 1;
    loop
        invariant
            n == s@.len(),
            j + 1 <= m <= n,
            j == word_end(s@, i + 1),
            fmt_end(s@, j + 1) == fmt_end(s@, m as int),
        ensures
            n == s@.len(),
            j + 1 <= m <= n,
            fmt_end(s@, j + 1) == fmt_end(s@, m as int),
            m == n || s@[m as int] == '}' || s@[m as int] == '\n',
        decreases n - m,
    {
        if m >= n {
            break;
        }
        let cm = s.get_char(m);
        if cm == '}' || cm == '\n' {
            break;
        }
        proof {
            assert(fmt_end(s@, m as int) == fmt_end(s@, m + 1 as int));
        }
        m = m + 1;
    }
    proof {
        assert(fmt_end(s@, m as int) == m);
    }
    if m > j + 1 && m < n && s.get_char(m) == '}' {
        Some(j)
    } else {
        None
    }
}

/// Finds the leftmost placeholder match: its start and the end of its
/// reference text.
fn find_match(s: &str) -> (r: Option<(usize, usize)>)
    ensures
        match r {
            Some(p) => {
                &&& first_match_from(s@, 0) == p.0
                &&& p.1 == word_end(s@, p.0 + 1)
                &&& match_at(s@, p.0 as int)
                &&& p.0 + 1 < p.1 <= s@.len()
            },
            None => first_match_from(s@, 0) == -1,
        },
{
    let n = s.unicode_len();
    let mut i: usize = 0;
    while i < n
        invariant
            n == s@.len(),
            0 <= i <= n,
            forall|k: int| 0 <= k < i ==> !match_at(s@, k),
        decreases n - i,
    {
        match try_match_at(s, i, n) {
            Some(j) => {
                proof {
                    lemma_first_match_from_is(s@, 0, i as int);
                    lemma_word_end_bounds(s@, i + 1);
                }
                return Some((i, j));
            },
            None => {
                i = i + 1;
            },
        }
    }
    proof {
        lemma_first_match_from_none(s@, 0);
    }
    None
}

/// Runs the scan to its fixpoint: returns the stripped literal and the
/// reference texts in order of appearance.
pub fn scan_template(lit: &str) -> (r: (String, Vec<String>))
    ensures
        r.0@ == scan_literal(lit@),
        r.1.deep_view() == scan_refs(lit@),
{
    let mut cur: String = lit.to_owned();
    let mut refs: Vec<String> = Vec::new();
    loop
        invariant
            scan_literal(lit@) == scan_literal(cur@),
            scan_refs(lit@) == refs.deep_view() + scan_refs(cur@),
        decreases cur@.len(),
    {
        let found = find_match(cur.as_str());
        match found {
            None => {
                proof {
                    assert(scan_literal(cur@) == cur@);
                    assert(scan_refs(cur@) =~= Seq::<Seq<char>>::empty());
                    assert(refs.deep_view() + scan_refs(cur@) =~= refs.deep_view());
                }
                return (cur, refs);
            },
            Some((i, j)) => {
                let n = cur.as_str().unicode_len();
                let group = cur.as_str().substring_char(i + 1, j).to_owned();
                let ghost prev = cur@;
                let ghost prev_refs = refs.deep_view();
                refs.push(group);
                let left = cur.as_str().substring_char(0, i + 1).to_owned();
                let right_owned = {
                    let right = cur.as_str().substring_char(j, n);
                    left.concat(right)
                };
                cur = right_owned;
                proof {
                    assert(cur@ == after_removal(prev, i as int));
                    lemma_scan_step(prev);
                    assert(scan_literal(prev) == scan_literal(cur@));
                    assert(scan_refs(prev) == seq![prev.subrange(i + 1, j as int)] + scan_refs(
                        cur@,
                    ));
                    assert(refs.deep_view() =~= prev_refs.push(prev.subrange(i + 1, j as int)));
                    assert(prev_refs + scan_refs(prev) =~= refs.deep_view() + scan_refs(cur@));
                }
            },
        }
    }
}

// ---------------------------------------------------------------------------
// Reference resolution: positional if the text reads as a tuple index,
// named otherwise.
// ---------------------------------------------------------------------------

/// Whether a reference text is taken positionally: non-empty, all decimal
/// digits, and small enough for a machine index.
pub open spec fn is_positional_text(t: Seq<char>) -> bool {
    t.len() > 0 && all_digits(t) && digits_val(t) <= usize::MAX
}

/// How one reference text resolves.
pub open spec fn classify_spec(t: Seq<char>) -> FieldRefSpec {
    if is_positional_text(t) {
        FieldRefSpec::PositionalS(t)
    } else {
        FieldRefSpec::NamedS(t)
    }
}

/// The value of a digit sequence only grows as digits are appended.
proof fn lemma_digits_val_prefix(t: Seq<char>, k: int)
    requires
        0 <= k <= t.len(),
    ensures
        digits_val(t) >= digits_val(t.subrange(0, k)),
    decreases t.len(),
{
    if k < t.len() {
        assert(t.drop_last().subrange(0, k) =~= t.subrange(0, k));
        lemma_digits_val_prefix(t.drop_last(), k);
        assert(digits_val(t) == digits_val(t.drop_last()) * 10 + digit_val(t.last()));
    } else {
        assert(t.subrange(0, k) =~= t);
    }
}

/// Resolves one reference text.
pub fn classify_ref(t: String) -> (r: FieldRef)
    ensures
        r@ == classify_spec(t@),
{
    let n = t.as_str().unicode_len();
    if n == 0 {
        return FieldRef::Named(t);
    }
    let threshold = usize::MAX / 10;
    let rem = usize::MAX % 10;
    proof {
        lemma_fundamental_div_mod(usize::MAX as int, 10);
    }
    let mut val: usize = 0;
    let mut i: usize = 0;
    while i < n
        invariant
            n == t@.len(),
            0 <= i <= n,
            threshold == usize::MAX / 10,
            rem == usize::MAX % 10,
            usize::MAX == 10 * threshold + rem,
            rem <= 9,
            forall|k: int| 0 <= k < i ==> is_digit_char(#[trigger] t@[k]),
            val == digits_val(t@.subrange(0, i as int)),
        decreases n - i,
    {
        let c = t.as_str().get_char(i);
        if !digit_char(c) {
            return FieldRef::Named(t);
        }
        let d = (c as u32 as usize) - ('0' as u32 as usize);
        proof {
            assert(d == digit_val(t@[i as int]));
            assert(t@.subrange(0, i + 1 as int).drop_last() =~= t@.subrange(0, i as int));
            assert(t@.subrange(0, i + 1 as int).last() == t@[i as int]);
            assert(digits_val(t@.subrange(0, i + 1 as int)) == val * 10 + d);
        }
        if val > threshold || (val == threshold && d > rem) {
            proof {
                assert(val * 10 + d > usize::MAX);
                lemma_digits_val_prefix(t@, i + 1);
                assert(digits_val(t@) > usize::MAX);
            }
            return FieldRef::Named(t);
        }
        val = val * 10 + d;
        i = i + 1;
    }
    proof {
        assert(t@.subrange(0, n as int) =~= t@);
        assert(is_positional_text(t@));
    }
    FieldRef::Positional(t)
}

// ---------------------------------------------------------------------------
// Parsing a template attribute's argument stream.
// ---------------------------------------------------------------------------

/// The compiled form of a template literal.
pub open spec fn spec_compiled(lit: Seq<char>) -> CompiledTemplateSpec {
    CompiledTemplateSpec {
        literal: scan_literal(lit),
        args: scan_refs(lit).map_values(|t: Seq<char>| classify_spec(t)),
    }
}

/// What parsing an argument stream yields: the stream must hold a string
/// literal, optionally followed by one comma, and nothing else.
pub open spec fn spec_parse_template(tokens: Seq<ArgTokenSpec>, err_span: u64) -> Result<
    CompiledTemplateSpec,
    Diag,
> {
    if tokens.len() == 0 {
        Err(Diag { kind: DiagKind::EmptyInput, span: err_span })
    } else {
        match tokens[0] {
            ArgTokenSpec::StrLitS(lit) => {
                if tokens.len() >= 2 && !(tokens[1] is CommaS) {
                    Err(Diag { kind: DiagKind::UnexpectedTrailingToken, span: err_span })
                } else if tokens.len() > 2 {
                    Err(Diag { kind: DiagKind::UnexpectedToken, span: err_span })
                } else {
                    Ok(spec_compiled(lit))
                }
            },
            _ => Err(Diag { kind: DiagKind::ExpectedStringLiteral, span: err_span }),
        }
    }
}

/// Parses one template attribute's argument stream into a compiled template.
/// Errors carry `err_span`, the stream's source location.
pub fn parse_template(tokens: &Vec<ArgToken>, err_span: u64) -> (r: Result<CompiledTemplate, Diag>)
    ensures
        match r {
            Ok(t) => spec_parse_template(tokens.deep_view(), err_span) == Ok::<
                CompiledTemplateSpec,
                Diag,
            >(t@),
            Err(d) => spec_parse_template(tokens.deep_view(), err_span) == Err::<
                CompiledTemplateSpec,
                Diag,
            >(d),
        },
{
    let n = tokens.len();
    if n == 0 {
        return Err(Diag { kind: DiagKind::EmptyInput, span: err_span });
    }
    proof {
        assert(tokens.deep_view()[0] == tokens@[0].deep_view());
    }
    let lit: String = match &tokens[0] {
        ArgToken::StrLit(s) => s.clone(),
        _ => {
            return Err(Diag { kind: DiagKind::ExpectedStringLiteral, span: err_span });
        },
    };
    if n >= 2 {
        proof {
            assert(tokens.deep_view()[1] == tokens@[1].deep_view());
        }
        match &tokens[1] {
            ArgToken::Comma => {},
            _ => {
                return Err(Diag { kind: DiagKind::UnexpectedTrailingToken, span: err_span });
            },
        }
        if n > 2 {
            return Err(Diag { kind: DiagKind::UnexpectedToken, span: err_span });
        }
    }
    let (literal, ref_texts) = scan_template(lit.as_str());
    let m = ref_texts.len();
    let mut args: Vec<FieldRef> = Vec::new();
    let mut i: usize = 0;
    while i < m
        invariant
            m == ref_texts@.len(),
            0 <= i <= m,
            ref_texts.deep_view() == scan_refs(lit@),
            args@.len() == i,
            forall|k: int|
                0 <= k < i ==> (#[trigger] args@[k])@ == classify_spec(ref_texts.deep_view()[k]),
        decreases m - i,
    {
        let ghost prev = args@;
        let r = classify_ref(ref_texts[i].clone());
        args.push(r);
        proof {
            assert(ref_texts.deep_view()[i as int] == ref_texts@[i as int]@);
            assert forall|k: int| 0 <= k < i + 1 implies (#[trigger] args@[k])@ == classify_spec(
                ref_texts.deep_view()[k],
            ) by {
                if k < i {
                    assert(args@[k] == prev[k]);
                }
            }
        }
        i = i + 1;
    }
    let out = CompiledTemplate { literal, args };
    proof {
        assert forall|k: int| 0 <= k < m implies #[trigger] out@.args[k] == spec_compiled(
            lit@,
        ).args[k] by {
            assert(out@.args[k] == args@[k]@);
        }
        assert(out@.args =~= spec_compiled(lit@).args);
        assert(out@ == spec_compiled(lit@));
    }
    Ok(out)
}

// ---------------------------------------------------------------------------
// Parsing a literal plus explicit trailing argument expressions: the form a
// template attribute takes when the arguments are written out instead of
// resolved from placeholders.
// ---------------------------------------------------------------------------

/// The explicit arguments alternate with separating commas, expression
/// first; a trailing comma is welcome.
pub open spec fn well_separated(toks: Seq<ArgTokenSpec>) -> bool {
    forall|i: int| 0 <= i < toks.len() ==> ((#[trigger] toks[i] is CommaS) <==> (i % 2 == 1))
}

/// The rendered text one explicit argument contributes.
pub open spec fn explicit_arg_text(t: ArgTokenSpec) -> Seq<char> {
    match t {
        ArgTokenSpec::StrLitS(s) => lit_token(s),
        ArgTokenSpec::CommaS => Seq::empty(),
        ArgTokenSpec::OtherS(t) => t,
    }
}

/// The rendered texts of the explicit arguments, separators dropped.
pub open spec fn explicit_arg_texts(toks: Seq<ArgTokenSpec>) -> Seq<Seq<char>> {
    Seq::new((toks.len() + 1) / 2, |j: int| explicit_arg_text(toks[2 * j]))
}

/// What parsing a literal with explicit trailing arguments yields: a string
/// literal, a separating comma, then comma-separated argument expressions.
pub open spec fn spec_parse_literal_and_args(tokens: Seq<ArgTokenSpec>, err_span: u64) -> Result<
    (Seq<char>, Seq<Seq<char>>),
    Diag,
> {
    if tokens.len() == 0 {
        Err(Diag { kind: DiagKind::EmptyInput, span: err_span })
    } else {
        match tokens[0] {
            ArgTokenSpec::StrLitS(lit) => {
                if tokens.len() == 1 {
                    Ok((lit, Seq::empty()))
                } else if !(tokens[1] is CommaS) {
                    Err(Diag { kind: DiagKind::UnexpectedTrailingToken, span: err_span })
                } else if !well_separated(tokens.skip(2)) {
                    Err(Diag { kind: DiagKind::UnexpectedToken, span: err_span })
                } else {
                    Ok((lit, explicit_arg_texts(tokens.skip(2))))
                }
            },
            _ => Err(Diag { kind: DiagKind::ExpectedStringLiteral, span: err_span }),
        }
    }
}

/// Parses a template attribute's argument stream in its explicit form: the
/// literal, then each trailing argument expression's rendered text.
pub fn parse_literal_and_args(tokens: &Vec<ArgToken>, err_span: u64) -> (r: Result<
    (String, Vec<String>),
    Diag,
>)
    ensures
        match r {
            Ok(p) => spec_parse_literal_and_args(tokens.deep_view(), err_span) == Ok::<
                (Seq<char>, Seq<Seq<char>>),
                Diag,
            >((p.0@, p.1.deep_view())),
            Err(d) => spec_parse_literal_and_args(tokens.deep_view(), err_span) == Err::<
                (Seq<char>, Seq<Seq<char>>),
                Diag,
            >(d),
        },
{
    let ghost toks = tokens.deep_view();
    let ghost rest = toks.skip(2);
    let n = tokens.len();
    if n == 0 {
        return Err(Diag { kind: DiagKind::EmptyInput, span: err_span });
    }
    proof {
        assert(toks[0] == tokens@[0].deep_view());
    }
    let lit: String = match &tokens[0] {
        ArgToken::StrLit(s) => s.clone(),
        _ => {
            return Err(Diag { kind: DiagKind::ExpectedStringLiteral, span: err_span });
        },
    };
    if n == 1 {
        let args: Vec<String> = Vec::new();
        proof {
            assert(args.deep_view() =~= Seq::<Seq<char>>::empty());
        }
        return Ok((lit, args));
    }
    proof {
        assert(toks[1] == tokens@[1].deep_view());
    }
    match &tokens[1] {
        ArgToken::Comma => {},
        _ => {
            return Err(Diag { kind: DiagKind::UnexpectedTrailingToken, span: err_span });
        },
    }
    let mut args: Vec<String> = Vec::new();
    let mut i: usize = 2;
    while i < n
        invariant
            toks == tokens.deep_view(),
            rest == toks.skip(2),
            n == toks.len(),
            2 <= i <= n,
            toks[0] matches ArgTokenSpec::StrLitS(l) && l == lit@,
            toks[1] is CommaS,
            forall|k: int| 0 <= k < i - 2 ==> ((#[trigger] rest[k] is CommaS) <==> (k % 2 == 1)),
            args@.len() == (i - 1) / 2,
            forall|j: int|
                0 <= j < args@.len() ==> (#[trigger] args@[j])@ == explicit_arg_text(rest[2 * j]),
        decreases n - i,
    {
        proof {
            assert(rest[i - 2] == toks[i as int]);
            assert(toks[i as int] == tokens@[i as int].deep_view());
        }
        let ghost prev = args@;
        if (i % 2) == 1 {
            match &tokens[i] {
                ArgToken::Comma => {},
                _ => {
                    proof {
                        assert((i - 2) as int % 2 == 1);
                        assert(!(rest[i - 2] is CommaS));
                        assert(!well_separated(rest));
                    }
                    return Err(Diag { kind: DiagKind::UnexpectedToken, span: err_span });
                },
            }
        } else {
            match &tokens[i] {
                ArgToken::Comma => {
                    proof {
                        assert((i - 2) as int % 2 == 0);
                        assert(rest[i - 2] is CommaS);
                        assert(!well_separated(rest));
                    }
                    return Err(Diag { kind: DiagKind::UnexpectedToken, span: err_span });
                },
                ArgToken::StrLit(s) => {
                    let mut q = "\"".to_owned();
                    q.append(escape(s.as_str()).as_str());
                    q.append("\"");
                    proof {
                        reveal_strlit("\"");
                        assert(q@ =~= lit_token(s@));
                    }
                    args.push(q);
                },
                ArgToken::Other(t) => {
                    args.push(t.clone());
                },
            }
        }
        proof {
            assert forall|j: int| 0 <= j < args@.len() implies (#[trigger] args@[j])@
                == explicit_arg_text(rest[2 * j]) by {
                if j < prev.len() {
                    assert(args@[j] == prev[j]);
                }
            }
        }
        i = i + 1;
    }
    proof {
        assert(well_separated(rest));
        assert(args.deep_view() =~= explicit_arg_texts(rest));
    }
    Ok((lit, args))
}

// ---------------------------------------------------------------------------
// Applying a compiled template to pre-rendered argument texts: each `{...}`
// hole, left to right, is replaced by the next argument. This is the render
// semantics of the generated code, with the host's per-argument formatting
// already done.
// ---------------------------------------------------------------------------

/// First position at or after `from` holding `c`, or -1.
pub open spec fn find_char_from(s: Seq<char>, from: int, c: char) -> int
    decreases s.len() - from when 0 <= from <= s.len()
{
    if from >= s.len() {
        -1
    } else if s[from] == c {
        from
    } else {
        find_char_from(s, from + 1, c)
    }
}

pub proof fn lemma_find_char_bounds(s: Seq<char>, from: int, c: char)
    requires
        0 <= from <= s.len(),
    ensures
        find_char_from(s, from, c) == -1 || (from <= find_char_from(s, from, c) < s.len()
            && s[find_char_from(s, from, c)] == c),
    decreases s.len() - from,
{
    if from < s.len() && s[from] != c {
        lemma_find_char_bounds(s, from + 1, c);
    }
}

#[via_fn]
proof fn apply_spec_decreases(lit: Seq<char>, args: Seq<Seq<char>>) {
    lemma_find_char_bounds(lit, 0, '{');
    let b = find_char_from(lit, 0, '{');
    if b != -1 {
        lemma_find_char_bounds(lit, b + 1, '}');
    }
}

/// The text a template renders: each hole replaced, left to right, by the
/// next argument; `None` when holes and arguments do not line up or a hole
/// never closes.
pub open spec fn apply_spec(lit: Seq<char>, args: Seq<Seq<char>>) -> Option<Seq<char>>
    decreases lit.len() via apply_spec_decreases
{
    let b = find_char_from(lit, 0, '{');
    if b == -1 {
        if args.len() == 0 {
            Some(lit)
        } else {
            None
        }
    } else {
        let e = find_char_from(lit, b + 1, '}');
        if e == -1 || args.len() == 0 {
            None
        } else {
            match apply_spec(lit.subrange(e + 1, lit.len() as int), args.drop_first()) {
                Some(r) => Some(lit.subrange(0, b) + args[0] + r),
                None => None,
            }
        }
    }
}

/// Finds the first occurrence of `c` at or after `from`.
fn find_char(s: &str, from: usize, c: char) -> (r: Option<usize>)
    requires
        from <= s@.len(),
    ensures
        match r {
            Some(i) => find_char_from(s@, from as int, c) == i && from <= i < s@.len(),
            None => find_char_from(s@, from as int, c) == -1,
        },
{
    let n = s.unicode_len();
    let mut i = from;
    while i < n
        invariant
            n == s@.len(),
            from <= i <= n,
            find_char_from(s@, from as int, c) == find_char_from(s@, i as int, c),
        decreases n - i,
    {
        if s.get_char(i) == c {
            return Some(i);
        }
        proof {
            assert(find_char_from(s@, i as int, c) == find_char_from(s@, i + 1 as int, c));
        }
        i = i + 1;
    }
    None
}

fn apply_from(lit: &str, args: &Vec<String>, k: usize) -> (r: Option<String>)
    requires
        k <= args@.len(),
    ensures
        match r {
            Some(out) => apply_spec(lit@, args.deep_view().skip(k as int)) == Some(out@),
            None => apply_spec(lit@, args.deep_view().skip(k as int)) is None,
        },
    decreases lit@.len(),
{
    let ghost rest_args = args.deep_view().skip(k as int);
    let n = lit.unicode_len();
    match find_char(lit, 0, '{') {
        None => {
            if k == args.len() {
                proof {
                    assert(rest_args.len() == 0);
                }
                Some(lit.to_owned())
            } else {
                proof {
                    assert(rest_args.len() > 0);
                }
                None
            }
        },
        Some(b) => {
            match find_char(lit, b + 1, '}') {
                None => None,
                Some(e) => {
                    if k == args.len() {
                        proof {
                            assert(rest_args.len() == 0);
                        }
                        return None;
                    }
                    proof {
                        assert(rest_args.len() > 0);
                        assert(rest_args.drop_first() =~= args.deep_view().skip(k + 1 as int));
                        assert(rest_args[0] == args.deep_view()[k as int]);
                        assert(args.deep_view()[k as int] == args@[k as int]@);
                    }
                    let tail = lit.substring_char(e + 1, n);
                    match apply_from(tail, args, k + 1) {
                        None => None,
                        Some(r) => {
                            let mut out = lit.substring_char(0, b).to_owned();
                            out.append(args[k].as_str());
                            out.append(r.as_str());
                            Some(out)
                        },
                    }
                },
            }
        },
    }
}

/// Replaces the holes of a stripped template literal, left to right, with the
/// given pre-rendered argument texts. Returns `None` when the number of holes
/// and arguments differ or a hole never closes.
pub fn apply_template(lit: &str, args: &Vec<String>) -> (r: Option<String>)
    ensures
        match r {
            Some(out) => apply_spec(lit@, args.deep_view()) == Some(out@),
            None => apply_spec(lit@, args.deep_view()) is None,
        },
{
    proof {
        assert(args.deep_view().skip(0) =~= args.deep_view());
    }
    apply_from(lit, args, 0)
}

} // verus!
