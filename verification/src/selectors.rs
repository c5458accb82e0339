//! CSS-like selectors over the accessibility tree: a tokenizer, a parser and two
//! matchers (first match, all matches).
use vstd::prelude::*;
use crate::text::{chars_of, trim, trim_spec};
use crate::types::{A11yNode, kids};

verus! {

// ============================================
// Tokenizer
// ============================================

/// A regex flag letter accepted after a closing `/`.
pub open spec fn is_flag(c: char) -> bool {
    c == 'g' || c == 'i' || c == 'm' || c == 's' || c == 'u' || c == 'y'
}

fn is_flag_exec(c: char) -> (r: bool)
    ensures
        r == is_flag(c),
{
    c == 'g' || c == 'i' || c == 'm' || c == 's' || c == 'u' || c == 'y'
}

/// End of the run of flag letters starting at `j`.
pub open spec fn flag_run_end(cs: Seq<char>, j: int) -> int
    decreases cs.len() - j,
{
    if 0 <= j < cs.len() && is_flag(cs[j]) {
        flag_run_end(cs, j + 1)
    } else {
        j
    }
}

proof fn lemma_flag_run_end(cs: Seq<char>, j: int)
    requires
        0 <= j <= cs.len(),
    ensures
        j <= flag_run_end(cs, j) <= cs.len(),
        forall|k: int| j <= k < flag_run_end(cs, j) ==> is_flag(cs[k]),
        flag_run_end(cs, j) < cs.len() ==> !is_flag(cs[flag_run_end(cs, j)]),
    decreases cs.len() - j,
{
    if j < cs.len() && is_flag(cs[j]) {
        lemma_flag_run_end(cs, j + 1);
    }
}

/// Tokenizer state: tokens emitted so far, the token being built, and whether
/// the scan is inside a quoted string or a `/regex/` literal.
pub struct TokState {
    pub tokens: Seq<Seq<char>>,
    pub current: Seq<char>,
    pub in_quotes: bool,
    pub in_regex: bool,
    pub quote: char,
}

/// The character before position `i` is not a backslash.
pub open spec fn unescaped(cs: Seq<char>, i: int) -> bool {
    i == 0 || cs[i - 1] != '\\'
}

/// `tokens` with the trimmed `cur` appended when it is not blank.
pub open spec fn emit(tokens: Seq<Seq<char>>, cur: Seq<char>) -> Seq<Seq<char>> {
    if trim_spec(cur).len() > 0 {
        tokens.push(trim_spec(cur))
    } else {
        tokens
    }
}

/// One tokenizer step at position `i`: the new state and the next position.
pub open spec fn tok_step(cs: Seq<char>, i: int, st: TokState) -> (TokState, int) {
    let ch = cs[i];
    if st.in_quotes {
        (
            TokState {
                current: st.current.push(ch),
                in_quotes: !(ch == st.quote && unescaped(cs, i)),
                ..st
            },
            i + 1,
        )
    } else if st.in_regex {
        if ch == '/' && unescaped(cs, i) {
            let e = flag_run_end(cs, i + 1);
            (
                TokState {
                    current: st.current.push(ch) + cs.subrange(i + 1, e),
                    in_regex: false,
                    ..st
                },
                e,
            )
        } else {
            (TokState { current: st.current.push(ch), ..st }, i + 1)
        }
    } else if ch == '"' || ch == '\'' {
        (TokState { current: st.current.push(ch), in_quotes: true, quote: ch, ..st }, i + 1)
    } else if ch == '/' && st.current.len() > 0 && st.current.last() == '=' {
        (TokState { current: st.current.push(ch), in_regex: true, ..st }, i + 1)
    } else if ch == ' ' || ch == '>' {
        let t = emit(st.tokens, st.current);
        (
            TokState {
                tokens: if ch == '>' { t.push(seq!['>']) } else { t },
                current: Seq::empty(),
                ..st
            },
            i + 1,
        )
    } else {
        (TokState { current: st.current.push(ch), ..st }, i + 1)
    }
}

/// The tokens produced from position `i` on, starting in state `st`.
pub open spec fn tok_run(cs: Seq<char>, i: int, st: TokState) -> Seq<Seq<char>>
    decreases cs.len() - i,
{
    if i < 0 || i >= cs.len() {
        emit(st.tokens, st.current)
    } else {
        let (st2, j) = tok_step(cs, i, st);
        if j <= i || j > cs.len() {
            emit(st.tokens, st.current)
        } else {
            tok_run(cs, j, st2)
        }
    }
}

/// The tokens of a selector: compound selectors and `>` combinators, split on
/// spaces outside quotes and regex literals.
pub open spec fn tokenize_spec(cs: Seq<char>) -> Seq<Seq<char>> {
    tok_run(
        cs,
        0,
        TokState {
            tokens: Seq::empty(),
            current: Seq::empty(),
            in_quotes: false,
            in_regex: false,
            quote: ' ',
        },
    )
}

pub open spec fn views(v: Seq<Vec<char>>) -> Seq<Seq<char>> {
    v.map_values(|t: Vec<char>| t@)
}

fn emit_exec(tokens: &mut Vec<Vec<char>>, cur: &Vec<char>)
    ensures
        views(final(tokens)@) == emit(views(old(tokens)@), cur@),
{
    let t = trim(cur.as_slice());
    if t.len() > 0 {
        let ghost old_tokens = tokens@;
        tokens.push(t);
        assert(views(tokens@) == views(old_tokens).push(t@));
    }
}

/// Split a selector into compound selectors and `>` combinators.
pub fn tokenize(selector: &str) -> (tokens: Vec<Vec<char>>)
    ensures
        views(tokens@) == tokenize_spec(selector@),
{
    let chars = chars_of(selector);
    let mut tokens: Vec<Vec<char>> = Vec::new();
    let mut current: Vec<char> = Vec::new();
    let mut in_quotes = false;
    let mut in_regex = false;
    let mut quote_char = ' ';
    let mut i: usize = 0;
    assert(views(tokens@) == Seq::<Seq<char>>::empty());
    while i < chars.len()
        invariant
            i <= chars.len(),
            chars@ == selector@,
            tok_run(
                chars@,
                i as int,
                TokState {
                    tokens: views(tokens@),
                    current: current@,
                    in_quotes,
                    in_regex,
                    quote: quote_char,
                },
            ) == tokenize_spec(selector@),
        decreases chars.len() - i,
    {
        let ghost st = TokState {
            tokens: views(tokens@),
            current: current@,
            in_quotes,
            in_regex,
            quote: quote_char,
        };
        let ghost i_old = i as int;
        let ch = chars[i];
        let unesc = i == 0 || chars[i - 1] != '\\';
        if in_quotes {
            current.push(ch);
            if ch == quote_char && unesc {
                in_quotes = false;
            }
            i += 1;
        } else if in_regex {
            current.push(ch);
            if ch == '/' && unesc {
                proof {
                    lemma_flag_run_end(chars@, i as int + 1);
                }
                let ghost before = current@;
                let mut j = i + 1;
                while j < chars.len() && is_flag_exec(chars[j])
                    invariant
                        i + 1 <= j <= chars.len(),
                        flag_run_end(chars@, j as int) == flag_run_end(chars@, i as int + 1),
                        current@ == before + chars@.subrange(i as int + 1, j as int),
                    decreases chars.len() - j,
                {
                    current.push(chars[j]);
                    j += 1;
                    assert(current@ == before + chars@.subrange(i as int + 1, j as int));
                }
                in_regex = false;
                i = j;
            } else {
                i += 1;
            }
        } else if ch == '"' || ch == '\'' {
            in_quotes = true;
            quote_char = ch;
            current.push(ch);
            i += 1;
        } else if ch == '/' && current.len() > 0 && current[current.len() - 1] == '=' {
            in_regex = true;
            current.push(ch);
            i += 1;
        } else if ch == ' ' || ch == '>' {
            emit_exec(&mut tokens, &current);
            if ch == '>' {
                let ghost old_tokens = tokens@;
                let gt = vec!['>'];
                assert(gt@ =~= seq!['>']);
                tokens.push(gt);
                assert(views(tokens@) == views(old_tokens).push(seq!['>']));
            }
            current = Vec::new();
            i += 1;
        } else {
            current.push(ch);
            i += 1;
        }
        let ghost st_new = TokState {
            tokens: views(tokens@),
            current: current@,
            in_quotes,
            in_regex,
            quote: quote_char,
        };
        assert(tok_step(chars@, i_old, st) == (st_new, i as int));
    }
    emit_exec(&mut tokens, &current);
    tokens
}

} // verus!

verus! {

// ============================================
// Selector AST
// ============================================

/// How an attribute value is compared.
#[derive(Clone, Copy, Debug, PartialEq, Eq, Structural)]
pub enum AttrOp {
    /// `=`
    Exact,
    /// `*=`
    Contains,
    /// `^=`
    Starts,
    /// `$=`
    Ends,
}

/// The value side of an attribute matcher, as the parser reads it.
pub enum AttrValueSpec {
    Str(Seq<char>),
    /// A regex pattern, with `(?i)` / `(?s)` prefixed for the `i` / `s` flags.
    Regex(Seq<char>),
}

pub struct AttrSpec {
    pub name: Seq<char>,
    pub op: AttrOp,
    pub value: AttrValueSpec,
}

/// One compound selector: a role (or `*`), attribute matchers and an optional
/// 1-based `:nth-child` index.
pub struct NodeSpec {
    pub role: Seq<char>,
    pub attrs: Seq<AttrSpec>,
    pub pseudo: Option<int>,
}

pub open spec fn is_lower(c: char) -> bool {
    'a' <= c && c <= 'z'
}

pub open spec fn is_digit(c: char) -> bool {
    '0' <= c && c <= '9'
}

/// End of the run of `[-a-z]` characters starting at `j`.
pub open spec fn role_run_end(t: Seq<char>, j: int) -> int
    decreases t.len() - j,
{
    if 0 <= j < t.len() && (is_lower(t[j]) || t[j] == '-') {
        role_run_end(t, j + 1)
    } else {
        j
    }
}

/// End of the run of `[a-z]` characters starting at `j`.
pub open spec fn lower_run_end(t: Seq<char>, j: int) -> int
    decreases t.len() - j,
{
    if 0 <= j < t.len() && is_lower(t[j]) {
        lower_run_end(t, j + 1)
    } else {
        j
    }
}

/// End of the run of ASCII digits starting at `j`.
pub open spec fn digit_run_end(t: Seq<char>, j: int) -> int
    decreases t.len() - j,
{
    if 0 <= j < t.len() && is_digit(t[j]) {
        digit_run_end(t, j + 1)
    } else {
        j
    }
}

/// First position at or after `j` holding `c`, or `t.len()`.
pub open spec fn char_pos(t: Seq<char>, j: int, c: char) -> int
    decreases t.len() - j,
{
    if 0 <= j < t.len() && t[j] != c {
        char_pos(t, j + 1, c)
    } else {
        j
    }
}

/// The role of a compound selector: a leading `[a-z][-a-z]*`, else `*`.
pub open spec fn parse_role(t: Seq<char>) -> Seq<char> {
    if t.len() > 0 && is_lower(t[0]) {
        t.subrange(0, role_run_end(t, 1))
    } else {
        seq!['*']
    }
}

/// The operator starting at `q` and the position after it.
pub open spec fn op_at(t: Seq<char>, q: int) -> Option<(AttrOp, int)> {
    if 0 <= q < t.len() && t[q] == '=' {
        Some((AttrOp::Exact, q + 1))
    } else if 0 <= q && q < t.len() && t.len() - q > 1 && t[q + 1] == '=' && t[q] == '*' {
        Some((AttrOp::Contains, q + 2))
    } else if 0 <= q && q < t.len() && t.len() - q > 1 && t[q + 1] == '=' && t[q] == '^' {
        Some((AttrOp::Starts, q + 2))
    } else if 0 <= q && q < t.len() && t.len() - q > 1 && t[q + 1] == '=' && t[q] == '$' {
        Some((AttrOp::Ends, q + 2))
    } else {
        None
    }
}

/// The regex prefix the flags ask for: `(?i)` for `i`, then `(?s)` for `s`.
pub open spec fn flag_prefix(flags: Seq<char>) -> Seq<char> {
    (if flags.contains('i') { seq!['(', '?', 'i', ')'] } else { Seq::empty() })
        + (if flags.contains('s') { seq!['(', '?', 's', ')'] } else { Seq::empty() })
}

/// A `/body/flags]` literal whose body starts at `r + 1`, tried with the
/// shortest body first (`k` characters, none of them a newline).
pub open spec fn regex_lit(t: Seq<char>, r: int, k: int) -> Option<(int, AttrValueSpec)>
    decreases t.len() - k,
{
    if r < 0 || k < 1 || r + k + 1 >= t.len() {
        None
    } else if t[r + k] == '\n' {
        None
    } else if t[r + k + 1] == '/' && flag_run_end(t, r + k + 2) < t.len() && t[flag_run_end(
        t,
        r + k + 2,
    )] == ']' {
        let f = flag_run_end(t, r + k + 2);
        Some(
            (
                f + 1,
                AttrValueSpec::Regex(
                    flag_prefix(t.subrange(r + k + 2, f)) + t.subrange(r + 1, r + k + 1),
                ),
            ),
        )
    } else {
        regex_lit(t, r, k + 1)
    }
}

/// The attribute value starting at `r` (a quoted string or a regex literal)
/// followed by `]`, and the position after the `]`.
pub open spec fn value_at(t: Seq<char>, r: int) -> Option<(int, AttrValueSpec)> {
    if 0 <= r < t.len() && (t[r] == '"' || t[r] == '\'') {
        let e = char_pos(t, r + 1, t[r]);
        if e > r + 1 && e < t.len() && t.len() - e > 1 && t[e + 1] == ']' {
            Some((e + 2, AttrValueSpec::Str(t.subrange(r + 1, e))))
        } else {
            None
        }
    } else if 0 <= r < t.len() && t[r] == '/' {
        regex_lit(t, r, 1)
    } else {
        None
    }
}

/// An attribute matcher `[name op value]` starting at `p`, and the position
/// after it.
pub open spec fn attr_at(t: Seq<char>, p: int) -> Option<(int, AttrSpec)> {
    if !(0 <= p < t.len() && t[p] == '[') {
        None
    } else {
        let q = lower_run_end(t, p + 1);
        if q == p + 1 {
            None
        } else {
            match op_at(t, q) {
                None => None,
                Some((op, r)) => match value_at(t, r) {
                    None => None,
                    Some((e, v)) => Some((e, AttrSpec { name: t.subrange(p + 1, q), op, value: v })),
                },
            }
        }
    }
}

/// All attribute matchers from position `p` on, leftmost first, non-overlapping.
pub open spec fn attrs_from(t: Seq<char>, p: int) -> Seq<AttrSpec>
    decreases t.len() - p,
{
    if p < 0 || p >= t.len() {
        Seq::empty()
    } else {
        match attr_at(t, p) {
            Some((e, a)) => if p < e <= t.len() {
                seq![a] + attrs_from(t, e)
            } else {
                Seq::empty()
            },
            None => attrs_from(t, p + 1),
        }
    }
}

/// The decimal value of a run of ASCII digits.
pub open spec fn digits_value(s: Seq<char>) -> nat
    decreases s.len(),
{
    if s.len() == 0 {
        0
    } else {
        digits_value(s.drop_last()) * 10 + ((s.last() as u32) - ('0' as u32)) as nat
    }
}

pub open spec fn nth_child_text() -> Seq<char> {
    seq![':', 'n', 't', 'h', '-', 'c', 'h', 'i', 'l', 'd', '(']
}

/// `:nth-child(digits)` at position `p`: the index, or 1 when it does not fit a `usize`.
pub open spec fn pseudo_at(t: Seq<char>, p: int) -> Option<int> {
    let d0 = p + 11;
    if 0 <= p && d0 <= t.len() && t.subrange(p, d0) == nth_child_text() {
        let d = digit_run_end(t, d0);
        if d > d0 && d < t.len() && t[d] == ')' {
            let v = digits_value(t.subrange(d0, d));
            Some(if v <= usize::MAX { v as int } else { 1 })
        } else {
            None
        }
    } else {
        None
    }
}

/// The first `:nth-child(n)` at or after `p`.
pub open spec fn pseudo_from(t: Seq<char>, p: int) -> Option<int>
    decreases t.len() - p,
{
    if p < 0 || p >= t.len() {
        None
    } else {
        match pseudo_at(t, p) {
            Some(v) => Some(v),
            None => pseudo_from(t, p + 1),
        }
    }
}

/// A compound selector token read as role, attributes and `:nth-child`.
pub open spec fn parse_node_spec(t: Seq<char>) -> NodeSpec {
    NodeSpec { role: parse_role(t), attrs: attrs_from(t, 0), pseudo: pseudo_from(t, 0) }
}

} // verus!

verus! {

// ============================================
// Regex attribute values
// ============================================

#[verifier::external_type_specification]
#[verifier::external_body]
pub struct ExRegex(regex::Regex);

/// Whether `regex::Regex::new` accepts the pattern.
pub uninterp spec fn regex_valid(pattern: Seq<char>) -> bool;

/// What `regex::Regex::is_match` answers for a regex compiled from `pattern`.
pub uninterp spec fn regex_matches(pattern: Seq<char>, text: Seq<char>) -> bool;

/// Calls `regex::Regex::new`; the result is present exactly when the pattern
/// is valid.
#[verifier::external_body]
fn regex_new(pattern: &str) -> (r: Option<regex::Regex>)
    ensures
        r is Some <==> regex_valid(pattern@),
{
    regex::Regex::new(pattern).ok()
}

/// A regex attribute value: its pattern and, when the pattern is valid, the
/// regex compiled from it. Only `RegexAttr::new` builds one.
pub struct RegexAttr {
    pattern: String,
    compiled: Option<regex::Regex>,
}

impl RegexAttr {
    #[verifier::type_invariant]
    closed spec fn inv(self) -> bool {
        self.compiled is Some == regex_valid(self.pattern@)
    }

    pub closed spec fn pattern_view(&self) -> Seq<char> {
        self.pattern@
    }

    pub closed spec fn is_compiled(&self) -> bool {
        self.compiled is Some
    }

    /// Compile `pattern`, keeping it beside the compiled regex.
    pub fn new(pattern: String) -> (r: RegexAttr)
        ensures
            r.pattern_view() == pattern@,
            r.is_compiled() == regex_valid(pattern@),
    {
        let compiled = regex_new(pattern.as_str());
        RegexAttr { pattern, compiled }
    }
}

/// Calls `regex::Regex::is_match` on the regex that `RegexAttr::new` compiled
/// from the attribute's pattern; the answer is the one named `regex_matches`.
#[verifier::external_body]
fn regex_attr_is_match(attr: &RegexAttr, text: &str) -> (r: bool)
    requires
        attr.is_compiled(),
    ensures
        r == regex_matches(attr.pattern_view(), text@),
{
    match &attr.compiled {
        Some(re) => re.is_match(text),
        None => false,
    }
}

/// Whether an attribute value written as a regex accepts `text`. An invalid
/// pattern is replaced by `$^`, which accepts only the empty text.
pub open spec fn regex_accepts(pattern: Seq<char>, text: Seq<char>) -> bool {
    if regex_valid(pattern) {
        regex_matches(pattern, text)
    } else {
        text.len() == 0
    }
}

fn regex_attr_accepts(attr: &RegexAttr, text: &str) -> (r: bool)
    ensures
        r == regex_accepts(attr.pattern_view(), text@),
{
    proof {
        use_type_invariant(attr);
    }
    if attr.compiled.is_some() {
        regex_attr_is_match(attr, text)
    } else {
        text.unicode_len() == 0
    }
}

/// The value side of a parsed attribute matcher.
pub enum AttrValue {
    Str(Vec<char>),
    Regex(RegexAttr),
}

pub struct AttrMatcher {
    pub name: Vec<char>,
    pub op: AttrOp,
    pub value: AttrValue,
}

pub struct SelectorNode {
    pub role: Vec<char>,
    pub attrs: Vec<AttrMatcher>,
    pub pseudo: Option<usize>,
}

pub open spec fn value_view(v: AttrValue) -> AttrValueSpec {
    match v {
        AttrValue::Str(s) => AttrValueSpec::Str(s@),
        AttrValue::Regex(r) => AttrValueSpec::Regex(r.pattern_view()),
    }
}

pub open spec fn attr_view(a: AttrMatcher) -> AttrSpec {
    AttrSpec { name: a.name@, op: a.op, value: value_view(a.value) }
}

pub open spec fn attrs_view(s: Seq<AttrMatcher>) -> Seq<AttrSpec> {
    s.map_values(|a: AttrMatcher| attr_view(a))
}

pub open spec fn node_view(n: SelectorNode) -> NodeSpec {
    NodeSpec {
        role: n.role@,
        attrs: attrs_view(n.attrs@),
        pseudo: match n.pseudo {
            Some(v) => Some(v as int),
            None => None,
        },
    }
}

// ============================================
// Parser
// ============================================

fn role_run_end_exec(t: &[char], j: usize) -> (r: usize)
    requires
        j <= t.len(),
    ensures
        r as int == role_run_end(t@, j as int),
{
    let mut k = j;
    while k < t.len() && (('a' <= t[k] && t[k] <= 'z') || t[k] == '-')
        invariant
            j <= k <= t.len(),
            role_run_end(t@, k as int) == role_run_end(t@, j as int),
        decreases t.len() - k,
    {
        k += 1;
    }
    k
}

fn lower_run_end_exec(t: &[char], j: usize) -> (r: usize)
    requires
        j <= t.len(),
    ensures
        r as int == lower_run_end(t@, j as int),
        j <= r <= t.len(),
{
    let mut k = j;
    while k < t.len() && 'a' <= t[k] && t[k] <= 'z'
        invariant
            j <= k <= t.len(),
            lower_run_end(t@, k as int) == lower_run_end(t@, j as int),
        decreases t.len() - k,
    {
        k += 1;
    }
    k
}

fn digit_run_end_exec(t: &[char], j: usize) -> (r: usize)
    requires
        j <= t.len(),
    ensures
        r as int == digit_run_end(t@, j as int),
        j <= r <= t.len(),
{
    let mut k = j;
    while k < t.len() && '0' <= t[k] && t[k] <= '9'
        invariant
            j <= k <= t.len(),
            digit_run_end(t@, k as int) == digit_run_end(t@, j as int),
        decreases t.len() - k,
    {
        k += 1;
    }
    k
}

fn flag_run_end_exec(t: &[char], j: usize) -> (r: usize)
    requires
        j <= t.len(),
    ensures
        r as int == flag_run_end(t@, j as int),
        j <= r <= t.len(),
{
    let mut k = j;
    while k < t.len() && is_flag_exec(t[k])
        invariant
            j <= k <= t.len(),
            flag_run_end(t@, k as int) == flag_run_end(t@, j as int),
        decreases t.len() - k,
    {
        k += 1;
    }
    k
}

fn char_pos_exec(t: &[char], j: usize, c: char) -> (r: usize)
    requires
        j <= t.len(),
    ensures
        r as int == char_pos(t@, j as int, c),
        j <= r <= t.len(),
{
    let mut k = j;
    while k < t.len() && t[k] != c
        invariant
            j <= k <= t.len(),
            char_pos(t@, k as int, c) == char_pos(t@, j as int, c),
        decreases t.len() - k,
    {
        k += 1;
    }
    k
}

fn subvec(t: &[char], a: usize, b: usize) -> (r: Vec<char>)
    requires
        a <= b <= t.len(),
    ensures
        r@ == t@.subrange(a as int, b as int),
{
    let mut r: Vec<char> = Vec::new();
    let mut k = a;
    while k < b
        invariant
            a <= k <= b <= t.len(),
            r@ == t@.subrange(a as int, k as int),
        decreases b - k,
    {
        r.push(t[k]);
        k += 1;
        assert(r@ == t@.subrange(a as int, k as int));
    }
    r
}

fn op_at_exec(t: &[char], q: usize) -> (r: Option<(AttrOp, usize)>)
    requires
        q <= t.len(),
    ensures
        match r {
            Some((op, e)) => op_at(t@, q as int) == Some((op, e as int)),
            None => op_at(t@, q as int) is None,
        },
{
    if q < t.len() && t[q] == '=' {
        Some((AttrOp::Exact, q + 1))
    } else if q < t.len() && t.len() - q > 1 && t[q + 1] == '=' && t[q] == '*' {
        Some((AttrOp::Contains, q + 2))
    } else if q < t.len() && t.len() - q > 1 && t[q + 1] == '=' && t[q] == '^' {
        Some((AttrOp::Starts, q + 2))
    } else if q < t.len() && t.len() - q > 1 && t[q + 1] == '=' && t[q] == '$' {
        Some((AttrOp::Ends, q + 2))
    } else {
        None
    }
}

fn seq_has(t: &[char], c: char) -> (r: bool)
    ensures
        r == t@.contains(c),
{
    let mut k: usize = 0;
    while k < t.len()
        invariant
            k <= t.len(),
            forall|j: int| 0 <= j < k ==> t@[j] != c,
        decreases t.len() - k,
    {
        if t[k] == c {
            return true;
        }
        k += 1;
    }
    false
}

fn regex_lit_exec(t: &[char], r: usize) -> (res: Option<(usize, AttrValue)>)
    requires
        r < t.len(),
    ensures
        match res {
            Some((e, v)) => regex_lit(t@, r as int, 1) == Some((e as int, value_view(v))),
            None => regex_lit(t@, r as int, 1) is None,
        },
{
    let mut k: usize = 1;
    loop
        invariant
            r < t.len(),
            1 <= k,
            regex_lit(t@, r as int, k as int) == regex_lit(t@, r as int, 1),
        decreases t.len() - k,
    {
        if k >= t.len() - r - 1 || t[r + k] == '\n' {
            return None;
        }
        if t[r + k + 1] == '/' {
            let f = flag_run_end_exec(t, r + k + 2);
            if f < t.len() && t[f] == ']' {
                let flags = subvec(t, r + k + 2, f);
                let mut pat: Vec<char> = Vec::new();
                if seq_has(flags.as_slice(), 'i') {
                    pat.push('(');
                    pat.push('?');
                    pat.push('i');
                    pat.push(')');
                }
                let ghost p1 = pat@;
                if seq_has(flags.as_slice(), 's') {
                    pat.push('(');
                    pat.push('?');
                    pat.push('s');
                    pat.push(')');
                }
                assert(pat@ == flag_prefix(flags@)) by {
                    if flags@.contains('i') {
                        assert(p1 =~= seq!['(', '?', 'i', ')']);
                    } else {
                        assert(p1 =~= Seq::<char>::empty());
                    }
                }
                let ghost p2 = pat@;
                let mut m = r + 1;
                while m < r + k + 1
                    invariant
                        r + 1 <= m <= r + k + 1 < t.len(),
                        pat@ == p2 + t@.subrange(r + 1, m as int),
                    decreases r + k + 1 - m,
                {
                    pat.push(t[m]);
                    m += 1;
                    assert(pat@ == p2 + t@.subrange(r + 1, m as int));
                }
                let pattern = crate::text::string_of(pat.as_slice());
                let attr = RegexAttr::new(pattern);
                return Some((f + 1, AttrValue::Regex(attr)));
            }
        }
        k += 1;
    }
}

fn value_at_exec(t: &[char], r: usize) -> (res: Option<(usize, AttrValue)>)
    requires
        r <= t.len(),
    ensures
        match res {
            Some((e, v)) => value_at(t@, r as int) == Some((e as int, value_view(v))),
            None => value_at(t@, r as int) is None,
        },
{
    if r < t.len() && (t[r] == '"' || t[r] == '\'') {
        let e = char_pos_exec(t, r + 1, t[r]);
        if e > r + 1 && e < t.len() && t.len() - e > 1 && t[e + 1] == ']' {
            let s = subvec(t, r + 1, e);
            Some((e + 2, AttrValue::Str(s)))
        } else {
            None
        }
    } else if r < t.len() && t[r] == '/' {
        regex_lit_exec(t, r)
    } else {
        None
    }
}

fn attr_at_exec(t: &[char], p: usize) -> (res: Option<(usize, AttrMatcher)>)
    requires
        p < t.len(),
    ensures
        match res {
            Some((e, a)) => attr_at(t@, p as int) == Some((e as int, attr_view(a))),
            None => attr_at(t@, p as int) is None,
        },
{
    if t[p] != '[' {
        return None;
    }
    let q = lower_run_end_exec(t, p + 1);
    if q == p + 1 {
        return None;
    }
    match op_at_exec(t, q) {
        None => None,
        Some((op, r)) => {
            proof {
                assert(r <= t.len());
            }
            match value_at_exec(t, r) {
                None => None,
                Some((e, v)) => {
                    let name = subvec(t, p + 1, q);
                    Some((e, AttrMatcher { name, op, value: v }))
                },
            }
        },
    }
}

} // verus!

verus! {

/// The value of the digits `t[a..b]`, or 1 when it does not fit a `usize`.
fn parse_index(t: &[char], a: usize, b: usize) -> (r: usize)
    requires
        a <= b <= t.len(),
        forall|j: int| a <= j < b ==> is_digit(t@[j]),
    ensures
        r as int == (if digits_value(t@.subrange(a as int, b as int)) <= usize::MAX {
            digits_value(t@.subrange(a as int, b as int)) as int
        } else {
            1
        }),
{
    let mut acc: usize = 0;
    let mut over = false;
    let mut k = a;
    assert(t@.subrange(a as int, a as int).len() == 0);
    while k < b
        invariant
            a <= k <= b <= t.len(),
            forall|j: int| a <= j < b ==> is_digit(t@[j]),
            !over ==> acc as nat == digits_value(t@.subrange(a as int, k as int)),
            over ==> digits_value(t@.subrange(a as int, k as int)) > usize::MAX,
        decreases b - k,
    {
        let d = (t[k] as u32 - '0' as u32) as usize;
        let ghost v = digits_value(t@.subrange(a as int, k as int));
        assert(t@.subrange(a as int, k + 1).drop_last() == t@.subrange(a as int, k as int));
        assert(digits_value(t@.subrange(a as int, k + 1)) == v * 10 + d);
        if over {
            assert(v * 10 + d >= v) by (nonlinear_arith)
                requires
                    v >= 0,
                    d >= 0,
            ;
        } else if acc > (usize::MAX - d) / 10 {
            assert(acc * 10 + d > usize::MAX) by (nonlinear_arith)
                requires
                    acc > (usize::MAX - d) / 10,
                    d <= 9,
            ;
            over = true;
        } else {
            assert(acc * 10 + d <= usize::MAX) by (nonlinear_arith)
                requires
                    acc <= (usize::MAX - d) / 10,
                    d <= 9,
            ;
            acc = acc * 10 + d;
        }
        k += 1;
    }
    if over {
        1
    } else {
        acc
    }
}

fn pseudo_at_exec(t: &[char], p: usize) -> (r: Option<usize>)
    requires
        p < t.len(),
    ensures
        match r {
            Some(v) => pseudo_at(t@, p as int) == Some(v as int),
            None => pseudo_at(t@, p as int) is None,
        },
{
    let pat: [char; 11] = [':', 'n', 't', 'h', '-', 'c', 'h', 'i', 'l', 'd', '('];
    assert(pat@ =~= nth_child_text());
    if !crate::text::matches_at_exec(t, pat.as_slice(), p) {
        return None;
    }
    let d0 = p + 11;
    let d = digit_run_end_exec(t, d0);
    proof {
        lemma_digit_run(t@, d0 as int);
    }
    if d > d0 && d < t.len() && t[d] == ')' {
        Some(parse_index(t, d0, d))
    } else {
        None
    }
}

proof fn lemma_digit_run(t: Seq<char>, j: int)
    requires
        0 <= j <= t.len(),
    ensures
        forall|k: int| j <= k < digit_run_end(t, j) ==> is_digit(t[k]),
    decreases t.len() - j,
{
    if j < t.len() && is_digit(t[j]) {
        lemma_digit_run(t, j + 1);
    }
}

/// Read one compound selector token.
pub fn parse_node(t: &[char]) -> (n: SelectorNode)
    ensures
        node_view(n) == parse_node_spec(t@),
{
    let role = if t.len() > 0 && 'a' <= t[0] && t[0] <= 'z' {
        let e = role_run_end_exec(t, 1);
        proof {
            lemma_role_run(t@, 1);
        }
        subvec(t, 0, e)
    } else {
        let v = vec!['*'];
        assert(v@ =~= seq!['*']);
        v
    };
    let mut attrs: Vec<AttrMatcher> = Vec::new();
    let mut p: usize = 0;
    assert(attrs_view(attrs@) =~= Seq::<AttrSpec>::empty());
    while p < t.len()
        invariant
            p <= t.len(),
            attrs_from(t@, 0) == attrs_view(attrs@) + attrs_from(t@, p as int),
        decreases t.len() - p,
    {
        match attr_at_exec(t, p) {
            Some((e, a)) => {
                if e > p && e <= t.len() {
                    let ghost before = attrs@;
                    let ghost av = attr_view(a);
                    attrs.push(a);
                    assert(attrs_view(attrs@) == attrs_view(before).push(av));
                    assert(attrs_from(t@, p as int) == seq![av] + attrs_from(t@, e as int));
                    assert(attrs_view(before) + (seq![av] + attrs_from(t@, e as int))
                        == attrs_view(before).push(av) + attrs_from(t@, e as int));
                    p = e;
                } else {
                    assert(attrs_from(t@, p as int) =~= Seq::<AttrSpec>::empty());
                    assert(attrs_view(attrs@) + Seq::<AttrSpec>::empty() == attrs_view(attrs@));
                    p = t.len();
                    assert(attrs_from(t@, p as int) =~= Seq::<AttrSpec>::empty());
                }
            },
            None => {
                p += 1;
            },
        }
    }
    assert(attrs_view(attrs@) + attrs_from(t@, p as int) == attrs_view(attrs@));
    let mut pseudo: Option<usize> = None;
    let mut q: usize = 0;
    loop
        invariant_except_break
            q <= t.len(),
            pseudo is None,
            pseudo_from(t@, 0) == pseudo_from(t@, q as int),
        ensures
            pseudo_from(t@, 0) == match pseudo {
                Some(v) => Some(v as int),
                None => None,
            },
        decreases t.len() - q,
    {
        if q >= t.len() {
            break;
        }
        match pseudo_at_exec(t, q) {
            Some(v) => {
                pseudo = Some(v);
                break;
            },
            None => {
                q += 1;
            },
        }
    }
    let n = SelectorNode { role, attrs, pseudo };
    n
}

proof fn lemma_role_run(t: Seq<char>, j: int)
    requires
        0 <= j <= t.len(),
    ensures
        j <= role_run_end(t, j) <= t.len(),
    decreases t.len() - j,
{
    if j < t.len() && (is_lower(t[j]) || t[j] == '-') {
        lemma_role_run(t, j + 1);
    }
}

} // verus!

verus! {

// ============================================
// AST
// ============================================

/// How two compound selectors are joined.
#[derive(Clone, Copy, Debug, PartialEq, Eq, Structural)]
pub enum Combinator {
    /// whitespace: anywhere below
    Descendant,
    /// `>`: a direct child
    Child,
}

pub struct AstSpec {
    pub nodes: Seq<NodeSpec>,
    pub combinators: Seq<Combinator>,
}

pub struct SelectorAst {
    pub nodes: Vec<SelectorNode>,
    pub combinators: Vec<Combinator>,
}

pub open spec fn ast_view(a: SelectorAst) -> AstSpec {
    AstSpec {
        nodes: a.nodes@.map_values(|n: SelectorNode| node_view(n)),
        combinators: a.combinators@,
    }
}

/// The AST of a token list: each `>` adds a child combinator; a compound
/// selector that follows another without one adds a descendant combinator.
pub open spec fn build_ast_spec(tokens: Seq<Seq<char>>) -> AstSpec
    decreases tokens.len(),
{
    if tokens.len() == 0 {
        AstSpec { nodes: Seq::empty(), combinators: Seq::empty() }
    } else {
        let prev = build_ast_spec(tokens.drop_last());
        let tok = tokens.last();
        if tok == seq!['>'] {
            AstSpec { combinators: prev.combinators.push(Combinator::Child), ..prev }
        } else {
            AstSpec {
                nodes: prev.nodes.push(parse_node_spec(tok)),
                combinators: if prev.nodes.len() > prev.combinators.len() {
                    prev.combinators.push(Combinator::Descendant)
                } else {
                    prev.combinators
                },
            }
        }
    }
}

/// The AST a selector string parses to.
pub open spec fn parse_selector_spec(sel: Seq<char>) -> AstSpec {
    build_ast_spec(tokenize_spec(sel))
}

fn build_ast(tokens: &Vec<Vec<char>>) -> (ast: SelectorAst)
    ensures
        ast_view(ast) == build_ast_spec(views(tokens@)),
{
    let mut nodes: Vec<SelectorNode> = Vec::new();
    let mut combinators: Vec<Combinator> = Vec::new();
    let mut i: usize = 0;
    assert(views(tokens@).take(0) =~= Seq::<Seq<char>>::empty());
    assert(nodes@.map_values(|n: SelectorNode| node_view(n)) =~= Seq::<NodeSpec>::empty());
    assert(combinators@ =~= Seq::<Combinator>::empty());
    while i < tokens.len()
        invariant
            i <= tokens.len(),
            ast_view(SelectorAst { nodes, combinators }) == build_ast_spec(views(tokens@).take(i as int)),
        decreases tokens.len() - i,
    {
        let ghost toks = views(tokens@).take(i as int + 1);
        assert(toks.drop_last() == views(tokens@).take(i as int));
        assert(toks.last() == tokens@[i as int]@);
        let tok = &tokens[i];
        if tok.len() == 1 && tok[0] == '>' {
            assert(tok@ =~= seq!['>']);
            combinators.push(Combinator::Child);
        } else {
            assert(tok@ != seq!['>']);
            if nodes.len() > combinators.len() {
                combinators.push(Combinator::Descendant);
            }
            let ghost before = nodes@;
            let n = parse_node(tok.as_slice());
            nodes.push(n);
            assert(nodes@.map_values(|n: SelectorNode| node_view(n))
                =~= before.map_values(|n: SelectorNode| node_view(n)).push(parse_node_spec(tok@)));
        }
        i += 1;
    }
    assert(views(tokens@).take(tokens.len() as int) == views(tokens@));
    SelectorAst { nodes, combinators }
}

/// Parse a selector string.
pub fn parse_selector(selector: &str) -> (ast: SelectorAst)
    ensures
        ast_view(ast) == parse_selector_spec(selector@),
{
    let tokens = tokenize(selector);
    build_ast(&tokens)
}

} // verus!

verus! {

// ============================================
// Matcher
// ============================================

pub open spec fn name_attr() -> Seq<char> {
    seq!['n', 'a', 'm', 'e']
}

pub open spec fn role_attr() -> Seq<char> {
    seq!['r', 'o', 'l', 'e']
}

/// The node's value for an attribute name: its name, its role, or empty.
pub open spec fn node_attr(n: A11yNode, attr: Seq<char>) -> Seq<char> {
    if attr == name_attr() {
        n.name@
    } else if attr == role_attr() {
        n.role@
    } else {
        Seq::empty()
    }
}

pub open spec fn attr_holds(n: A11yNode, a: AttrSpec) -> bool {
    let v = node_attr(n, a.name);
    match a.value {
        AttrValueSpec::Regex(p) => regex_accepts(p, v),
        AttrValueSpec::Str(s) => match a.op {
            AttrOp::Exact => v == s,
            AttrOp::Contains => crate::text::contains_spec(v, s),
            AttrOp::Starts => crate::text::starts_with_spec(v, s),
            AttrOp::Ends => crate::text::ends_with_spec(v, s),
        },
    }
}

/// `[name="p"]` holds on a node exactly when its name is `p`.
pub proof fn lemma_name_exact(n: A11yNode, p: Seq<char>)
    ensures
        attr_holds(n, AttrSpec { name: name_attr(), op: AttrOp::Exact, value: AttrValueSpec::Str(p) })
            == (n.name@ == p),
{
}

/// `[name^="p"]` holds on a node exactly when its name begins with `p`.
#[verifier::rlimit(30)]
pub proof fn lemma_name_starts(n: A11yNode, p: Seq<char>)
    ensures
        attr_holds(n, AttrSpec { name: name_attr(), op: AttrOp::Starts, value: AttrValueSpec::Str(p) })
            == (exists|s: Seq<char>| n.name@ == p + s),
{
    let v = n.name@;
    if exists|s: Seq<char>| v == p + s {
        let s = choose|s: Seq<char>| v == p + s;
        assert(v.take(p.len() as int) =~= p);
    }
    if crate::text::starts_with_spec(v, p) {
        assert(v == p + v.skip(p.len() as int));
    }
}

/// `[name$="p"]` holds on a node exactly when its name ends with `p`.
#[verifier::rlimit(30)]
pub proof fn lemma_name_ends(n: A11yNode, p: Seq<char>)
    ensures
        attr_holds(n, AttrSpec { name: name_attr(), op: AttrOp::Ends, value: AttrValueSpec::Str(p) })
            == (exists|s: Seq<char>| n.name@ == s + p),
{
    let v = n.name@;
    if exists|s: Seq<char>| v == s + p {
        let s = choose|s: Seq<char>| v == s + p;
        assert(v.skip(v.len() - p.len()) =~= p);
    }
    if crate::text::ends_with_spec(v, p) {
        assert(v == v.take(v.len() - p.len()) + p);
    }
}

/// `[name*="p"]` holds on a node exactly when `p` occurs in its name.
#[verifier::rlimit(30)]
pub proof fn lemma_name_contains(n: A11yNode, p: Seq<char>)
    ensures
        attr_holds(n, AttrSpec { name: name_attr(), op: AttrOp::Contains, value: AttrValueSpec::Str(p) })
            == (exists|a: Seq<char>, b: Seq<char>| n.name@ == a + p + b),
{
    let v = n.name@;
    crate::text::lemma_find_from(v, p, 0);
    if exists|a: Seq<char>, b: Seq<char>| v == a + p + b {
        let (a, b) = choose|a: Seq<char>, b: Seq<char>| v == a + p + b;
        assert(v.subrange(a.len() as int, (a.len() + p.len()) as int) =~= p);
        assert(crate::text::matches_at(v, p, a.len() as int));
    }
    if crate::text::contains_spec(v, p) {
        let i = crate::text::find_spec(v, p)->0;
        assert(v =~= v.take(i) + p + v.skip(i + p.len()));
    }
}

/// The same tests on a node's role; an attribute that is neither the name nor
/// the role has the empty value.
pub proof fn lemma_role_and_other_attr_tests(n: A11yNode, attr: Seq<char>, p: Seq<char>)
    ensures
        attr_holds(n, AttrSpec { name: role_attr(), op: AttrOp::Exact, value: AttrValueSpec::Str(p) })
            == (n.role@ == p),
        attr_holds(n, AttrSpec { name: role_attr(), op: AttrOp::Starts, value: AttrValueSpec::Str(p) })
            == (p.len() <= n.role@.len() && n.role@.take(p.len() as int) == p),
        attr != name_attr() && attr != role_attr() ==> attr_holds(
            n,
            AttrSpec { name: attr, op: AttrOp::Exact, value: AttrValueSpec::Str(p) },
        ) == (p.len() == 0),
{
    if attr != name_attr() && attr != role_attr() {
        if p.len() == 0 {
            assert(node_attr(n, attr) =~= p);
        }
    }
}

/// Whether a node matches a compound selector; `sib` is its position among its
/// siblings when that is known.
pub open spec fn node_matches(n: A11yNode, t: NodeSpec, sib: Option<int>) -> bool {
    &&& (t.role == seq!['*'] || n.role@ == t.role)
    &&& forall|k: int| 0 <= k < t.attrs.len() ==> attr_holds(n, #[trigger] t.attrs[k])
    &&& match t.pseudo {
        Some(p) => sib matches Some(s) && s + 1 == p,
        None => true,
    }
}

pub open spec fn is_desc(ast: AstSpec, i: int) -> bool {
    i == 0 || !(0 <= i - 1 < ast.combinators.len()) || ast.combinators[i - 1]
        == Combinator::Descendant
}

/// The first node (in document order) matched by the selector from its `i`-th
/// compound selector on, searching `n` and below.
pub open spec fn first_match(n: A11yNode, ast: AstSpec, i: int) -> Option<A11yNode>
    decreases n, ast.nodes.len() - i, 0int,
{
    if i < 0 || i >= ast.nodes.len() {
        None
    } else if is_desc(ast, i) {
        let hit = node_matches(n, ast.nodes[i], None);
        if hit && i == ast.nodes.len() - 1 {
            Some(n)
        } else if hit && first_match(n, ast, i + 1) is Some {
            first_match(n, ast, i + 1)
        } else {
            match n.children {
                Some(c) => first_in(c@, ast, i, 0),
                None => None,
            }
        }
    } else {
        match n.children {
            Some(c) => first_child(c@, ast, i, 0),
            None => None,
        }
    }
}

/// `first_match` over the siblings `ks[k..]`, first hit wins.
pub open spec fn first_in(ks: Seq<A11yNode>, ast: AstSpec, i: int, k: int) -> Option<A11yNode>
    decreases ks, ast.nodes.len() - i, ks.len() - k,
{
    if k < 0 || k >= ks.len() {
        None
    } else if first_match(ks[k], ast, i) is Some {
        first_match(ks[k], ast, i)
    } else {
        first_in(ks, ast, i, k + 1)
    }
}

/// The child-combinator step over the siblings `ks[k..]`.
pub open spec fn first_child(ks: Seq<A11yNode>, ast: AstSpec, i: int, k: int) -> Option<
    A11yNode,
>
    decreases ks, ast.nodes.len() - i, ks.len() - k,
{
    if k < 0 || k >= ks.len() || i < 0 || i >= ast.nodes.len() {
        None
    } else if node_matches(ks[k], ast.nodes[i], Some(k)) && i == ast.nodes.len() - 1 {
        Some(ks[k])
    } else if node_matches(ks[k], ast.nodes[i], Some(k)) && first_match(ks[k], ast, i + 1) is Some {
        first_match(ks[k], ast, i + 1)
    } else {
        first_child(ks, ast, i, k + 1)
    }
}

/// Every node (in document order, with repeats) matched by the selector from
/// its `i`-th compound selector on, searching `n` and below.
pub open spec fn all_matches(n: A11yNode, ast: AstSpec, i: int) -> Seq<A11yNode>
    decreases n, ast.nodes.len() - i, 0int,
{
    if i < 0 || i >= ast.nodes.len() {
        Seq::empty()
    } else if is_desc(ast, i) {
        let here = if node_matches(n, ast.nodes[i], None) {
            if i == ast.nodes.len() - 1 {
                seq![n]
            } else {
                all_matches(n, ast, i + 1)
            }
        } else {
            Seq::empty()
        };
        here + match n.children {
            Some(c) => all_in(c@, ast, i, 0),
            None => Seq::empty(),
        }
    } else {
        match n.children {
            Some(c) => all_child(c@, ast, i, 0),
            None => Seq::empty(),
        }
    }
}

pub open spec fn all_in(ks: Seq<A11yNode>, ast: AstSpec, i: int, k: int) -> Seq<A11yNode>
    decreases ks, ast.nodes.len() - i, ks.len() - k,
{
    if k < 0 || k >= ks.len() {
        Seq::empty()
    } else {
        all_matches(ks[k], ast, i) + all_in(ks, ast, i, k + 1)
    }
}

pub open spec fn all_child(ks: Seq<A11yNode>, ast: AstSpec, i: int, k: int) -> Seq<A11yNode>
    decreases ks, ast.nodes.len() - i, ks.len() - k,
{
    if k < 0 || k >= ks.len() || i < 0 || i >= ast.nodes.len() {
        Seq::empty()
    } else {
        let here = if node_matches(ks[k], ast.nodes[i], Some(k)) {
            if i == ast.nodes.len() - 1 {
                seq![ks[k]]
            } else {
                all_matches(ks[k], ast, i + 1)
            }
        } else {
            Seq::empty()
        };
        here + all_child(ks, ast, i, k + 1)
    }
}

/// The first element matching a selector string.
pub open spec fn query_selector_spec(root: A11yNode, sel: Seq<char>) -> Option<A11yNode> {
    first_match(root, parse_selector_spec(sel), 0)
}

/// All elements matching a selector string, in document order.
pub open spec fn query_selector_all_spec(root: A11yNode, sel: Seq<char>) -> Seq<A11yNode> {
    all_matches(root, parse_selector_spec(sel), 0)
}

} // verus!

verus! {

pub open spec fn deref_opt(r: Option<&A11yNode>) -> Option<A11yNode> {
    match r {
        Some(x) => Some(*x),
        None => None,
    }
}

pub open spec fn deref_seq(s: Seq<&A11yNode>) -> Seq<A11yNode> {
    s.map_values(|x: &A11yNode| *x)
}

fn attr_holds_exec(n: &A11yNode, a: &AttrMatcher) -> (r: bool)
    ensures
        r == attr_holds(*n, attr_view(*a)),
{
    let name_lit: [char; 4] = ['n', 'a', 'm', 'e'];
    let role_lit: [char; 4] = ['r', 'o', 'l', 'e'];
    assert(name_lit@ =~= name_attr());
    assert(role_lit@ =~= role_attr());
    let which: u8 = if crate::text::seq_eq(a.name.as_slice(), name_lit.as_slice()) {
        1
    } else if crate::text::seq_eq(a.name.as_slice(), role_lit.as_slice()) {
        2
    } else {
        0
    };
    match &a.value {
        AttrValue::Regex(re) => {
            if which == 1 {
                regex_attr_accepts(re, n.name.as_str())
            } else if which == 2 {
                regex_attr_accepts(re, n.role.as_str())
            } else {
                let e = String::new();
                regex_attr_accepts(re, e.as_str())
            }
        },
        AttrValue::Str(s) => {
            let v: Vec<char> = if which == 1 {
                chars_of(n.name.as_str())
            } else if which == 2 {
                chars_of(n.role.as_str())
            } else {
                Vec::new()
            };
            assert(v@ == node_attr(*n, a.name@));
            match a.op {
                AttrOp::Exact => crate::text::seq_eq(v.as_slice(), s.as_slice()),
                AttrOp::Contains => crate::text::contains(v.as_slice(), s.as_slice()),
                AttrOp::Starts => crate::text::starts_with(v.as_slice(), s.as_slice()),
                AttrOp::Ends => crate::text::ends_with(v.as_slice(), s.as_slice()),
            }
        },
    }
}

/// Whether a node matches one compound selector.
pub fn matches_node(n: &A11yNode, t: &SelectorNode, sib: Option<usize>) -> (r: bool)
    ensures
        r == node_matches(
            *n,
            node_view(*t),
            match sib {
                Some(s) => Some(s as int),
                None => None,
            },
        ),
{
    let star: [char; 1] = ['*'];
    assert(star@ =~= seq!['*']);
    if !crate::text::seq_eq(t.role.as_slice(), star.as_slice()) {
        let role = chars_of(n.role.as_str());
        if !crate::text::seq_eq(role.as_slice(), t.role.as_slice()) {
            return false;
        }
    }
    let mut k: usize = 0;
    while k < t.attrs.len()
        invariant
            k <= t.attrs.len(),
            forall|j: int| 0 <= j < k ==> attr_holds(*n, #[trigger] attrs_view(t.attrs@)[j]),
        decreases t.attrs.len() - k,
    {
        let ok = attr_holds_exec(n, &t.attrs[k]);
        assert(attrs_view(t.attrs@)[k as int] == attr_view(t.attrs@[k as int]));
        assert(node_view(*t).attrs[k as int] == attrs_view(t.attrs@)[k as int]);
        if !ok {
            return false;
        }
        k += 1;
    }
    match t.pseudo {
        Some(p) => match sib {
            Some(s) => s < usize::MAX && s + 1 == p,
            None => false,
        },
        None => true,
    }
}

fn is_desc_exec(ast: &SelectorAst, i: usize) -> (r: bool)
    ensures
        r == is_desc(ast_view(*ast), i as int),
{
    i == 0 || !(i - 1 < ast.combinators.len()) || ast.combinators[i - 1] == Combinator::Descendant
}

/// The first node matched from the `i`-th compound selector on, searching `n`
/// and below (document order).
pub fn match_ast_for_result<'a>(n: &'a A11yNode, ast: &SelectorAst, i: usize) -> (r: Option<
    &'a A11yNode,
>)
    ensures
        deref_opt(r) == first_match(*n, ast_view(*ast), i as int),
    decreases *n, ast.nodes.len() - i, 0int,
{
    let ghost v = ast_view(*ast);
    if i >= ast.nodes.len() {
        return None;
    }
    let target = &ast.nodes[i];
    assert(v.nodes[i as int] == node_view(*target));
    let is_last = i == ast.nodes.len() - 1;
    if is_desc_exec(ast, i) {
        if matches_node(n, target, None) {
            if is_last {
                return Some(n);
            }
            let deeper = match_ast_for_result(n, ast, i + 1);
            if deeper.is_some() {
                return deeper;
            }
        }
        if let Some(children) = &n.children {
            assert(first_match(*n, v, i as int) == first_in(children@, v, i as int, 0));
            let mut k: usize = 0;
            while k < children.len()
                invariant
                    k <= children.len(),
                    n.children == Some(*children),
                    i < ast.nodes.len(),
                    v == ast_view(*ast),
                    first_match(*n, v, i as int) == first_in(children@, v, i as int, k as int),
                decreases children.len() - k,
            {
                let r = match_ast_for_result(&children[k], ast, i);
                assert(first_in(children@, v, i as int, k as int) == if first_match(
                    children@[k as int],
                    v,
                    i as int,
                ) is Some {
                    first_match(children@[k as int], v, i as int)
                } else {
                    first_in(children@, v, i as int, k + 1)
                });
                if r.is_some() {
                    return r;
                }
                k += 1;
            }
        }
        None
    } else {
        if let Some(children) = &n.children {
            assert(first_match(*n, v, i as int) == first_child(children@, v, i as int, 0));
            let mut k: usize = 0;
            while k < children.len()
                invariant
                    k <= children.len(),
                    n.children == Some(*children),
                    i < ast.nodes.len(),
                    v == ast_view(*ast),
                    v.nodes[i as int] == node_view(ast.nodes[i as int]),
                    is_last == (i == ast.nodes.len() - 1),
                    first_match(*n, v, i as int) == first_child(children@, v, i as int, k as int),
                decreases children.len() - k,
            {
                let child = &children[k];
                let hit = matches_node(child, &ast.nodes[i], Some(k));
                assert(first_child(children@, v, i as int, k as int) == if hit && is_last {
                    Some(children@[k as int])
                } else if hit && first_match(children@[k as int], v, i + 1) is Some {
                    first_match(children@[k as int], v, i + 1)
                } else {
                    first_child(children@, v, i as int, k + 1)
                });
                if hit {
                    if is_last {
                        return Some(child);
                    }
                    let r = match_ast_for_result(child, ast, i + 1);
                    if r.is_some() {
                        return r;
                    }
                }
                k += 1;
            }
        }
        None
    }
}

/// Find the first element matching a CSS-like selector.
pub fn query_selector<'a>(root: &'a A11yNode, selector: &str) -> (r: Option<&'a A11yNode>)
    ensures
        deref_opt(r) == query_selector_spec(*root, selector@),
{
    let ast = parse_selector(selector);
    match_ast_for_result(root, &ast, 0)
}

} // verus!

verus! {

proof fn lemma_child_decreases(n: A11yNode, c: Vec<A11yNode>, k: int)
    requires
        n.children == Some(c),
        0 <= k < c.len(),
    ensures
        decreases_to!(n => c@[k]),
{
    assert(decreases_to!(n => n.children));
    assert(decreases_to!(n.children => n.children->0));
    assert(decreases_to!(c => c@));
    assert(decreases_to!(c@ => c@[k]));
}

proof fn lemma_deref_push(s: Seq<&A11yNode>, x: &A11yNode)
    ensures
        deref_seq(s.push(x)) == deref_seq(s).push(*x),
{
    assert(deref_seq(s.push(x)) =~= deref_seq(s).push(*x));
}

/// Appends every node matched from the `i`-th compound selector on, searching
/// `n` and below, in document order.
fn collect_matches<'a>(
    n: &'a A11yNode,
    ast: &SelectorAst,
    i: usize,
    results: &mut Vec<&'a A11yNode>,
)
    ensures
        deref_seq(final(results)@) == deref_seq(old(results)@) + all_matches(
            *n,
            ast_view(*ast),
            i as int,
        ),
    decreases *n, ast.nodes.len() - i, 0int,
{
    let ghost v = ast_view(*ast);
    let ghost start = deref_seq(results@);
    if i >= ast.nodes.len() {
        assert(start + all_matches(*n, v, i as int) =~= start);
        return;
    }
    let target = &ast.nodes[i];
    assert(v.nodes[i as int] == node_view(*target));
    let is_last = i == ast.nodes.len() - 1;
    if is_desc_exec(ast, i) {
        if matches_node(n, target, None) {
            if is_last {
                proof {
                    lemma_deref_push(results@, n);
                }
                results.push(n);
            } else {
                collect_matches(n, ast, i + 1, results);
            }
        }
        let ghost mid = deref_seq(results@);
        assert(mid == start + if node_matches(*n, v.nodes[i as int], None) {
            if i == v.nodes.len() - 1 {
                seq![*n]
            } else {
                all_matches(*n, v, i + 1)
            }
        } else {
            Seq::empty()
        });
        if let Some(children) = &n.children {
            let mut k: usize = 0;
            assert(mid + all_in(children@, v, i as int, 0) == mid + all_in(
                children@,
                v,
                i as int,
                0,
            ).skip(0));
            while k < children.len()
                invariant
                    k <= children.len(),
                    n.children == Some(*children),
                    i < ast.nodes.len(),
                    v == ast_view(*ast),
                    deref_seq(results@) + all_in(children@, v, i as int, k as int) == mid + all_in(
                        children@,
                        v,
                        i as int,
                        0,
                    ),
                decreases children.len() - k,
            {
                let ghost before = deref_seq(results@);
                proof {
                    lemma_child_decreases(*n, *children, k as int);
                }
                collect_matches(&children[k], ast, i, results);
                assert(all_in(children@, v, i as int, k as int) == all_matches(
                    children@[k as int],
                    v,
                    i as int,
                ) + all_in(children@, v, i as int, k + 1));
                assert(deref_seq(results@) + all_in(children@, v, i as int, k + 1) =~= before
                    + all_in(children@, v, i as int, k as int));
                k += 1;
            }
            assert(all_in(children@, v, i as int, k as int) =~= Seq::<A11yNode>::empty());
            assert(deref_seq(results@) =~= start + all_matches(*n, v, i as int));
        } else {
            assert(deref_seq(results@) =~= start + all_matches(*n, v, i as int));
        }
    } else {
        if let Some(children) = &n.children {
            let mut k: usize = 0;
            while k < children.len()
                invariant
                    k <= children.len(),
                    n.children == Some(*children),
                    i < ast.nodes.len(),
                    v == ast_view(*ast),
                    v.nodes[i as int] == node_view(ast.nodes[i as int]),
                    is_last == (i == ast.nodes.len() - 1),
                    deref_seq(results@) + all_child(children@, v, i as int, k as int) == start
                        + all_child(children@, v, i as int, 0),
                decreases children.len() - k,
            {
                let ghost before = deref_seq(results@);
                let child = &children[k];
                proof {
                    lemma_child_decreases(*n, *children, k as int);
                }
                let hit = matches_node(child, &ast.nodes[i], Some(k));
                if hit {
                    if is_last {
                        proof {
                            lemma_deref_push(results@, child);
                        }
                        results.push(child);
                    } else {
                        collect_matches(child, ast, i + 1, results);
                    }
                }
                assert(all_child(children@, v, i as int, k as int) == (if hit {
                    if i == v.nodes.len() - 1 {
                        seq![children@[k as int]]
                    } else {
                        all_matches(children@[k as int], v, i + 1)
                    }
                } else {
                    Seq::empty()
                }) + all_child(children@, v, i as int, k + 1));
                assert(deref_seq(results@) + all_child(children@, v, i as int, k + 1) =~= before
                    + all_child(children@, v, i as int, k as int));
                k += 1;
            }
            assert(all_child(children@, v, i as int, k as int) =~= Seq::<A11yNode>::empty());
            assert(deref_seq(results@) =~= start + all_matches(*n, v, i as int));
        } else {
            assert(deref_seq(results@) =~= start + all_matches(*n, v, i as int));
        }
    }
}

/// Find all elements matching a CSS-like selector, in document order.
pub fn query_selector_all<'a>(root: &'a A11yNode, selector: &str) -> (r: Vec<&'a A11yNode>)
    ensures
        deref_seq(r@) == query_selector_all_spec(*root, selector@),
{
    let ast = parse_selector(selector);
    let mut results: Vec<&'a A11yNode> = Vec::new();
    assert(deref_seq(results@) =~= Seq::<A11yNode>::empty());
    collect_matches(root, &ast, 0, &mut results);
    assert(deref_seq(results@) =~= query_selector_all_spec(*root, selector@));
    results
}

} // verus!

verus! {

/// The first element of a sequence, if any.
pub open spec fn head(s: Seq<A11yNode>) -> Option<A11yNode> {
    if s.len() > 0 {
        Some(s[0])
    } else {
        None
    }
}

proof fn lemma_first_match_is_head(n: A11yNode, ast: AstSpec, i: int)
    ensures
        first_match(n, ast, i) == head(all_matches(n, ast, i)),
    decreases n, ast.nodes.len() - i, 0int,
{
    if i < 0 || i >= ast.nodes.len() {
    } else {
        let rest = match n.children {
            Some(c) => all_in(c@, ast, i, 0),
            None => Seq::empty(),
        };
        if let Some(c) = n.children {
            assert(decreases_to!(n => n.children));
            assert(decreases_to!(n.children => n.children->0));
            assert(decreases_to!(c => c@));
            if is_desc(ast, i) {
                lemma_first_in_is_head(c@, ast, i, 0);
            } else {
                lemma_first_child_is_head(c@, ast, i, 0);
            }
        }
        if is_desc(ast, i) {
            let hit = node_matches(n, ast.nodes[i], None);
            if hit && i == ast.nodes.len() - 1 {
                assert((seq![n] + rest)[0] == n);
            } else if hit {
                lemma_first_match_is_head(n, ast, i + 1);
                let deeper = all_matches(n, ast, i + 1);
                if deeper.len() > 0 {
                    assert((deeper + rest)[0] == deeper[0]);
                } else {
                    assert(deeper + rest =~= rest);
                }
            } else {
                assert(Seq::<A11yNode>::empty() + rest =~= rest);
            }
        }
    }
}

proof fn lemma_first_in_is_head(ks: Seq<A11yNode>, ast: AstSpec, i: int, k: int)
    ensures
        first_in(ks, ast, i, k) == head(all_in(ks, ast, i, k)),
    decreases ks, ast.nodes.len() - i, ks.len() - k,
{
    if k < 0 || k >= ks.len() {
    } else {
        lemma_first_match_is_head(ks[k], ast, i);
        lemma_first_in_is_head(ks, ast, i, k + 1);
        let here = all_matches(ks[k], ast, i);
        let later = all_in(ks, ast, i, k + 1);
        if here.len() > 0 {
            assert((here + later)[0] == here[0]);
        } else {
            assert(here + later =~= later);
        }
    }
}

proof fn lemma_first_child_is_head(ks: Seq<A11yNode>, ast: AstSpec, i: int, k: int)
    ensures
        first_child(ks, ast, i, k) == head(all_child(ks, ast, i, k)),
    decreases ks, ast.nodes.len() - i, ks.len() - k,
{
    if k < 0 || k >= ks.len() || i < 0 || i >= ast.nodes.len() {
    } else {
        lemma_first_child_is_head(ks, ast, i, k + 1);
        let later = all_child(ks, ast, i, k + 1);
        let hit = node_matches(ks[k], ast.nodes[i], Some(k));
        if hit && i == ast.nodes.len() - 1 {
            assert((seq![ks[k]] + later)[0] == ks[k]);
        } else if hit {
            lemma_first_match_is_head(ks[k], ast, i + 1);
            let here = all_matches(ks[k], ast, i + 1);
            if here.len() > 0 {
                assert((here + later)[0] == here[0]);
            } else {
                assert(here + later =~= later);
            }
        } else {
            assert(Seq::<A11yNode>::empty() + later =~= later);
        }
    }
}

/// `query_selector` finds exactly the first of the elements that
/// `query_selector_all` lists, and finds nothing when that list is empty.
pub proof fn lemma_query_selector_is_first_of_all(root: A11yNode, selector: Seq<char>)
    ensures
        query_selector_spec(root, selector) == head(query_selector_all_spec(root, selector)),
{
    lemma_first_match_is_head(root, parse_selector_spec(selector), 0);
}

} // verus!

verus! {

// ============================================
// Ancestor traversal
// ============================================

/// Walks up `parent_index` links through the flattened tree `all`, starting at
/// `cur`, looking at no more than `fuel` nodes. `Some(Some(j))`: node `j` is the
/// first with the role; `Some(None)`: the chain ends (no parent, or an index
/// outside `all`) first; `None`: `fuel` nodes were looked at without an end.
pub open spec fn ancestor_walk(all: Seq<A11yNode>, cur: Option<usize>, role: Seq<char>, fuel: nat)
    -> Option<Option<int>>
    decreases fuel,
{
    match cur {
        None => Some(None),
        Some(idx) => if idx >= all.len() {
            Some(None)
        } else if fuel == 0 {
            None
        } else if all[idx as int].role@ == role {
            Some(Some(idx as int))
        } else {
            ancestor_walk(all, all[idx as int].parent_index, role, (fuel - 1) as nat)
        },
    }
}

/// Find an ancestor node with the given role, walking `parent_index` links up
/// the flattened tree. A chain that looks at more nodes than `all_nodes` holds
/// goes round a cycle without end, so such inputs are left out.
pub fn find_ancestor_by_role<'a>(node: &'a A11yNode, role: &str, all_nodes: &'a [A11yNode]) -> (r:
    Option<&'a A11yNode>)
    requires
        ancestor_walk(all_nodes@, node.parent_index, role@, all_nodes@.len()) is Some,
    ensures
        match ancestor_walk(all_nodes@, node.parent_index, role@, all_nodes@.len()) {
            Some(Some(j)) => deref_opt(r) == Some(all_nodes@[j]),
            _ => r is None,
        },
{
    let want = chars_of(role);
    let mut current_idx = node.parent_index;
    let mut fuel: usize = all_nodes.len();
    while fuel > 0
        invariant
            want@ == role@,
            ancestor_walk(all_nodes@, current_idx, role@, fuel as nat) == ancestor_walk(
                all_nodes@,
                node.parent_index,
                role@,
                all_nodes@.len(),
            ),
            ancestor_walk(all_nodes@, current_idx, role@, fuel as nat) is Some,
        decreases fuel,
    {
        match current_idx {
            None => {
                return None;
            },
            Some(idx) => {
                if idx >= all_nodes.len() {
                    return None;
                }
                let parent = &all_nodes[idx];
                let prole = chars_of(parent.role.as_str());
                if crate::text::seq_eq(prole.as_slice(), want.as_slice()) {
                    return Some(parent);
                }
                current_idx = parent.parent_index;
                fuel = fuel - 1;
            },
        }
    }
    // With nothing left to look at, the walk can only have ended.
    None
}

} // verus!
