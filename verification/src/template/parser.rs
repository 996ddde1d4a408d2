//! The template grammar: text, `{{ var:filter(args) }}` and
//! `{{#for x in list }} ... {{/x }}`.
use vstd::prelude::*;
use crate::text::{chars_of, is_alphanumeric, is_whitespace, is_ws, unicode_alphanumeric};
use winnow::Parser;

verus! {

/// A filter argument as written: a number literal (kept as its text), a
/// quoted or bare string, or `%name` referring to another variable.
#[derive(Debug)]
pub enum FilterArg {
    Number(String),
    String(String),
    Variable(String),
}

/// `:name` or `:name(args)` or `:name arg arg`.
#[derive(Debug)]
pub struct FilterCall {
    pub name: String,
    pub args: Vec<FilterArg>,
}

/// A node inside a `for` body: loops do not nest.
#[derive(Debug)]
pub enum BodyNode {
    Text(String),
    Variable { name: String, filters: Vec<FilterCall> },
}

#[derive(Debug)]
pub enum TemplateNode {
    Text(String),
    Variable { name: String, filters: Vec<FilterCall> },
    ForBlock { var_name: String, collection: String, body: Vec<BodyNode> },
}

pub enum ArgView {
    Number(Seq<char>),
    Str(Seq<char>),
    Var(Seq<char>),
}

pub struct CallView {
    pub name: Seq<char>,
    pub args: Seq<ArgView>,
}

pub enum NodeView {
    Text(Seq<char>),
    Variable(Seq<char>, Seq<CallView>),
    ForBlock(Seq<char>, Seq<char>, Seq<NodeView>),
}

impl View for FilterArg {
    type V = ArgView;

    open spec fn view(&self) -> ArgView {
        match self {
            FilterArg::Number(t) => ArgView::Number(t@),
            FilterArg::String(t) => ArgView::Str(t@),
            FilterArg::Variable(t) => ArgView::Var(t@),
        }
    }
}

pub open spec fn args_view(v: Seq<FilterArg>) -> Seq<ArgView> {
    v.map_values(|a: FilterArg| a@)
}

impl View for FilterCall {
    type V = CallView;

    open spec fn view(&self) -> CallView {
        CallView { name: self.name@, args: args_view(self.args@) }
    }
}

pub open spec fn calls_view(v: Seq<FilterCall>) -> Seq<CallView> {
    v.map_values(|c: FilterCall| c@)
}

impl View for BodyNode {
    type V = NodeView;

    open spec fn view(&self) -> NodeView {
        match self {
            BodyNode::Text(t) => NodeView::Text(t@),
            BodyNode::Variable { name, filters } => NodeView::Variable(name@, calls_view(filters@)),
        }
    }
}

pub open spec fn body_view(v: Seq<BodyNode>) -> Seq<NodeView> {
    v.map_values(|n: BodyNode| n@)
}

impl View for TemplateNode {
    type V = NodeView;

    open spec fn view(&self) -> NodeView {
        match self {
            TemplateNode::Text(t) => NodeView::Text(t@),
            TemplateNode::Variable { name, filters } => NodeView::Variable(name@, calls_view(filters@)),
            TemplateNode::ForBlock { var_name, collection, body } => NodeView::ForBlock(
                var_name@,
                collection@,
                body_view(body@),
            ),
        }
    }
}

pub open spec fn nodes_view(v: Seq<TemplateNode>) -> Seq<NodeView> {
    v.map_values(|n: TemplateNode| n@)
}

// ----------------------------------------------------------------------
// The grammar, as functions from (text, position) to what is read there.
// ----------------------------------------------------------------------

/// Every text that a `Vec<char>` can hold leaves room for small offsets past its end.
pub proof fn lemma_fits(s: Seq<char>)
    requires
        s.len() <= isize::MAX,
    ensures
        fits(s),
{
}

/// Texts short enough that positions a few characters past the end still fit in `usize`.
pub open spec fn fits(s: Seq<char>) -> bool {
    s.len() + 16 < usize::MAX
}

pub open spec fn at(s: Seq<char>, i: int, c: char) -> bool {
    0 <= i < s.len() && s[i] == c
}

/// Case-insensitive match of an ASCII letter given in both cases.
pub open spec fn at_ci(s: Seq<char>, i: int, lower: char, upper: char) -> bool {
    at(s, i, lower) || at(s, i, upper)
}

pub open spec fn is_digit(c: char) -> bool {
    '0' <= c && c <= '9'
}

pub open spec fn is_ident_char(c: char) -> bool {
    unicode_alphanumeric(c) || c == '_'
}

pub open spec fn ident_end(s: Seq<char>, i: int) -> int
    decreases s.len() - i,
{
    if 0 <= i < s.len() && is_ident_char(s[i]) {
        ident_end(s, i + 1)
    } else {
        i
    }
}

pub open spec fn ws_end(s: Seq<char>, i: int) -> int
    decreases s.len() - i,
{
    if 0 <= i < s.len() && is_ws(s[i]) {
        ws_end(s, i + 1)
    } else {
        i
    }
}

pub open spec fn digits_end(s: Seq<char>, i: int) -> int
    decreases s.len() - i,
{
    if 0 <= i < s.len() && is_digit(s[i]) {
        digits_end(s, i + 1)
    } else {
        i
    }
}

/// End of a run of characters other than `"`.
pub open spec fn quote_end(s: Seq<char>, i: int) -> int
    decreases s.len() - i,
{
    if 0 <= i < s.len() && s[i] != '"' {
        quote_end(s, i + 1)
    } else {
        i
    }
}

/// End of a run of whitespace and commas.
pub open spec fn sep_end(s: Seq<char>, i: int) -> int
    decreases s.len() - i,
{
    if 0 <= i < s.len() && (is_ws(s[i]) || s[i] == ',') {
        sep_end(s, i + 1)
    } else {
        i
    }
}

/// Raw text runs until the first `{{`.
pub open spec fn text_end(s: Seq<char>, i: int) -> int
    decreases s.len() - i,
{
    if 0 <= i < s.len() && !(s[i] == '{' && at(s, i + 1, '{')) {
        text_end(s, i + 1)
    } else {
        i
    }
}

pub open spec fn ident(s: Seq<char>, i: int) -> Option<(Seq<char>, int)> {
    let j = ident_end(s, i);
    if j > i {
        Some((s.subrange(i, j), j))
    } else {
        None
    }
}

/// Exponent part of a number literal: nothing, or `e`/`E`, an optional
/// sign and at least one digit (without those digits the whole literal fails).
pub open spec fn exp_end(s: Seq<char>, k: int) -> Option<int> {
    if at(s, k, 'e') || at(s, k, 'E') {
        let m = if at(s, k + 1, '+') || at(s, k + 1, '-') {
            k + 2
        } else {
            k + 1
        };
        let d = digits_end(s, m);
        if d > m {
            Some(d)
        } else {
            None
        }
    } else {
        Some(k)
    }
}

/// Unsigned number literal: `inf`/`infinity`, `.digits exp`, or `digits[.[digits]] exp`.
pub open spec fn unsigned_end(s: Seq<char>, i: int) -> Option<int> {
    if at_ci(s, i, 'i', 'I') {
        if at_ci(s, i + 1, 'n', 'N') && at_ci(s, i + 2, 'f', 'F') {
            if at_ci(s, i + 3, 'i', 'I') && at_ci(s, i + 4, 'n', 'N') && at_ci(s, i + 5, 'i', 'I') && at_ci(s, i + 6, 't', 'T') && at_ci(s, i + 7, 'y', 'Y') {
                Some(i + 8)
            } else {
                Some(i + 3)
            }
        } else {
            None
        }
    } else if at(s, i, '.') {
        let d = digits_end(s, i + 1);
        if d > i + 1 {
            exp_end(s, d)
        } else {
            None
        }
    } else {
        let d = digits_end(s, i);
        if d > i {
            let k = if at(s, d, '.') {
                digits_end(s, d + 1)
            } else {
                d
            };
            exp_end(s, k)
        } else {
            None
        }
    }
}

/// A number literal: `nan` (any case), or an optional sign and an unsigned literal.
pub open spec fn number_end(s: Seq<char>, i: int) -> Option<int> {
    if at_ci(s, i, 'n', 'N') {
        if at_ci(s, i + 1, 'a', 'A') && at_ci(s, i + 2, 'n', 'N') {
            Some(i + 3)
        } else {
            None
        }
    } else if at(s, i, '+') || at(s, i, '-') {
        unsigned_end(s, i + 1)
    } else {
        unsigned_end(s, i)
    }
}

pub open spec fn number_arg(s: Seq<char>, i: int) -> Option<(ArgView, int)> {
    match number_end(s, i) {
        Some(j) => Some((ArgView::Number(s.subrange(i, j)), j)),
        None => None,
    }
}

pub open spec fn string_arg(s: Seq<char>, i: int) -> Option<(ArgView, int)> {
    if at(s, i, '"') {
        let j = quote_end(s, i + 1);
        if at(s, j, '"') {
            Some((ArgView::Str(s.subrange(i + 1, j)), j + 1))
        } else {
            None
        }
    } else {
        None
    }
}

pub open spec fn bare_arg(s: Seq<char>, i: int) -> Option<(ArgView, int)> {
    if at(s, i, '%') {
        match ident(s, i + 1) {
            Some((n, j)) => Some((ArgView::Var(n), j)),
            None => None,
        }
    } else {
        None
    }
}

/// A parenthesised argument: number, quoted string, `%var`, or a bare word.
pub open spec fn filter_arg(s: Seq<char>, i: int) -> Option<(ArgView, int)> {
    match number_arg(s, i) {
        Some(r) => Some(r),
        None => match string_arg(s, i) {
            Some(r) => Some(r),
            None => match bare_arg(s, i) {
                Some(r) => Some(r),
                None => match ident(s, i) {
                    Some((w, j)) => Some((ArgView::Str(w), j)),
                    None => None,
                },
            },
        },
    }
}

/// A space-separated argument: number, quoted string or `%var`.
pub open spec fn spaced_arg(s: Seq<char>, i: int) -> Option<(ArgView, int)> {
    match number_arg(s, i) {
        Some(r) => Some(r),
        None => match string_arg(s, i) {
            Some(r) => Some(r),
            None => bare_arg(s, i),
        },
    }
}

/// Further arguments, each after a run of whitespace and commas.
pub open spec fn args_tail(s: Seq<char>, i: int) -> (Seq<ArgView>, int)
    decreases s.len() - i,
{
    let j = sep_end(s, i);
    if j <= i || j > s.len() {
        (seq![], i)
    } else {
        match filter_arg(s, j) {
            None => (seq![], i),
            Some((a, k)) => if k <= j || k > s.len() {
                (seq![], i)
            } else {
                let r = args_tail(s, k);
                (seq![a] + r.0, r.1)
            },
        }
    }
}

pub open spec fn paren_args(s: Seq<char>, i: int) -> Option<(Seq<ArgView>, int)> {
    if !at(s, i, '(') {
        None
    } else {
        let first = filter_arg(s, i + 1);
        let (list, p) = match first {
            None => (seq![], i + 1),
            Some((a, k)) => if k <= i + 1 || k > s.len() {
                (seq![], i + 1)
            } else {
                let r = args_tail(s, k);
                (seq![a] + r.0, r.1)
            },
        };
        if at(s, p, ')') {
            Some((list, p + 1))
        } else {
            None
        }
    }
}

/// Arguments each after a run of whitespace.
pub open spec fn spaced_tail(s: Seq<char>, i: int) -> (Seq<ArgView>, int)
    decreases s.len() - i,
{
    let j = ws_end(s, i);
    if j <= i || j > s.len() {
        (seq![], i)
    } else {
        match spaced_arg(s, j) {
            None => (seq![], i),
            Some((a, k)) => if k <= j || k > s.len() {
                (seq![], i)
            } else {
                let r = spaced_tail(s, k);
                (seq![a] + r.0, r.1)
            },
        }
    }
}

pub open spec fn filter_call(s: Seq<char>, i: int) -> Option<(CallView, int)> {
    if !at(s, i, ':') {
        None
    } else {
        match ident(s, i + 1) {
            None => None,
            Some((name, j)) => match paren_args(s, j) {
                Some((a, k)) => Some((CallView { name, args: a }, k)),
                None => {
                    let r = spaced_tail(s, j);
                    Some((CallView { name, args: r.0 }, r.1))
                },
            },
        }
    }
}

pub open spec fn calls(s: Seq<char>, i: int) -> (Seq<CallView>, int)
    decreases s.len() - i,
{
    match filter_call(s, i) {
        None => (seq![], i),
        Some((c, j)) => if j <= i || j > s.len() {
            (seq![], i)
        } else {
            let r = calls(s, j);
            (seq![c] + r.0, r.1)
        },
    }
}

pub open spec fn variable(s: Seq<char>, i: int) -> Option<(NodeView, int)> {
    if at(s, i, '{') && at(s, i + 1, '{') {
        let w = ws_end(s, i + 2);
        match ident(s, w) {
            None => None,
            Some((name, j)) => {
                let c = calls(s, j);
                let w2 = ws_end(s, c.1);
                if at(s, w2, '}') && at(s, w2 + 1, '}') {
                    Some((NodeView::Variable(name, c.0), w2 + 2))
                } else {
                    None
                }
            },
        }
    } else {
        None
    }
}

pub open spec fn text(s: Seq<char>, i: int) -> Option<(NodeView, int)> {
    let e = text_end(s, i);
    if e > i {
        Some((NodeView::Text(s.subrange(i, e)), e))
    } else {
        None
    }
}

pub open spec fn body_node(s: Seq<char>, i: int) -> Option<(NodeView, int)> {
    match variable(s, i) {
        Some(r) => Some(r),
        None => text(s, i),
    }
}

pub open spec fn body(s: Seq<char>, i: int) -> (Seq<NodeView>, int)
    decreases s.len() - i,
{
    match body_node(s, i) {
        None => (seq![], i),
        Some((n, j)) => if j <= i || j > s.len() {
            (seq![], i)
        } else {
            let r = body(s, j);
            (seq![n] + r.0, r.1)
        },
    }
}

/// `{{ #for var in collection }}` (whitespace after `{{` and before `}}` optional).
pub open spec fn for_open(s: Seq<char>, i: int) -> Option<(Seq<char>, Seq<char>, int)> {
    if !(at(s, i, '{') && at(s, i + 1, '{')) {
        None
    } else {
        let a = ws_end(s, i + 2);
        if !(at(s, a, '#') && at(s, a + 1, 'f') && at(s, a + 2, 'o') && at(s, a + 3, 'r')) {
            None
        } else {
            let b = ws_end(s, a + 4);
            if b == a + 4 {
                None
            } else {
                match ident(s, b) {
                    None => None,
                    Some((var, c)) => {
                        let d = ws_end(s, c);
                        if d == c || !(at(s, d, 'i') && at(s, d + 1, 'n')) {
                            None
                        } else {
                            let e = ws_end(s, d + 2);
                            if e == d + 2 {
                                None
                            } else {
                                match ident(s, e) {
                                    None => None,
                                    Some((coll, f)) => {
                                        let g = ws_end(s, f);
                                        if at(s, g, '}') && at(s, g + 1, '}') {
                                            Some((var, coll, g + 2))
                                        } else {
                                            None
                                        }
                                    },
                                }
                            }
                        }
                    },
                }
            }
        }
    }
}

/// `{{/var }}` closing the loop over `var`.
pub open spec fn for_close(s: Seq<char>, i: int, var: Seq<char>) -> Option<int> {
    if !(at(s, i, '{') && at(s, i + 1, '{')) {
        None
    } else {
        let a = ws_end(s, i + 2);
        if !at(s, a, '/') {
            None
        } else {
            match ident(s, a + 1) {
                None => None,
                Some((name, b)) => {
                    let c = ws_end(s, b);
                    if name == var && at(s, c, '}') && at(s, c + 1, '}') {
                        Some(c + 2)
                    } else {
                        None
                    }
                },
            }
        }
    }
}

pub open spec fn for_block(s: Seq<char>, i: int) -> Option<(NodeView, int)> {
    match for_open(s, i) {
        None => None,
        Some((var, coll, j)) => {
            let b = body(s, j);
            match for_close(s, b.1, var) {
                Some(k) => Some((NodeView::ForBlock(var, coll, b.0), k)),
                None => None,
            }
        },
    }
}

pub open spec fn node(s: Seq<char>, i: int) -> Option<(NodeView, int)> {
    match variable(s, i) {
        Some(r) => Some(r),
        None => match for_block(s, i) {
            Some(r) => Some(r),
            None => text(s, i),
        },
    }
}

pub open spec fn nodes(s: Seq<char>, i: int) -> (Seq<NodeView>, int)
    decreases s.len() - i,
{
    match node(s, i) {
        None => (seq![], i),
        Some((n, j)) => if j <= i || j > s.len() {
            (seq![], i)
        } else {
            let r = nodes(s, j);
            (seq![n] + r.0, r.1)
        },
    }
}

/// The nodes of a whole template, or the offset (in characters) of the
/// first part that no rule reads. An empty template is one empty text node.
pub open spec fn spec_parse(s: Seq<char>) -> Result<Seq<NodeView>, int> {
    if s.len() == 0 {
        Ok(seq![NodeView::Text(seq![])])
    } else {
        let r = nodes(s, 0);
        if r.0.len() > 0 && r.1 == s.len() {
            Ok(r.0)
        } else {
            Err(r.1)
        }
    }
}

} // verus!

verus! {

// ----------------------------------------------------------------------
// The parser.
// ----------------------------------------------------------------------

fn scan_ident(s: &Vec<char>, i: usize) -> (j: usize)
    requires
        i <= s@.len(),
        fits(s@),
    ensures
        j as int == ident_end(s@, i as int),
        i <= j <= s@.len(),
{
    let mut j = i;
    while j < s.len() && (is_alphanumeric(s[j]) || s[j] == '_')
        invariant
            i <= j <= s@.len(),
            ident_end(s@, i as int) == ident_end(s@, j as int),
        decreases s@.len() - j,
    {
        j = j + 1;
    }
    j
}

fn scan_ws(s: &Vec<char>, i: usize) -> (j: usize)
    requires
        i <= s@.len(),
        fits(s@),
    ensures
        j as int == ws_end(s@, i as int),
        i <= j <= s@.len(),
{
    let mut j = i;
    while j < s.len() && is_whitespace(s[j])
        invariant
            i <= j <= s@.len(),
            ws_end(s@, i as int) == ws_end(s@, j as int),
        decreases s@.len() - j,
    {
        j = j + 1;
    }
    j
}

pub(crate) fn scan_digits(s: &Vec<char>, i: usize) -> (j: usize)
    requires
        i <= s@.len(),
        fits(s@),
    ensures
        j as int == digits_end(s@, i as int),
        i <= j <= s@.len(),
{
    let mut j = i;
    while j < s.len() && '0' <= s[j] && s[j] <= '9'
        invariant
            i <= j <= s@.len(),
            digits_end(s@, i as int) == digits_end(s@, j as int),
        decreases s@.len() - j,
    {
        j = j + 1;
    }
    j
}

fn scan_quote(s: &Vec<char>, i: usize) -> (j: usize)
    requires
        i <= s@.len(),
        fits(s@),
    ensures
        j as int == quote_end(s@, i as int),
        i <= j <= s@.len(),
{
    let mut j = i;
    while j < s.len() && s[j] != '"'
        invariant
            i <= j <= s@.len(),
            quote_end(s@, i as int) == quote_end(s@, j as int),
        decreases s@.len() - j,
    {
        j = j + 1;
    }
    j
}

fn scan_sep(s: &Vec<char>, i: usize) -> (j: usize)
    requires
        i <= s@.len(),
        fits(s@),
    ensures
        j as int == sep_end(s@, i as int),
        i <= j <= s@.len(),
{
    let mut j = i;
    while j < s.len() && (is_whitespace(s[j]) || s[j] == ',')
        invariant
            i <= j <= s@.len(),
            sep_end(s@, i as int) == sep_end(s@, j as int),
        decreases s@.len() - j,
    {
        j = j + 1;
    }
    j
}

fn scan_text(s: &Vec<char>, i: usize) -> (j: usize)
    requires
        i <= s@.len(),
        fits(s@),
    ensures
        j as int == text_end(s@, i as int),
        i <= j <= s@.len(),
{
    let mut j = i;
    while j < s.len() && !(s[j] == '{' && j + 1 < s.len() && s[j + 1] == '{')
        invariant
            i <= j <= s@.len(),
            text_end(s@, i as int) == text_end(s@, j as int),
        decreases s@.len() - j,
    {
        j = j + 1;
    }
    j
}

pub(crate) fn char_at(s: &Vec<char>, i: usize, c: char) -> (res: bool)
    ensures
        res == at(s@, i as int, c),
{
    i < s.len() && s[i] == c
}

pub(crate) fn char_at_ci(s: &Vec<char>, i: usize, lower: char, upper: char) -> (res: bool)
    ensures
        res == at_ci(s@, i as int, lower, upper),
{
    char_at(s, i, lower) || char_at(s, i, upper)
}

fn read_ident(s: &Vec<char>, i: usize) -> (res: Option<(String, usize)>)
    requires
        i <= s@.len(),
        fits(s@),
    ensures
        res is Some == ident(s@, i as int) is Some,
        res matches Some((n, j)) ==> ident(s@, i as int) == Some((n@, j as int)) && i < j <= s@.len(),
{
    let j = scan_ident(s, i);
    if j > i {
        Some((crate::text::substring(s, i, j), j))
    } else {
        None
    }
}

fn read_exp(s: &Vec<char>, k: usize) -> (res: Option<usize>)
    requires
        k <= s@.len(),
        fits(s@),
    ensures
        res matches Some(j) ==> exp_end(s@, k as int) == Some(j as int) && k <= j <= s@.len(),
        res is None ==> exp_end(s@, k as int) is None,
{
    if char_at(s, k, 'e') || char_at(s, k, 'E') {
        let m = if char_at(s, k + 1, '+') || char_at(s, k + 1, '-') {
            k + 2
        } else {
            k + 1
        };
        let d = scan_digits(s, m);
        if d > m {
            Some(d)
        } else {
            None
        }
    } else {
        Some(k)
    }
}

fn read_unsigned(s: &Vec<char>, i: usize) -> (res: Option<usize>)
    requires
        i <= s@.len(),
        fits(s@),
    ensures
        res matches Some(j) ==> unsigned_end(s@, i as int) == Some(j as int) && i < j <= s@.len(),
        res is None ==> unsigned_end(s@, i as int) is None,
{
    if char_at_ci(s, i, 'i', 'I') {
        if char_at_ci(s, i + 1, 'n', 'N') && char_at_ci(s, i + 2, 'f', 'F') {
            if char_at_ci(s, i + 3, 'i', 'I') && char_at_ci(s, i + 4, 'n', 'N') && char_at_ci(s, i + 5, 'i', 'I')
                && char_at_ci(s, i + 6, 't', 'T') && char_at_ci(s, i + 7, 'y', 'Y') {
                Some(i + 8)
            } else {
                Some(i + 3)
            }
        } else {
            None
        }
    } else if char_at(s, i, '.') {
        let d = scan_digits(s, i + 1);
        if d > i + 1 {
            read_exp(s, d)
        } else {
            None
        }
    } else {
        let d = scan_digits(s, i);
        if d > i {
            let k = if char_at(s, d, '.') {
                scan_digits(s, d + 1)
            } else {
                d
            };
            read_exp(s, k)
        } else {
            None
        }
    }
}

fn read_number(s: &Vec<char>, i: usize) -> (res: Option<usize>)
    requires
        i <= s@.len(),
        fits(s@),
    ensures
        res matches Some(j) ==> number_end(s@, i as int) == Some(j as int) && i < j <= s@.len(),
        res is None ==> number_end(s@, i as int) is None,
{
    if char_at_ci(s, i, 'n', 'N') {
        if char_at_ci(s, i + 1, 'a', 'A') && char_at_ci(s, i + 2, 'n', 'N') {
            Some(i + 3)
        } else {
            None
        }
    } else if char_at(s, i, '+') || char_at(s, i, '-') {
        read_unsigned(s, i + 1)
    } else {
        read_unsigned(s, i)
    }
}

fn read_number_arg(s: &Vec<char>, i: usize) -> (res: Option<(FilterArg, usize)>)
    requires
        i <= s@.len(),
        fits(s@),
    ensures
        res is Some == number_arg(s@, i as int) is Some,
        res matches Some((a, j)) ==> number_arg(s@, i as int) == Some((a@, j as int)) && i < j
            <= s@.len(),
{
    match read_number(s, i) {
        Some(j) => Some((FilterArg::Number(crate::text::substring(s, i, j)), j)),
        None => None,
    }
}

fn read_string_arg(s: &Vec<char>, i: usize) -> (res: Option<(FilterArg, usize)>)
    requires
        i <= s@.len(),
        fits(s@),
    ensures
        res is Some == string_arg(s@, i as int) is Some,
        res matches Some((a, j)) ==> string_arg(s@, i as int) == Some((a@, j as int)) && i < j
            <= s@.len(),
{
    if char_at(s, i, '"') {
        let j = scan_quote(s, i + 1);
        if char_at(s, j, '"') {
            Some((FilterArg::String(crate::text::substring(s, i + 1, j)), j + 1))
        } else {
            None
        }
    } else {
        None
    }
}

fn read_bare_arg(s: &Vec<char>, i: usize) -> (res: Option<(FilterArg, usize)>)
    requires
        i <= s@.len(),
        fits(s@),
    ensures
        res is Some == bare_arg(s@, i as int) is Some,
        res matches Some((a, j)) ==> bare_arg(s@, i as int) == Some((a@, j as int)) && i < j
            <= s@.len(),
{
    if char_at(s, i, '%') {
        match read_ident(s, i + 1) {
            Some((n, j)) => Some((FilterArg::Variable(n), j)),
            None => None,
        }
    } else {
        None
    }
}

fn read_filter_arg(s: &Vec<char>, i: usize) -> (res: Option<(FilterArg, usize)>)
    requires
        i <= s@.len(),
        fits(s@),
    ensures
        res is Some == filter_arg(s@, i as int) is Some,
        res matches Some((a, j)) ==> filter_arg(s@, i as int) == Some((a@, j as int)) && i < j
            <= s@.len(),
{
    if let Some(r) = read_number_arg(s, i) {
        return Some(r);
    }
    if let Some(r) = read_string_arg(s, i) {
        return Some(r);
    }
    if let Some(r) = read_bare_arg(s, i) {
        return Some(r);
    }
    match read_ident(s, i) {
        Some((w, j)) => Some((FilterArg::String(w), j)),
        None => None,
    }
}

fn read_spaced_arg(s: &Vec<char>, i: usize) -> (res: Option<(FilterArg, usize)>)
    requires
        i <= s@.len(),
        fits(s@),
    ensures
        res is Some == spaced_arg(s@, i as int) is Some,
        res matches Some((a, j)) ==> spaced_arg(s@, i as int) == Some((a@, j as int)) && i < j
            <= s@.len(),
{
    if let Some(r) = read_number_arg(s, i) {
        return Some(r);
    }
    if let Some(r) = read_string_arg(s, i) {
        return Some(r);
    }
    read_bare_arg(s, i)
}

} // verus!

verus! {

proof fn lemma_args_view_push(v: Seq<FilterArg>, a: FilterArg)
    ensures
        args_view(v.push(a)) == args_view(v).push(a@),
{
    assert(args_view(v.push(a)) =~= args_view(v).push(a@));
}

proof fn lemma_calls_view_push(v: Seq<FilterCall>, a: FilterCall)
    ensures
        calls_view(v.push(a)) == calls_view(v).push(a@),
{
    assert(calls_view(v.push(a)) =~= calls_view(v).push(a@));
}

proof fn lemma_body_view_push(v: Seq<BodyNode>, a: BodyNode)
    ensures
        body_view(v.push(a)) == body_view(v).push(a@),
{
    assert(body_view(v.push(a)) =~= body_view(v).push(a@));
}

proof fn lemma_nodes_view_push(v: Seq<TemplateNode>, a: TemplateNode)
    ensures
        nodes_view(v.push(a)) == nodes_view(v).push(a@),
{
    assert(nodes_view(v.push(a)) =~= nodes_view(v).push(a@));
}

proof fn lemma_step<A>(acc: Seq<A>, a: A, rest: Seq<A>)
    ensures
        acc + (seq![a] + rest) == acc.push(a) + rest,
{
    assert(acc + (seq![a] + rest) =~= acc.push(a) + rest);
}

proof fn lemma_empty_tail<A>(acc: Seq<A>)
    ensures
        acc + Seq::<A>::empty() == acc,
{
    assert(acc + Seq::<A>::empty() =~= acc);
}

/// Arguments after the first, each preceded by whitespace or commas.
fn read_args_tail(s: &Vec<char>, i: usize) -> (res: (Vec<FilterArg>, usize))
    requires
        i <= s@.len(),
        fits(s@),
    ensures
        args_tail(s@, i as int) == (args_view(res.0@), res.1 as int),
        i <= res.1 <= s@.len(),
{
    let mut acc: Vec<FilterArg> = Vec::new();
    let mut p = i;
    proof {
        lemma_empty_tail(args_tail(s@, i as int).0);
        assert(args_view(acc@) =~= Seq::<ArgView>::empty());
        assert(Seq::<ArgView>::empty() + args_tail(s@, i as int).0 =~= args_tail(s@, i as int).0);
    }
    loop
        invariant
            i <= p <= s@.len(),
            fits(s@),
            args_tail(s@, i as int) == (args_view(acc@) + args_tail(s@, p as int).0, args_tail(
                s@,
                p as int,
            ).1),
        ensures
            args_tail(s@, i as int) == (args_view(acc@), p as int),
            i <= p <= s@.len(),
        decreases s@.len() - p,
    {
        let j = scan_sep(s, p);
        if j <= p {
            proof {
                lemma_empty_tail(args_view(acc@));
            }
            break;
        }
        match read_filter_arg(s, j) {
            None => {
                proof {
                    lemma_empty_tail(args_view(acc@));
                }
                break;
            },
            Some((a, k)) => {
                proof {
                    lemma_args_view_push(acc@, a);
                    lemma_step(args_view(acc@), a@, args_tail(s@, k as int).0);
                }
                acc.push(a);
                p = k;
            },
        }
    }
    (acc, p)
}

fn read_paren_args(s: &Vec<char>, i: usize) -> (res: Option<(Vec<FilterArg>, usize)>)
    requires
        i <= s@.len(),
        fits(s@),
    ensures
        res is Some == paren_args(s@, i as int) is Some,
        res matches Some((a, j)) ==> paren_args(s@, i as int) == Some((args_view(a@), j as int))
            && i < j <= s@.len(),
{
    if !char_at(s, i, '(') {
        return None;
    }
    let (list, p) = match read_filter_arg(s, i + 1) {
        None => {
            let v: Vec<FilterArg> = Vec::new();
            assert(args_view(v@) =~= Seq::<ArgView>::empty());
            (v, i + 1)
        },
        Some((a, k)) => {
            let (rest, e) = read_args_tail(s, k);
            let mut v: Vec<FilterArg> = Vec::new();
            v.push(a);
            let mut rest = rest;
            proof {
                assert(args_view(v@) =~= seq![a@]);
                assert(args_view(v@ + rest@) =~= args_view(v@) + args_view(rest@));
            }
            let ghost v0 = v@;
            v.append(&mut rest);
            (v, e)
        },
    };
    if char_at(s, p, ')') {
        Some((list, p + 1))
    } else {
        None
    }
}

fn read_spaced_tail(s: &Vec<char>, i: usize) -> (res: (Vec<FilterArg>, usize))
    requires
        i <= s@.len(),
        fits(s@),
    ensures
        spaced_tail(s@, i as int) == (args_view(res.0@), res.1 as int),
        i <= res.1 <= s@.len(),
{
    let mut acc: Vec<FilterArg> = Vec::new();
    let mut p = i;
    proof {
        assert(args_view(acc@) =~= Seq::<ArgView>::empty());
        assert(Seq::<ArgView>::empty() + spaced_tail(s@, i as int).0 =~= spaced_tail(
            s@,
            i as int,
        ).0);
    }
    loop
        invariant
            i <= p <= s@.len(),
            fits(s@),
            spaced_tail(s@, i as int) == (args_view(acc@) + spaced_tail(s@, p as int).0,
            spaced_tail(s@, p as int).1),
        ensures
            spaced_tail(s@, i as int) == (args_view(acc@), p as int),
            i <= p <= s@.len(),
        decreases s@.len() - p,
    {
        let j = scan_ws(s, p);
        if j <= p {
            proof {
                lemma_empty_tail(args_view(acc@));
            }
            break;
        }
        match read_spaced_arg(s, j) {
            None => {
                proof {
                    lemma_empty_tail(args_view(acc@));
                }
                break;
            },
            Some((a, k)) => {
                proof {
                    lemma_args_view_push(acc@, a);
                    lemma_step(args_view(acc@), a@, spaced_tail(s@, k as int).0);
                }
                acc.push(a);
                p = k;
            },
        }
    }
    (acc, p)
}

fn read_filter_call(s: &Vec<char>, i: usize) -> (res: Option<(FilterCall, usize)>)
    requires
        i <= s@.len(),
        fits(s@),
    ensures
        res is Some == filter_call(s@, i as int) is Some,
        res matches Some((c, j)) ==> filter_call(s@, i as int) == Some((c@, j as int)) && i < j
            <= s@.len(),
{
    if !char_at(s, i, ':') {
        return None;
    }
    match read_ident(s, i + 1) {
        None => None,
        Some((name, j)) => match read_paren_args(s, j) {
            Some((args, k)) => Some((FilterCall { name, args }, k)),
            None => {
                let (args, k) = read_spaced_tail(s, j);
                Some((FilterCall { name, args }, k))
            },
        },
    }
}

fn read_calls(s: &Vec<char>, i: usize) -> (res: (Vec<FilterCall>, usize))
    requires
        i <= s@.len(),
        fits(s@),
    ensures
        calls(s@, i as int) == (calls_view(res.0@), res.1 as int),
        i <= res.1 <= s@.len(),
{
    let mut acc: Vec<FilterCall> = Vec::new();
    let mut p = i;
    proof {
        assert(calls_view(acc@) =~= Seq::<CallView>::empty());
        assert(Seq::<CallView>::empty() + calls(s@, i as int).0 =~= calls(s@, i as int).0);
    }
    loop
        invariant
            i <= p <= s@.len(),
            fits(s@),
            calls(s@, i as int) == (calls_view(acc@) + calls(s@, p as int).0, calls(
                s@,
                p as int,
            ).1),
        ensures
            calls(s@, i as int) == (calls_view(acc@), p as int),
            i <= p <= s@.len(),
        decreases s@.len() - p,
    {
        match read_filter_call(s, p) {
            None => {
                proof {
                    lemma_empty_tail(calls_view(acc@));
                }
                break;
            },
            Some((c, k)) => {
                proof {
                    lemma_calls_view_push(acc@, c);
                    lemma_step(calls_view(acc@), c@, calls(s@, k as int).0);
                }
                acc.push(c);
                p = k;
            },
        }
    }
    (acc, p)
}

} // verus!

verus! {

fn read_variable(s: &Vec<char>, i: usize) -> (res: Option<(String, Vec<FilterCall>, usize)>)
    requires
        i <= s@.len(),
        fits(s@),
    ensures
        res is Some == variable(s@, i as int) is Some,
        res matches Some((n, c, j)) ==> variable(s@, i as int) == Some(
            (NodeView::Variable(n@, calls_view(c@)), j as int),
        ) && i < j <= s@.len(),
{
    if !(char_at(s, i, '{') && char_at(s, i + 1, '{')) {
        return None;
    }
    let w = scan_ws(s, i + 2);
    match read_ident(s, w) {
        None => None,
        Some((name, j)) => {
            let (cs, k) = read_calls(s, j);
            let w2 = scan_ws(s, k);
            if char_at(s, w2, '}') && char_at(s, w2 + 1, '}') {
                Some((name, cs, w2 + 2))
            } else {
                None
            }
        },
    }
}

fn read_text(s: &Vec<char>, i: usize) -> (res: Option<(String, usize)>)
    requires
        i <= s@.len(),
        fits(s@),
    ensures
        res is Some == text(s@, i as int) is Some,
        res matches Some((t, j)) ==> text(s@, i as int) == Some((NodeView::Text(t@), j as int))
            && i < j <= s@.len(),
{
    let e = scan_text(s, i);
    if e > i {
        Some((crate::text::substring(s, i, e), e))
    } else {
        None
    }
}

fn read_body_node(s: &Vec<char>, i: usize) -> (res: Option<(BodyNode, usize)>)
    requires
        i <= s@.len(),
        fits(s@),
    ensures
        res is Some == body_node(s@, i as int) is Some,
        res matches Some((n, j)) ==> body_node(s@, i as int) == Some((n@, j as int)) && i < j
            <= s@.len(),
{
    if let Some((name, filters, j)) = read_variable(s, i) {
        return Some((BodyNode::Variable { name, filters }, j));
    }
    match read_text(s, i) {
        Some((t, j)) => Some((BodyNode::Text(t), j)),
        None => None,
    }
}

fn read_body(s: &Vec<char>, i: usize) -> (res: (Vec<BodyNode>, usize))
    requires
        i <= s@.len(),
        fits(s@),
    ensures
        body(s@, i as int) == (body_view(res.0@), res.1 as int),
        i <= res.1 <= s@.len(),
{
    let mut acc: Vec<BodyNode> = Vec::new();
    let mut p = i;
    proof {
        assert(body_view(acc@) =~= Seq::<NodeView>::empty());
        assert(Seq::<NodeView>::empty() + body(s@, i as int).0 =~= body(s@, i as int).0);
    }
    loop
        invariant
            i <= p <= s@.len(),
            fits(s@),
            body(s@, i as int) == (body_view(acc@) + body(s@, p as int).0, body(s@, p as int).1),
        ensures
            body(s@, i as int) == (body_view(acc@), p as int),
            i <= p <= s@.len(),
        decreases s@.len() - p,
    {
        match read_body_node(s, p) {
            None => {
                proof {
                    lemma_empty_tail(body_view(acc@));
                }
                break;
            },
            Some((n, k)) => {
                proof {
                    lemma_body_view_push(acc@, n);
                    lemma_step(body_view(acc@), n@, body(s@, k as int).0);
                }
                acc.push(n);
                p = k;
            },
        }
    }
    (acc, p)
}

fn read_for_open(s: &Vec<char>, i: usize) -> (res: Option<(String, String, usize)>)
    requires
        i <= s@.len(),
        fits(s@),
    ensures
        res is Some == for_open(s@, i as int) is Some,
        res matches Some((v, c, j)) ==> for_open(s@, i as int) == Some((v@, c@, j as int)) && i
            < j <= s@.len(),
{
    if !(char_at(s, i, '{') && char_at(s, i + 1, '{')) {
        return None;
    }
    let a = scan_ws(s, i + 2);
    if !(char_at(s, a, '#') && char_at(s, a + 1, 'f') && char_at(s, a + 2, 'o') && char_at(
        s,
        a + 3,
        'r',
    )) {
        return None;
    }
    let b = scan_ws(s, a + 4);
    if b == a + 4 {
        return None;
    }
    match read_ident(s, b) {
        None => None,
        Some((var, c)) => {
            let d = scan_ws(s, c);
            if d == c || !(char_at(s, d, 'i') && char_at(s, d + 1, 'n')) {
                return None;
            }
            let e = scan_ws(s, d + 2);
            if e == d + 2 {
                return None;
            }
            match read_ident(s, e) {
                None => None,
                Some((coll, f)) => {
                    let g = scan_ws(s, f);
                    if char_at(s, g, '}') && char_at(s, g + 1, '}') {
                        Some((var, coll, g + 2))
                    } else {
                        None
                    }
                },
            }
        },
    }
}

fn same_chars(a: &String, b: &String) -> (res: bool)
    ensures
        res == (a@ == b@),
{
    a.eq(b)
}

fn read_for_close(s: &Vec<char>, i: usize, var: &String) -> (res: Option<usize>)
    requires
        i <= s@.len(),
        fits(s@),
    ensures
        res matches Some(j) ==> for_close(s@, i as int, var@) == Some(j as int) && i < j <= s@.len(),
        res is None ==> for_close(s@, i as int, var@) is None,
{
    if !(char_at(s, i, '{') && char_at(s, i + 1, '{')) {
        return None;
    }
    let a = scan_ws(s, i + 2);
    if !char_at(s, a, '/') {
        return None;
    }
    match read_ident(s, a + 1) {
        None => None,
        Some((name, b)) => {
            let c = scan_ws(s, b);
            if same_chars(&name, var) && char_at(s, c, '}') && char_at(s, c + 1, '}') {
                Some(c + 2)
            } else {
                None
            }
        },
    }
}

fn read_node(s: &Vec<char>, i: usize) -> (res: Option<(TemplateNode, usize)>)
    requires
        i <= s@.len(),
        fits(s@),
    ensures
        res is Some == node(s@, i as int) is Some,
        res matches Some((n, j)) ==> node(s@, i as int) == Some((n@, j as int)) && i < j
            <= s@.len(),
{
    if let Some((name, filters, j)) = read_variable(s, i) {
        return Some((TemplateNode::Variable { name, filters }, j));
    }
    if let Some((var_name, collection, j)) = read_for_open(s, i) {
        let (body, k) = read_body(s, j);
        if let Some(e) = read_for_close(s, k, &var_name) {
            return Some((TemplateNode::ForBlock { var_name, collection, body }, e));
        }
    }
    match read_text(s, i) {
        Some((t, j)) => Some((TemplateNode::Text(t), j)),
        None => None,
    }
}

fn read_nodes(s: &Vec<char>) -> (res: (Vec<TemplateNode>, usize))
    requires
        fits(s@),
    ensures
        nodes(s@, 0) == (nodes_view(res.0@), res.1 as int),
        res.1 <= s@.len(),
{
    let mut acc: Vec<TemplateNode> = Vec::new();
    let mut p: usize = 0;
    proof {
        assert(nodes_view(acc@) =~= Seq::<NodeView>::empty());
        assert(Seq::<NodeView>::empty() + nodes(s@, 0).0 =~= nodes(s@, 0).0);
    }
    loop
        invariant
            p <= s@.len(),
            fits(s@),
            nodes(s@, 0) == (nodes_view(acc@) + nodes(s@, p as int).0, nodes(s@, p as int).1),
        ensures
            nodes(s@, 0) == (nodes_view(acc@), p as int),
            p <= s@.len(),
        decreases s@.len() - p,
    {
        match read_node(s, p) {
            None => {
                proof {
                    lemma_empty_tail(nodes_view(acc@));
                }
                break;
            },
            Some((n, k)) => {
                proof {
                    lemma_nodes_view_push(acc@, n);
                    lemma_step(nodes_view(acc@), n@, nodes(s@, k as int).0);
                }
                acc.push(n);
                p = k;
            },
        }
    }
    (acc, p)
}

} // verus!

verus! {

/// What winnow's `ParseError` prints for `input` when parsing stopped at
/// character `offset` with no context recorded.
pub uninterp spec fn winnow_error_report(input: Seq<char>, offset: int) -> Seq<char>;

/// The `Display` text of winnow's `ParseError` for a failure at character
/// `offset` of `input` (a parser that takes `offset` characters and then
/// fails is run to obtain it).
///
/// Trusted: the text is named, not described; it depends only on the input
/// and the offset.
#[verifier::external_body]
fn winnow_error_text(input: &str, offset: usize) -> (res: String)
    requires
        offset <= input@.len(),
    ensures
        res@ == winnow_error_report(input@, offset as int),
{
    let failed: Result<(&str, ()), winnow::error::ParseError<&str, winnow::error::ContextError>> =
        (
            winnow::token::take::<usize, &str, winnow::error::ErrMode<winnow::error::ContextError>>(offset),
            winnow::combinator::fail::<&str, (), winnow::error::ErrMode<winnow::error::ContextError>>,
        ).parse(input);
    format!("{}", failed.unwrap_err())
}

/// `parse error: ` followed by winnow's report.
pub open spec fn parse_error_message(input: Seq<char>, offset: int) -> Seq<char> {
    seq!['p', 'a', 'r', 's', 'e', ' ', 'e', 'r', 'r', 'o', 'r', ':', ' '] + winnow_error_report(
        input,
        offset,
    )
}

pub struct TemplateParser;

impl TemplateParser {
    /// Splits a template into nodes; fails with a report pointing at the
    /// first part that is neither text, a variable nor a `for` block.
    pub fn parse(input: &str) -> (res: Result<Vec<TemplateNode>, String>)
        ensures
            match spec_parse(input@) {
                Ok(ns) => res matches Ok(v) && nodes_view(v@) == ns,
                Err(off) => res matches Err(m) && m@ == parse_error_message(input@, off),
            },
    {
        let s = chars_of(input);
        proof {
            lemma_fits(s@);
        }
        if s.len() == 0 {
            let mut v: Vec<TemplateNode> = Vec::new();
            v.push(TemplateNode::Text(String::new()));
            proof {
                assert(nodes_view(v@) =~= seq![NodeView::Text(seq![])]);
            }
            return Ok(v);
        }
        let (ns, p) = read_nodes(&s);
        if ns.len() > 0 && p == s.len() {
            Ok(ns)
        } else {
            let report = winnow_error_text(input, p);
            let mut m: Vec<char> = Vec::new();
            m.push('p');
            m.push('a');
            m.push('r');
            m.push('s');
            m.push('e');
            m.push(' ');
            m.push('e');
            m.push('r');
            m.push('r');
            m.push('o');
            m.push('r');
            m.push(':');
            m.push(' ');
            let r = chars_of(report.as_str());
            crate::text::push_all(&mut m, &r);
            Err(crate::text::string_of(m.as_slice()))
        }
    }
}

} // verus!
