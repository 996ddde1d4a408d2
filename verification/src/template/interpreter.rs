//! Evaluation of parsed templates against variables, lists and the answers
//! to the floating-point work that filters hand out.
use vstd::prelude::*;
use crate::template::filters::{
    spec_apply, strings_view, FilterRegistry, FilterValue, FloatRequest, RequestView, ValueView,
};
use crate::template::parser::{
    body_view, calls_view, nodes_view, ArgView, BodyNode, CallView, FilterArg, FilterCall, NodeView,
    TemplateNode,
};
use crate::text::{cat, copy_string, str_eq};

verus! {

/// The value of the last entry whose key is `key`.
pub open spec fn lookup<K, V>(entries: Seq<(K, V)>, key: K) -> Option<V>
    decreases entries.len(),
{
    if entries.len() == 0 {
        None
    } else if entries.last().0 == key {
        Some(entries.last().1)
    } else {
        lookup(entries.drop_last(), key)
    }
}

/// A later entry for a key hides the earlier ones.
pub proof fn lemma_lookup_push<K, V>(entries: Seq<(K, V)>, key: K, value: V, other: K)
    ensures
        lookup(entries.push((key, value)), key) == Some(value),
        other != key ==> lookup(entries.push((key, value)), other) == lookup(entries, other),
{
    assert(entries.push((key, value)).drop_last() =~= entries);
}

pub open spec fn pairs_view(v: Seq<(String, String)>) -> Seq<(Seq<char>, Seq<char>)> {
    v.map_values(|p: (String, String)| (p.0@, p.1@))
}

pub open spec fn lists_view(v: Seq<(String, Vec<String>)>) -> Seq<(Seq<char>, Seq<Seq<char>>)> {
    v.map_values(|p: (String, Vec<String>)| (p.0@, strings_view(p.1@)))
}

pub open spec fn answers_view(v: Seq<(FloatRequest, String)>) -> Seq<(RequestView, Seq<char>)> {
    v.map_values(|p: (FloatRequest, String)| (p.0@, p.1@))
}

/// Named values and named lists that a template can refer to. A later
/// entry for a name replaces an earlier one.
pub struct TemplateContext {
    pub vars: Vec<(String, String)>,
    pub arrays: Vec<(String, Vec<String>)>,
}

pub struct ContextView {
    pub vars: Seq<(Seq<char>, Seq<char>)>,
    pub arrays: Seq<(Seq<char>, Seq<Seq<char>>)>,
}

impl View for TemplateContext {
    type V = ContextView;

    open spec fn view(&self) -> ContextView {
        ContextView { vars: pairs_view(self.vars@), arrays: lists_view(self.arrays@) }
    }
}

impl TemplateContext {
    pub fn new() -> (ctx: Self)
        ensures
            ctx@.vars.len() == 0,
            ctx@.arrays.len() == 0,
    {
        TemplateContext { vars: Vec::new(), arrays: Vec::new() }
    }

    pub fn with_var(self, name: &str, value: &str) -> (ctx: Self)
        ensures
            ctx@.vars == self@.vars.push((name@, value@)),
            ctx@.arrays == self@.arrays,
    {
        let mut ctx = self;
        ctx.insert_var(copy_string(name), copy_string(value));
        ctx
    }

    pub fn with_array(self, name: &str, values: Vec<String>) -> (ctx: Self)
        ensures
            ctx@.vars == self@.vars,
            ctx@.arrays == self@.arrays.push((name@, strings_view(values@))),
    {
        let mut ctx = self;
        ctx.insert_array(copy_string(name), values);
        ctx
    }

    pub fn insert_var(&mut self, name: String, value: String)
        ensures
            final(self)@.vars == old(self)@.vars.push((name@, value@)),
            final(self)@.arrays == old(self)@.arrays,
    {
        let ghost before = self.vars@;
        self.vars.push((name, value));
        proof {
            assert(pairs_view(self.vars@) =~= pairs_view(before).push((name@, value@)));
        }
    }

    pub fn insert_array(&mut self, name: String, values: Vec<String>)
        ensures
            final(self)@.vars == old(self)@.vars,
            final(self)@.arrays == old(self)@.arrays.push((name@, strings_view(values@))),
    {
        let ghost before = self.arrays@;
        self.arrays.push((name, values));
        proof {
            assert(lists_view(self.arrays@) =~= lists_view(before).push((name@, strings_view(values@))));
        }
    }

    /// The value bound to `name`.
    pub fn var(&self, name: &str) -> (res: Option<String>)
        ensures
            match lookup(self@.vars, name@) {
                Some(v) => res matches Some(s) && s@ == v,
                None => res is None,
            },
    {
        find_var(&self.vars, name)
    }
}

fn find_var(vars: &Vec<(String, String)>, name: &str) -> (res: Option<String>)
    ensures
        match lookup(pairs_view(vars@), name@) {
            Some(v) => res matches Some(s) && s@ == v,
            None => res is None,
        },
{
    let ghost all = pairs_view(vars@);
    let mut i = vars.len();
    proof {
        assert(all.take(i as int) =~= all);
    }
    while i > 0
        invariant
            i <= vars@.len(),
            all == pairs_view(vars@),
            lookup(all, name@) == lookup(all.take(i as int), name@),
        decreases i,
    {
        proof {
            assert(all.take(i as int).drop_last() =~= all.take(i - 1));
        }
        if str_eq(vars[i - 1].0.as_str(), name) {
            return Some(copy_string(vars[i - 1].1.as_str()));
        }
        i = i - 1;
    }
    None
}

/// The position of the list bound to `name`.
fn find_list(arrays: &Vec<(String, Vec<String>)>, name: &str) -> (res: Option<usize>)
    ensures
        match lookup(lists_view(arrays@), name@) {
            Some(v) => res matches Some(k) && k < arrays@.len() && strings_view(arrays@[k as int].1@)
                == v,
            None => res is None,
        },
{
    let ghost all = lists_view(arrays@);
    let mut i = arrays.len();
    proof {
        assert(all.take(i as int) =~= all);
    }
    while i > 0
        invariant
            i <= arrays@.len(),
            all == lists_view(arrays@),
            lookup(all, name@) == lookup(all.take(i as int), name@),
        decreases i,
    {
        proof {
            assert(all.take(i as int).drop_last() =~= all.take(i - 1));
        }
        if str_eq(arrays[i - 1].0.as_str(), name) {
            return Some(i - 1);
        }
        i = i - 1;
    }
    None
}

/// Copies a list of bindings.
fn copy_pairs(vars: &Vec<(String, String)>) -> (res: Vec<(String, String)>)
    ensures
        pairs_view(res@) == pairs_view(vars@),
{
    let mut out: Vec<(String, String)> = Vec::new();
    let mut i: usize = 0;
    while i < vars.len()
        invariant
            i <= vars@.len(),
            pairs_view(out@) == pairs_view(vars@).take(i as int),
        decreases vars@.len() - i,
    {
        let ghost before = out@;
        out.push((copy_string(vars[i].0.as_str()), copy_string(vars[i].1.as_str())));
        proof {
            assert(pairs_view(out@) =~= pairs_view(before).push(pairs_view(vars@)[i as int]));
            assert(pairs_view(vars@).take(i + 1) =~= pairs_view(vars@).take(i as int).push(
                pairs_view(vars@)[i as int],
            ));
        }
        i = i + 1;
    }
    proof {
        assert(pairs_view(vars@).take(i as int) =~= pairs_view(vars@));
    }
    out
}

} // verus!

verus! {

/// The answers to floating-point work, each given for one request.
pub struct FloatAnswers {
    pub entries: Vec<(FloatRequest, String)>,
}

impl View for FloatAnswers {
    type V = Seq<(RequestView, Seq<char>)>;

    open spec fn view(&self) -> Seq<(RequestView, Seq<char>)> {
        answers_view(self.entries@)
    }
}

impl FloatAnswers {
    pub fn new() -> (res: Self)
        ensures
            res@.len() == 0,
    {
        FloatAnswers { entries: Vec::new() }
    }

    /// Records `answer` as the result of `request`.
    pub fn insert(&mut self, request: FloatRequest, answer: String)
        ensures
            final(self)@ == old(self)@.push((request@, answer@)),
    {
        let ghost before = self.entries@;
        self.entries.push((request, answer));
        proof {
            assert(answers_view(self.entries@) =~= answers_view(before).push((request@, answer@)));
        }
    }
}

/// Whether two requests ask for the same work.
pub fn same_request(a: &FloatRequest, b: &FloatRequest) -> (res: bool)
    ensures
        res == (a@ == b@),
{
    match (a, b) {
        (FloatRequest::Number(x), FloatRequest::Number(y)) => str_eq(x.as_str(), y.as_str()),
        (FloatRequest::Hsl(x), FloatRequest::Hsl(y)) => *x == *y,
        (FloatRequest::Hsla(x, p), FloatRequest::Hsla(y, q)) => *x == *y && str_eq(
            p.as_str(),
            q.as_str(),
        ),
        (FloatRequest::Channel(k, x), FloatRequest::Channel(l, y)) => *k == *l && *x == *y,
        (FloatRequest::Adjust(k, x, p), FloatRequest::Adjust(l, y, q)) => *k == *l && *x == *y
            && str_eq(p.as_str(), q.as_str()),
        (FloatRequest::SetHsl(k, x, p), FloatRequest::SetHsl(l, y, q)) => *k == *l && *x == *y
            && str_eq(p.as_str(), q.as_str()),
        (FloatRequest::EnsureContrast(f, x, p), FloatRequest::EnsureContrast(g, y, q)) => *f == *g
            && *x == *y && str_eq(p.as_str(), q.as_str()),
        _ => false,
    }
}

fn find_answer(answers: &Vec<(FloatRequest, String)>, request: &FloatRequest) -> (res: Option<String>)
    ensures
        match lookup(answers_view(answers@), request@) {
            Some(v) => res matches Some(s) && s@ == v,
            None => res is None,
        },
{
    let ghost all = answers_view(answers@);
    let mut i = answers.len();
    proof {
        assert(all.take(i as int) =~= all);
    }
    while i > 0
        invariant
            i <= answers@.len(),
            all == answers_view(answers@),
            lookup(all, request@) == lookup(all.take(i as int), request@),
        decreases i,
    {
        proof {
            assert(all.take(i as int).drop_last() =~= all.take(i - 1));
        }
        if same_request(&answers[i - 1].0, request) {
            return Some(copy_string(answers[i - 1].1.as_str()));
        }
        i = i - 1;
    }
    None
}

} // verus!

verus! {

/// The outcome of evaluating a template: its text, the error that
/// rendering reports, the first floating-point request still unanswered,
/// or an abort (a colour text cut inside a character).
pub enum Evaluation {
    Rendered(String),
    Failed(String),
    Pending(FloatRequest),
    Aborted,
}

pub enum EvalView {
    Rendered(Seq<char>),
    Failed(Seq<char>),
    Pending(RequestView),
    Aborted,
}

impl View for Evaluation {
    type V = EvalView;

    open spec fn view(&self) -> EvalView {
        match self {
            Evaluation::Rendered(t) => EvalView::Rendered(t@),
            Evaluation::Failed(e) => EvalView::Failed(e@),
            Evaluation::Pending(r) => EvalView::Pending(r@),
            Evaluation::Aborted => EvalView::Aborted,
        }
    }
}

/// An argument's text: a number literal's printed form comes from the
/// answers, a `%name` is the variable's value (empty when unbound).
pub open spec fn resolve_arg(
    arg: ArgView,
    vars: Seq<(Seq<char>, Seq<char>)>,
    answers: Seq<(RequestView, Seq<char>)>,
) -> Result<Seq<char>, RequestView> {
    match arg {
        ArgView::Number(t) => match lookup(answers, RequestView::Number(t)) {
            Some(a) => Ok(a),
            None => Err(RequestView::Number(t)),
        },
        ArgView::Str(s) => Ok(s),
        ArgView::Var(n) => match lookup(vars, n) {
            Some(v) => Ok(v),
            None => Ok(Seq::empty()),
        },
    }
}

/// All argument texts, or the first request they wait for.
pub open spec fn resolve_args(
    args: Seq<ArgView>,
    vars: Seq<(Seq<char>, Seq<char>)>,
    answers: Seq<(RequestView, Seq<char>)>,
) -> Result<Seq<Seq<char>>, RequestView>
    decreases args.len(),
{
    if args.len() == 0 {
        Ok(Seq::empty())
    } else {
        match resolve_args(args.drop_last(), vars, answers) {
            Err(r) => Err(r),
            Ok(done) => match resolve_arg(args.last(), vars, answers) {
                Err(r) => Err(r),
                Ok(a) => Ok(done.push(a)),
            },
        }
    }
}

/// Runs `value` through the filters in order.
pub open spec fn apply_chain(
    value: Seq<char>,
    calls: Seq<CallView>,
    vars: Seq<(Seq<char>, Seq<char>)>,
    answers: Seq<(RequestView, Seq<char>)>,
) -> EvalView
    decreases calls.len(),
{
    if calls.len() == 0 {
        EvalView::Rendered(value)
    } else {
        match resolve_args(calls[0].args, vars, answers) {
            Err(r) => EvalView::Pending(r),
            Ok(args) => match spec_apply(calls[0].name, value, args) {
                None => EvalView::Aborted,
                Some(Err(e)) => EvalView::Failed(e),
                Some(Ok(ValueView::Text(t))) => apply_chain(t, calls.skip(1), vars, answers),
                Some(Ok(ValueView::Pending(r))) => match lookup(answers, r) {
                    Some(t) => apply_chain(t, calls.skip(1), vars, answers),
                    None => EvalView::Pending(r),
                },
            },
        }
    }
}

pub open spec fn undefined_variable(name: Seq<char>) -> Seq<char> {
    "undefined variable: "@ + name
}

pub open spec fn undefined_array(name: Seq<char>) -> Seq<char> {
    "undefined array: "@ + name
}

pub open spec fn eval_variable(
    name: Seq<char>,
    calls: Seq<CallView>,
    vars: Seq<(Seq<char>, Seq<char>)>,
    answers: Seq<(RequestView, Seq<char>)>,
) -> EvalView {
    match lookup(vars, name) {
        None => EvalView::Failed(undefined_variable(name)),
        Some(v) => apply_chain(v, calls, vars, answers),
    }
}

/// `first`'s text followed by `next`'s; the first outcome that is no text wins.
pub open spec fn followed_by(first: EvalView, next: EvalView) -> EvalView {
    match first {
        EvalView::Rendered(a) => match next {
            EvalView::Rendered(b) => EvalView::Rendered(a + b),
            other => other,
        },
        other => other,
    }
}

/// A node of a loop body. Bodies hold text and variables only; a `for`
/// block there (which the parser never builds) renders nothing.
pub open spec fn eval_simple(
    node: NodeView,
    vars: Seq<(Seq<char>, Seq<char>)>,
    answers: Seq<(RequestView, Seq<char>)>,
) -> EvalView {
    match node {
        NodeView::Text(t) => EvalView::Rendered(t),
        NodeView::Variable(name, calls) => eval_variable(name, calls, vars, answers),
        NodeView::ForBlock(_, _, _) => EvalView::Rendered(Seq::empty()),
    }
}

pub open spec fn eval_body(
    body: Seq<NodeView>,
    vars: Seq<(Seq<char>, Seq<char>)>,
    answers: Seq<(RequestView, Seq<char>)>,
) -> EvalView
    decreases body.len(),
{
    if body.len() == 0 {
        EvalView::Rendered(Seq::empty())
    } else {
        followed_by(eval_body(body.drop_last(), vars, answers), eval_simple(body.last(), vars, answers))
    }
}

/// The body once per item, with `var` bound to the item.
pub open spec fn eval_items(
    items: Seq<Seq<char>>,
    var: Seq<char>,
    body: Seq<NodeView>,
    vars: Seq<(Seq<char>, Seq<char>)>,
    answers: Seq<(RequestView, Seq<char>)>,
) -> EvalView
    decreases items.len(),
{
    if items.len() == 0 {
        EvalView::Rendered(Seq::empty())
    } else {
        followed_by(
            eval_items(items.drop_last(), var, body, vars, answers),
            eval_body(body, vars.push((var, items.last())), answers),
        )
    }
}

pub open spec fn eval_node(node: NodeView, ctx: ContextView, answers: Seq<(RequestView, Seq<char>)>) -> EvalView {
    match node {
        NodeView::ForBlock(var, collection, body) => match lookup(ctx.arrays, collection) {
            None => EvalView::Failed(undefined_array(collection)),
            Some(items) => eval_items(items, var, body, ctx.vars, answers),
        },
        _ => eval_simple(node, ctx.vars, answers),
    }
}

/// The nodes' texts in order.
pub open spec fn eval_nodes(nodes: Seq<NodeView>, ctx: ContextView, answers: Seq<(RequestView, Seq<char>)>) -> EvalView
    decreases nodes.len(),
{
    if nodes.len() == 0 {
        EvalView::Rendered(Seq::empty())
    } else {
        followed_by(eval_nodes(nodes.drop_last(), ctx, answers), eval_node(nodes.last(), ctx, answers))
    }
}

} // verus!

verus! {

fn resolve_one(
    arg: &FilterArg,
    vars: &Vec<(String, String)>,
    answers: &Vec<(FloatRequest, String)>,
) -> (res: Result<String, FloatRequest>)
    ensures
        match resolve_arg(arg@, pairs_view(vars@), answers_view(answers@)) {
            Ok(t) => res matches Ok(s) && s@ == t,
            Err(r) => res matches Err(q) && q@ == r,
        },
{
    match arg {
        FilterArg::Number(t) => {
            let request = FloatRequest::Number(copy_string(t.as_str()));
            match find_answer(answers, &request) {
                Some(a) => Ok(a),
                None => Err(request),
            }
        },
        FilterArg::String(s) => Ok(copy_string(s.as_str())),
        FilterArg::Variable(n) => match find_var(vars, n.as_str()) {
            Some(v) => Ok(v),
            None => Ok(String::new()),
        },
    }
}

fn resolve_all(
    args: &Vec<FilterArg>,
    vars: &Vec<(String, String)>,
    answers: &Vec<(FloatRequest, String)>,
) -> (res: Result<Vec<String>, FloatRequest>)
    ensures
        match resolve_args(
            crate::template::parser::args_view(args@),
            pairs_view(vars@),
            answers_view(answers@),
        ) {
            Ok(ts) => res matches Ok(v) && strings_view(v@) == ts,
            Err(r) => res matches Err(q) && q@ == r,
        },
{
    let ghost av = crate::template::parser::args_view(args@);
    let ghost vv = pairs_view(vars@);
    let ghost ans = answers_view(answers@);
    let mut out: Vec<String> = Vec::new();
    let mut i: usize = 0;
    proof {
        assert(av.take(0) =~= Seq::<ArgView>::empty());
        assert(strings_view(out@) =~= Seq::<Seq<char>>::empty());
    }
    while i < args.len()
        invariant
            i <= args@.len(),
            av == crate::template::parser::args_view(args@),
            vv == pairs_view(vars@),
            ans == answers_view(answers@),
            resolve_args(av.take(i as int), vv, ans) == Ok::<Seq<Seq<char>>, RequestView>(
                strings_view(out@),
            ),
        decreases args@.len() - i,
    {
        proof {
            assert(av.take(i + 1).drop_last() =~= av.take(i as int));
            assert(av.take(i + 1).last() == args@[i as int]@);
        }
        let ghost before = out@;
        match resolve_one(&args[i], vars, answers) {
            Ok(t) => {
                out.push(t);
                proof {
                    assert(strings_view(out@) =~= strings_view(before).push(t@));
                }
            },
            Err(r) => {
                proof {
                    lemma_pending_args_stay(av, (i + 1) as int, vv, ans);
                    assert(av.take(args@.len() as int) =~= av);
                }
                return Err(r);
            },
        }
        i = i + 1;
    }
    proof {
        assert(av.take(i as int) =~= av);
    }
    Ok(out)
}

/// Once an argument waits for an answer, so does the whole list.
proof fn lemma_pending_args_stay(
    args: Seq<ArgView>,
    k: int,
    vars: Seq<(Seq<char>, Seq<char>)>,
    answers: Seq<(RequestView, Seq<char>)>,
)
    requires
        0 <= k <= args.len(),
        resolve_args(args.take(k), vars, answers) is Err,
    ensures
        resolve_args(args, vars, answers) == resolve_args(args.take(k), vars, answers),
    decreases args.len() - k,
{
    if k < args.len() {
        assert(args.take(k + 1).drop_last() =~= args.take(k));
        lemma_pending_args_stay(args, k + 1, vars, answers);
    } else {
        assert(args.take(k) =~= args);
    }
}

/// Runs `value` through the filters.
fn apply_filters(
    value: String,
    calls: &Vec<FilterCall>,
    vars: &Vec<(String, String)>,
    answers: &Vec<(FloatRequest, String)>,
) -> (res: Evaluation)
    ensures
        res@ == apply_chain(value@, calls_view(calls@), pairs_view(vars@), answers_view(answers@)),
{
    let ghost cv = calls_view(calls@);
    let ghost vv = pairs_view(vars@);
    let ghost ans = answers_view(answers@);
    let mut cur = value;
    let mut i: usize = 0;
    proof {
        assert(cv.skip(0) =~= cv);
    }
    while i < calls.len()
        invariant
            i <= calls@.len(),
            cv == calls_view(calls@),
            vv == pairs_view(vars@),
            ans == answers_view(answers@),
            apply_chain(value@, cv, vv, ans) == apply_chain(cur@, cv.skip(i as int), vv, ans),
        decreases calls@.len() - i,
    {
        let call = &calls[i];
        proof {
            assert(cv.skip(i as int)[0] == call@);
            assert(cv.skip(i as int).skip(1) =~= cv.skip(i + 1));
        }
        let args = match resolve_all(&call.args, vars, answers) {
            Ok(a) => a,
            Err(r) => {
                return Evaluation::Pending(r);
            },
        };
        if FilterRegistry::would_abort(call.name.as_str(), cur.as_str(), args.as_slice()) {
            return Evaluation::Aborted;
        }
        match FilterRegistry::apply(call.name.as_str(), cur.as_str(), args.as_slice()) {
            Err(e) => {
                return Evaluation::Failed(e);
            },
            Ok(FilterValue::Text(t)) => {
                cur = t;
            },
            Ok(FilterValue::Pending(r)) => match find_answer(answers, &r) {
                Some(t) => {
                    cur = t;
                },
                None => {
                    return Evaluation::Pending(r);
                },
            },
        }
        i = i + 1;
    }
    Evaluation::Rendered(cur)
}

fn evaluate_variable(
    name: &str,
    calls: &Vec<FilterCall>,
    vars: &Vec<(String, String)>,
    answers: &Vec<(FloatRequest, String)>,
) -> (res: Evaluation)
    ensures
        res@ == eval_variable(name@, calls_view(calls@), pairs_view(vars@), answers_view(answers@)),
{
    match find_var(vars, name) {
        None => Evaluation::Failed(cat("undefined variable: ", name)),
        Some(v) => apply_filters(v, calls, vars, answers),
    }
}

/// `first` followed by `next`.
fn join(first: Evaluation, next: Evaluation) -> (res: Evaluation)
    ensures
        res@ == followed_by(first@, next@),
{
    match first {
        Evaluation::Rendered(a) => match next {
            Evaluation::Rendered(b) => Evaluation::Rendered(cat(a.as_str(), b.as_str())),
            other => other,
        },
        other => other,
    }
}

fn evaluate_body(
    body: &Vec<BodyNode>,
    vars: &Vec<(String, String)>,
    answers: &Vec<(FloatRequest, String)>,
) -> (res: Evaluation)
    ensures
        res@ == eval_body(body_view(body@), pairs_view(vars@), answers_view(answers@)),
{
    let ghost bv = body_view(body@);
    let ghost vv = pairs_view(vars@);
    let ghost ans = answers_view(answers@);
    let mut out = Evaluation::Rendered(String::new());
    let mut i: usize = 0;
    while i < body.len()
        invariant
            i <= body@.len(),
            bv == body_view(body@),
            vv == pairs_view(vars@),
            ans == answers_view(answers@),
            out@ == eval_body(bv.take(i as int), vv, ans),
        decreases body@.len() - i,
    {
        proof {
            assert(bv.take(i + 1).drop_last() =~= bv.take(i as int));
            assert(bv.take(i + 1).last() == body@[i as int]@);
        }
        let step = match &body[i] {
            BodyNode::Text(t) => Evaluation::Rendered(copy_string(t.as_str())),
            BodyNode::Variable { name, filters } => evaluate_variable(name.as_str(), filters, vars, answers),
        };
        out = join(out, step);
        i = i + 1;
    }
    proof {
        assert(bv.take(i as int) =~= bv);
    }
    out
}

fn evaluate_items(
    items: &Vec<String>,
    var: &str,
    body: &Vec<BodyNode>,
    vars: &Vec<(String, String)>,
    answers: &Vec<(FloatRequest, String)>,
) -> (res: Evaluation)
    ensures
        res@ == eval_items(
            strings_view(items@),
            var@,
            body_view(body@),
            pairs_view(vars@),
            answers_view(answers@),
        ),
{
    let ghost iv = strings_view(items@);
    let ghost vv = pairs_view(vars@);
    let ghost ans = answers_view(answers@);
    let mut out = Evaluation::Rendered(String::new());
    let mut i: usize = 0;
    while i < items.len()
        invariant
            i <= items@.len(),
            iv == strings_view(items@),
            vv == pairs_view(vars@),
            ans == answers_view(answers@),
            out@ == eval_items(iv.take(i as int), var@, body_view(body@), vv, ans),
        decreases items@.len() - i,
    {
        proof {
            assert(iv.take(i + 1).drop_last() =~= iv.take(i as int));
            assert(iv.take(i + 1).last() == items@[i as int]@);
        }
        let mut scope = copy_pairs(vars);
        let ghost copied = scope@;
        scope.push((copy_string(var), copy_string(items[i].as_str())));
        proof {
            assert(pairs_view(scope@) =~= vv.push((var@, items@[i as int]@)));
        }
        let step = evaluate_body(body, &scope, answers);
        out = join(out, step);
        i = i + 1;
    }
    proof {
        assert(iv.take(i as int) =~= iv);
    }
    out
}

fn evaluate_node(
    node: &TemplateNode,
    context: &TemplateContext,
    answers: &Vec<(FloatRequest, String)>,
) -> (res: Evaluation)
    ensures
        res@ == eval_node(node@, context@, answers_view(answers@)),
{
    match node {
        TemplateNode::Text(t) => Evaluation::Rendered(copy_string(t.as_str())),
        TemplateNode::Variable { name, filters } => evaluate_variable(
            name.as_str(),
            filters,
            &context.vars,
            answers,
        ),
        TemplateNode::ForBlock { var_name, collection, body } => {
            match find_list(&context.arrays, collection.as_str()) {
                None => Evaluation::Failed(cat("undefined array: ", collection.as_str())),
                Some(k) => evaluate_items(
                    &context.arrays[k].1,
                    var_name.as_str(),
                    body,
                    &context.vars,
                    answers,
                ),
            }
        },
    }
}

pub struct TemplateEvaluator;

impl TemplateEvaluator {
    /// Renders the nodes in order. The result is the text, the first error,
    /// the first floating-point request that `answers` does not answer, or
    /// an abort.
    pub fn evaluate(nodes: &[TemplateNode], context: &TemplateContext, answers: &FloatAnswers) -> (res: Evaluation)
        ensures
            res@ == eval_nodes(nodes_view(nodes@), context@, answers@),
    {
        let ghost nv = nodes_view(nodes@);
        let mut out = Evaluation::Rendered(String::new());
        let mut i: usize = 0;
        while i < nodes.len()
            invariant
                i <= nodes@.len(),
                nv == nodes_view(nodes@),
                out@ == eval_nodes(nv.take(i as int), context@, answers@),
            decreases nodes@.len() - i,
        {
            proof {
                assert(nv.take(i + 1).drop_last() =~= nv.take(i as int));
                assert(nv.take(i + 1).last() == nodes@[i as int]@);
            }
            let step = evaluate_node(&nodes[i], context, &answers.entries);
            out = join(out, step);
            i = i + 1;
        }
        proof {
            assert(nv.take(i as int) =~= nv);
        }
        out
    }
}

} // verus!

verus! {

/// Whether `s` holds no `{{`, the only opening of template syntax.
pub open spec fn plain_text(s: Seq<char>) -> bool {
    forall|i: int| 0 <= i < s.len() - 1 ==> !(#[trigger] s[i] == '{' && s[i + 1] == '{')
}

proof fn lemma_plain_text_end(s: Seq<char>, i: int)
    requires
        plain_text(s),
        0 <= i <= s.len(),
    ensures
        crate::template::parser::text_end(s, i) == s.len(),
    decreases s.len() - i,
{
    if i < s.len() {
        if i + 1 < s.len() {
            assert(!(s[i] == '{' && s[i + 1] == '{'));
        }
        lemma_plain_text_end(s, i + 1);
    }
}

/// A template without `{{` is one text node, and renders to itself
/// whatever the context: whitespace and all other characters are kept.
pub proof fn lemma_plain_text_renders_itself(
    s: Seq<char>,
    ctx: ContextView,
    answers: Seq<(RequestView, Seq<char>)>,
)
    requires
        plain_text(s),
    ensures
        crate::template::parser::spec_parse(s) == Ok::<Seq<NodeView>, int>(seq![NodeView::Text(s)]),
        eval_nodes(seq![NodeView::Text(s)], ctx, answers) == EvalView::Rendered(s),
{
    if s.len() > 0 {
        lemma_plain_text_end(s, 0);
        lemma_plain_text_end(s, s.len() as int);
        if s.len() >= 2 {
            assert(!(s[0] == '{' && s[1] == '{'));
        }
        assert(crate::template::parser::variable(s, 0) is None);
        assert(crate::template::parser::for_open(s, 0) is None);
        assert(crate::template::parser::for_block(s, 0) is None);
        assert(s.subrange(0, s.len() as int) =~= s);
        assert(crate::template::parser::node(s, 0) == Some((NodeView::Text(s), s.len() as int)));
        let n = s.len() as int;
        assert(crate::template::parser::variable(s, n) is None);
        assert(crate::template::parser::for_open(s, n) is None);
        assert(crate::template::parser::for_block(s, n) is None);
        assert(crate::template::parser::text(s, n) is None);
        assert(crate::template::parser::node(s, n) is None);
        let r = crate::template::parser::nodes(s, n);
        assert(r == (Seq::<NodeView>::empty(), n));
        assert(seq![NodeView::Text(s)] + Seq::<NodeView>::empty() =~= seq![NodeView::Text(s)]);
        assert(crate::template::parser::nodes(s, 0) == (seq![NodeView::Text(s)], n));
    }
    assert(seq![NodeView::Text(s)].drop_last() =~= Seq::<NodeView>::empty());
    assert(eval_nodes(Seq::<NodeView>::empty(), ctx, answers) == EvalView::Rendered(Seq::<char>::empty()));
    assert(Seq::<char>::empty() + s =~= s);
}

/// A variable without filters renders its bound value; an unbound one
/// fails with an error that names it.
pub proof fn lemma_variable_renders_value(
    name: Seq<char>,
    ctx: ContextView,
    answers: Seq<(RequestView, Seq<char>)>,
)
    ensures
        eval_nodes(seq![NodeView::Variable(name, seq![])], ctx, answers) == match lookup(
            ctx.vars,
            name,
        ) {
            Some(v) => EvalView::Rendered(v),
            None => EvalView::Failed(undefined_variable(name)),
        },
{
    assert(seq![NodeView::Variable(name, seq![])].drop_last() =~= Seq::<NodeView>::empty());
    assert(eval_nodes(Seq::<NodeView>::empty(), ctx, answers) == EvalView::Rendered(Seq::<char>::empty()));
    if let Some(v) = lookup(ctx.vars, name) {
        assert(apply_chain(v, Seq::<CallView>::empty(), ctx.vars, answers) == EvalView::Rendered(v));
        assert(Seq::<char>::empty() + v =~= v);
    }
}

/// The text that a body of one bare variable renders once per item: the
/// items one after another.
pub open spec fn joined(items: Seq<Seq<char>>) -> Seq<char>
    decreases items.len(),
{
    if items.len() == 0 {
        Seq::empty()
    } else {
        joined(items.drop_last()) + items.last()
    }
}

/// `{{#for x in list }}{{ x }}{{/x }}` renders every item of the list, in
/// order, whatever else is bound.
pub proof fn lemma_loop_renders_each_item(
    items: Seq<Seq<char>>,
    var: Seq<char>,
    vars: Seq<(Seq<char>, Seq<char>)>,
    answers: Seq<(RequestView, Seq<char>)>,
)
    ensures
        eval_items(items, var, seq![NodeView::Variable(var, seq![])], vars, answers)
            == EvalView::Rendered(joined(items)),
    decreases items.len(),
{
    if items.len() > 0 {
        lemma_loop_renders_each_item(items.drop_last(), var, vars, answers);
        let body = seq![NodeView::Variable(var, seq![])];
        lemma_lookup_push(vars, var, items.last(), var);
        let scope = vars.push((var, items.last()));
        assert(body.drop_last() =~= Seq::<NodeView>::empty());
        assert(eval_body(Seq::<NodeView>::empty(), scope, answers) == EvalView::Rendered(Seq::<char>::empty()));
        assert(apply_chain(items.last(), Seq::<CallView>::empty(), scope, answers) == EvalView::Rendered(items.last()));
        assert(Seq::<char>::empty() + items.last() =~= items.last());
        assert(eval_body(body, scope, answers) == EvalView::Rendered(items.last()));
    }
}

/// Filters chain: running `a` and then `b` is running `a + b`.
pub proof fn lemma_chain_composes(
    value: Seq<char>,
    a: Seq<CallView>,
    b: Seq<CallView>,
    vars: Seq<(Seq<char>, Seq<char>)>,
    answers: Seq<(RequestView, Seq<char>)>,
)
    ensures
        apply_chain(value, a + b, vars, answers) == match apply_chain(value, a, vars, answers) {
            EvalView::Rendered(t) => apply_chain(t, b, vars, answers),
            other => other,
        },
    decreases a.len(),
{
    if a.len() == 0 {
        assert(a + b =~= b);
    } else {
        assert((a + b)[0] == a[0]);
        assert((a + b).skip(1) =~= a.skip(1) + b);
        match resolve_args(a[0].args, vars, answers) {
            Err(_) => {},
            Ok(args) => match spec_apply(a[0].name, value, args) {
                Some(Ok(ValueView::Text(t))) => {
                    lemma_chain_composes(t, a.skip(1), b, vars, answers);
                },
                Some(Ok(ValueView::Pending(r))) => match lookup(answers, r) {
                    Some(t) => {
                        lemma_chain_composes(t, a.skip(1), b, vars, answers);
                    },
                    None => {},
                },
                _ => {},
            },
        }
    }
}

} // verus!

verus! {

proof fn lemma_args_wait_unanswered(
    args: Seq<ArgView>,
    vars: Seq<(Seq<char>, Seq<char>)>,
    answers: Seq<(RequestView, Seq<char>)>,
)
    ensures
        resolve_args(args, vars, answers) matches Err(r) ==> lookup(answers, r) is None,
    decreases args.len(),
{
    if args.len() > 0 {
        lemma_args_wait_unanswered(args.drop_last(), vars, answers);
    }
}

proof fn lemma_chain_waits_unanswered(
    value: Seq<char>,
    calls: Seq<CallView>,
    vars: Seq<(Seq<char>, Seq<char>)>,
    answers: Seq<(RequestView, Seq<char>)>,
)
    ensures
        apply_chain(value, calls, vars, answers) matches EvalView::Pending(r) ==> lookup(answers, r) is None,
    decreases calls.len(),
{
    if calls.len() > 0 {
        lemma_args_wait_unanswered(calls[0].args, vars, answers);
        match resolve_args(calls[0].args, vars, answers) {
            Err(_) => {},
            Ok(args) => match spec_apply(calls[0].name, value, args) {
                Some(Ok(ValueView::Text(t))) => {
                    lemma_chain_waits_unanswered(t, calls.skip(1), vars, answers);
                },
                Some(Ok(ValueView::Pending(r))) => match lookup(answers, r) {
                    Some(t) => {
                        lemma_chain_waits_unanswered(t, calls.skip(1), vars, answers);
                    },
                    None => {},
                },
                _ => {},
            },
        }
    }
}

proof fn lemma_simple_waits_unanswered(
    node: NodeView,
    vars: Seq<(Seq<char>, Seq<char>)>,
    answers: Seq<(RequestView, Seq<char>)>,
)
    ensures
        eval_simple(node, vars, answers) matches EvalView::Pending(r) ==> lookup(answers, r) is None,
{
    if let NodeView::Variable(name, calls) = node {
        if let Some(v) = lookup(vars, name) {
            lemma_chain_waits_unanswered(v, calls, vars, answers);
        }
    }
}

proof fn lemma_body_waits_unanswered(
    body: Seq<NodeView>,
    vars: Seq<(Seq<char>, Seq<char>)>,
    answers: Seq<(RequestView, Seq<char>)>,
)
    ensures
        eval_body(body, vars, answers) matches EvalView::Pending(r) ==> lookup(answers, r) is None,
    decreases body.len(),
{
    if body.len() > 0 {
        lemma_body_waits_unanswered(body.drop_last(), vars, answers);
        lemma_simple_waits_unanswered(body.last(), vars, answers);
    }
}

proof fn lemma_items_wait_unanswered(
    items: Seq<Seq<char>>,
    var: Seq<char>,
    body: Seq<NodeView>,
    vars: Seq<(Seq<char>, Seq<char>)>,
    answers: Seq<(RequestView, Seq<char>)>,
)
    ensures
        eval_items(items, var, body, vars, answers) matches EvalView::Pending(r) ==> lookup(
            answers,
            r,
        ) is None,
    decreases items.len(),
{
    if items.len() > 0 {
        lemma_items_wait_unanswered(items.drop_last(), var, body, vars, answers);
        lemma_body_waits_unanswered(body, vars.push((var, items.last())), answers);
    }
}

/// Evaluation only ever waits for a request that the answers do not
/// answer yet.
pub proof fn lemma_pending_is_unanswered(
    nodes: Seq<NodeView>,
    ctx: ContextView,
    answers: Seq<(RequestView, Seq<char>)>,
)
    ensures
        eval_nodes(nodes, ctx, answers) matches EvalView::Pending(r) ==> lookup(answers, r) is None,
    decreases nodes.len(),
{
    if nodes.len() > 0 {
        lemma_pending_is_unanswered(nodes.drop_last(), ctx, answers);
        let last = nodes.last();
        match last {
            NodeView::ForBlock(var, collection, body) => {
                if let Some(items) = lookup(ctx.arrays, collection) {
                    lemma_items_wait_unanswered(items, var, body, ctx.vars, answers);
                }
            },
            _ => {
                lemma_simple_waits_unanswered(last, ctx.vars, answers);
            },
        }
    }
}

/// Answering the request that evaluation waits for moves it on: it never
/// waits for that request again.
pub proof fn lemma_answer_moves_on(
    nodes: Seq<NodeView>,
    ctx: ContextView,
    answers: Seq<(RequestView, Seq<char>)>,
    request: RequestView,
    answer: Seq<char>,
)
    ensures
        eval_nodes(nodes, ctx, answers.push((request, answer))) != EvalView::Pending(request),
{
    lemma_pending_is_unanswered(nodes, ctx, answers.push((request, answer)));
    lemma_lookup_push(answers, request, answer, request);
}

} // verus!
