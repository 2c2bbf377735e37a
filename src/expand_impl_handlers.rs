use vstd::prelude::*;
use crate::expand_addr::{
    addr_trait_of, expand_addr_trait, handlers_view, AddrTrait, AddrTraitView, ImplContext,
    TypeName,
};
use crate::expand_method_handlers::{
    binding_text, expand_handler_context, handler_of, parse_handler_context, result_view,
    copy_handler, HandlerContext, HandlerView, Method, SignatureValidationError,
};
use crate::options::Options;

verus! {

/// An item of an `impl` block.
pub enum ImplItem {
    Method(Method),
    /// A constant, type alias or macro call: never a handler.
    Other,
}

/// An `impl` block: the type it is for and its items in source order.
pub struct ItemImpl {
    pub self_ty: TypeName,
    pub items: Vec<ImplItem>,
}

/// A method that failed validation, and why.
pub struct Diagnostic {
    pub method_name: String,
    pub error: SignatureValidationError,
}

/// A method of the block with the outcome of validating it.
pub struct ParsedMethod {
    pub method_name: String,
    pub result: Result<HandlerContext, SignatureValidationError>,
}

/// Why a whole pass produced nothing.
#[derive(PartialEq, Eq, Debug, Clone, Copy, Structural)]
pub enum ExpandError {
    /// The type is not a path and no trait name was given.
    UnnamedTrait,
}

/// Everything a pass generates, besides the block itself which stays as it is.
pub struct Expansion {
    /// One dispatch binding per valid handler, in source order.
    pub bindings: Vec<String>,
    /// One diagnostic per method that failed validation, in source order.
    pub diagnostics: Vec<Diagnostic>,
    pub addr_trait: AddrTrait,
}

pub type ParsedView = (Seq<char>, Result<HandlerView, SignatureValidationError>);

impl View for ParsedMethod {
    type V = ParsedView;

    open spec fn view(&self) -> ParsedView {
        (self.method_name@, result_view(self.result))
    }
}

impl View for Diagnostic {
    type V = (Seq<char>, SignatureValidationError);

    open spec fn view(&self) -> (Seq<char>, SignatureValidationError) {
        (self.method_name@, self.error)
    }
}

pub ghost struct ExpansionView {
    pub bindings: Seq<Seq<char>>,
    pub diagnostics: Seq<(Seq<char>, SignatureValidationError)>,
    pub addr_trait: AddrTraitView,
}

impl View for Expansion {
    type V = ExpansionView;

    open spec fn view(&self) -> ExpansionView {
        ExpansionView {
            bindings: self.bindings@.map_values(|b: String| b@),
            diagnostics: self.diagnostics@.map_values(|d: Diagnostic| d@),
            addr_trait: self.addr_trait@,
        }
    }
}

/// The methods among the items, in order.
pub open spec fn methods_of(items: Seq<ImplItem>) -> Seq<Method>
    decreases items.len(),
{
    if items.len() == 0 {
        Seq::empty()
    } else {
        let ms = methods_of(items.drop_last());
        match items.last() {
            ImplItem::Method(m) => ms.push(m),
            ImplItem::Other => ms,
        }
    }
}

/// Each method's name with the outcome of validating it.
pub open spec fn parsed_of(ms: Seq<Method>) -> Seq<ParsedView> {
    ms.map_values(|m: Method| (m.name@, handler_of(m)))
}

/// The handlers that validated, in order.
pub open spec fn valid_of(ps: Seq<ParsedView>) -> Seq<HandlerView>
    decreases ps.len(),
{
    if ps.len() == 0 {
        Seq::empty()
    } else {
        let hs = valid_of(ps.drop_last());
        match ps.last().1 {
            Ok(h) => hs.push(h),
            Err(_) => hs,
        }
    }
}

/// The methods that failed, with their errors, in order.
pub open spec fn failures_of(ps: Seq<ParsedView>) -> Seq<(Seq<char>, SignatureValidationError)>
    decreases ps.len(),
{
    if ps.len() == 0 {
        Seq::empty()
    } else {
        let fs = failures_of(ps.drop_last());
        match ps.last().1 {
            Ok(_) => fs,
            Err(e) => fs.push((ps.last().0, e)),
        }
    }
}

pub open spec fn bindings_of(ty: Seq<char>, hs: Seq<HandlerView>) -> Seq<Seq<char>> {
    hs.map_values(|h: HandlerView| binding_text(ty, h))
}

/// What one pass over the block generates under the policy, or `None` where
/// the client trait has no name.
pub open spec fn expansion_of(options: Options, item_impl: ItemImpl) -> Option<ExpansionView> {
    let ps = parsed_of(methods_of(item_impl.items@));
    match addr_trait_of(
        options@.trait_name,
        options.no_trait_decl,
        options.no_trait_impl,
        options.use_recipient,
        item_impl.self_ty,
        valid_of(ps),
    ) {
        None => None,
        Some(a) => Some(
            ExpansionView {
                bindings: bindings_of(item_impl.self_ty.text@, valid_of(ps)),
                diagnostics: failures_of(ps),
                addr_trait: a,
            },
        ),
    }
}

pub open spec fn expansion_result_view(r: Result<Expansion, ExpandError>) -> Option<ExpansionView> {
    match r {
        Ok(e) => Some(e@),
        Err(_) => None,
    }
}

/// `r` is what a pass over `item_impl` under `options` owes.
pub open spec fn expands_to(options: Options, item_impl: ItemImpl, r: Result<Expansion, ExpandError>) -> bool {
    &&& expansion_result_view(r) == expansion_of(options, item_impl)
    &&& r is Err ==> r == Err::<Expansion, ExpandError>(ExpandError::UnnamedTrait)
}

/// The message reported for a method that failed validation.
pub open spec fn error_message(method_name: Seq<char>, err: SignatureValidationError) -> Seq<char> {
    match err {
        SignatureValidationError::WrongArity => "Wrong arity for handler "@ + method_name,
        SignatureValidationError::UnexpectedArguments => "Unexpected argument types for handler "@
            + method_name,
    }
}

/// Renders the message for a method that failed validation.
pub fn handle_signature_error(method_name: &String, err: SignatureValidationError) -> (r: String)
    ensures
        r@ == error_message(method_name@, err),
{
    let mut out = match err {
        SignatureValidationError::WrongArity => String::from_str("Wrong arity for handler "),
        SignatureValidationError::UnexpectedArguments => String::from_str(
            "Unexpected argument types for handler ",
        ),
    };
    out.append(method_name.as_str());
    out
}

impl Diagnostic {
    /// The human-readable message, naming the method and the kind of failure.
    pub fn message(&self) -> (r: String)
        ensures
            r@ == error_message(self.method_name@, self.error),
    {
        handle_signature_error(&self.method_name, self.error)
    }
}


pub open spec fn parsed_views(ps: Seq<ParsedMethod>) -> Seq<ParsedView> {
    ps.map_values(|p: ParsedMethod| p@)
}

/// Validates every method of the block, in order.
pub fn parse_method_handlers(item_impl: &ItemImpl) -> (r: Vec<ParsedMethod>)
    ensures
        parsed_views(r@) == parsed_of(methods_of(item_impl.items@)),
{
    let items = &item_impl.items;
    let mut out: Vec<ParsedMethod> = Vec::new();
    let mut i: usize = 0;
    while i < items.len()
        invariant
            i <= items@.len(),
            parsed_views(out@) == parsed_of(methods_of(items@.subrange(0, i as int))),
        decreases items@.len() - i,
    {
        let ghost before = methods_of(items@.subrange(0, i as int));
        proof {
            assert(items@.subrange(0, i + 1).drop_last() =~= items@.subrange(0, i as int));
            assert(items@.subrange(0, i + 1).last() == items@[i as int]);
        }
        match &items[i] {
            ImplItem::Method(m) => {
                let result = parse_handler_context(m);
                let method_name = m.name.clone();
                let ghost prev = out@;
                out.push(ParsedMethod { method_name, result });
                assert(parsed_views(out@) =~= parsed_views(prev).push((m.name@, handler_of(*m))));
                assert(parsed_of(before.push(*m)) =~= parsed_of(before).push((m.name@, handler_of(*m))));
            },
            ImplItem::Other => {},
        }
        i = i + 1;
    }
    assert(items@.subrange(0, i as int) =~= items@);
    out
}

proof fn lemma_prefix_step(ps: Seq<ParsedView>, i: int)
    requires
        0 <= i < ps.len(),
    ensures
        ps.subrange(0, i + 1).drop_last() == ps.subrange(0, i),
        ps.subrange(0, i + 1).last() == ps[i],
{
    assert(ps.subrange(0, i + 1).drop_last() =~= ps.subrange(0, i));
}

/// The dispatch bindings of the handlers that validated and the diagnostics
/// of the methods that did not, each in source order.
pub fn expand_method_handlers(ty: &String, parsed: &Vec<ParsedMethod>) -> (r: (Vec<String>, Vec<Diagnostic>))
    ensures
        r.0@.map_values(|b: String| b@) == bindings_of(ty@, valid_of(parsed_views(parsed@))),
        r.1@.map_values(|d: Diagnostic| d@) == failures_of(parsed_views(parsed@)),
{
    let ghost ps = parsed_views(parsed@);
    let mut bindings: Vec<String> = Vec::new();
    let mut diagnostics: Vec<Diagnostic> = Vec::new();
    let mut i: usize = 0;
    while i < parsed.len()
        invariant
            i <= parsed@.len(),
            ps == parsed_views(parsed@),
            bindings@.map_values(|b: String| b@) == bindings_of(ty@, valid_of(ps.subrange(0, i as int))),
            diagnostics@.map_values(|d: Diagnostic| d@) == failures_of(ps.subrange(0, i as int)),
        decreases parsed@.len() - i,
    {
        proof {
            lemma_prefix_step(ps, i as int);
        }
        let p = &parsed[i];
        match &p.result {
            Ok(h) => {
                assert(ps[i as int] == parsed@[i as int]@);
                let b = expand_handler_context(ty, h);
                let ghost prev = bindings@;
                bindings.push(b);
                let ghost hs = valid_of(ps.subrange(0, i as int));
                assert(valid_of(ps.subrange(0, i + 1)) == hs.push(h@));
                assert(bindings_of(ty@, hs.push(h@)) =~= bindings_of(ty@, hs).push(binding_text(ty@, h@)));
                assert(bindings@.map_values(|b: String| b@) =~= prev.map_values(|b: String| b@).push(
                    binding_text(ty@, h@),
                ));
                assert(bindings@.map_values(|b: String| b@) =~= bindings_of(
                    ty@,
                    valid_of(ps.subrange(0, i + 1)),
                ));
            },
            Err(e) => {
                assert(ps[i as int] == parsed@[i as int]@);
                diagnostics.push(Diagnostic { method_name: p.method_name.clone(), error: *e });
                assert(diagnostics@.map_values(|d: Diagnostic| d@) =~= failures_of(
                    ps.subrange(0, i + 1),
                ));
            },
        }
        i = i + 1;
    }
    assert(ps.subrange(0, i as int) =~= ps);
    (bindings, diagnostics)
}

/// The owning type with the handlers that validated, in source order.
pub fn build_impl_context(self_ty: TypeName, parsed: &Vec<ParsedMethod>) -> (r: ImplContext)
    ensures
        r.self_ty == self_ty,
        handlers_view(r.handlers@) == valid_of(parsed_views(parsed@)),
{
    let ghost ps = parsed_views(parsed@);
    let mut handlers: Vec<HandlerContext> = Vec::new();
    let mut i: usize = 0;
    while i < parsed.len()
        invariant
            i <= parsed@.len(),
            ps == parsed_views(parsed@),
            handlers_view(handlers@) == valid_of(ps.subrange(0, i as int)),
        decreases parsed@.len() - i,
    {
        proof {
            lemma_prefix_step(ps, i as int);
        }
        if let Ok(h) = &parsed[i].result {
            handlers.push(copy_handler(h));
            assert(handlers_view(handlers@) =~= valid_of(ps.subrange(0, i + 1)));
        }
        i = i + 1;
    }
    assert(ps.subrange(0, i as int) =~= ps);
    ImplContext { self_ty, handlers }
}

/// One generation pass over an `impl` block: a dispatch binding for each
/// handler that validates, a diagnostic for each method that does not, and
/// the client trait over the valid handlers. Fails as a whole only where the
/// trait has no name.
pub fn expand_item_impl(options: &Options, item_impl: ItemImpl) -> (r: Result<Expansion, ExpandError>)
    ensures
        expands_to(*options, item_impl, r),
{
    let ghost whole = item_impl;
    let parsed = parse_method_handlers(&item_impl);
    let (bindings, diagnostics) = expand_method_handlers(&item_impl.self_ty.text, &parsed);
    let impl_context = build_impl_context(item_impl.self_ty, &parsed);
    match expand_addr_trait(options, &impl_context) {
        Some(addr_trait) => {
            let r = Expansion { bindings, diagnostics, addr_trait };
            assert(r@ =~= expansion_of(*options, whole)->Some_0);
            Ok(r)
        },
        None => Err(ExpandError::UnnamedTrait),
    }
}


/// Every method yields exactly one of a valid handler or a failure.
pub proof fn lemma_partition(ps: Seq<ParsedView>)
    ensures
        valid_of(ps).len() + failures_of(ps).len() == ps.len(),
    decreases ps.len(),
{
    if ps.len() > 0 {
        lemma_partition(ps.drop_last());
    }
}

/// Running the pass twice on the same block under the same policy gives the
/// same outcome, down to every character of every artifact.
pub proof fn lemma_expand_idempotent(
    options: Options,
    item_impl: ItemImpl,
    r1: Result<Expansion, ExpandError>,
    r2: Result<Expansion, ExpandError>,
)
    requires
        expands_to(options, item_impl, r1),
        expands_to(options, item_impl, r2),
    ensures
        r1 is Ok <==> r2 is Ok,
        r1 is Ok ==> r1->Ok_0@ == r2->Ok_0@,
        r1 is Err ==> r1 == r2,
{
}

/// A block whose two methods are one valid handler and one invalid method
/// yields one dispatch binding, a client trait over that handler alone, and
/// one diagnostic naming the invalid method with its failure.
pub proof fn lemma_one_valid_one_invalid(options: Options, item_impl: ItemImpl, valid: int)
    requires
        methods_of(item_impl.items@).len() == 2,
        valid == 0 || valid == 1,
        handler_of(methods_of(item_impl.items@)[valid]) is Ok,
        handler_of(methods_of(item_impl.items@)[1 - valid]) is Err,
    ensures
        ({
            let ms = methods_of(item_impl.items@);
            let h = handler_of(ms[valid])->Ok_0;
            let bad = ms[1 - valid];
            let ps = parsed_of(ms);
            &&& valid_of(ps) == seq![h]
            &&& failures_of(ps) == seq![(bad.name@, handler_of(bad)->Err_0)]
            &&& expansion_of(options, item_impl) matches Some(e) ==> {
                &&& e.bindings == seq![binding_text(item_impl.self_ty.text@, h)]
                &&& e.diagnostics == seq![(bad.name@, handler_of(bad)->Err_0)]
                &&& e.addr_trait == addr_trait_of(
                    options@.trait_name,
                    options.no_trait_decl,
                    options.no_trait_impl,
                    options.use_recipient,
                    item_impl.self_ty,
                    seq![h],
                )->Some_0
            }
        }),
{
    let ms = methods_of(item_impl.items@);
    let ps = parsed_of(ms);
    let h = handler_of(ms[valid])->Ok_0;
    let p1 = ps.drop_last();
    assert(p1.drop_last() =~= Seq::<ParsedView>::empty());
    assert(ps[0] == (ms[0].name@, handler_of(ms[0])));
    assert(ps[1] == (ms[1].name@, handler_of(ms[1])));
    assert(p1.last() == ps[0]);
    assert(ps.last() == ps[1]);
    assert(valid_of(p1.drop_last()) == Seq::<HandlerView>::empty());
    assert(failures_of(p1.drop_last()) == Seq::<(Seq<char>, SignatureValidationError)>::empty());
    if valid == 0 {
        assert(valid_of(p1) =~= seq![h]);
        assert(valid_of(ps) =~= seq![h]);
        assert(failures_of(p1) =~= Seq::<(Seq<char>, SignatureValidationError)>::empty());
        assert(failures_of(ps) =~= seq![(ms[1].name@, handler_of(ms[1])->Err_0)]);
    } else {
        assert(valid_of(p1) =~= Seq::<HandlerView>::empty());
        assert(valid_of(ps) =~= seq![h]);
        assert(failures_of(p1) =~= seq![(ms[0].name@, handler_of(ms[0])->Err_0)]);
        assert(failures_of(ps) =~= seq![(ms[0].name@, handler_of(ms[0])->Err_0)]);
    }
    assert(bindings_of(item_impl.self_ty.text@, seq![h]) =~= seq![
        binding_text(item_impl.self_ty.text@, h),
    ]);
}

} // verus!
