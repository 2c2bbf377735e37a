use vstd::prelude::*;
use crate::expand_method_handlers::{HandlerContext, HandlerView};
use crate::options::Options;

verus! {

/// The last segment of a type path: `Example` and its generic arguments as
/// written (`<T>`, or empty).
pub struct PathSegment {
    pub ident: String,
    pub arguments: String,
}

/// The type an `impl` block is for: its text as written, and the last path
/// segment where the type is a path.
pub struct TypeName {
    pub text: String,
    pub last_segment: Option<PathSegment>,
}

/// The owning type and every handler that validated on it, in source order.
pub struct ImplContext {
    pub self_ty: TypeName,
    pub handlers: Vec<HandlerContext>,
}

/// The client trait's two parts; `None` where the policy suppresses one.
pub struct AddrTrait {
    pub declaration: Option<String>,
    pub implementation: Option<String>,
}

pub open spec fn handlers_view(hs: Seq<HandlerContext>) -> Seq<HandlerView> {
    hs.map_values(|h: HandlerContext| h@)
}

/// The client trait's name: the override, else the type's last segment with
/// `Addr` appended, keeping that segment's generic arguments. A type that is
/// not a path has a name only through the override.
pub open spec fn trait_name_of(name: Option<Seq<char>>, ty: TypeName) -> Option<Seq<char>> {
    match ty.last_segment {
        Some(seg) => Some(
            match name {
                Some(n) => n,
                None => seg.ident@ + "Addr"@,
            } + seg.arguments@,
        ),
        None => name,
    }
}

/// What a client method returns.
pub open spec fn request_type_text(ty: Seq<char>, h: HandlerView, use_recipient: bool) -> Seq<char> {
    if use_recipient {
        "::actix::prelude::RecipientRequest<"@ + h.message_type + ">"@
    } else {
        "::actix::prelude::Request<"@ + ty + ", "@ + h.message_type + ">"@
    }
}

pub open spec fn signature_text(ty: Seq<char>, h: HandlerView, use_recipient: bool) -> Seq<char> {
    "    fn "@ + h.method_name + "(self: &Self, msg: "@ + h.message_type + ") -> "@
        + request_type_text(ty, h, use_recipient)
}

/// How a client method sends: through a recipient scoped to the message, or
/// straight to the address.
pub open spec fn send_text(use_recipient: bool) -> Seq<char> {
    if use_recipient {
        "self.clone().recipient().send(msg)"@
    } else {
        "self.send(msg)"@
    }
}

/// The trait's method declarations, one per handler, in order.
pub open spec fn trait_methods_text(ty: Seq<char>, hs: Seq<HandlerView>, use_recipient: bool) -> Seq<
    char,
>
    decreases hs.len(),
{
    if hs.len() == 0 {
        Seq::empty()
    } else {
        trait_methods_text(ty, hs.drop_last(), use_recipient) + signature_text(
            ty,
            hs.last(),
            use_recipient,
        ) + ";\n"@
    }
}

/// One method of the implementation: send the message and hand back the
/// pending request.
pub open spec fn addr_method_text(ty: Seq<char>, h: HandlerView, use_recipient: bool) -> Seq<char> {
    signature_text(ty, h, use_recipient) + " {\n        "@ + send_text(use_recipient) + "\n    }\n"@
}

/// The implementation's methods, one per handler, in order.
pub open spec fn trait_impls_text(ty: Seq<char>, hs: Seq<HandlerView>, use_recipient: bool) -> Seq<
    char,
>
    decreases hs.len(),
{
    if hs.len() == 0 {
        Seq::empty()
    } else {
        trait_impls_text(ty, hs.drop_last(), use_recipient) + addr_method_text(
            ty,
            hs.last(),
            use_recipient,
        )
    }
}

pub open spec fn trait_decl_text(name: Seq<char>, ty: Seq<char>, hs: Seq<HandlerView>, use_recipient: bool) -> Seq<char> {
    "trait "@ + name + " {\n"@ + trait_methods_text(ty, hs, use_recipient) + "}\n"@
}

pub open spec fn trait_impl_text(name: Seq<char>, ty: Seq<char>, hs: Seq<HandlerView>, use_recipient: bool) -> Seq<char> {
    "impl "@ + name + " for ::actix::Addr<"@ + ty + "> {\n"@ + trait_impls_text(ty, hs, use_recipient)
        + "}\n"@
}

fn push_signature(out: &mut String, ty: &String, h: &HandlerContext, use_recipient: bool)
    ensures
        final(out)@ == old(out)@ + signature_text(ty@, h@, use_recipient),
{
    let m = h.message_type_name.as_str();
    out.append("    fn ");
    out.append(h.method_name.as_str());
    out.append("(self: &Self, msg: ");
    out.append(m);
    out.append(") -> ");
    if use_recipient {
        out.append("::actix::prelude::RecipientRequest<");
        out.append(m);
        out.append(">");
    } else {
        out.append("::actix::prelude::Request<");
        out.append(ty.as_str());
        out.append(", ");
        out.append(m);
        out.append(">");
    }
    assert(final(out)@ =~= old(out)@ + signature_text(ty@, h@, use_recipient));
}

/// The trait's method declarations for every handler of the context.
pub fn expand_trait_methods(options: &Options, impl_context: &ImplContext, ty: &String) -> (r: String)
    ensures
        r@ == trait_methods_text(ty@, handlers_view(impl_context.handlers@), options.use_recipient),
{
    let hs = &impl_context.handlers;
    let ghost hv = handlers_view(hs@);
    let mut out = String::new();
    let mut i: usize = 0;
    while i < hs.len()
        invariant
            i <= hs@.len(),
            hv == handlers_view(hs@),
            out@ == trait_methods_text(ty@, hv.subrange(0, i as int), options.use_recipient),
        decreases hs@.len() - i,
    {
        proof {
            assert(hv.subrange(0, i + 1).drop_last() =~= hv.subrange(0, i as int));
        }
        push_signature(&mut out, ty, &hs[i], options.use_recipient);
        out.append(";\n");
        assert(out@ =~= trait_methods_text(ty@, hv.subrange(0, i + 1), options.use_recipient));
        i = i + 1;
    }
    assert(hv.subrange(0, i as int) =~= hv);
    out
}

/// One method of the implementation for the handler.
pub fn expand_addr_method(options: &Options, ty: &String, handler_context: &HandlerContext) -> (r: String)
    ensures
        r@ == addr_method_text(ty@, handler_context@, options.use_recipient),
{
    let mut out = String::new();
    push_signature(&mut out, ty, handler_context, options.use_recipient);
    out.append(" {\n        ");
    if options.use_recipient {
        out.append("self.clone().recipient().send(msg)");
    } else {
        out.append("self.send(msg)");
    }
    out.append("\n    }\n");
    assert(out@ =~= addr_method_text(ty@, handler_context@, options.use_recipient));
    out
}

/// The implementation's methods for every handler of the context.
pub fn expand_trait_impls(options: &Options, impl_context: &ImplContext, ty: &String) -> (r: String)
    ensures
        r@ == trait_impls_text(ty@, handlers_view(impl_context.handlers@), options.use_recipient),
{
    let hs = &impl_context.handlers;
    let ghost hv = handlers_view(hs@);
    let mut out = String::new();
    let mut i: usize = 0;
    while i < hs.len()
        invariant
            i <= hs@.len(),
            hv == handlers_view(hs@),
            out@ == trait_impls_text(ty@, hv.subrange(0, i as int), options.use_recipient),
        decreases hs@.len() - i,
    {
        proof {
            assert(hv.subrange(0, i + 1).drop_last() =~= hv.subrange(0, i as int));
        }
        let m = expand_addr_method(options, ty, &hs[i]);
        out.append(m.as_str());
        assert(out@ =~= trait_impls_text(ty@, hv.subrange(0, i + 1), options.use_recipient));
        i = i + 1;
    }
    assert(hv.subrange(0, i as int) =~= hv);
    out
}


pub open spec fn name_view(n: Option<String>) -> Option<Seq<char>> {
    match n {
        Some(s) => Some(s@),
        None => None,
    }
}

/// The client trait's name for the type, or `None` where the type is not a
/// path and no override is given.
pub fn build_renamed_addr_type(trait_name: &Option<String>, ty: &TypeName) -> (r: Option<String>)
    ensures
        name_view(r) == trait_name_of(name_view(*trait_name), *ty),
{
    match &ty.last_segment {
        Some(seg) => {
            let mut name = match trait_name {
                Some(n) => n.clone(),
                None => {
                    let mut s = seg.ident.clone();
                    s.append("Addr");
                    s
                },
            };
            name.append(seg.arguments.as_str());
            Some(name)
        },
        None => match trait_name {
            Some(n) => Some(n.clone()),
            None => None,
        },
    }
}

/// The trait declaration, unless the policy suppresses it.
pub fn expand_trait_declaration(options: &Options, impl_context: &ImplContext, trait_name: &String) -> (r: Option<String>)
    ensures
        options.no_trait_decl ==> r is None,
        !options.no_trait_decl ==> r is Some && r->Some_0@ == trait_decl_text(
            trait_name@,
            impl_context.self_ty.text@,
            handlers_view(impl_context.handlers@),
            options.use_recipient,
        ),
{
    if options.no_trait_decl {
        return None;
    }
    let fns = expand_trait_methods(options, impl_context, &impl_context.self_ty.text);
    let mut out = String::new();
    out.append("trait ");
    out.append(trait_name.as_str());
    out.append(" {\n");
    out.append(fns.as_str());
    out.append("}\n");
    assert(out@ =~= trait_decl_text(
        trait_name@,
        impl_context.self_ty.text@,
        handlers_view(impl_context.handlers@),
        options.use_recipient,
    ));
    Some(out)
}

/// The trait's implementation for `::actix::Addr<Type>`, unless the policy
/// suppresses it.
pub fn expand_impl_declaration(options: &Options, impl_context: &ImplContext, trait_name: &String) -> (r: Option<String>)
    ensures
        options.no_trait_impl ==> r is None,
        !options.no_trait_impl ==> r is Some && r->Some_0@ == trait_impl_text(
            trait_name@,
            impl_context.self_ty.text@,
            handlers_view(impl_context.handlers@),
            options.use_recipient,
        ),
{
    if options.no_trait_impl {
        return None;
    }
    let ty = &impl_context.self_ty.text;
    let fns = expand_trait_impls(options, impl_context, ty);
    let mut out = String::new();
    out.append("impl ");
    out.append(trait_name.as_str());
    out.append(" for ::actix::Addr<");
    out.append(ty.as_str());
    out.append("> {\n");
    out.append(fns.as_str());
    out.append("}\n");
    assert(out@ =~= trait_impl_text(
        trait_name@,
        ty@,
        handlers_view(impl_context.handlers@),
        options.use_recipient,
    ));
    Some(out)
}

/// The client trait's parts in mathematical terms.
pub ghost struct AddrTraitView {
    pub declaration: Option<Seq<char>>,
    pub implementation: Option<Seq<char>>,
}

impl View for AddrTrait {
    type V = AddrTraitView;

    open spec fn view(&self) -> AddrTraitView {
        AddrTraitView {
            declaration: name_view(self.declaration),
            implementation: name_view(self.implementation),
        }
    }
}

/// The client trait that the policy asks for over the given handlers, or
/// `None` where it has no name.
pub open spec fn addr_trait_of(
    name: Option<Seq<char>>,
    no_trait_decl: bool,
    no_trait_impl: bool,
    use_recipient: bool,
    ty: TypeName,
    hs: Seq<HandlerView>,
) -> Option<AddrTraitView> {
    match trait_name_of(name, ty) {
        None => None,
        Some(n) => Some(
            AddrTraitView {
                declaration: if no_trait_decl {
                    None
                } else {
                    Some(trait_decl_text(n, ty.text@, hs, use_recipient))
                },
                implementation: if no_trait_impl {
                    None
                } else {
                    Some(trait_impl_text(n, ty.text@, hs, use_recipient))
                },
            },
        ),
    }
}

pub open spec fn addr_trait_for(options: Options, impl_context: ImplContext) -> Option<AddrTraitView> {
    addr_trait_of(
        options@.trait_name,
        options.no_trait_decl,
        options.no_trait_impl,
        options.use_recipient,
        impl_context.self_ty,
        handlers_view(impl_context.handlers@),
    )
}

/// Builds the client trait for the context under the policy; `None` where
/// the type is not a path and no trait name is given.
pub fn expand_addr_trait(options: &Options, impl_context: &ImplContext) -> (r: Option<AddrTrait>)
    ensures
        match r {
            Some(t) => addr_trait_for(*options, *impl_context) == Some(t@),
            None => addr_trait_for(*options, *impl_context) is None,
        },
{
    let name = match build_renamed_addr_type(&options.trait_name, &impl_context.self_ty) {
        Some(n) => n,
        None => return None,
    };
    let declaration = expand_trait_declaration(options, impl_context, &name);
    let implementation = expand_impl_declaration(options, impl_context, &name);
    Some(AddrTrait { declaration, implementation })
}

} // verus!
