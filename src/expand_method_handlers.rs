use vstd::prelude::*;

verus! {

/// The pattern that binds a typed parameter.
pub enum ArgPattern {
    /// A plain name, as in `msg: Greeting`.
    Ident(String),
    /// Anything else: a tuple, a struct pattern, a wildcard.
    Other,
}

/// One parameter of a method declaration.
pub enum FnArg {
    /// `self`, `&self`, `&mut self` or `self: T`.
    Receiver,
    /// `pattern: type`, with the type as written.
    Typed { pat: ArgPattern, ty: String },
}

/// What a method declares it returns.
pub enum ReturnType {
    /// No `->` at all.
    Default,
    /// `-> T`, with the type as written.
    Type(String),
}

/// A method of an `impl` block, as far as handler generation reads it.
pub struct Method {
    pub name: String,
    pub inputs: Vec<FnArg>,
    pub output: ReturnType,
}

/// The result type a handler is bound to.
pub enum ResultType {
    /// The type the method declares.
    Explicit(String),
    /// Left to the message: `<M as actix::Message>::Result`.
    OfMessage,
}

/// A method that passed validation: the message it handles and what it answers.
pub struct HandlerContext {
    pub message_type_name: String,
    pub method_name: String,
    pub result_type: ResultType,
}

/// The handler in mathematical terms; `result_type` is `None` where the
/// message's own result type is meant.
pub ghost struct HandlerView {
    pub method_name: Seq<char>,
    pub message_type: Seq<char>,
    pub result_type: Option<Seq<char>>,
}

impl View for HandlerContext {
    type V = HandlerView;

    open spec fn view(&self) -> HandlerView {
        HandlerView {
            method_name: self.method_name@,
            message_type: self.message_type_name@,
            result_type: match self.result_type {
                ResultType::Explicit(t) => Some(t@),
                ResultType::OfMessage => None,
            },
        }
    }
}

/// Why a method cannot be a handler.
#[derive(PartialEq, Eq, Debug, Clone, Copy, Structural)]
pub enum SignatureValidationError {
    /// It does not take exactly three parameters.
    WrongArity,
    /// Its second parameter is not a plain name with a type.
    UnexpectedArguments,
}

/// The second parameter is `name: type`.
pub open spec fn is_simple_typed(a: FnArg) -> bool {
    a matches FnArg::Typed { pat: ArgPattern::Ident(_), .. }
}

/// The declared type of a typed parameter.
pub open spec fn arg_type(a: FnArg) -> Seq<char> {
    match a {
        FnArg::Typed { ty, .. } => ty@,
        FnArg::Receiver => Seq::empty(),
    }
}

pub open spec fn declared_result(o: ReturnType) -> Option<Seq<char>> {
    match o {
        ReturnType::Type(t) => Some(t@),
        ReturnType::Default => None,
    }
}

/// What validating `m` yields.
pub open spec fn handler_of(m: Method) -> Result<HandlerView, SignatureValidationError> {
    if m.inputs@.len() != 3 {
        Err(SignatureValidationError::WrongArity)
    } else if !is_simple_typed(m.inputs@[1]) {
        Err(SignatureValidationError::UnexpectedArguments)
    } else {
        Ok(HandlerView {
            method_name: m.name@,
            message_type: arg_type(m.inputs@[1]),
            result_type: declared_result(m.output),
        })
    }
}

pub open spec fn result_view(r: Result<HandlerContext, SignatureValidationError>) -> Result<
    HandlerView,
    SignatureValidationError,
> {
    match r {
        Ok(h) => Ok(h@),
        Err(e) => Err(e),
    }
}

/// Checks that `method` has the shape of a handler and reads off its message
/// and result types.
pub fn parse_handler_context(method: &Method) -> (r: Result<HandlerContext, SignatureValidationError>)
    ensures
        result_view(r) == handler_of(*method),
        method.inputs@.len() != 3 ==> r == Err::<HandlerContext, SignatureValidationError>(
            SignatureValidationError::WrongArity,
        ),
        method.inputs@.len() == 3 && is_simple_typed(method.inputs@[1]) ==> r is Ok
            && r->Ok_0.message_type_name@ == arg_type(method.inputs@[1]),
        r is Ok ==> r->Ok_0.method_name@ == method.name@ && r->Ok_0@.result_type == declared_result(
            method.output,
        ),
{
    if method.inputs.len() != 3 {
        return Err(SignatureValidationError::WrongArity);
    }
    match &method.inputs[1] {
        FnArg::Typed { pat: ArgPattern::Ident(_), ty } => {
            let message_type_name = ty.clone();
            let result_type = match &method.output {
                ReturnType::Default => ResultType::OfMessage,
                ReturnType::Type(t) => ResultType::Explicit(t.clone()),
            };
            Ok(HandlerContext { message_type_name, method_name: method.name.clone(), result_type })
        },
        _ => Err(SignatureValidationError::UnexpectedArguments),
    }
}


/// The type a handler's `Result` is set to.
pub open spec fn result_type_text(h: HandlerView) -> Seq<char> {
    match h.result_type {
        Some(t) => t,
        None => "<"@ + h.message_type + " as actix::Message>::Result"@,
    }
}

/// The `actix::Handler` impl that routes `h`'s message to its method on `ty`.
pub open spec fn binding_text(ty: Seq<char>, h: HandlerView) -> Seq<char> {
    "impl actix::Handler<"@ + h.message_type + "> for "@ + ty + " {\n    type Result = "@
        + result_type_text(h) + ";\n\n    fn handle(self: &mut Self, msg: "@ + h.message_type
        + ", ctx: &mut actix::Context<Self>) -> Self::Result {\n        self."@ + h.method_name
        + "(msg, ctx)\n    }\n}\n"@
}

/// Emits the dispatch binding for one validated handler of `ty`.
pub fn expand_handler_context(ty: &String, handler_context: &HandlerContext) -> (r: String)
    ensures
        r@ == binding_text(ty@, handler_context@),
{
    let m = handler_context.message_type_name.as_str();
    let mut out = String::new();
    out.append("impl actix::Handler<");
    out.append(m);
    out.append("> for ");
    out.append(ty.as_str());
    out.append(" {\n    type Result = ");
    match &handler_context.result_type {
        ResultType::Explicit(t) => out.append(t.as_str()),
        ResultType::OfMessage => {
            out.append("<");
            out.append(m);
            out.append(" as actix::Message>::Result");
        },
    }
    out.append(";\n\n    fn handle(self: &mut Self, msg: ");
    out.append(m);
    out.append(", ctx: &mut actix::Context<Self>) -> Self::Result {\n        self.");
    out.append(handler_context.method_name.as_str());
    out.append("(msg, ctx)\n    }\n}\n");
    assert(out@ =~= binding_text(ty@, handler_context@));
    out
}


/// A copy of a handler.
pub fn copy_handler(h: &HandlerContext) -> (r: HandlerContext)
    ensures
        r@ == h@,
{
    HandlerContext {
        message_type_name: h.message_type_name.clone(),
        method_name: h.method_name.clone(),
        result_type: match &h.result_type {
            ResultType::Explicit(t) => ResultType::Explicit(t.clone()),
            ResultType::OfMessage => ResultType::OfMessage,
        },
    }
}

} // verus!
