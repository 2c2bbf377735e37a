use actix_handler_macro::expand_method_handlers::{
    expand_handler_context, parse_handler_context, ArgPattern, FnArg, HandlerContext, Method,
    ResultType, ReturnType, SignatureValidationError,
};

fn typed(name: &str, ty: &str) -> FnArg {
    FnArg::Typed { pat: ArgPattern::Ident(name.to_string()), ty: ty.to_string() }
}

fn method(name: &str, inputs: Vec<FnArg>, output: Option<&str>) -> Method {
    Method {
        name: name.to_string(),
        inputs,
        output: match output {
            Some(t) => ReturnType::Type(t.to_string()),
            None => ReturnType::Default,
        },
    }
}

#[test]
fn test_parse_handler_context() {
    // fn greet(&self, _message: Greeting, _ctx: &Example::Context) {}
    let input = method(
        "greet",
        vec![FnArg::Receiver, typed("_message", "Greeting"), typed("_ctx", "&Example::Context")],
        None,
    );
    let handler_context = parse_handler_context(&input);
    assert_eq!(handler_context.is_ok(), true);
    let handler_context = handler_context.unwrap_or_else(|_| panic!("Expected HandlerContext"));
    let message_type: syn::Type = syn::parse_str(&handler_context.message_type_name).unwrap();
    assert_eq!(
        format!("{:?}", message_type),
        "Path(TypePath { qself: None, path: Path { leading_colon: None, segments: [PathSegment { ident: Ident(Greeting), arguments: None }] } })"
    );
    let method_name: proc_macro2::Ident = syn::parse_str(&handler_context.method_name).unwrap();
    assert_eq!(format!("{:?}", method_name), "Ident(greet)");
}

#[test]
fn test_arity_failure() {
    // fn greet(&self, _message: Greeting) {}
    let input = method("greet", vec![FnArg::Receiver, typed("_message", "Greeting")], None);
    let result = parse_handler_context(&input);
    assert_eq!(result.is_ok(), false);
    let err = result.err().unwrap();
    assert_eq!(err, SignatureValidationError::WrongArity);
}

#[test]
fn explicit_return_type_is_kept() {
    let input = method(
        "greet",
        vec![FnArg::Receiver, typed("msg", "Greeting"), typed("ctx", "&mut Context<Self>")],
        Some("String"),
    );
    let h = parse_handler_context(&input).ok().unwrap();
    assert_eq!(h.message_type_name, "Greeting");
    assert_eq!(h.method_name, "greet");
    assert!(matches!(h.result_type, ResultType::Explicit(ref t) if t == "String"));
}

#[test]
fn missing_return_type_defers_to_message() {
    let input = method(
        "say_hello",
        vec![FnArg::Receiver, typed("msg", "Hello"), typed("ctx", "&mut Context<Self>")],
        None,
    );
    let h = parse_handler_context(&input).ok().unwrap();
    assert!(matches!(h.result_type, ResultType::OfMessage));
}

#[test]
fn arity_is_checked_before_argument_shape() {
    let none = method("a", vec![], None);
    assert_eq!(parse_handler_context(&none).err(), Some(SignatureValidationError::WrongArity));
    let four = method(
        "b",
        vec![FnArg::Receiver, FnArg::Receiver, typed("x", "X"), typed("y", "Y")],
        None,
    );
    assert_eq!(parse_handler_context(&four).err(), Some(SignatureValidationError::WrongArity));
}

#[test]
fn receiver_or_pattern_as_message_is_rejected() {
    let receiver = method("a", vec![FnArg::Receiver, FnArg::Receiver, typed("c", "C")], None);
    assert_eq!(
        parse_handler_context(&receiver).err(),
        Some(SignatureValidationError::UnexpectedArguments)
    );
    let pattern = method(
        "b",
        vec![
            FnArg::Receiver,
            FnArg::Typed { pat: ArgPattern::Other, ty: "(u32, u32)".to_string() },
            typed("c", "C"),
        ],
        None,
    );
    assert_eq!(
        parse_handler_context(&pattern).err(),
        Some(SignatureValidationError::UnexpectedArguments)
    );
}

#[test]
fn dispatch_binding_text() {
    let h = HandlerContext {
        message_type_name: "Greeting".to_string(),
        method_name: "greet".to_string(),
        result_type: ResultType::OfMessage,
    };
    let out = expand_handler_context(&"Example".to_string(), &h);
    assert_eq!(
        out,
        "impl actix::Handler<Greeting> for Example {\n    type Result = <Greeting as actix::Message>::Result;\n\n    fn handle(self: &mut Self, msg: Greeting, ctx: &mut actix::Context<Self>) -> Self::Result {\n        self.greet(msg, ctx)\n    }\n}\n"
    );
}
