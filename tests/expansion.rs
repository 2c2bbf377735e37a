use actix_handler_macro::expand_addr::{build_renamed_addr_type, PathSegment, TypeName};
use actix_handler_macro::expand_impl_handlers::{
    expand_item_impl, handle_signature_error, ExpandError, Expansion, ImplItem, ItemImpl,
};
use actix_handler_macro::expand_method_handlers::{
    ArgPattern, FnArg, Method, ReturnType, SignatureValidationError,
};
use actix_handler_macro::options::{parse_options, AttributeArg, Lit, Options};

fn handler(name: &str, message: &str, output: Option<&str>) -> ImplItem {
    ImplItem::Method(Method {
        name: name.to_string(),
        inputs: vec![
            FnArg::Receiver,
            FnArg::Typed { pat: ArgPattern::Ident("msg".to_string()), ty: message.to_string() },
            FnArg::Typed {
                pat: ArgPattern::Ident("ctx".to_string()),
                ty: "&mut Context<Self>".to_string(),
            },
        ],
        output: match output {
            Some(t) => ReturnType::Type(t.to_string()),
            None => ReturnType::Default,
        },
    })
}

fn example_type() -> TypeName {
    TypeName {
        text: "Example".to_string(),
        last_segment: Some(PathSegment { ident: "Example".to_string(), arguments: String::new() }),
    }
}

fn example_block() -> ItemImpl {
    ItemImpl {
        self_ty: example_type(),
        items: vec![handler("greet", "Greeting", Some("Hello")), handler("say_hello", "Hello", Some("()"))],
    }
}

fn expand(options: &Options, block: ItemImpl) -> Expansion {
    match expand_item_impl(options, block) {
        Ok(e) => e,
        Err(_) => panic!("expected an expansion"),
    }
}

#[test]
fn default_policy_names_trait_after_type() {
    let e = expand(&Options::new(), example_block());
    assert_eq!(e.bindings.len(), 2);
    assert!(e.diagnostics.is_empty());
    let decl = e.addr_trait.declaration.unwrap();
    assert_eq!(
        decl,
        "trait ExampleAddr {\n    fn greet(self: &Self, msg: Greeting) -> ::actix::prelude::Request<Example, Greeting>;\n    fn say_hello(self: &Self, msg: Hello) -> ::actix::prelude::Request<Example, Hello>;\n}\n"
    );
    assert_eq!(decl.matches("fn ").count(), 2);
    let imp = e.addr_trait.implementation.unwrap();
    assert!(imp.starts_with("impl ExampleAddr for ::actix::Addr<Example> {\n"));
    assert_eq!(imp.matches("self.send(msg)").count(), 2);
    assert!(e.bindings[0].contains("type Result = Hello;"));
    assert!(e.bindings[1].contains("type Result = ();"));
}

#[test]
fn recipient_policy_with_override() {
    let options = Options {
        trait_name: Some("Greeter".to_string()),
        no_trait_decl: false,
        no_trait_impl: false,
        use_recipient: true,
    };
    let e = expand(&options, example_block());
    let decl = e.addr_trait.declaration.unwrap();
    assert!(decl.starts_with("trait Greeter {\n"));
    assert_eq!(decl.matches("::actix::prelude::RecipientRequest<").count(), 2);
    assert!(!decl.contains("::actix::prelude::Request<"));
    let imp = e.addr_trait.implementation.unwrap();
    assert!(imp.starts_with("impl Greeter for ::actix::Addr<Example> {\n"));
    assert_eq!(imp.matches("self.clone().recipient().send(msg)").count(), 2);
    assert!(!imp.contains("self.send(msg)"));
}

#[test]
fn implementation_without_declaration() {
    let options = Options {
        trait_name: None,
        no_trait_decl: true,
        no_trait_impl: false,
        use_recipient: false,
    };
    let e = expand(&options, example_block());
    assert!(e.addr_trait.declaration.is_none());
    let imp = e.addr_trait.implementation.unwrap();
    assert!(imp.starts_with("impl ExampleAddr for ::actix::Addr<Example> {\n"));
}

#[test]
fn declaration_without_implementation() {
    let options = Options {
        trait_name: None,
        no_trait_decl: false,
        no_trait_impl: true,
        use_recipient: false,
    };
    let e = expand(&options, example_block());
    assert!(e.addr_trait.declaration.is_some());
    assert!(e.addr_trait.implementation.is_none());
    assert_eq!(e.bindings.len(), 2);
}

#[test]
fn same_input_gives_same_output() {
    let a = expand(&Options::new(), example_block());
    let b = expand(&Options::new(), example_block());
    assert_eq!(a.bindings, b.bindings);
    assert_eq!(a.addr_trait.declaration, b.addr_trait.declaration);
    assert_eq!(a.addr_trait.implementation, b.addr_trait.implementation);
    assert_eq!(a.diagnostics.len(), b.diagnostics.len());
}

#[test]
fn invalid_method_is_reported_and_skipped() {
    let block = ItemImpl {
        self_ty: example_type(),
        items: vec![
            handler("greet", "Greeting", None),
            ImplItem::Method(Method {
                name: "broken".to_string(),
                inputs: vec![FnArg::Receiver],
                output: ReturnType::Default,
            }),
            ImplItem::Other,
        ],
    };
    let e = expand(&Options::new(), block);
    assert_eq!(e.bindings.len(), 1);
    assert!(e.bindings[0].starts_with("impl actix::Handler<Greeting> for Example {"));
    assert_eq!(e.diagnostics.len(), 1);
    assert_eq!(e.diagnostics[0].method_name, "broken");
    assert_eq!(e.diagnostics[0].error, SignatureValidationError::WrongArity);
    assert_eq!(e.diagnostics[0].message(), "Wrong arity for handler broken");
    let decl = e.addr_trait.declaration.unwrap();
    assert_eq!(decl.matches("fn ").count(), 1);
    assert!(decl.contains("fn greet("));
}

#[test]
fn error_messages() {
    let name = "greet".to_string();
    assert_eq!(
        handle_signature_error(&name, SignatureValidationError::WrongArity),
        "Wrong arity for handler greet"
    );
    assert_eq!(
        handle_signature_error(&name, SignatureValidationError::UnexpectedArguments),
        "Unexpected argument types for handler greet"
    );
}

#[test]
fn no_methods_gives_empty_trait() {
    let block = ItemImpl { self_ty: example_type(), items: vec![] };
    let e = expand(&Options::new(), block);
    assert!(e.bindings.is_empty());
    assert_eq!(e.addr_trait.declaration.unwrap(), "trait ExampleAddr {\n}\n");
}

#[test]
fn unnamed_type_needs_override() {
    let ty = TypeName { text: "(A, B)".to_string(), last_segment: None };
    let block = ItemImpl { self_ty: ty, items: vec![] };
    assert_eq!(expand_item_impl(&Options::new(), block).err(), Some(ExpandError::UnnamedTrait));
    assert_eq!(
        build_renamed_addr_type(&Some("Pair".to_string()), &TypeName {
            text: "(A, B)".to_string(),
            last_segment: None
        }),
        Some("Pair".to_string())
    );
}

#[test]
fn trait_name_keeps_last_segment_and_arguments() {
    let ty = TypeName {
        text: "crate::actors::Worker<T>".to_string(),
        last_segment: Some(PathSegment { ident: "Worker".to_string(), arguments: "<T>".to_string() }),
    };
    assert_eq!(build_renamed_addr_type(&None, &ty), Some("WorkerAddr<T>".to_string()));
    assert_eq!(
        build_renamed_addr_type(&Some("Jobs".to_string()), &ty),
        Some("Jobs<T>".to_string())
    );
}

#[test]
fn options_are_read_in_order() {
    let args = vec![
        AttributeArg::Word("use_recipient".to_string()),
        AttributeArg::Word("no_trait_impl".to_string()),
        AttributeArg::Word("unknown".to_string()),
        AttributeArg::NameValue("trait_name".to_string(), Lit::Str("First".to_string())),
        AttributeArg::NameValue("trait_name".to_string(), Lit::Other),
        AttributeArg::NameValue("trait_name".to_string(), Lit::Str("Greeter".to_string())),
        AttributeArg::Other,
    ];
    let o = parse_options(&args);
    assert!(o.use_recipient);
    assert!(o.no_trait_impl);
    assert!(!o.no_trait_decl);
    assert_eq!(o.trait_name, Some("Greeter".to_string()));
    let d = parse_options(&vec![]);
    assert!(!d.use_recipient && !d.no_trait_decl && !d.no_trait_impl && d.trait_name.is_none());
    let decl = parse_options(&vec![AttributeArg::Word("no_trait_decl".to_string())]);
    assert!(decl.no_trait_decl);
}
