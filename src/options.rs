use vstd::prelude::*;

verus! {

/// What one invocation asks of the generator: how the client trait is named
/// and which of its parts are emitted.
pub struct Options {
    pub trait_name: Option<String>,
    pub no_trait_decl: bool,
    pub no_trait_impl: bool,
    pub use_recipient: bool,
}

pub ghost struct OptionsView {
    pub trait_name: Option<Seq<char>>,
    pub no_trait_decl: bool,
    pub no_trait_impl: bool,
    pub use_recipient: bool,
}

impl View for Options {
    type V = OptionsView;

    open spec fn view(&self) -> OptionsView {
        OptionsView {
            trait_name: match self.trait_name {
                Some(n) => Some(n@),
                None => None,
            },
            no_trait_decl: self.no_trait_decl,
            no_trait_impl: self.no_trait_impl,
            use_recipient: self.use_recipient,
        }
    }
}

/// The policy when nothing is asked for: `<Type>Addr`, both parts, direct sends.
pub open spec fn default_options() -> OptionsView {
    OptionsView { trait_name: None, no_trait_decl: false, no_trait_impl: false, use_recipient: false }
}

/// The literal after `=` in an attribute argument.
pub enum Lit {
    Str(String),
    Other,
}

/// One argument of the attribute, e.g. `use_recipient` or `trait_name = "Greeter"`.
pub enum AttributeArg {
    /// A bare path.
    Word(String),
    /// `path = literal`.
    NameValue(String, Lit),
    /// Anything else (a list, a lone literal).
    Other,
}

/// The policy after reading `args` in order; unknown arguments are ignored and
/// a later `trait_name` wins.
pub open spec fn options_of(args: Seq<AttributeArg>) -> OptionsView
    decreases args.len(),
{
    if args.len() == 0 {
        default_options()
    } else {
        let o = options_of(args.drop_last());
        match args.last() {
            AttributeArg::Word(w) => if w@ == "use_recipient"@ {
                OptionsView { use_recipient: true, ..o }
            } else if w@ == "no_trait_decl"@ {
                OptionsView { no_trait_decl: true, ..o }
            } else if w@ == "no_trait_impl"@ {
                OptionsView { no_trait_impl: true, ..o }
            } else {
                o
            },
            AttributeArg::NameValue(n, Lit::Str(v)) => if n@ == "trait_name"@ {
                OptionsView { trait_name: Some(v@), ..o }
            } else {
                o
            },
            _ => o,
        }
    }
}

impl Options {
    /// The default policy.
    pub fn new() -> (r: Options)
        ensures
            r@ == default_options(),
    {
        Options { trait_name: None, no_trait_decl: false, no_trait_impl: false, use_recipient: false }
    }
}

fn is_word(s: &String, w: &str) -> (r: bool)
    ensures
        r == (s@ == w@),
{
    let w = String::from_str(w);
    *s == w
}

/// Reads the attribute's arguments into a policy.
pub fn parse_options(args: &Vec<AttributeArg>) -> (r: Options)
    ensures
        r@ == options_of(args@),
{
    let mut options = Options::new();
    let mut i: usize = 0;
    while i < args.len()
        invariant
            i <= args@.len(),
            options@ == options_of(args@.subrange(0, i as int)),
        decreases args@.len() - i,
    {
        proof {
            assert(args@.subrange(0, i + 1).drop_last() =~= args@.subrange(0, i as int));
        }
        match &args[i] {
            AttributeArg::Word(w) => {
                if is_word(w, "use_recipient") {
                    options.use_recipient = true;
                } else if is_word(w, "no_trait_decl") {
                    options.no_trait_decl = true;
                } else if is_word(w, "no_trait_impl") {
                    options.no_trait_impl = true;
                }
            },
            AttributeArg::NameValue(n, Lit::Str(v)) => {
                if is_word(n, "trait_name") {
                    options.trait_name = Some(v.clone());
                }
            },
            _ => {},
        }
        i = i + 1;
    }
    assert(args@.subrange(0, i as int) =~= args@);
    options
}

} // verus!
