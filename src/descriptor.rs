//! Message descriptors and the text rendered for each: a trait method
//! signature and a dispatching method body.

use vstd::prelude::*;

use crate::naming::{decimal_text, is_ascii_words, method_ident, push_decimal, snake_of};

verus! {

/// One argument of a message, taken from one field of its variant: the
/// field's name (none for a positional field) and its type as token text.
pub struct MsgArg {
    pub ident: Option<String>,
    pub ty: String,
}

/// The value of a [`MsgArg`].
pub struct ArgView {
    pub ident: Option<Seq<char>>,
    pub ty: Seq<char>,
}

impl View for MsgArg {
    type V = ArgView;

    open spec fn view(&self) -> ArgView {
        ArgView {
            ident: match self.ident {
                Some(n) => Some(n@),
                None => None,
            },
            ty: self.ty@,
        }
    }
}

/// The values of a sequence of arguments.
pub open spec fn args_view(args: Seq<MsgArg>) -> Seq<ArgView> {
    args.map_values(|a: MsgArg| a@)
}

/// A message to render: a command (an `ExecuteMsg` variant) or a query (a
/// `QueryMsg` variant, with the name of its response type).
pub enum MsgDescr {
    ExecuteMsg { ident: String, args: Vec<MsgArg> },
    QueryMsg { ident: String, args: Vec<MsgArg>, return_type: String },
}

/// The value of a [`MsgDescr`].
pub enum DescrView {
    Command { name: Seq<char>, args: Seq<ArgView> },
    Query { name: Seq<char>, args: Seq<ArgView>, response: Seq<char> },
}

impl DescrView {
    pub open spec fn name(self) -> Seq<char> {
        match self {
            DescrView::Command { name, .. } => name,
            DescrView::Query { name, .. } => name,
        }
    }

    pub open spec fn args(self) -> Seq<ArgView> {
        match self {
            DescrView::Command { args, .. } => args,
            DescrView::Query { args, .. } => args,
        }
    }
}

impl View for MsgDescr {
    type V = DescrView;

    open spec fn view(&self) -> DescrView {
        match self {
            MsgDescr::ExecuteMsg { ident, args } => DescrView::Command {
                name: ident@,
                args: args_view(args@),
            },
            MsgDescr::QueryMsg { ident, args, return_type } => DescrView::Query {
                name: ident@,
                args: args_view(args@),
                response: return_type@,
            },
        }
    }
}

/// The views of a sequence of descriptors.
pub open spec fn descrs_view(ds: Seq<MsgDescr>) -> Seq<DescrView> {
    ds.map_values(|d: MsgDescr| d@)
}

/// The parameter name of the argument at position `i`. A positional field has
/// no name of its own and is called `arg<i>`.
pub open spec fn param_name(a: ArgView, i: nat) -> Seq<char> {
    match a.ident {
        Some(n) => n,
        None => "arg"@ + decimal_text(i),
    }
}

/// The parameter declaration of the argument at position `i`, as
/// `name : type ,`.
pub open spec fn param_text(a: ArgView, i: nat) -> Seq<char> {
    param_name(a, i) + " : "@ + a.ty + " ,"@
}

/// The field initialiser of the argument at position `i` in the message
/// value: `name ,` for a named field, `i : arg<i> ,` for a positional one.
pub open spec fn field_init_text(a: ArgView, i: nat) -> Seq<char> {
    match a.ident {
        Some(n) => n + " ,"@,
        None => decimal_text(i) + " : "@ + param_name(a, i) + " ,"@,
    }
}

/// The parts joined by single spaces.
pub open spec fn spaced(parts: Seq<Seq<char>>) -> Seq<char>
    decreases parts.len(),
{
    if parts.len() == 0 {
        Seq::empty()
    } else if parts.len() == 1 {
        parts[0]
    } else {
        spaced(parts.drop_last()) + " "@ + parts.last()
    }
}

/// The parameter declarations of all arguments, in order.
pub open spec fn params_text(args: Seq<ArgView>) -> Seq<char> {
    spaced(Seq::new(args.len(), |i: int| param_text(args[i], i as nat)))
}

/// The field initialisers of all arguments, in order.
pub open spec fn field_inits_text(args: Seq<ArgView>) -> Seq<char> {
    spaced(Seq::new(args.len(), |i: int| field_init_text(args[i], i as nat)))
}

proof fn lemma_spaced_take(parts: Seq<Seq<char>>, i: int)
    requires
        0 <= i < parts.len(),
    ensures
        spaced(parts.take(i + 1)) == if i == 0 {
            parts[0]
        } else {
            spaced(parts.take(i)) + " "@ + parts[i]
        },
{
    assert(parts.take(i + 1).drop_last() =~= parts.take(i));
}

fn push_param_name(s: &mut String, a: &MsgArg, i: usize)
    ensures
        final(s)@ == old(s)@ + param_name(a@, i as nat),
{
    match &a.ident {
        Some(n) => {
            s.append(n.as_str());
        },
        None => {
            s.append("arg");
            push_decimal(s, i);
            assert(final(s)@ =~= old(s)@ + param_name(a@, i as nat));
        },
    }
}

fn push_param(s: &mut String, a: &MsgArg, i: usize)
    ensures
        final(s)@ == old(s)@ + param_text(a@, i as nat),
{
    push_param_name(s, a, i);
    s.append(" : ");
    s.append(a.ty.as_str());
    s.append(" ,");
    assert(final(s)@ =~= old(s)@ + param_text(a@, i as nat));
}

fn push_field_init(s: &mut String, a: &MsgArg, i: usize)
    ensures
        final(s)@ == old(s)@ + field_init_text(a@, i as nat),
{
    match &a.ident {
        Some(n) => {
            s.append(n.as_str());
            s.append(" ,");
            assert(final(s)@ =~= old(s)@ + field_init_text(a@, i as nat));
        },
        None => {
            push_decimal(s, i);
            s.append(" : ");
            push_param_name(s, a, i);
            s.append(" ,");
            assert(final(s)@ =~= old(s)@ + field_init_text(a@, i as nat));
        },
    }
}

/// The parameter declarations of `args`, in the order given.
pub fn params_string(args: &Vec<MsgArg>) -> (r: String)
    ensures
        r@ == params_text(args_view(args@)),
{
    let ghost parts = Seq::new(args@.len(), |i: int| param_text(args@[i]@, i as nat));
    let mut r = String::new();
    let mut i: usize = 0;
    while i < args.len()
        invariant
            i <= args@.len(),
            parts.len() == args@.len(),
            forall|k: int| 0 <= k < parts.len() ==> parts[k] == param_text(args@[k]@, k as nat),
            r@ == spaced(parts.take(i as int)),
        decreases args.len() - i,
    {
        proof {
            lemma_spaced_take(parts, i as int);
        }
        if i > 0 {
            r.append(" ");
        }
        push_param(&mut r, &args[i], i);
        i += 1;
        assert(r@ =~= spaced(parts.take(i as int)));
    }
    assert(parts.take(i as int) =~= Seq::new(
        args_view(args@).len(),
        |k: int| param_text(args_view(args@)[k], k as nat),
    ));
    r
}

/// The field initialisers of `args`, in the order given.
pub fn field_inits_string(args: &Vec<MsgArg>) -> (r: String)
    ensures
        r@ == field_inits_text(args_view(args@)),
{
    let ghost parts = Seq::new(args@.len(), |i: int| field_init_text(args@[i]@, i as nat));
    let mut r = String::new();
    let mut i: usize = 0;
    while i < args.len()
        invariant
            i <= args@.len(),
            parts.len() == args@.len(),
            forall|k: int| 0 <= k < parts.len() ==> parts[k] == field_init_text(args@[k]@, k as nat),
            r@ == spaced(parts.take(i as int)),
        decreases args.len() - i,
    {
        proof {
            lemma_spaced_take(parts, i as int);
        }
        if i > 0 {
            r.append(" ");
        }
        push_field_init(&mut r, &args[i], i);
        i += 1;
        assert(r@ =~= spaced(parts.take(i as int)));
    }
    assert(parts.take(i as int) =~= Seq::new(
        args_view(args@).len(),
        |k: int| field_init_text(args_view(args@)[k], k as nat),
    ));
    r
}

/// The trait method signature of a descriptor whose method is called
/// `method`. A command takes the app mutably, its arguments and the funds sent
/// with it; a query takes the app and its arguments and returns its response
/// type.
pub open spec fn def_text(d: DescrView, method: Seq<char>) -> Seq<char> {
    match d {
        DescrView::Command { args, .. } => "\tfn "@ + method + "(app: &mut App, "@ + params_text(args)
            + " funds: Vec<Coin>);"@,
        DescrView::Query { args, response, .. } => "\tfn "@ + method + "(app: &App, "@
            + params_text(args) + ") -> "@ + response + ";"@,
    }
}

/// The dispatching method of a descriptor whose method is called `method`. It
/// builds the message under the variant's own name from its arguments; a
/// command also takes the contract and the caller and executes the message
/// with the funds, a query takes the contract and returns the answer to the
/// message.
pub open spec fn impl_text(d: DescrView, method: Seq<char>) -> Seq<char> {
    match d {
        DescrView::Command { name, args } => "\tfn "@ + method
            + "(app: &mut App, contract: &Addr, caller: &Addr, "@ + params_text(args)
            + " funds: Vec<Coin>){\n\t\tlet msg = "@ + name + " {"@ + field_inits_text(args)
            + "};\n\t\tapp.execute_contract(caller.to_owned(), contract.to_owned(), &msg, &funds).unwrap();\n\t}\n"@,
        DescrView::Query { name, args, response } => "\tfn "@ + method + "(app: &App, contract: &Addr, "@
            + params_text(args) + ") -> "@ + response + "{\n\t\tlet msg = "@ + name + " {"@
            + field_inits_text(args)
            + "};\n\t\treturn app.wrap().query_wasm_smart(contract.to_owned(), &msg).unwrap();\n\t}\n"@,
    }
}

/// The signature of a descriptor, with its method named after the variant.
pub open spec fn signature_text(d: DescrView) -> Seq<char> {
    def_text(d, snake_of(d.name()))
}

/// The dispatching method of a descriptor, named after the variant.
pub open spec fn dispatch_text(d: DescrView) -> Seq<char> {
    impl_text(d, snake_of(d.name()))
}

impl MsgDescr {
    /// The variant's name.
    pub fn name(&self) -> (r: &String)
        ensures
            r@ == self@.name(),
    {
        match self {
            MsgDescr::ExecuteMsg { ident, .. } => ident,
            MsgDescr::QueryMsg { ident, .. } => ident,
        }
    }

    /// The message's arguments.
    pub fn args(&self) -> (r: &Vec<MsgArg>)
        ensures
            args_view(r@) == self@.args(),
    {
        match self {
            MsgDescr::ExecuteMsg { args, .. } => args,
            MsgDescr::QueryMsg { args, .. } => args,
        }
    }

    /// The trait method signature of this message, with the method called
    /// `method`.
    pub fn trait_def_named(&self, method: &str) -> (r: String)
        ensures
            r@ == def_text(self@, method@),
    {
        let params = params_string(self.args());
        let mut r = String::new();
        r.append("\tfn ");
        r.append(method);
        match self {
            MsgDescr::ExecuteMsg { .. } => {
                r.append("(app: &mut App, ");
                r.append(params.as_str());
                r.append(" funds: Vec<Coin>);");
            },
            MsgDescr::QueryMsg { return_type, .. } => {
                r.append("(app: &App, ");
                r.append(params.as_str());
                r.append(") -> ");
                r.append(return_type.as_str());
                r.append(";");
            },
        }
        assert(r@ =~= def_text(self@, method@));
        r
    }

    /// The trait method signature of this message, with the method named
    /// after the variant in lower word-separated form.
    /// For a name of ASCII letters, digits and separators, converting the
    /// method name once more gives it back.
    pub fn to_trait_def(&self) -> (r: String)
        ensures
            r@ == signature_text(self@),
            is_ascii_words(self@.name()) ==> snake_of(snake_of(self@.name())) == snake_of(
                self@.name(),
            ),
    {
        let method = method_ident(self.name().as_str());
        self.trait_def_named(method.as_str())
    }

    /// The dispatching method of this message, with the method called
    /// `method`.
    pub fn trait_impl_named(&self, method: &str) -> (r: String)
        ensures
            r@ == impl_text(self@, method@),
    {
        let params = params_string(self.args());
        let inits = field_inits_string(self.args());
        let mut r = String::new();
        r.append("\tfn ");
        r.append(method);
        match self {
            MsgDescr::ExecuteMsg { ident, .. } => {
                r.append("(app: &mut App, contract: &Addr, caller: &Addr, ");
                r.append(params.as_str());
                r.append(" funds: Vec<Coin>){\n\t\tlet msg = ");
                r.append(ident.as_str());
                r.append(" {");
                r.append(inits.as_str());
                r.append(
                    "};\n\t\tapp.execute_contract(caller.to_owned(), contract.to_owned(), &msg, &funds).unwrap();\n\t}\n",
                );
            },
            MsgDescr::QueryMsg { ident, return_type, .. } => {
                r.append("(app: &App, contract: &Addr, ");
                r.append(params.as_str());
                r.append(") -> ");
                r.append(return_type.as_str());
                r.append("{\n\t\tlet msg = ");
                r.append(ident.as_str());
                r.append(" {");
                r.append(inits.as_str());
                r.append(
                    "};\n\t\treturn app.wrap().query_wasm_smart(contract.to_owned(), &msg).unwrap();\n\t}\n",
                );
            },
        }
        assert(r@ =~= impl_text(self@, method@));
        r
    }

    /// The dispatching method of this message, with the method named after
    /// the variant in lower word-separated form.
    pub fn to_trait_impl(&self) -> (r: String)
        ensures
            r@ == dispatch_text(self@),
    {
        let method = method_ident(self.name().as_str());
        self.trait_impl_named(method.as_str())
    }
}

} // verus!
