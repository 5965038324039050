//! The declarations that messages are drawn from, and the extraction of
//! command and query descriptors from them.
//!
//! A command variant whose first field is positional is skipped. A query
//! variant is never skipped: its positional fields become parameters named
//! after their position (see [`param_name`](crate::descriptor::param_name)).

use vstd::prelude::*;

use crate::descriptor::{
    args_view, descrs_view, field_inits_text, params_text, signature_text, spaced, ArgView,
    DescrView, MsgArg, MsgDescr,
};
use crate::naming::snake_of;

verus! {

/// One variant of a declared enum: its name and its fields in declared order.
pub struct VariantDecl {
    pub name: String,
    pub fields: Vec<MsgArg>,
}

/// A top-level enum declaration: its name and its variants in declared order.
pub struct EnumDecl {
    pub name: String,
    pub variants: Vec<VariantDecl>,
}

/// The value of a [`VariantDecl`].
pub struct VariantView {
    pub name: Seq<char>,
    pub fields: Seq<ArgView>,
}

/// The value of an [`EnumDecl`].
pub struct EnumView {
    pub name: Seq<char>,
    pub variants: Seq<VariantView>,
}

impl View for VariantDecl {
    type V = VariantView;

    open spec fn view(&self) -> VariantView {
        VariantView { name: self.name@, fields: args_view(self.fields@) }
    }
}

impl View for EnumDecl {
    type V = EnumView;

    open spec fn view(&self) -> EnumView {
        EnumView { name: self.name@, variants: self.variants@.map_values(|v: VariantDecl| v@) }
    }
}

/// The values of a sequence of declarations.
pub open spec fn decls_view(ds: Seq<EnumDecl>) -> Seq<EnumView> {
    ds.map_values(|d: EnumDecl| d@)
}

/// The name of the enum whose variants are commands.
pub open spec fn command_set_name() -> Seq<char> {
    "ExecuteMsg"@
}

/// The name of the enum whose variants are queries.
pub open spec fn query_set_name() -> Seq<char> {
    "QueryMsg"@
}

/// The suffix that turns a query variant's name into its response type.
pub open spec fn response_suffix() -> Seq<char> {
    "Response"@
}

/// A command variant is skipped when its first field is positional.
pub open spec fn skips_command(v: VariantView) -> bool {
    v.fields.len() > 0 && v.fields[0].ident is None
}

/// The command descriptor of a variant.
pub open spec fn command_of(v: VariantView) -> DescrView {
    DescrView::Command { name: v.name, args: v.fields }
}

/// The query descriptor of a variant.
pub open spec fn query_of(v: VariantView) -> DescrView {
    DescrView::Query { name: v.name, args: v.fields, response: v.name + response_suffix() }
}

/// The command descriptors of the variants of a command set, in order, without
/// the skipped ones.
pub open spec fn commands_of(vs: Seq<VariantView>) -> Seq<DescrView>
    decreases vs.len(),
{
    if vs.len() == 0 {
        Seq::empty()
    } else if skips_command(vs.last()) {
        commands_of(vs.drop_last())
    } else {
        commands_of(vs.drop_last()).push(command_of(vs.last()))
    }
}

/// The query descriptors of the variants of a query set, in order.
pub open spec fn queries_of(vs: Seq<VariantView>) -> Seq<DescrView> {
    vs.map_values(|v: VariantView| query_of(v))
}

/// The commands held after visiting `decls` in order, starting from `start`:
/// the last command set visited decides.
pub open spec fn commands_after(start: Seq<DescrView>, decls: Seq<EnumView>) -> Seq<DescrView>
    decreases decls.len(),
{
    if decls.len() == 0 {
        start
    } else if decls.last().name == command_set_name() {
        commands_of(decls.last().variants)
    } else {
        commands_after(start, decls.drop_last())
    }
}

/// The queries held after visiting `decls` in order, starting from `start`:
/// the last query set visited decides.
pub open spec fn queries_after(start: Seq<DescrView>, decls: Seq<EnumView>) -> Seq<DescrView>
    decreases decls.len(),
{
    if decls.len() == 0 {
        start
    } else if decls.last().name == query_set_name() {
        queries_of(decls.last().variants)
    } else {
        queries_after(start, decls.drop_last())
    }
}

/// The command descriptors extracted from a file's declarations.
pub open spec fn extracted_commands(decls: Seq<EnumView>) -> Seq<DescrView> {
    commands_after(Seq::empty(), decls)
}

/// The query descriptors extracted from a file's declarations.
pub open spec fn extracted_queries(decls: Seq<EnumView>) -> Seq<DescrView> {
    queries_after(Seq::empty(), decls)
}

proof fn lemma_commands_not_skipped(vs: Seq<VariantView>)
    ensures
        forall|k: int|
            0 <= k < commands_of(vs).len() ==> {
                let d = #[trigger] commands_of(vs)[k];
                &&& d is Command
                &&& !(d.args().len() > 0 && d.args()[0].ident is None)
            },
    decreases vs.len(),
{
    if vs.len() > 0 {
        lemma_commands_not_skipped(vs.drop_last());
    }
}

/// No two variants share a name.
pub open spec fn distinct_names(vs: Seq<VariantView>) -> bool {
    forall|a: int, b: int|
        0 <= a < vs.len() && 0 <= b < vs.len() && a != b ==> vs[a].name != vs[b].name
}

/// The variants that extraction keeps as commands.
pub open spec fn kept_commands(vs: Seq<VariantView>) -> Seq<VariantView> {
    vs.filter(|v: VariantView| !skips_command(v))
}

proof fn lemma_commands_from_kept(vs: Seq<VariantView>)
    ensures
        forall|k: int|
            0 <= k < commands_of(vs).len() ==> exists|j: int|
                0 <= j < vs.len() && !skips_command(vs[j]) && #[trigger] commands_of(vs)[k]
                    == command_of(vs[j]),
    decreases vs.len(),
{
    if vs.len() > 0 {
        let prev = vs.drop_last();
        lemma_commands_from_kept(prev);
        assert forall|k: int| 0 <= k < commands_of(vs).len() implies exists|j: int|
            0 <= j < vs.len() && !skips_command(vs[j]) && #[trigger] commands_of(vs)[k]
                == command_of(vs[j]) by {
            if k < commands_of(prev).len() {
                let j = choose|j: int|
                    0 <= j < prev.len() && !skips_command(prev[j]) && commands_of(prev)[k]
                        == command_of(prev[j]);
                assert(vs[j] == prev[j]);
            } else {
                assert(commands_of(vs)[k] == command_of(vs[vs.len() - 1]));
            }
        }
    }
}

proof fn lemma_command_names_distinct(vs: Seq<VariantView>)
    requires
        distinct_names(vs),
    ensures
        forall|k1: int, k2: int|
            0 <= k1 < commands_of(vs).len() && 0 <= k2 < commands_of(vs).len() && k1 != k2
                ==> (#[trigger] commands_of(vs)[k1]).name() != (#[trigger] commands_of(vs)[k2]).name(),
    decreases vs.len(),
{
    if vs.len() > 0 {
        let prev = vs.drop_last();
        assert(distinct_names(prev)) by {
            assert forall|a: int, b: int|
                0 <= a < prev.len() && 0 <= b < prev.len() && a != b implies prev[a].name
                != prev[b].name by {
                assert(prev[a] == vs[a] && prev[b] == vs[b]);
            }
        }
        lemma_command_names_distinct(prev);
        lemma_commands_from_kept(prev);
        let cs = commands_of(vs);
        let ps = commands_of(prev);
        assert forall|k1: int, k2: int|
            0 <= k1 < cs.len() && 0 <= k2 < cs.len() && k1 != k2 implies (#[trigger] cs[k1]).name()
            != (#[trigger] cs[k2]).name() by {
            if k1 < ps.len() && k2 < ps.len() {
                assert(cs[k1] == ps[k1] && cs[k2] == ps[k2]);
            } else {
                let k = if k1 < ps.len() { k1 } else { k2 };
                let j = choose|j: int|
                    0 <= j < prev.len() && !skips_command(prev[j]) && ps[k] == command_of(prev[j]);
                assert(cs[k] == ps[k]);
                assert(prev[j] == vs[j]);
                assert(vs[j].name != vs[vs.len() - 1].name);
            }
        }
    }
}

proof fn lemma_commands_count(vs: Seq<VariantView>)
    ensures
        commands_of(vs).len() == kept_commands(vs).len(),
    decreases vs.len(),
{
    reveal(Seq::filter);
    if vs.len() > 0 {
        lemma_commands_count(vs.drop_last());
    }
}

/// A command variant whose fields are all named, or which has none, yields a
/// command descriptor with the variant's name and its fields in declared
/// order; its parameters and its message initialisers follow that order.
pub proof fn lemma_named_command_rendered(vs: Seq<VariantView>, i: int)
    requires
        0 <= i < vs.len(),
        forall|j: int| 0 <= j < vs[i].fields.len() ==> (#[trigger] vs[i].fields[j]).ident is Some,
    ensures
        commands_of(vs).contains(command_of(vs[i])),
        command_of(vs[i]) == (DescrView::Command { name: vs[i].name, args: vs[i].fields }),
        params_text(vs[i].fields) == spaced(
            Seq::new(
                vs[i].fields.len(),
                |j: int| vs[i].fields[j].ident.unwrap() + " : "@ + vs[i].fields[j].ty + " ,"@,
            ),
        ),
        field_inits_text(vs[i].fields) == spaced(
            Seq::new(vs[i].fields.len(), |j: int| vs[i].fields[j].ident.unwrap() + " ,"@),
        ),
        signature_text(command_of(vs[i])) == "\tfn "@ + snake_of(vs[i].name) + "(app: &mut App, "@
            + params_text(vs[i].fields) + " funds: Vec<Coin>);"@,
        distinct_names(vs) ==> forall|k1: int, k2: int|
            0 <= k1 < commands_of(vs).len() && 0 <= k2 < commands_of(vs).len()
                && #[trigger] commands_of(vs)[k1] == command_of(vs[i])
                && #[trigger] commands_of(vs)[k2] == command_of(vs[i]) ==> k1 == k2,
    decreases vs.len(),
{
    if distinct_names(vs) {
        lemma_command_names_distinct(vs);
    }
    let fields = vs[i].fields;
    assert(Seq::new(fields.len(), |j: int| crate::descriptor::param_text(fields[j], j as nat))
        =~= Seq::new(fields.len(), |j: int| fields[j].ident.unwrap() + " : "@ + fields[j].ty + " ,"@));
    assert(Seq::new(fields.len(), |j: int| crate::descriptor::field_init_text(fields[j], j as nat))
        =~= Seq::new(fields.len(), |j: int| fields[j].ident.unwrap() + " ,"@));
    if i == vs.len() - 1 {
        assert(!skips_command(vs.last()));
        let cs = commands_of(vs);
        assert(cs[cs.len() - 1] == command_of(vs[i]));
    } else {
        lemma_named_command_rendered(vs.drop_last(), i);
        let prev = commands_of(vs.drop_last());
        let k = choose|k: int| 0 <= k < prev.len() && prev[k] == command_of(vs[i]);
        assert(commands_of(vs)[k] == command_of(vs[i]));
    }
}

/// A command variant whose first field is positional yields no descriptor:
/// no extracted command has a positional first argument, there are as many
/// commands as kept variants, and where variant names are distinct no
/// command carries the skipped variant's name.
pub proof fn lemma_positional_command_excluded(vs: Seq<VariantView>, i: int)
    requires
        0 <= i < vs.len(),
        vs[i].fields.len() > 0,
        vs[i].fields[0].ident is None,
    ensures
        !commands_of(vs).contains(command_of(vs[i])),
        commands_of(vs).len() == kept_commands(vs).len(),
        distinct_names(vs) ==> forall|k: int|
            0 <= k < commands_of(vs).len() ==> (#[trigger] commands_of(vs)[k]).name()
                != vs[i].name,
        forall|k: int|
            0 <= k < commands_of(vs).len() ==> !skips_command(
                VariantView {
                    name: (#[trigger] commands_of(vs)[k]).name(),
                    fields: commands_of(vs)[k].args(),
                },
            ),
{
    lemma_commands_not_skipped(vs);
    lemma_commands_count(vs);
    lemma_commands_from_kept(vs);
    if distinct_names(vs) {
        assert forall|k: int| 0 <= k < commands_of(vs).len() implies (#[trigger] commands_of(
            vs,
        )[k]).name() != vs[i].name by {
            let j = choose|j: int|
                0 <= j < vs.len() && !skips_command(vs[j]) && commands_of(vs)[k] == command_of(
                    vs[j],
                );
            assert(j != i);
        }
    }
}

/// Leaving out the skipped variants first changes nothing: extraction from
/// the variants it keeps gives the same commands again.
pub proof fn lemma_exclusion_idempotent(vs: Seq<VariantView>)
    ensures
        commands_of(vs.filter(|v: VariantView| !skips_command(v))) == commands_of(vs),
    decreases vs.len(),
{
    reveal(Seq::filter);
    let keep = |v: VariantView| !skips_command(v);
    if vs.len() > 0 {
        lemma_exclusion_idempotent(vs.drop_last());
        let kept = vs.drop_last().filter(keep);
        if keep(vs.last()) {
            assert(kept.push(vs.last()).drop_last() =~= kept);
        }
    }
}

/// Every query variant, whatever its fields, yields a query descriptor in the
/// same position whose response type is the variant's name followed by
/// `Response`.
pub proof fn lemma_query_response_type(vs: Seq<VariantView>, i: int)
    requires
        0 <= i < vs.len(),
    ensures
        queries_of(vs).len() == vs.len(),
        queries_of(vs)[i] == (DescrView::Query {
            name: vs[i].name,
            args: vs[i].fields,
            response: vs[i].name + "Response"@,
        }),
{
}

fn copy_arg(a: &MsgArg) -> (r: MsgArg)
    ensures
        r == *a,
{
    let ident = match &a.ident {
        Some(n) => Some(n.clone()),
        None => None,
    };
    MsgArg { ident, ty: a.ty.clone() }
}

pub(crate) fn copy_args(args: &Vec<MsgArg>) -> (r: Vec<MsgArg>)
    ensures
        r@ == args@,
{
    let mut r: Vec<MsgArg> = Vec::new();
    let mut i: usize = 0;
    while i < args.len()
        invariant
            i <= args@.len(),
            r@ == args@.take(i as int),
        decreases args.len() - i,
    {
        r.push(copy_arg(&args[i]));
        i += 1;
        assert(r@ =~= args@.take(i as int));
    }
    assert(args@.take(i as int) =~= args@);
    r
}

/// Collects the descriptors of a program's commands and queries.
pub struct EnumVisitor {
    pub execute_messages: Vec<MsgDescr>,
    pub query_messages: Vec<MsgDescr>,
}

impl EnumVisitor {
    /// A visitor that holds no descriptor yet.
    pub fn new() -> (r: EnumVisitor)
        ensures
            r.execute_messages@.len() == 0,
            r.query_messages@.len() == 0,
    {
        EnumVisitor { execute_messages: Vec::new(), query_messages: Vec::new() }
    }

    /// Visits one enum declaration. The command set replaces the commands
    /// held, the query set the queries held; any other enum changes nothing.
    pub fn visit_item_enum(&mut self, node: &EnumDecl)
        ensures
            node@.name == command_set_name() ==> descrs_view(final(self).execute_messages@)
                == commands_of(node@.variants),
            node@.name != command_set_name() ==> final(self).execute_messages
                == old(self).execute_messages,
            node@.name == query_set_name() ==> descrs_view(final(self).query_messages@)
                == queries_of(node@.variants),
            node@.name != query_set_name() ==> final(self).query_messages
                == old(self).query_messages,
    {
        let command_set = String::from_str("ExecuteMsg");
        let query_set = String::from_str("QueryMsg");
        proof {
            reveal_strlit("ExecuteMsg");
            reveal_strlit("QueryMsg");
            assert(command_set_name().len() != query_set_name().len());
        }
        if node.name == command_set {
            self.execute_messages = command_descriptors(&node.variants);
        } else if node.name == query_set {
            self.query_messages = query_descriptors(&node.variants);
        }
    }

    /// Visits the top-level declarations of a file in order.
    pub fn visit_file(&mut self, decls: &Vec<EnumDecl>)
        ensures
            descrs_view(final(self).execute_messages@) == commands_after(
                descrs_view(old(self).execute_messages@),
                decls_view(decls@),
            ),
            descrs_view(final(self).query_messages@) == queries_after(
                descrs_view(old(self).query_messages@),
                decls_view(decls@),
            ),
    {
        let ghost start_commands = descrs_view(self.execute_messages@);
        let ghost start_queries = descrs_view(self.query_messages@);
        let mut i: usize = 0;
        while i < decls.len()
            invariant
                i <= decls@.len(),
                descrs_view(self.execute_messages@) == commands_after(
                    start_commands,
                    decls_view(decls@.take(i as int)),
                ),
                descrs_view(self.query_messages@) == queries_after(
                    start_queries,
                    decls_view(decls@.take(i as int)),
                ),
            decreases decls.len() - i,
        {
            self.visit_item_enum(&decls[i]);
            proof {
                assert(decls_view(decls@.take(i + 1)).drop_last() =~= decls_view(
                    decls@.take(i as int),
                ));
                assert(decls_view(decls@.take(i + 1)).last() == decls@[i as int]@);
            }
            i += 1;
        }
        assert(decls@.take(i as int) =~= decls@);
    }
}

/// The command descriptors of a command set's variants.
pub fn command_descriptors(variants: &Vec<VariantDecl>) -> (r: Vec<MsgDescr>)
    ensures
        descrs_view(r@) == commands_of(variants@.map_values(|v: VariantDecl| v@)),
{
    let ghost vs = variants@.map_values(|v: VariantDecl| v@);
    let mut r: Vec<MsgDescr> = Vec::new();
    let mut i: usize = 0;
    while i < variants.len()
        invariant
            i <= variants@.len(),
            vs == variants@.map_values(|v: VariantDecl| v@),
            descrs_view(r@) == commands_of(vs.take(i as int)),
        decreases variants.len() - i,
    {
        let v = &variants[i];
        proof {
            assert(vs.take(i + 1).drop_last() =~= vs.take(i as int));
            assert(vs.take(i + 1).last() == v@);
        }
        let skipped = v.fields.len() > 0 && v.fields[0].ident.is_none();
        if !skipped {
            let d = MsgDescr::ExecuteMsg { ident: v.name.clone(), args: copy_args(&v.fields) };
            let ghost before = r@;
            r.push(d);
            assert(descrs_view(r@) =~= descrs_view(before).push(d@));
        }
        i += 1;
    }
    assert(vs.take(i as int) =~= vs);
    r
}

/// The query descriptors of a query set's variants.
pub fn query_descriptors(variants: &Vec<VariantDecl>) -> (r: Vec<MsgDescr>)
    ensures
        descrs_view(r@) == queries_of(variants@.map_values(|v: VariantDecl| v@)),
{
    let ghost vs = variants@.map_values(|v: VariantDecl| v@);
    let mut r: Vec<MsgDescr> = Vec::new();
    let mut i: usize = 0;
    while i < variants.len()
        invariant
            i <= variants@.len(),
            vs == variants@.map_values(|v: VariantDecl| v@),
            descrs_view(r@) == queries_of(vs.take(i as int)),
        decreases variants.len() - i,
    {
        let v = &variants[i];
        let mut return_type = v.name.clone();
        return_type.append("Response");
        let d = MsgDescr::QueryMsg {
            ident: v.name.clone(),
            args: copy_args(&v.fields),
            return_type,
        };
        let ghost before = r@;
        r.push(d);
        assert(descrs_view(r@) =~= descrs_view(before).push(d@));
        assert(queries_of(vs.take(i + 1)) =~= queries_of(vs.take(i as int)).push(query_of(v@)));
        i += 1;
    }
    assert(vs.take(i as int) =~= vs);
    r
}

} // verus!
