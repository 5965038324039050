//! Assembly of the generated document: the trait with one signature per
//! message, then its implementation for `Robot` with one dispatching method
//! per message; commands first, then queries, each in extracted order.

use vstd::prelude::*;

use crate::descriptor::{descrs_view, dispatch_text, signature_text, DescrView, MsgDescr};
use crate::extract::{
    command_set_name, commands_after, commands_of, decls_view, extracted_commands,
    extracted_queries, queries_after, queries_of, query_set_name, EnumDecl, EnumView, EnumVisitor,
};

verus! {

/// The signatures of the descriptors, one line each.
pub open spec fn signatures_text(ds: Seq<DescrView>) -> Seq<char>
    decreases ds.len(),
{
    if ds.len() == 0 {
        Seq::empty()
    } else {
        signatures_text(ds.drop_last()) + signature_text(ds.last()) + "\n"@
    }
}

/// The dispatching methods of the descriptors, one after the other.
pub open spec fn dispatches_text(ds: Seq<DescrView>) -> Seq<char>
    decreases ds.len(),
{
    if ds.len() == 0 {
        Seq::empty()
    } else {
        dispatches_text(ds.drop_last()) + dispatch_text(ds.last())
    }
}

/// The interface block: the trait named `trait_name` with the signatures of
/// the commands, then those of the queries.
pub open spec fn interface_text(
    trait_name: Seq<char>,
    commands: Seq<DescrView>,
    queries: Seq<DescrView>,
) -> Seq<char> {
    "pub trait "@ + trait_name + " {\n"@ + signatures_text(commands) + signatures_text(queries)
        + "}\n\n"@
}

/// The implementation block: the trait implemented for `Robot` with the
/// dispatching methods of the commands, then those of the queries.
pub open spec fn implementation_text(
    trait_name: Seq<char>,
    commands: Seq<DescrView>,
    queries: Seq<DescrView>,
) -> Seq<char> {
    "impl "@ + trait_name + " for Robot {\n"@ + dispatches_text(commands) + dispatches_text(
        queries,
    ) + "}"@
}

/// The whole document: the interface block followed by the implementation
/// block.
pub open spec fn document_text(
    trait_name: Seq<char>,
    commands: Seq<DescrView>,
    queries: Seq<DescrView>,
) -> Seq<char> {
    interface_text(trait_name, commands, queries) + implementation_text(
        trait_name,
        commands,
        queries,
    )
}

/// The document generated from a file's top-level declarations.
pub open spec fn generated_text(trait_name: Seq<char>, decls: Seq<EnumView>) -> Seq<char> {
    document_text(trait_name, extracted_commands(decls), extracted_queries(decls))
}

proof fn lemma_no_targets_extract_nothing(start_c: Seq<DescrView>, start_q: Seq<DescrView>, decls: Seq<EnumView>)
    requires
        forall|i: int|
            0 <= i < decls.len() ==> (#[trigger] decls[i]).name != command_set_name()
                && decls[i].name != query_set_name(),
    ensures
        commands_after(start_c, decls) == start_c,
        queries_after(start_q, decls) == start_q,
    decreases decls.len(),
{
    if decls.len() > 0 {
        assert(decls.last() == decls[decls.len() - 1]);
        lemma_no_targets_extract_nothing(start_c, start_q, decls.drop_last());
    }
}

/// Declarations without a command set and without a query set give a
/// document whose interface and implementation blocks hold no method.
pub proof fn lemma_no_targets_empty_blocks(trait_name: Seq<char>, decls: Seq<EnumView>)
    requires
        forall|i: int|
            0 <= i < decls.len() ==> (#[trigger] decls[i]).name != command_set_name()
                && decls[i].name != query_set_name(),
    ensures
        extracted_commands(decls).len() == 0,
        extracted_queries(decls).len() == 0,
        generated_text(trait_name, decls) == "pub trait "@ + trait_name + " {\n"@ + "}\n\n"@
            + ("impl "@ + trait_name + " for Robot {\n"@ + "}"@),
{
    lemma_no_targets_extract_nothing(Seq::empty(), Seq::empty(), decls);
    let empty = Seq::<DescrView>::empty();
    assert(signatures_text(empty) == Seq::<char>::empty());
    assert(dispatches_text(empty) == Seq::<char>::empty());
    assert(interface_text(trait_name, empty, empty) =~= "pub trait "@ + trait_name + " {\n"@
        + "}\n\n"@);
    assert(implementation_text(trait_name, empty, empty) =~= "impl "@ + trait_name
        + " for Robot {\n"@ + "}"@);
}

/// In both blocks the commands come before the queries: the interface lists
/// the signatures of all commands, then those of all queries, and the
/// implementation their dispatching methods in the same order.
pub proof fn lemma_commands_precede_queries(trait_name: Seq<char>, decls: Seq<EnumView>)
    ensures
        generated_text(trait_name, decls) == "pub trait "@ + trait_name + " {\n"@
            + signatures_text(extracted_commands(decls)) + signatures_text(
            extracted_queries(decls),
        ) + "}\n\n"@ + ("impl "@ + trait_name + " for Robot {\n"@ + dispatches_text(
            extracted_commands(decls),
        ) + dispatches_text(extracted_queries(decls)) + "}"@),
{
}

/// The file declares its command set once, at position `i`.
pub open spec fn single_command_set(decls: Seq<EnumView>, i: int) -> bool {
    &&& 0 <= i < decls.len()
    &&& decls[i].name == command_set_name()
    &&& forall|j: int| 0 <= j < decls.len() && j != i ==> (#[trigger] decls[j]).name != command_set_name()
}

/// The file declares its query set once, at position `i`.
pub open spec fn single_query_set(decls: Seq<EnumView>, i: int) -> bool {
    &&& 0 <= i < decls.len()
    &&& decls[i].name == query_set_name()
    &&& forall|j: int| 0 <= j < decls.len() && j != i ==> (#[trigger] decls[j]).name != query_set_name()
}

proof fn lemma_single_sets_extracted(decls: Seq<EnumView>, c: int, q: int)
    requires
        single_command_set(decls, c),
        single_query_set(decls, q),
    ensures
        extracted_commands(decls) == commands_of(decls[c].variants),
        extracted_queries(decls) == queries_of(decls[q].variants),
{
    lemma_single_command_set_extracted(decls, c);
    lemma_single_query_set_extracted(decls, q);
}

proof fn lemma_single_command_set_extracted(decls: Seq<EnumView>, c: int)
    requires
        single_command_set(decls, c),
    ensures
        extracted_commands(decls) == commands_of(decls[c].variants),
    decreases decls.len(),
{
    if c < decls.len() - 1 {
        let prev = decls.drop_last();
        assert(decls.last() == decls[decls.len() - 1]);
        assert forall|j: int| 0 <= j < prev.len() && j != c implies (#[trigger] prev[j]).name
            != command_set_name() by {
            assert(prev[j] == decls[j]);
        }
        lemma_single_command_set_extracted(prev, c);
    }
}

proof fn lemma_single_query_set_extracted(decls: Seq<EnumView>, q: int)
    requires
        single_query_set(decls, q),
    ensures
        extracted_queries(decls) == queries_of(decls[q].variants),
    decreases decls.len(),
{
    if q < decls.len() - 1 {
        let prev = decls.drop_last();
        assert(decls.last() == decls[decls.len() - 1]);
        assert forall|j: int| 0 <= j < prev.len() && j != q implies (#[trigger] prev[j]).name
            != query_set_name() by {
            assert(prev[j] == decls[j]);
        }
        lemma_single_query_set_extracted(prev, q);
    }
}

/// Two files that each declare the same command set once and the same query
/// set once give the same document, whatever else they declare and in
/// whatever order: in particular, the query set may come before the command
/// set or after it.
pub proof fn lemma_declaration_order_irrelevant(
    trait_name: Seq<char>,
    a: Seq<EnumView>,
    b: Seq<EnumView>,
    ac: int,
    aq: int,
    bc: int,
    bq: int,
)
    requires
        single_command_set(a, ac),
        single_query_set(a, aq),
        single_command_set(b, bc),
        single_query_set(b, bq),
        a[ac] == b[bc],
        a[aq] == b[bq],
    ensures
        generated_text(trait_name, a) == generated_text(trait_name, b),
        extracted_commands(a) == commands_of(a[ac].variants),
        extracted_queries(a) == queries_of(a[aq].variants),
{
    lemma_single_sets_extracted(a, ac, aq);
    lemma_single_sets_extracted(b, bc, bq);
}

fn push_signatures(s: &mut String, ds: &Vec<MsgDescr>)
    ensures
        final(s)@ == old(s)@ + signatures_text(descrs_view(ds@)),
{
    let ghost start = s@;
    let mut i: usize = 0;
    while i < ds.len()
        invariant
            i <= ds@.len(),
            s@ == start + signatures_text(descrs_view(ds@.take(i as int))),
        decreases ds.len() - i,
    {
        let line = ds[i].to_trait_def();
        s.append(line.as_str());
        s.append("\n");
        proof {
            assert(descrs_view(ds@.take(i + 1)).drop_last() =~= descrs_view(ds@.take(i as int)));
        }
        i += 1;
        assert(s@ =~= start + signatures_text(descrs_view(ds@.take(i as int))));
    }
    assert(ds@.take(i as int) =~= ds@);
}

fn push_dispatches(s: &mut String, ds: &Vec<MsgDescr>)
    ensures
        final(s)@ == old(s)@ + dispatches_text(descrs_view(ds@)),
{
    let ghost start = s@;
    let mut i: usize = 0;
    while i < ds.len()
        invariant
            i <= ds@.len(),
            s@ == start + dispatches_text(descrs_view(ds@.take(i as int))),
        decreases ds.len() - i,
    {
        let body = ds[i].to_trait_impl();
        s.append(body.as_str());
        proof {
            assert(descrs_view(ds@.take(i + 1)).drop_last() =~= descrs_view(ds@.take(i as int)));
        }
        i += 1;
        assert(s@ =~= start + dispatches_text(descrs_view(ds@.take(i as int))));
    }
    assert(ds@.take(i as int) =~= ds@);
}

/// The document for the given commands and queries under the trait name
/// `trait_name`.
pub fn render_document(commands: &Vec<MsgDescr>, queries: &Vec<MsgDescr>, trait_name: &str) -> (r:
    String)
    ensures
        r@ == document_text(trait_name@, descrs_view(commands@), descrs_view(queries@)),
{
    let mut r = String::new();
    r.append("pub trait ");
    r.append(trait_name);
    r.append(" {\n");
    push_signatures(&mut r, commands);
    push_signatures(&mut r, queries);
    r.append("}\n\n");
    r.append("impl ");
    r.append(trait_name);
    r.append(" for Robot {\n");
    push_dispatches(&mut r, commands);
    push_dispatches(&mut r, queries);
    r.append("}");
    assert(r@ =~= document_text(trait_name@, descrs_view(commands@), descrs_view(queries@)));
    r
}

/// The document generated from a file's top-level declarations under the
/// trait name `trait_name`.
pub fn generate_from_declarations(decls: &Vec<EnumDecl>, trait_name: &str) -> (r: String)
    ensures
        r@ == generated_text(trait_name@, decls_view(decls@)),
{
    let mut visitor = EnumVisitor::new();
    assert(descrs_view(visitor.execute_messages@) =~= Seq::empty());
    assert(descrs_view(visitor.query_messages@) =~= Seq::empty());
    visitor.visit_file(decls);
    render_document(&visitor.execute_messages, &visitor.query_messages, trait_name)
}

} // verus!
