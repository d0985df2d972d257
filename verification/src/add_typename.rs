//! Adds a `__typename` field to every nested selection set of a query
//! document, the way Apollo does before it hashes a persisted query.
//!
//! The selection set of an operation itself gets no `__typename`; the
//! selection sets below it (of fields, inline fragments) and those of
//! fragment definitions get one at their end, unless they are empty or
//! already select `__typename`.
use vstd::prelude::*;
use crate::ast::{
    view_field, view_inline_fragment, view_selection, view_selection_set, Definition, Document,
    Field, FragmentDefinition, InlineFragment, Mutation, OperationDefinition, Pos, Query,
    Selection, SelectionSet, SpecDefinition, SpecDocument, SpecField, SpecFragmentDefinition,
    SpecInlineFragment, SpecOperation, SpecOperationDefinition, SpecSelection, SpecSelectionSet,
    Subscription,
};
use crate::ast_clone::{
    clone_arguments, clone_directives, clone_fragment_spread, clone_opt_string,
    clone_opt_type_condition, clone_type_condition, clone_variable_definitions,
};

verus! {

// ---------------------------------------------------------------------------
// Specification
// ---------------------------------------------------------------------------

/// The position given to the `__typename` fields that are added.
pub open spec fn origin() -> Pos {
    Pos { line: 0, column: 0 }
}

/// The name of the field that is added.
pub open spec fn typename_name() -> Seq<char> {
    "__typename"@
}

/// The field that is added: `__typename`, at the origin, with no alias,
/// argument, directive or selection.
pub open spec fn typename_selection() -> SpecSelection {
    SpecSelection::Field(
        SpecField {
            position: origin(),
            alias: None,
            name: typename_name(),
            arguments: Seq::empty(),
            directives: Seq::empty(),
            selection_set: SpecSelectionSet { span: (origin(), origin()), items: Seq::empty() },
        },
    )
}

/// A selection is a `__typename` field (whatever its alias).
pub open spec fn is_typename_field(s: SpecSelection) -> bool {
    s matches SpecSelection::Field(f) && f.name == typename_name()
}

/// Some item of the sequence is a `__typename` field.
pub open spec fn has_typename(items: Seq<SpecSelection>) -> bool {
    exists|i: int| 0 <= i < items.len() && is_typename_field(#[trigger] items[i])
}

/// Appends the `__typename` field to transformed items that lack one and
/// are not empty.
pub open spec fn close_items(items: Seq<SpecSelection>) -> Seq<SpecSelection> {
    if !has_typename(items) && items.len() > 0 {
        items.push(typename_selection())
    } else {
        items
    }
}

/// Every item transformed, in order.
pub open spec fn with_typename_items(items: Seq<SpecSelection>) -> Seq<SpecSelection>
    decreases items,
{
    Seq::new(
        items.len(),
        |i: int|
            if 0 <= i < items.len() {
                with_typename_selection(items[i])
            } else {
                typename_selection()
            },
    )
}

/// A nested selection set: its items transformed, then `__typename` added
/// where `close_items` says.
pub open spec fn with_typename_selection_set(ss: SpecSelectionSet) -> SpecSelectionSet
    decreases ss,
{
    SpecSelectionSet { span: ss.span, items: close_items(with_typename_items(ss.items)) }
}

/// The selection set of an operation: its items transformed, nothing added.
pub open spec fn with_typename_root_selection_set(ss: SpecSelectionSet) -> SpecSelectionSet {
    SpecSelectionSet { span: ss.span, items: with_typename_items(ss.items) }
}

pub open spec fn with_typename_field(f: SpecField) -> SpecField
    decreases f,
{
    SpecField { selection_set: with_typename_selection_set(f.selection_set), ..f }
}

pub open spec fn with_typename_inline_fragment(f: SpecInlineFragment) -> SpecInlineFragment
    decreases f,
{
    SpecInlineFragment { selection_set: with_typename_selection_set(f.selection_set), ..f }
}

pub open spec fn with_typename_selection(s: SpecSelection) -> SpecSelection
    decreases s,
{
    match s {
        SpecSelection::Field(f) => SpecSelection::Field(with_typename_field(f)),
        SpecSelection::FragmentSpread(fs) => SpecSelection::FragmentSpread(fs),
        SpecSelection::InlineFragment(inf) => SpecSelection::InlineFragment(
            with_typename_inline_fragment(inf),
        ),
    }
}

pub open spec fn with_typename_operation(op: SpecOperation) -> SpecOperation {
    SpecOperation { selection_set: with_typename_root_selection_set(op.selection_set), ..op }
}

pub open spec fn with_typename_operation_definition(
    op: SpecOperationDefinition,
) -> SpecOperationDefinition {
    match op {
        SpecOperationDefinition::SelectionSet(ss) => SpecOperationDefinition::SelectionSet(
            with_typename_root_selection_set(ss),
        ),
        SpecOperationDefinition::Query(q) => SpecOperationDefinition::Query(
            with_typename_operation(q),
        ),
        SpecOperationDefinition::Mutation(m) => SpecOperationDefinition::Mutation(
            with_typename_operation(m),
        ),
        SpecOperationDefinition::Subscription(s) => SpecOperationDefinition::Subscription(
            with_typename_operation(s),
        ),
    }
}

pub open spec fn with_typename_fragment(f: SpecFragmentDefinition) -> SpecFragmentDefinition {
    SpecFragmentDefinition { selection_set: with_typename_selection_set(f.selection_set), ..f }
}

pub open spec fn with_typename_definition(d: SpecDefinition) -> SpecDefinition {
    match d {
        SpecDefinition::Operation(op) => SpecDefinition::Operation(
            with_typename_operation_definition(op),
        ),
        SpecDefinition::Fragment(f) => SpecDefinition::Fragment(with_typename_fragment(f)),
    }
}

/// The document with `__typename` added to every nested selection set.
pub open spec fn with_typename_document(d: SpecDocument) -> SpecDocument {
    SpecDocument {
        definitions: Seq::new(
            d.definitions.len(),
            |i: int| with_typename_definition(d.definitions[i]),
        ),
    }
}

// ---------------------------------------------------------------------------
// Laws
// ---------------------------------------------------------------------------

/// Every non-empty selection set at or below this one selects `__typename`.
pub open spec fn typename_closed_selection_set(ss: SpecSelectionSet) -> bool
    decreases ss,
{
    &&& ss.items.len() > 0 ==> has_typename(ss.items)
    &&& typename_closed_items(ss.items)
}

/// Every non-empty selection set below these items selects `__typename`.
pub open spec fn typename_closed_items(items: Seq<SpecSelection>) -> bool
    decreases items,
{
    forall|i: int| 0 <= i < items.len() ==> typename_closed_selection(#[trigger] items[i])
}

pub open spec fn typename_closed_selection(s: SpecSelection) -> bool
    decreases s,
{
    match s {
        SpecSelection::Field(f) => typename_closed_selection_set(f.selection_set),
        SpecSelection::FragmentSpread(_) => true,
        SpecSelection::InlineFragment(inf) => typename_closed_selection_set(inf.selection_set),
    }
}

pub open spec fn typename_closed_operation_definition(op: SpecOperationDefinition) -> bool {
    match op {
        SpecOperationDefinition::SelectionSet(ss) => typename_closed_items(ss.items),
        SpecOperationDefinition::Query(q) => typename_closed_items(q.selection_set.items),
        SpecOperationDefinition::Mutation(m) => typename_closed_items(m.selection_set.items),
        SpecOperationDefinition::Subscription(s) => typename_closed_items(s.selection_set.items),
    }
}

/// In every operation, each non-empty selection set below the operation's
/// own selection set selects `__typename`; in every fragment definition,
/// each non-empty selection set does.
pub open spec fn typename_closed_document(d: SpecDocument) -> bool {
    forall|i: int|
        0 <= i < d.definitions.len() ==> match #[trigger] d.definitions[i] {
            SpecDefinition::Operation(op) => typename_closed_operation_definition(op),
            SpecDefinition::Fragment(f) => typename_closed_selection_set(f.selection_set),
        }
}

proof fn lemma_typename_selection_fixed()
    ensures
        with_typename_selection(typename_selection()) == typename_selection(),
        typename_closed_selection(typename_selection()),
        is_typename_field(typename_selection()),
{
    let e = SpecSelectionSet { span: (origin(), origin()), items: Seq::<SpecSelection>::empty() };
    assert(with_typename_items(e.items) =~= e.items);
    assert(with_typename_selection_set(e) == e);
    assert(typename_closed_items(e.items));
}

/// The transformation keeps whether a selection is a `__typename` field.
proof fn lemma_keeps_typename_field(s: SpecSelection)
    ensures
        is_typename_field(with_typename_selection(s)) == is_typename_field(s),
{
}

proof fn lemma_items_keep_typename(items: Seq<SpecSelection>)
    ensures
        has_typename(with_typename_items(items)) == has_typename(items),
{
    let t = with_typename_items(items);
    if has_typename(items) {
        let i = choose|i: int| 0 <= i < items.len() && is_typename_field(#[trigger] items[i]);
        lemma_keeps_typename_field(items[i]);
        assert(is_typename_field(t[i]));
    }
    if has_typename(t) {
        let i = choose|i: int| 0 <= i < t.len() && is_typename_field(#[trigger] t[i]);
        lemma_keeps_typename_field(items[i]);
        assert(is_typename_field(items[i]));
    }
}

proof fn lemma_items_push(items: Seq<SpecSelection>, s: SpecSelection)
    ensures
        with_typename_items(items.push(s)) == with_typename_items(items).push(
            with_typename_selection(s),
        ),
{
    assert(with_typename_items(items.push(s)) =~= with_typename_items(items).push(
        with_typename_selection(s),
    ));
}

proof fn lemma_items_idempotent(items: Seq<SpecSelection>)
    ensures
        with_typename_items(with_typename_items(items)) == with_typename_items(items),
        typename_closed_items(with_typename_items(items)),
    decreases items,
{
    let t = with_typename_items(items);
    assert forall|i: int| 0 <= i < t.len() implies with_typename_selection(t[i]) == t[i]
        && typename_closed_selection(t[i]) by {
        assert(decreases_to!(items => items[i]));
        lemma_selection_idempotent(items[i]);
    }
    assert(with_typename_items(t) =~= t);
}

proof fn lemma_selection_set_idempotent(ss: SpecSelectionSet)
    ensures
        with_typename_selection_set(with_typename_selection_set(ss)) == with_typename_selection_set(
            ss,
        ),
        typename_closed_selection_set(with_typename_selection_set(ss)),
    decreases ss,
{
    let t = with_typename_items(ss.items);
    lemma_items_idempotent(ss.items);
    lemma_typename_selection_fixed();
    let c = close_items(t);
    if !has_typename(t) && t.len() > 0 {
        lemma_items_push(t, typename_selection());
        assert(with_typename_items(c) == c);
        assert(is_typename_field(c[c.len() - 1]));
        assert(has_typename(c));
        assert forall|i: int| 0 <= i < c.len() implies typename_closed_selection(c[i]) by {
            if i < t.len() {
                assert(c[i] == t[i]);
            }
        }
    } else {
        assert(with_typename_items(c) == c);
    }
    assert(close_items(c) == c);
}

proof fn lemma_selection_idempotent(s: SpecSelection)
    ensures
        with_typename_selection(with_typename_selection(s)) == with_typename_selection(s),
        typename_closed_selection(with_typename_selection(s)),
    decreases s,
{
    match s {
        SpecSelection::Field(f) => {
            lemma_selection_set_idempotent(f.selection_set);
        },
        SpecSelection::FragmentSpread(_) => {},
        SpecSelection::InlineFragment(inf) => {
            lemma_selection_set_idempotent(inf.selection_set);
        },
    }
}

proof fn lemma_root_idempotent(ss: SpecSelectionSet)
    ensures
        with_typename_root_selection_set(with_typename_root_selection_set(ss))
            == with_typename_root_selection_set(ss),
        typename_closed_items(with_typename_root_selection_set(ss).items),
{
    lemma_items_idempotent(ss.items);
}

/// Adding `__typename` to a document that already went through the
/// transformation changes nothing: the transformation is idempotent.
pub proof fn law_add_typename_idempotent(doc: SpecDocument)
    ensures
        with_typename_document(with_typename_document(doc)) == with_typename_document(doc),
{
    let once = with_typename_document(doc);
    assert forall|i: int| 0 <= i < once.definitions.len() implies with_typename_definition(
        once.definitions[i],
    ) == once.definitions[i] by {
        match doc.definitions[i] {
            SpecDefinition::Operation(op) => match op {
                SpecOperationDefinition::SelectionSet(ss) => lemma_root_idempotent(ss),
                SpecOperationDefinition::Query(q) => lemma_root_idempotent(q.selection_set),
                SpecOperationDefinition::Mutation(m) => lemma_root_idempotent(m.selection_set),
                SpecOperationDefinition::Subscription(s) => lemma_root_idempotent(
                    s.selection_set,
                ),
            },
            SpecDefinition::Fragment(f) => lemma_selection_set_idempotent(f.selection_set),
        }
    }
    assert(with_typename_document(once).definitions =~= once.definitions);
}

/// After the transformation, every non-empty selection set below an
/// operation's own selection set, and every non-empty selection set of a
/// fragment definition, selects `__typename`.
pub proof fn law_add_typename_closes_selection_sets(doc: SpecDocument)
    ensures
        typename_closed_document(with_typename_document(doc)),
{
    let once = with_typename_document(doc);
    assert forall|i: int| 0 <= i < once.definitions.len() implies match #[trigger] once.definitions[i] {
        SpecDefinition::Operation(op) => typename_closed_operation_definition(op),
        SpecDefinition::Fragment(f) => typename_closed_selection_set(f.selection_set),
    } by {
        match doc.definitions[i] {
            SpecDefinition::Operation(op) => match op {
                SpecOperationDefinition::SelectionSet(ss) => lemma_root_idempotent(ss),
                SpecOperationDefinition::Query(q) => lemma_root_idempotent(q.selection_set),
                SpecOperationDefinition::Mutation(m) => lemma_root_idempotent(m.selection_set),
                SpecOperationDefinition::Subscription(s) => lemma_root_idempotent(
                    s.selection_set,
                ),
            },
            SpecDefinition::Fragment(f) => lemma_selection_set_idempotent(f.selection_set),
        }
    }
}

/// A selection is a field at position 0:0, where the added fields stand.
pub open spec fn is_origin_field(s: SpecSelection) -> bool {
    s matches SpecSelection::Field(f) && f.position == origin()
}

/// No field at or below these items stands at position 0:0.
pub open spec fn no_origin_field_items(items: Seq<SpecSelection>) -> bool
    decreases items,
{
    forall|i: int|
        0 <= i < items.len() ==> !is_origin_field(#[trigger] items[i])
            && no_origin_field_selection(items[i])
}

pub open spec fn no_origin_field_selection(s: SpecSelection) -> bool
    decreases s,
{
    match s {
        SpecSelection::Field(f) => no_origin_field_items(f.selection_set.items),
        SpecSelection::FragmentSpread(_) => true,
        SpecSelection::InlineFragment(inf) => no_origin_field_items(inf.selection_set.items),
    }
}

/// Every field at or below these items that stands at position 0:0 is the
/// plain `__typename` field.
pub open spec fn origin_fields_are_typename_items(items: Seq<SpecSelection>) -> bool
    decreases items,
{
    forall|i: int|
        0 <= i < items.len() ==> (is_origin_field(#[trigger] items[i]) ==> items[i]
            == typename_selection()) && origin_fields_are_typename_selection(items[i])
}

pub open spec fn origin_fields_are_typename_selection(s: SpecSelection) -> bool
    decreases s,
{
    match s {
        SpecSelection::Field(f) => origin_fields_are_typename_items(f.selection_set.items),
        SpecSelection::FragmentSpread(_) => true,
        SpecSelection::InlineFragment(inf) => origin_fields_are_typename_items(
            inf.selection_set.items,
        ),
    }
}

/// The items with every field at position 0:0 deleted, at every depth.
pub open spec fn strip_origin_items(items: Seq<SpecSelection>) -> Seq<SpecSelection>
    decreases items,
{
    if items.len() == 0 {
        Seq::empty()
    } else {
        let rest = strip_origin_items(items.subrange(0, items.len() - 1));
        let last = items[items.len() - 1];
        if is_origin_field(last) {
            rest
        } else {
            rest.push(strip_origin_selection(last))
        }
    }
}

pub open spec fn strip_origin_selection_set(ss: SpecSelectionSet) -> SpecSelectionSet
    decreases ss,
{
    SpecSelectionSet { span: ss.span, items: strip_origin_items(ss.items) }
}

pub open spec fn strip_origin_selection(s: SpecSelection) -> SpecSelection
    decreases s,
{
    match s {
        SpecSelection::Field(f) => SpecSelection::Field(
            SpecField { selection_set: strip_origin_selection_set(f.selection_set), ..f },
        ),
        SpecSelection::FragmentSpread(fs) => SpecSelection::FragmentSpread(fs),
        SpecSelection::InlineFragment(inf) => SpecSelection::InlineFragment(
            SpecInlineFragment { selection_set: strip_origin_selection_set(inf.selection_set), ..inf },
        ),
    }
}

pub open spec fn operation_root(op: SpecOperationDefinition) -> SpecSelectionSet {
    match op {
        SpecOperationDefinition::SelectionSet(ss) => ss,
        SpecOperationDefinition::Query(q) => q.selection_set,
        SpecOperationDefinition::Mutation(m) => m.selection_set,
        SpecOperationDefinition::Subscription(s) => s.selection_set,
    }
}

pub open spec fn strip_origin_operation_definition(
    op: SpecOperationDefinition,
) -> SpecOperationDefinition {
    match op {
        SpecOperationDefinition::SelectionSet(ss) => SpecOperationDefinition::SelectionSet(
            strip_origin_selection_set(ss),
        ),
        SpecOperationDefinition::Query(q) => SpecOperationDefinition::Query(
            SpecOperation { selection_set: strip_origin_selection_set(q.selection_set), ..q },
        ),
        SpecOperationDefinition::Mutation(m) => SpecOperationDefinition::Mutation(
            SpecOperation { selection_set: strip_origin_selection_set(m.selection_set), ..m },
        ),
        SpecOperationDefinition::Subscription(s) => SpecOperationDefinition::Subscription(
            SpecOperation { selection_set: strip_origin_selection_set(s.selection_set), ..s },
        ),
    }
}

pub open spec fn strip_origin_definition(d: SpecDefinition) -> SpecDefinition {
    match d {
        SpecDefinition::Operation(op) => SpecDefinition::Operation(
            strip_origin_operation_definition(op),
        ),
        SpecDefinition::Fragment(f) => SpecDefinition::Fragment(
            SpecFragmentDefinition { selection_set: strip_origin_selection_set(f.selection_set), ..f },
        ),
    }
}

/// The document with every field at position 0:0 deleted from every
/// selection set, at any depth.
pub open spec fn strip_origin_document(d: SpecDocument) -> SpecDocument {
    SpecDocument {
        definitions: Seq::new(
            d.definitions.len(),
            |i: int| strip_origin_definition(d.definitions[i]),
        ),
    }
}

pub open spec fn definition_root(d: SpecDefinition) -> SpecSelectionSet {
    match d {
        SpecDefinition::Operation(op) => operation_root(op),
        SpecDefinition::Fragment(f) => f.selection_set,
    }
}

/// No field of the document stands at position 0:0 (a parsed document
/// counts lines from 1).
pub open spec fn no_origin_field_document(d: SpecDocument) -> bool {
    forall|i: int|
        0 <= i < d.definitions.len() ==> no_origin_field_items(
            #[trigger] definition_root(d.definitions[i]).items,
        )
}

/// Every field of the document at position 0:0 is the plain `__typename`
/// field.
pub open spec fn origin_fields_are_typename_document(d: SpecDocument) -> bool {
    forall|i: int|
        0 <= i < d.definitions.len() ==> origin_fields_are_typename_items(
            #[trigger] definition_root(d.definitions[i]).items,
        )
}

proof fn lemma_strip_items(items: Seq<SpecSelection>)
    requires
        no_origin_field_items(items),
    ensures
        strip_origin_items(with_typename_items(items)) == items,
        origin_fields_are_typename_items(with_typename_items(items)),
    decreases items,
{
    let w = with_typename_items(items);
    if items.len() == 0 {
        assert(w.len() == 0);
        assert(strip_origin_items(w) =~= items);
    } else {
        let n = items.len();
        let p = items.subrange(0, n - 1);
        assert(decreases_to!(items => p));
        lemma_strip_items(p);
        assert(decreases_to!(items => items[n - 1]));
        lemma_strip_selection(items[n - 1]);
        assert(w.subrange(0, n - 1) =~= with_typename_items(p));
        assert(!is_origin_field(w[n - 1]));
        assert(strip_origin_items(w) =~= items);
        assert forall|i: int| 0 <= i < n implies (is_origin_field(#[trigger] w[i]) ==> w[i]
            == typename_selection()) && origin_fields_are_typename_selection(w[i]) by {
            if i < n - 1 {
                assert(w[i] == with_typename_items(p)[i]);
            }
        }
    }
}

proof fn lemma_strip_selection_set(ss: SpecSelectionSet)
    requires
        no_origin_field_items(ss.items),
    ensures
        strip_origin_selection_set(with_typename_selection_set(ss)) == ss,
        strip_origin_selection_set(with_typename_root_selection_set(ss)) == ss,
        origin_fields_are_typename_items(with_typename_selection_set(ss).items),
        origin_fields_are_typename_items(with_typename_root_selection_set(ss).items),
    decreases ss,
{
    let t = with_typename_items(ss.items);
    lemma_strip_items(ss.items);
    lemma_typename_selection_fixed();
    if !has_typename(t) && t.len() > 0 {
        let c = t.push(typename_selection());
        assert(c.subrange(0, c.len() - 1) =~= t);
        assert(is_origin_field(c[c.len() - 1]));
        assert(strip_origin_items(c) == ss.items);
        let e = SpecSelectionSet { span: (origin(), origin()), items: Seq::<SpecSelection>::empty() };
        assert(origin_fields_are_typename_items(e.items));
        assert forall|i: int| 0 <= i < c.len() implies (is_origin_field(#[trigger] c[i]) ==> c[i]
            == typename_selection()) && origin_fields_are_typename_selection(c[i]) by {
            if i < t.len() {
                assert(c[i] == t[i]);
            }
        }
    }
}

proof fn lemma_strip_selection(s: SpecSelection)
    requires
        no_origin_field_selection(s),
    ensures
        strip_origin_selection(with_typename_selection(s)) == s,
        origin_fields_are_typename_selection(with_typename_selection(s)),
    decreases s,
{
    match s {
        SpecSelection::Field(f) => {
            lemma_strip_selection_set(f.selection_set);
        },
        SpecSelection::FragmentSpread(_) => {},
        SpecSelection::InlineFragment(inf) => {
            lemma_strip_selection_set(inf.selection_set);
        },
    }
}

/// Deleting every field at position 0:0 from the transformed document gives
/// back the original document, when no field of the original stands at 0:0;
/// and every field deleted that way is the plain `__typename` field (no
/// alias, argument, directive or selection).
pub proof fn law_add_typename_round_trip(doc: SpecDocument)
    requires
        no_origin_field_document(doc),
    ensures
        strip_origin_document(with_typename_document(doc)) == doc,
        origin_fields_are_typename_document(with_typename_document(doc)),
{
    let once = with_typename_document(doc);
    assert forall|i: int|
        #![trigger once.definitions[i]]
        #![trigger definition_root(once.definitions[i])]
        0 <= i < doc.definitions.len() implies strip_origin_definition(once.definitions[i])
            == doc.definitions[i] && origin_fields_are_typename_items(
            definition_root(once.definitions[i]).items,
        ) by {
        let d = doc.definitions[i];
        assert(no_origin_field_items(definition_root(d).items));
        match d {
            SpecDefinition::Operation(op) => match op {
                SpecOperationDefinition::SelectionSet(ss) => lemma_strip_selection_set(ss),
                SpecOperationDefinition::Query(q) => lemma_strip_selection_set(q.selection_set),
                SpecOperationDefinition::Mutation(m) => lemma_strip_selection_set(m.selection_set),
                SpecOperationDefinition::Subscription(s) => lemma_strip_selection_set(
                    s.selection_set,
                ),
            },
            SpecDefinition::Fragment(f) => lemma_strip_selection_set(f.selection_set),
        }
    }
    assert(strip_origin_document(once).definitions =~= doc.definitions);
}

/// Both operations are of the same kind (bare selection set, query,
/// mutation, subscription), and those with a header have the same position,
/// name, variable definitions and directives.
pub open spec fn same_operation_header(a: SpecOperationDefinition, b: SpecOperationDefinition) -> bool {
    match (a, b) {
        (SpecOperationDefinition::SelectionSet(_), SpecOperationDefinition::SelectionSet(_)) => true,
        (SpecOperationDefinition::Query(x), SpecOperationDefinition::Query(y)) => x.position
            == y.position && x.name == y.name && x.variable_definitions == y.variable_definitions
            && x.directives == y.directives,
        (SpecOperationDefinition::Mutation(x), SpecOperationDefinition::Mutation(y)) => x.position
            == y.position && x.name == y.name && x.variable_definitions == y.variable_definitions
            && x.directives == y.directives,
        (SpecOperationDefinition::Subscription(x), SpecOperationDefinition::Subscription(
            y,
        )) => x.position == y.position && x.name == y.name && x.variable_definitions
            == y.variable_definitions && x.directives == y.directives,
        _ => false,
    }
}

/// Every operation of the document, whatever its kind, keeps its own
/// selection set's items, each transformed, in order, and nothing is added
/// to that selection set: it has exactly as many items as before, and it
/// selects `__typename` exactly when it did before. The operation keeps its
/// kind and header, and the document keeps its definitions in order.
pub proof fn law_add_typename_leaves_operation_roots(doc: SpecDocument)
    ensures
        with_typename_document(doc).definitions.len() == doc.definitions.len(),
        forall|i: int|
            0 <= i < doc.definitions.len() && (#[trigger] doc.definitions[i]) is Operation ==> {
                let op = doc.definitions[i]->Operation_0;
                let r = with_typename_document(doc).definitions[i];
                &&& r is Operation
                &&& same_operation_header(op, r->Operation_0)
                &&& operation_root(r->Operation_0).span == operation_root(op).span
                &&& operation_root(r->Operation_0).items.len() == operation_root(op).items.len()
                &&& has_typename(operation_root(r->Operation_0).items) == has_typename(
                    operation_root(op).items,
                )
                &&& forall|j: int|
                    0 <= j < operation_root(op).items.len() ==> operation_root(
                        r->Operation_0,
                    ).items[j] == with_typename_selection(
                        #[trigger] operation_root(op).items[j],
                    )
            },
{
    assert forall|i: int|
        0 <= i < doc.definitions.len() && (#[trigger] doc.definitions[i]) is Operation implies {
            let op = doc.definitions[i]->Operation_0;
            let r = with_typename_document(doc).definitions[i];
            &&& r is Operation
            &&& same_operation_header(op, r->Operation_0)
            &&& operation_root(r->Operation_0).span == operation_root(op).span
            &&& operation_root(r->Operation_0).items.len() == operation_root(op).items.len()
            &&& has_typename(operation_root(r->Operation_0).items) == has_typename(
                operation_root(op).items,
            )
            &&& forall|j: int|
                0 <= j < operation_root(op).items.len() ==> operation_root(
                    r->Operation_0,
                ).items[j] == with_typename_selection(#[trigger] operation_root(op).items[j])
        } by {
        let op = doc.definitions[i]->Operation_0;
        lemma_items_keep_typename(operation_root(op).items);
    }
}

/// The selection set of an operation keeps its items, each transformed, in
/// order, and gets nothing added.
pub proof fn law_add_typename_keeps_root_items(ss: SpecSelectionSet)
    ensures
        with_typename_root_selection_set(ss).span == ss.span,
        with_typename_root_selection_set(ss).items.len() == ss.items.len(),
        forall|i: int|
            0 <= i < ss.items.len() ==> with_typename_root_selection_set(ss).items[i]
                == with_typename_selection(#[trigger] ss.items[i]),
{
}

/// A nested selection set keeps its items, each transformed, in order; at
/// most one item is added after them, and only when the set is not empty
/// and selects no `__typename`: the `__typename` field.
pub proof fn law_add_typename_appends_only_typename(ss: SpecSelectionSet)
    ensures
        with_typename_selection_set(ss).span == ss.span,
        forall|i: int|
            0 <= i < ss.items.len() ==> with_typename_selection_set(ss).items[i]
                == with_typename_selection(#[trigger] ss.items[i]),
        if ss.items.len() > 0 && !has_typename(ss.items) {
            &&& with_typename_selection_set(ss).items.len() == ss.items.len() + 1
            &&& with_typename_selection_set(ss).items.last() == typename_selection()
        } else {
            with_typename_selection_set(ss).items.len() == ss.items.len()
        },
{
    lemma_items_keep_typename(ss.items);
}

// ---------------------------------------------------------------------------
// Implementation
// ---------------------------------------------------------------------------

/// Adds `__typename` to all selection sets in the document.
pub fn add_typename_to_document(doc: &Document) -> (r: Document)
    ensures
        r@ == with_typename_document(doc@),
{
    let mut definitions: Vec<Definition> = Vec::new();
    let n = doc.definitions.len();
    for i in 0..n
        invariant
            n == doc.definitions@.len(),
            definitions@.len() == i,
            forall|j: int|
                0 <= j < i ==> (#[trigger] definitions@[j])@ == with_typename_definition(
                    doc.definitions@[j]@,
                ),
    {
        definitions.push(add_typename_to_definition(&doc.definitions[i]));
    }
    let r = Document { definitions };
    assert(r@.definitions =~= with_typename_document(doc@).definitions);
    r
}

fn add_typename_to_definition(def: &Definition) -> (r: Definition)
    ensures
        r@ == with_typename_definition(def@),
{
    match def {
        Definition::Operation(op) => Definition::Operation(add_typename_to_operation(op)),
        Definition::Fragment(frag) => Definition::Fragment(add_typename_to_fragment(frag)),
    }
}

fn add_typename_to_operation(op: &OperationDefinition) -> (r: OperationDefinition)
    ensures
        r@ == with_typename_operation_definition(op@),
{
    // Don't add __typename at the root operation level, only in nested selection sets
    match op {
        OperationDefinition::Query(q) => {
            OperationDefinition::Query(
                Query {
                    position: q.position,
                    name: clone_opt_string(&q.name),
                    variable_definitions: clone_variable_definitions(&q.variable_definitions),
                    directives: clone_directives(&q.directives),
                    selection_set: add_typename_to_selection_set_no_root(&q.selection_set),
                },
            )
        },
        OperationDefinition::Mutation(m) => {
            OperationDefinition::Mutation(
                Mutation {
                    position: m.position,
                    name: clone_opt_string(&m.name),
                    variable_definitions: clone_variable_definitions(&m.variable_definitions),
                    directives: clone_directives(&m.directives),
                    selection_set: add_typename_to_selection_set_no_root(&m.selection_set),
                },
            )
        },
        OperationDefinition::Subscription(s) => {
            OperationDefinition::Subscription(
                Subscription {
                    position: s.position,
                    name: clone_opt_string(&s.name),
                    variable_definitions: clone_variable_definitions(&s.variable_definitions),
                    directives: clone_directives(&s.directives),
                    selection_set: add_typename_to_selection_set_no_root(&s.selection_set),
                },
            )
        },
        OperationDefinition::SelectionSet(ss) => {
            OperationDefinition::SelectionSet(add_typename_to_selection_set_no_root(ss))
        },
    }
}

/// Process selection set items but don't add __typename at this level (for root operations)
fn add_typename_to_selection_set_no_root(ss: &SelectionSet) -> (r: SelectionSet)
    ensures
        r@ == with_typename_root_selection_set(ss@),
{
    let items = add_typename_to_items(ss);
    SelectionSet { span: ss.span, items }
}

fn add_typename_to_fragment(frag: &FragmentDefinition) -> (r: FragmentDefinition)
    ensures
        r@ == with_typename_fragment(frag@),
{
    FragmentDefinition {
        position: frag.position,
        name: frag.name.clone(),
        type_condition: clone_type_condition(&frag.type_condition),
        directives: clone_directives(&frag.directives),
        selection_set: add_typename_to_selection_set(&frag.selection_set),
    }
}

/// Transforms every item of a selection set, in order.
fn add_typename_to_items(ss: &SelectionSet) -> (r: Vec<Selection>)
    ensures
        view_selection_set(SelectionSet { span: ss.span, items: r }) == (SpecSelectionSet {
            span: ss@.span,
            items: with_typename_items(ss@.items),
        }),
    decreases ss, 0nat,
{
    let mut items: Vec<Selection> = Vec::new();
    let n = ss.items.len();
    for i in 0..n
        invariant
            n == ss.items@.len(),
            items@.len() == i,
            forall|j: int|
                0 <= j < i ==> view_selection(#[trigger] items@[j]) == with_typename_selection(
                    view_selection(ss.items@[j]),
                ),
    {
        proof {
            assert(decreases_to!(*ss => ss.items));
            assert(decreases_to!(ss.items => ss.items@));
            assert(decreases_to!(ss.items@ => ss.items@[i as int]));
        }
        items.push(add_typename_to_selection(&ss.items[i]));
    }
    let ghost out = view_selection_set(SelectionSet { span: ss.span, items });
    assert(out.items =~= with_typename_items(ss@.items));
    items
}

/// Whether some item is a `__typename` field.
fn contains_typename(items: &Vec<Selection>) -> (found: bool)
    ensures
        found == has_typename(Seq::new(items@.len(), |i: int| view_selection(items@[i]))),
{
    let ghost viewed = Seq::new(items@.len(), |i: int| view_selection(items@[i]));
    let typename = "__typename".to_owned();
    let n = items.len();
    let mut i: usize = 0;
    while i < n
        invariant
            n == items@.len(),
            i <= n,
            typename@ == typename_name(),
            viewed == Seq::new(items@.len(), |i: int| view_selection(items@[i])),
            forall|j: int| 0 <= j < i ==> !is_typename_field(#[trigger] viewed[j]),
        decreases n - i,
    {
        if let Selection::Field(f) = &items[i] {
            if f.name == typename {
                assert(is_typename_field(viewed[i as int]));
                return true;
            }
        }
        assert(!is_typename_field(viewed[i as int]));
        i = i + 1;
    }
    false
}

fn add_typename_to_selection_set(ss: &SelectionSet) -> (r: SelectionSet)
    ensures
        r@ == with_typename_selection_set(ss@),
    decreases ss, 1nat,
{
    let mut items = add_typename_to_items(ss);
    let ghost transformed = with_typename_items(ss@.items);
    assert(Seq::new(items@.len(), |i: int| view_selection(items@[i])) =~= transformed) by {
        assert(view_selection_set(SelectionSet { span: ss.span, items }).items == transformed);
    }
    // Add __typename at the end if not already present and there are fields
    let has_typename = contains_typename(&items);
    if !has_typename && items.len() > 0 {
        let typename_field = Selection::Field(
            Field {
                position: Pos { line: 0, column: 0 },
                alias: None,
                name: "__typename".to_owned(),
                arguments: Vec::new(),
                directives: Vec::new(),
                selection_set: SelectionSet {
                    span: (Pos { line: 0, column: 0 }, Pos { line: 0, column: 0 }),
                    items: Vec::new(),
                },
            },
        );
        proof {
            if let SpecSelection::Field(f) = view_selection(typename_field) {
                assert(f.arguments =~= Seq::empty());
                assert(f.directives =~= Seq::empty());
                assert(f.selection_set.items =~= Seq::empty());
            }
            assert(view_selection(typename_field) == typename_selection());
        }
        items.push(typename_field);
    }
    let r = SelectionSet { span: ss.span, items };
    assert(r@.items =~= close_items(transformed));
    r
}

fn add_typename_to_selection(sel: &Selection) -> (r: Selection)
    ensures
        r@ == with_typename_selection(sel@),
    decreases sel,
{
    match sel {
        Selection::Field(f) => Selection::Field(add_typename_to_field(f)),
        Selection::FragmentSpread(fs) => Selection::FragmentSpread(clone_fragment_spread(fs)),
        Selection::InlineFragment(inf) => Selection::InlineFragment(
            add_typename_to_inline_fragment(inf),
        ),
    }
}

fn add_typename_to_field(field: &Field) -> (r: Field)
    ensures
        view_field(r) == with_typename_field(view_field(*field)),
    decreases field,
{
    Field {
        position: field.position,
        alias: clone_opt_string(&field.alias),
        name: field.name.clone(),
        arguments: clone_arguments(&field.arguments),
        directives: clone_directives(&field.directives),
        selection_set: add_typename_to_selection_set(&field.selection_set),
    }
}

fn add_typename_to_inline_fragment(inf: &InlineFragment) -> (r: InlineFragment)
    ensures
        view_inline_fragment(r) == with_typename_inline_fragment(view_inline_fragment(*inf)),
    decreases inf,
{
    InlineFragment {
        position: inf.position,
        type_condition: clone_opt_type_condition(&inf.type_condition),
        directives: clone_directives(&inf.directives),
        selection_set: add_typename_to_selection_set(&inf.selection_set),
    }
}

} // verus!
