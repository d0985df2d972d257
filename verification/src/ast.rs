//! The GraphQL query document as the library holds it.
//!
//! Every node mirrors one node of a parsed GraphQL executable document. Each
//! type has a mathematical model (its view), in which strings are `Seq<char>`
//! and lists are `Seq`s of models; the contracts of the library speak of
//! these models.
use vstd::prelude::*;

verus! {

/// A position in the query text (one-based line and column).
#[derive(Debug, Clone, Copy, PartialEq, Eq, Structural)]
pub struct Pos {
    pub line: usize,
    pub column: usize,
}

/// A literal or variable used as an argument or as a default value.
///
/// A float literal is held by the bits of its IEEE-754 binary64 value.
#[derive(Debug, PartialEq, Eq)]
pub enum InputValue {
    Variable(String),
    Int(i64),
    Float(u64),
    String(String),
    Boolean(bool),
    Null,
    Enum(String),
    List(Vec<InputValue>),
    Object(Vec<(String, InputValue)>),
}

/// The type of a variable.
#[derive(Debug, PartialEq, Eq)]
pub enum Type {
    NamedType(String),
    ListType(Box<Type>),
    NonNullType(Box<Type>),
}

/// A directive such as `@include(if: $flag)`.
#[derive(Debug, PartialEq, Eq)]
pub struct Directive {
    pub position: Pos,
    pub name: String,
    pub arguments: Vec<(String, InputValue)>,
}

/// A variable declared by an operation.
#[derive(Debug, PartialEq, Eq)]
pub struct VariableDefinition {
    pub position: Pos,
    pub name: String,
    pub var_type: Type,
    pub default_value: Option<InputValue>,
}

/// The `on Type` part of a fragment.
#[derive(Debug, PartialEq, Eq)]
pub enum TypeCondition {
    On(String),
}

/// A use of a named fragment: `...Name`.
#[derive(Debug, PartialEq, Eq)]
pub struct FragmentSpread {
    pub position: Pos,
    pub fragment_name: String,
    pub directives: Vec<Directive>,
}

/// An inline fragment: `... on Type { ... }`.
#[derive(Debug, PartialEq, Eq)]
pub struct InlineFragment {
    pub position: Pos,
    pub type_condition: Option<TypeCondition>,
    pub directives: Vec<Directive>,
    pub selection_set: SelectionSet,
}

/// A field selection, with its optional alias, arguments, directives and
/// nested selection set.
#[derive(Debug, PartialEq, Eq)]
pub struct Field {
    pub position: Pos,
    pub alias: Option<String>,
    pub name: String,
    pub arguments: Vec<(String, InputValue)>,
    pub directives: Vec<Directive>,
    pub selection_set: SelectionSet,
}

/// One item of a selection set.
#[derive(Debug, PartialEq, Eq)]
pub enum Selection {
    Field(Field),
    FragmentSpread(FragmentSpread),
    InlineFragment(InlineFragment),
}

/// A `{ ... }` block of selections.
#[derive(Debug, PartialEq, Eq)]
pub struct SelectionSet {
    pub span: (Pos, Pos),
    pub items: Vec<Selection>,
}

/// A `query` operation.
#[derive(Debug, PartialEq, Eq)]
pub struct Query {
    pub position: Pos,
    pub name: Option<String>,
    pub variable_definitions: Vec<VariableDefinition>,
    pub directives: Vec<Directive>,
    pub selection_set: SelectionSet,
}

/// A `mutation` operation.
#[derive(Debug, PartialEq, Eq)]
pub struct Mutation {
    pub position: Pos,
    pub name: Option<String>,
    pub variable_definitions: Vec<VariableDefinition>,
    pub directives: Vec<Directive>,
    pub selection_set: SelectionSet,
}

/// A `subscription` operation.
#[derive(Debug, PartialEq, Eq)]
pub struct Subscription {
    pub position: Pos,
    pub name: Option<String>,
    pub variable_definitions: Vec<VariableDefinition>,
    pub directives: Vec<Directive>,
    pub selection_set: SelectionSet,
}

/// An operation: a bare selection set, or a named query, mutation or
/// subscription.
#[derive(Debug, PartialEq, Eq)]
pub enum OperationDefinition {
    SelectionSet(SelectionSet),
    Query(Query),
    Mutation(Mutation),
    Subscription(Subscription),
}

/// A `fragment Name on Type { ... }` definition.
#[derive(Debug, PartialEq, Eq)]
pub struct FragmentDefinition {
    pub position: Pos,
    pub name: String,
    pub type_condition: TypeCondition,
    pub directives: Vec<Directive>,
    pub selection_set: SelectionSet,
}

/// A top-level definition of a document.
#[derive(Debug, PartialEq, Eq)]
pub enum Definition {
    Operation(OperationDefinition),
    Fragment(FragmentDefinition),
}

/// A GraphQL executable document.
#[derive(Debug, PartialEq, Eq)]
pub struct Document {
    pub definitions: Vec<Definition>,
}

// ---------------------------------------------------------------------------
// Models
// ---------------------------------------------------------------------------

pub ghost enum SpecInputValue {
    Variable(Seq<char>),
    Int(i64),
    Float(u64),
    String(Seq<char>),
    Boolean(bool),
    Null,
    Enum(Seq<char>),
    List(Seq<SpecInputValue>),
    Object(Seq<(Seq<char>, SpecInputValue)>),
}

pub ghost enum SpecType {
    NamedType(Seq<char>),
    ListType(Box<SpecType>),
    NonNullType(Box<SpecType>),
}

pub ghost struct SpecDirective {
    pub position: Pos,
    pub name: Seq<char>,
    pub arguments: Seq<(Seq<char>, SpecInputValue)>,
}

pub ghost struct SpecVariableDefinition {
    pub position: Pos,
    pub name: Seq<char>,
    pub var_type: SpecType,
    pub default_value: Option<SpecInputValue>,
}

pub ghost struct SpecFragmentSpread {
    pub position: Pos,
    pub fragment_name: Seq<char>,
    pub directives: Seq<SpecDirective>,
}

pub ghost struct SpecInlineFragment {
    pub position: Pos,
    pub type_condition: Option<Seq<char>>,
    pub directives: Seq<SpecDirective>,
    pub selection_set: SpecSelectionSet,
}

pub ghost struct SpecField {
    pub position: Pos,
    pub alias: Option<Seq<char>>,
    pub name: Seq<char>,
    pub arguments: Seq<(Seq<char>, SpecInputValue)>,
    pub directives: Seq<SpecDirective>,
    pub selection_set: SpecSelectionSet,
}

pub ghost enum SpecSelection {
    Field(SpecField),
    FragmentSpread(SpecFragmentSpread),
    InlineFragment(SpecInlineFragment),
}

pub ghost struct SpecSelectionSet {
    pub span: (Pos, Pos),
    pub items: Seq<SpecSelection>,
}

/// The model shared by queries, mutations and subscriptions.
pub ghost struct SpecOperation {
    pub position: Pos,
    pub name: Option<Seq<char>>,
    pub variable_definitions: Seq<SpecVariableDefinition>,
    pub directives: Seq<SpecDirective>,
    pub selection_set: SpecSelectionSet,
}

pub ghost enum SpecOperationDefinition {
    SelectionSet(SpecSelectionSet),
    Query(SpecOperation),
    Mutation(SpecOperation),
    Subscription(SpecOperation),
}

pub ghost struct SpecFragmentDefinition {
    pub position: Pos,
    pub name: Seq<char>,
    pub type_condition: Seq<char>,
    pub directives: Seq<SpecDirective>,
    pub selection_set: SpecSelectionSet,
}

pub ghost enum SpecDefinition {
    Operation(SpecOperationDefinition),
    Fragment(SpecFragmentDefinition),
}

pub ghost struct SpecDocument {
    pub definitions: Seq<SpecDefinition>,
}

pub open spec fn view_opt_string(s: Option<String>) -> Option<Seq<char>> {
    match s {
        Some(s) => Some(s@),
        None => None,
    }
}

pub open spec fn view_value(v: InputValue) -> SpecInputValue
    decreases v,
{
    match v {
        InputValue::Variable(s) => SpecInputValue::Variable(s@),
        InputValue::Int(i) => SpecInputValue::Int(i),
        InputValue::Float(bits) => SpecInputValue::Float(bits),
        InputValue::String(s) => SpecInputValue::String(s@),
        InputValue::Boolean(b) => SpecInputValue::Boolean(b),
        InputValue::Null => SpecInputValue::Null,
        InputValue::Enum(s) => SpecInputValue::Enum(s@),
        InputValue::List(items) => SpecInputValue::List(
            Seq::new(
                items@.len(),
                |i: int|
                    if 0 <= i < items@.len() {
                        view_value(items@[i])
                    } else {
                        SpecInputValue::Null
                    },
            ),
        ),
        InputValue::Object(fields) => SpecInputValue::Object(
            Seq::new(
                fields@.len(),
                |i: int|
                    if 0 <= i < fields@.len() {
                        (fields@[i].0@, view_value(fields@[i].1))
                    } else {
                        (Seq::empty(), SpecInputValue::Null)
                    },
            ),
        ),
    }
}

pub open spec fn view_arguments(args: Seq<(String, InputValue)>) -> Seq<(Seq<char>, SpecInputValue)> {
    Seq::new(args.len(), |i: int| (args[i].0@, view_value(args[i].1)))
}

pub open spec fn view_type(t: Type) -> SpecType
    decreases t,
{
    match t {
        Type::NamedType(s) => SpecType::NamedType(s@),
        Type::ListType(inner) => SpecType::ListType(Box::new(view_type(*inner))),
        Type::NonNullType(inner) => SpecType::NonNullType(Box::new(view_type(*inner))),
    }
}

pub open spec fn view_directive(d: Directive) -> SpecDirective {
    SpecDirective { position: d.position, name: d.name@, arguments: view_arguments(d.arguments@) }
}

pub open spec fn view_directives(ds: Seq<Directive>) -> Seq<SpecDirective> {
    Seq::new(ds.len(), |i: int| view_directive(ds[i]))
}

pub open spec fn view_variable_definition(v: VariableDefinition) -> SpecVariableDefinition {
    SpecVariableDefinition {
        position: v.position,
        name: v.name@,
        var_type: view_type(v.var_type),
        default_value: match v.default_value {
            Some(d) => Some(view_value(d)),
            None => None,
        },
    }
}

pub open spec fn view_variable_definitions(vs: Seq<VariableDefinition>) -> Seq<
    SpecVariableDefinition,
> {
    Seq::new(vs.len(), |i: int| view_variable_definition(vs[i]))
}

pub open spec fn view_type_condition(t: TypeCondition) -> Seq<char> {
    match t {
        TypeCondition::On(name) => name@,
    }
}

pub open spec fn view_opt_type_condition(t: Option<TypeCondition>) -> Option<Seq<char>> {
    match t {
        Some(t) => Some(view_type_condition(t)),
        None => None,
    }
}

pub open spec fn view_fragment_spread(f: FragmentSpread) -> SpecFragmentSpread {
    SpecFragmentSpread {
        position: f.position,
        fragment_name: f.fragment_name@,
        directives: view_directives(f.directives@),
    }
}

pub open spec fn view_selection_set(s: SelectionSet) -> SpecSelectionSet
    decreases s,
{
    SpecSelectionSet {
        span: s.span,
        items: Seq::new(
            s.items@.len(),
            |i: int|
                if 0 <= i < s.items@.len() {
                    view_selection(s.items@[i])
                } else {
                    SpecSelection::FragmentSpread(
                        SpecFragmentSpread {
                            position: s.span.0,
                            fragment_name: Seq::empty(),
                            directives: Seq::empty(),
                        },
                    )
                },
        ),
    }
}

pub open spec fn view_selection(s: Selection) -> SpecSelection
    decreases s,
{
    match s {
        Selection::Field(f) => SpecSelection::Field(
            SpecField {
                position: f.position,
                alias: view_opt_string(f.alias),
                name: f.name@,
                arguments: view_arguments(f.arguments@),
                directives: view_directives(f.directives@),
                selection_set: view_selection_set(f.selection_set),
            },
        ),
        Selection::FragmentSpread(fs) => SpecSelection::FragmentSpread(view_fragment_spread(fs)),
        Selection::InlineFragment(inf) => SpecSelection::InlineFragment(
            SpecInlineFragment {
                position: inf.position,
                type_condition: view_opt_type_condition(inf.type_condition),
                directives: view_directives(inf.directives@),
                selection_set: view_selection_set(inf.selection_set),
            },
        ),
    }
}

pub open spec fn view_field(f: Field) -> SpecField {
    SpecField {
        position: f.position,
        alias: view_opt_string(f.alias),
        name: f.name@,
        arguments: view_arguments(f.arguments@),
        directives: view_directives(f.directives@),
        selection_set: view_selection_set(f.selection_set),
    }
}

pub open spec fn view_inline_fragment(inf: InlineFragment) -> SpecInlineFragment {
    SpecInlineFragment {
        position: inf.position,
        type_condition: view_opt_type_condition(inf.type_condition),
        directives: view_directives(inf.directives@),
        selection_set: view_selection_set(inf.selection_set),
    }
}

pub open spec fn view_fragment_definition(f: FragmentDefinition) -> SpecFragmentDefinition {
    SpecFragmentDefinition {
        position: f.position,
        name: f.name@,
        type_condition: view_type_condition(f.type_condition),
        directives: view_directives(f.directives@),
        selection_set: view_selection_set(f.selection_set),
    }
}

pub open spec fn view_query(q: Query) -> SpecOperation {
    SpecOperation {
        position: q.position,
        name: view_opt_string(q.name),
        variable_definitions: view_variable_definitions(q.variable_definitions@),
        directives: view_directives(q.directives@),
        selection_set: view_selection_set(q.selection_set),
    }
}

pub open spec fn view_mutation(m: Mutation) -> SpecOperation {
    SpecOperation {
        position: m.position,
        name: view_opt_string(m.name),
        variable_definitions: view_variable_definitions(m.variable_definitions@),
        directives: view_directives(m.directives@),
        selection_set: view_selection_set(m.selection_set),
    }
}

pub open spec fn view_subscription(s: Subscription) -> SpecOperation {
    SpecOperation {
        position: s.position,
        name: view_opt_string(s.name),
        variable_definitions: view_variable_definitions(s.variable_definitions@),
        directives: view_directives(s.directives@),
        selection_set: view_selection_set(s.selection_set),
    }
}

pub open spec fn view_operation_definition(op: OperationDefinition) -> SpecOperationDefinition {
    match op {
        OperationDefinition::SelectionSet(ss) => SpecOperationDefinition::SelectionSet(
            view_selection_set(ss),
        ),
        OperationDefinition::Query(q) => SpecOperationDefinition::Query(view_query(q)),
        OperationDefinition::Mutation(m) => SpecOperationDefinition::Mutation(view_mutation(m)),
        OperationDefinition::Subscription(s) => SpecOperationDefinition::Subscription(
            view_subscription(s),
        ),
    }
}

pub open spec fn view_definition(d: Definition) -> SpecDefinition {
    match d {
        Definition::Operation(op) => SpecDefinition::Operation(view_operation_definition(op)),
        Definition::Fragment(f) => SpecDefinition::Fragment(view_fragment_definition(f)),
    }
}

pub open spec fn view_document(d: Document) -> SpecDocument {
    SpecDocument {
        definitions: Seq::new(d.definitions@.len(), |i: int| view_definition(d.definitions@[i])),
    }
}

impl View for InputValue {
    type V = SpecInputValue;

    open spec fn view(&self) -> SpecInputValue {
        view_value(*self)
    }
}

impl View for Type {
    type V = SpecType;

    open spec fn view(&self) -> SpecType {
        view_type(*self)
    }
}

impl View for Directive {
    type V = SpecDirective;

    open spec fn view(&self) -> SpecDirective {
        view_directive(*self)
    }
}

impl View for VariableDefinition {
    type V = SpecVariableDefinition;

    open spec fn view(&self) -> SpecVariableDefinition {
        view_variable_definition(*self)
    }
}

impl View for FragmentSpread {
    type V = SpecFragmentSpread;

    open spec fn view(&self) -> SpecFragmentSpread {
        view_fragment_spread(*self)
    }
}

impl View for InlineFragment {
    type V = SpecInlineFragment;

    open spec fn view(&self) -> SpecInlineFragment {
        view_inline_fragment(*self)
    }
}

impl View for Field {
    type V = SpecField;

    open spec fn view(&self) -> SpecField {
        view_field(*self)
    }
}

impl View for Selection {
    type V = SpecSelection;

    open spec fn view(&self) -> SpecSelection {
        view_selection(*self)
    }
}

impl View for SelectionSet {
    type V = SpecSelectionSet;

    open spec fn view(&self) -> SpecSelectionSet {
        view_selection_set(*self)
    }
}

impl View for Query {
    type V = SpecOperation;

    open spec fn view(&self) -> SpecOperation {
        view_query(*self)
    }
}

impl View for Mutation {
    type V = SpecOperation;

    open spec fn view(&self) -> SpecOperation {
        view_mutation(*self)
    }
}

impl View for Subscription {
    type V = SpecOperation;

    open spec fn view(&self) -> SpecOperation {
        view_subscription(*self)
    }
}

impl View for OperationDefinition {
    type V = SpecOperationDefinition;

    open spec fn view(&self) -> SpecOperationDefinition {
        view_operation_definition(*self)
    }
}

impl View for FragmentDefinition {
    type V = SpecFragmentDefinition;

    open spec fn view(&self) -> SpecFragmentDefinition {
        view_fragment_definition(*self)
    }
}

impl View for Definition {
    type V = SpecDefinition;

    open spec fn view(&self) -> SpecDefinition {
        view_definition(*self)
    }
}

impl View for Document {
    type V = SpecDocument;

    open spec fn view(&self) -> SpecDocument {
        view_document(*self)
    }
}

} // verus!
