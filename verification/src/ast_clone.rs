//! Deep copies of query nodes that keep their models.
use vstd::prelude::*;
use crate::ast::{
    view_arguments, view_directive, view_directives, view_opt_string, view_opt_type_condition,
    view_type_condition, view_value, view_variable_definition, view_variable_definitions,
    Directive, FragmentSpread, SpecInputValue, Type, TypeCondition, InputValue, VariableDefinition,
};

verus! {

fn clone_string(s: &String) -> (r: String)
    ensures
        r@ == s@,
{
    s.clone()
}

pub(crate) fn clone_opt_string(s: &Option<String>) -> (r: Option<String>)
    ensures
        view_opt_string(r) == view_opt_string(*s),
{
    match s {
        Some(s) => Some(clone_string(s)),
        None => None,
    }
}

pub(crate) fn clone_value(v: &InputValue) -> (r: InputValue)
    ensures
        r@ == v@,
    decreases v,
{
    match v {
        InputValue::Variable(s) => InputValue::Variable(clone_string(s)),
        InputValue::Int(i) => InputValue::Int(*i),
        InputValue::Float(bits) => InputValue::Float(*bits),
        InputValue::String(s) => InputValue::String(clone_string(s)),
        InputValue::Boolean(b) => InputValue::Boolean(*b),
        InputValue::Null => InputValue::Null,
        InputValue::Enum(s) => InputValue::Enum(clone_string(s)),
        InputValue::List(items) => {
            let mut out: Vec<InputValue> = Vec::new();
            let n = items.len();
            for i in 0..n
                invariant
                    n == items@.len(),
                    *v == InputValue::List(*items),
                    out@.len() == i,
                    forall|j: int| 0 <= j < i ==> view_value(#[trigger] out@[j]) == view_value(items@[j]),
            {
                proof {
                    assert(decreases_to!(*items => items@));
                    assert(decreases_to!(items@ => items@[i as int]));
                    assert(decreases_to!(*v => (*v)->List_0));
                    assert(decreases_to!(*v => items@[i as int]));
                }
                out.push(clone_value(&items[i]));
            }
            let r = InputValue::List(out);
            proof {
                assert(view_value(r) == view_value(*v)) by {
                    if let SpecInputValue::List(a) = view_value(r) {
                        if let SpecInputValue::List(b) = view_value(*v) {
                            assert(a =~= b);
                        }
                    }
                }
            }
            r
        },
        InputValue::Object(fields) => {
            let mut out: Vec<(String, InputValue)> = Vec::new();
            let n = fields.len();
            for i in 0..n
                invariant
                    n == fields@.len(),
                    *v == InputValue::Object(*fields),
                    out@.len() == i,
                    forall|j: int|
                        0 <= j < i ==> (#[trigger] out@[j]).0@ == fields@[j].0@ && view_value(
                            out@[j].1,
                        ) == view_value(fields@[j].1),
            {
                let k = clone_string(&fields[i].0);
                proof {
                    assert(decreases_to!(*fields => fields@));
                    assert(decreases_to!(fields@ => fields@[i as int]));
                    assert(decreases_to!(fields@[i as int] => fields@[i as int].1));
                    assert(decreases_to!(*v => (*v)->Object_0));
                    assert(decreases_to!(*v => fields@[i as int].1));
                }
                let x = clone_value(&fields[i].1);
                out.push((k, x));
            }
            let r = InputValue::Object(out);
            proof {
                if let SpecInputValue::Object(a) = view_value(r) {
                    if let SpecInputValue::Object(b) = view_value(*v) {
                        assert(a =~= b);
                    }
                }
            }
            r
        },
    }
}

pub(crate) fn clone_arguments(args: &Vec<(String, InputValue)>) -> (r: Vec<(String, InputValue)>)
    ensures
        view_arguments(r@) == view_arguments(args@),
{
    let mut out: Vec<(String, InputValue)> = Vec::new();
    let n = args.len();
    for i in 0..n
        invariant
            n == args@.len(),
            out@.len() == i,
            forall|j: int|
                0 <= j < i ==> (#[trigger] out@[j]).0@ == args@[j].0@ && view_value(out@[j].1)
                    == view_value(args@[j].1),
    {
        let k = clone_string(&args[i].0);
        let x = clone_value(&args[i].1);
        out.push((k, x));
    }
    assert(view_arguments(out@) =~= view_arguments(args@));
    out
}

pub(crate) fn clone_type(t: &Type) -> (r: Type)
    ensures
        r@ == t@,
    decreases t,
{
    match t {
        Type::NamedType(s) => Type::NamedType(clone_string(s)),
        Type::ListType(inner) => Type::ListType(Box::new(clone_type(inner))),
        Type::NonNullType(inner) => Type::NonNullType(Box::new(clone_type(inner))),
    }
}

pub(crate) fn clone_directive(d: &Directive) -> (r: Directive)
    ensures
        r@ == d@,
{
    Directive {
        position: d.position,
        name: clone_string(&d.name),
        arguments: clone_arguments(&d.arguments),
    }
}

pub(crate) fn clone_directives(ds: &Vec<Directive>) -> (r: Vec<Directive>)
    ensures
        view_directives(r@) == view_directives(ds@),
{
    let mut out: Vec<Directive> = Vec::new();
    let n = ds.len();
    for i in 0..n
        invariant
            n == ds@.len(),
            out@.len() == i,
            forall|j: int| 0 <= j < i ==> view_directive(#[trigger] out@[j]) == view_directive(ds@[j]),
    {
        out.push(clone_directive(&ds[i]));
    }
    assert(view_directives(out@) =~= view_directives(ds@));
    out
}

pub(crate) fn clone_variable_definition(v: &VariableDefinition) -> (r: VariableDefinition)
    ensures
        r@ == v@,
{
    VariableDefinition {
        position: v.position,
        name: clone_string(&v.name),
        var_type: clone_type(&v.var_type),
        default_value: match &v.default_value {
            Some(d) => Some(clone_value(d)),
            None => None,
        },
    }
}

pub(crate) fn clone_variable_definitions(vs: &Vec<VariableDefinition>) -> (r: Vec<VariableDefinition>)
    ensures
        view_variable_definitions(r@) == view_variable_definitions(vs@),
{
    let mut out: Vec<VariableDefinition> = Vec::new();
    let n = vs.len();
    for i in 0..n
        invariant
            n == vs@.len(),
            out@.len() == i,
            forall|j: int|
                0 <= j < i ==> view_variable_definition(#[trigger] out@[j])
                    == view_variable_definition(vs@[j]),
    {
        out.push(clone_variable_definition(&vs[i]));
    }
    assert(view_variable_definitions(out@) =~= view_variable_definitions(vs@));
    out
}

pub(crate) fn clone_type_condition(t: &TypeCondition) -> (r: TypeCondition)
    ensures
        view_type_condition(r) == view_type_condition(*t),
{
    match t {
        TypeCondition::On(name) => TypeCondition::On(clone_string(name)),
    }
}

pub(crate) fn clone_opt_type_condition(t: &Option<TypeCondition>) -> (r: Option<TypeCondition>)
    ensures
        view_opt_type_condition(r) == view_opt_type_condition(*t),
{
    match t {
        Some(t) => Some(clone_type_condition(t)),
        None => None,
    }
}

pub(crate) fn clone_fragment_spread(f: &FragmentSpread) -> (r: FragmentSpread)
    ensures
        r@ == f@,
{
    FragmentSpread {
        position: f.position,
        fragment_name: clone_string(&f.fragment_name),
        directives: clone_directives(&f.directives),
    }
}

} // verus!
