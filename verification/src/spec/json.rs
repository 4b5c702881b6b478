//! JSON values as the command schema builds them, and the JSON Schema of a
//! command's arguments. Turning a value into JSON text is the caller's.

use crate::spec::arg_spec::{schema_required, ArgKind, ArgSpec, ArgValueType, Cardinality};
use crate::spec::command_tree::CommandSpec;
use crate::text::{owned, str_eq, strings};
use vstd::prelude::*;

verus! {

/// A JSON value. Objects list their members in insertion order, each key
/// once.
#[derive(Debug)]
pub enum Json {
    Null,
    Bool(bool),
    Int(i64),
    UInt(u64),
    /// A floating-point number, as its IEEE-754 bits.
    Float(u64),
    Str(String),
    Array(Vec<Json>),
    Object(Vec<(String, Json)>),
}

/// A JSON value as plain values.
pub enum JsonView {
    Null,
    Bool(bool),
    Int(int),
    Float(u64),
    Str(Seq<char>),
    Array(Seq<JsonView>),
    Object(Seq<(Seq<char>, JsonView)>),
}

pub open spec fn json_view(j: Json) -> JsonView
    decreases j,
{
    match j {
        Json::Null => JsonView::Null,
        Json::Bool(b) => JsonView::Bool(b),
        Json::Int(i) => JsonView::Int(i as int),
        Json::UInt(u) => JsonView::Int(u as int),
        Json::Float(f) => JsonView::Float(f),
        Json::Str(s) => JsonView::Str(s@),
        Json::Array(v) => JsonView::Array(json_list_view(v@)),
        Json::Object(m) => JsonView::Object(json_members_view(m@)),
    }
}

pub open spec fn json_list_view(s: Seq<Json>) -> Seq<JsonView>
    decreases s,
{
    if s.len() == 0 {
        Seq::empty()
    } else {
        json_list_view(s.drop_last()).push(json_view(s.last()))
    }
}

pub open spec fn json_members_view(s: Seq<(String, Json)>) -> Seq<(Seq<char>, JsonView)>
    decreases s,
{
    if s.len() == 0 {
        Seq::empty()
    } else {
        json_members_view(s.drop_last()).push((s.last().0@, json_view(s.last().1)))
    }
}

/// A text value.
pub open spec fn jstr(s: Seq<char>) -> JsonView {
    JsonView::Str(s)
}

/// Text values, one per string.
pub open spec fn jstrs(ss: Seq<Seq<char>>) -> Seq<JsonView> {
    ss.map_values(|s: Seq<char>| jstr(s))
}

/// `{"type": t}` followed by `more`.
pub open spec fn typed_object(t: Seq<char>, more: Seq<(Seq<char>, JsonView)>) -> JsonView {
    JsonView::Object(seq![("type"@, jstr(t))] + more)
}

/// The member list with `key` set to `v`: replaced where it is, else
/// appended.
pub open spec fn member_set(m: Seq<(Seq<char>, JsonView)>, key: Seq<char>, v: JsonView) -> Seq<(Seq<char>, JsonView)>
    decreases m.len(),
{
    if m.len() == 0 {
        seq![(key, v)]
    } else if m[0].0 == key {
        m.update(0, (key, v))
    } else {
        seq![m[0]] + member_set(m.drop_first(), key, v)
    }
}

/// An optional member.
pub open spec fn opt_member(key: Seq<char>, v: Option<JsonView>) -> Seq<(Seq<char>, JsonView)> {
    match v {
        Some(x) => seq![(key, x)],
        None => Seq::empty(),
    }
}

/// `minimum` and `maximum` members for integer bounds.
pub open spec fn int_bounds(min: Option<i64>, max: Option<i64>) -> Seq<(Seq<char>, JsonView)> {
    opt_member("minimum"@, match min {
        Some(m) => Some(JsonView::Int(m as int)),
        None => None,
    }) + opt_member("maximum"@, match max {
        Some(m) => Some(JsonView::Int(m as int)),
        None => None,
    })
}

/// `minimum` and `maximum` members for float bounds, as IEEE-754 bits.
pub open spec fn float_bounds(min: Option<u64>, max: Option<u64>) -> Seq<(Seq<char>, JsonView)> {
    opt_member("minimum"@, match min {
        Some(m) => Some(JsonView::Float(m)),
        None => None,
    }) + opt_member("maximum"@, match max {
        Some(m) => Some(JsonView::Float(m)),
        None => None,
    })
}

/// The schema of a non-repeated arg, by declared value type.
pub open spec fn scalar_schema_spec(a: ArgSpec) -> JsonView {
    match a.value_type {
        ArgValueType::Bool => typed_object("boolean"@, Seq::empty()),
        ArgValueType::Str => typed_object(
            "string"@,
            opt_member(
                "pattern"@,
                match a.pattern {
                    Some(p) => Some(jstr(p@)),
                    None => None,
                },
            ),
        ),
        ArgValueType::Int => typed_object("integer"@, int_bounds(a.min, a.max)),
        ArgValueType::Float => typed_object("number"@, float_bounds(a.min_f, a.max_f)),
        ArgValueType::Enum(vs) => typed_object(
            "string"@,
            seq![("enum"@, JsonView::Array(jstrs(strings(vs@))))],
        ),
    }
}

/// The declared minimum arity, when it is at least one.
pub open spec fn positive_min(a: ArgSpec) -> Option<JsonView> {
    match a.min_occurs {
        Some(m) => if m >= 1 {
            Some(JsonView::Int(m as int))
        } else {
            None
        },
        None => None,
    }
}

/// An arg's property name: its long name, else its name.
pub open spec fn prop_name(a: ArgSpec) -> Seq<char> {
    match a.long {
        Some(l) => l@,
        None => a.name@,
    }
}

/// An arg's schema: an occurrence count for a repeated flag, an array of
/// strings for another repeated arg, the scalar schema otherwise; with the
/// help text as `description` when there is one.
pub open spec fn property_schema(a: ArgSpec) -> JsonView {
    let base = if a.cardinality == Cardinality::Repeated {
        if a.kind == ArgKind::Flag {
            typed_object("integer"@, opt_member("minimum"@, positive_min(a)))
        } else {
            typed_object(
                "array"@,
                seq![("items"@, typed_object("string"@, Seq::empty()))] + opt_member(
                    "minItems"@,
                    positive_min(a),
                ),
            )
        }
    } else {
        scalar_schema_spec(a)
    };
    if a.help@.len() > 0 {
        match base {
            JsonView::Object(m) => JsonView::Object(member_set(m, "description"@, jstr(a.help@))),
            _ => base,
        }
    } else {
        base
    }
}

fn members_view_push(m: &mut Vec<(String, Json)>, key: &str, v: Json)
    ensures
        json_members_view(final(m)@) == json_members_view(old(m)@).push((key@, json_view(v))),
{
    let ghost before = m@;
    m.push((owned(key), v));
    assert(m@.drop_last() =~= before);
}

fn list_push(r: &mut Vec<Json>, v: Json)
    ensures
        json_list_view(final(r)@) == json_list_view(old(r)@).push(json_view(v)),
{
    let ghost before = r@;
    r.push(v);
    assert(r@.drop_last() =~= before);
}

fn type_member(t: &str) -> (m: Vec<(String, Json)>)
    ensures
        json_members_view(m@) == seq![("type"@, jstr(t@))],
{
    let mut m: Vec<(String, Json)> = Vec::new();
    members_view_push(&mut m, "type", Json::Str(owned(t)));
    assert(json_members_view(Seq::<(String, Json)>::empty()) =~= Seq::empty());
    assert(Seq::<(Seq<char>, JsonView)>::empty().push(("type"@, jstr(t@))) =~= seq![("type"@, jstr(t@))]);
    m
}

fn strings_json(vs: &Vec<String>) -> (r: Vec<Json>)
    ensures
        json_list_view(r@) == jstrs(strings(vs@)),
{
    let mut r: Vec<Json> = Vec::new();
    let mut i: usize = 0;
    let ghost target = jstrs(strings(vs@));
    assert(json_list_view(r@) =~= target.take(0));
    while i < vs.len()
        invariant
            i <= vs@.len(),
            target == jstrs(strings(vs@)),
            json_list_view(r@) == target.take(i as int),
        decreases vs.len() - i,
    {
        let item = vs[i].clone();
        list_push(&mut r, Json::Str(item));
        assert(target.take(i + 1) =~= target.take(i as int).push(jstr(vs@[i as int]@)));
        i = i + 1;
    }
    assert(target.take(vs@.len() as int) =~= target);
    r
}

fn set_member(m: &mut Vec<(String, Json)>, key: &str, v: Json)
    ensures
        json_members_view(final(m)@) == member_set(json_members_view(old(m)@), key@, json_view(v)),
{
    let ghost mv = json_members_view(m@);
    proof {
        lemma_members_index(m@);
    }
    let mut i: usize = 0;
    while i < m.len()
        invariant
            i <= m@.len(),
            m@ == old(m)@,
            mv == json_members_view(m@),
            mv.len() == m@.len(),
            forall|k: int| 0 <= k < m@.len() ==> (#[trigger] mv[k]).0 == m@[k].0@,
            forall|k: int| 0 <= k < i ==> (#[trigger] mv[k]).0 != key@,
        decreases m.len() - i,
    {
        if str_eq(m[i].0.as_str(), key) {
            let ghost vv = json_view(v);
            proof {
                lemma_member_set_at(mv, key@, vv, i as int);
            }
            let ghost before = m@;
            m.set(i, (owned(key), v));
            proof {
                lemma_members_update(before, i as int, m@[i as int]);
            }
            return;
        }
        i = i + 1;
    }
    proof {
        lemma_member_set_at(mv, key@, json_view(v), i as int);
    }
    members_view_push(m, key, v);
}

proof fn lemma_members_index(s: Seq<(String, Json)>)
    ensures
        json_members_view(s).len() == s.len(),
        forall|k: int| 0 <= k < s.len() ==> (#[trigger] json_members_view(s)[k]) == (s[k].0@, json_view(s[k].1)),
    decreases s.len(),
{
    if s.len() > 0 {
        lemma_members_index(s.drop_last());
        assert forall|k: int| 0 <= k < s.len() implies (#[trigger] json_members_view(s)[k]) == (s[k].0@, json_view(s[k].1)) by {
            if k < s.len() - 1 {
                assert(s.drop_last()[k] == s[k]);
            }
        }
    }
}

proof fn lemma_members_update(s: Seq<(String, Json)>, i: int, p: (String, Json))
    requires
        0 <= i < s.len(),
    ensures
        json_members_view(s.update(i, p)) == json_members_view(s).update(i, (p.0@, json_view(p.1))),
{
    lemma_members_index(s);
    lemma_members_index(s.update(i, p));
    assert(json_members_view(s.update(i, p)) =~= json_members_view(s).update(i, (p.0@, json_view(p.1))));
}

proof fn lemma_member_set_at(m: Seq<(Seq<char>, JsonView)>, key: Seq<char>, v: JsonView, k: int)
    requires
        0 <= k <= m.len(),
        forall|j: int| 0 <= j < k ==> (#[trigger] m[j]).0 != key,
        k < m.len() ==> m[k].0 == key,
    ensures
        k < m.len() ==> member_set(m, key, v) == m.update(k, (key, v)),
        k == m.len() ==> member_set(m, key, v) == m.push((key, v)),
    decreases m.len(),
{
    if m.len() > 0 && k > 0 {
        let t = m.drop_first();
        assert forall|j: int| 0 <= j < k - 1 implies (#[trigger] t[j]).0 != key by {
            assert(t[j] == m[j + 1]);
        }
        lemma_member_set_at(t, key, v, k - 1);
        if k < m.len() {
            assert(seq![m[0]] + t.update(k - 1, (key, v)) =~= m.update(k, (key, v)));
        } else {
            assert(seq![m[0]] + t.push((key, v)) =~= m.push((key, v)));
        }
    } else if m.len() == 0 {
        assert(seq![(key, v)] =~= m.push((key, v)));
    }
}

impl ArgSpec {
    /// The schema for a non-repeated arg, by declared value type.
    pub fn scalar_schema(&self) -> (r: Json)
        ensures
            json_view(r) == scalar_schema_spec(*self),
    {
        match &self.value_type {
            ArgValueType::Bool => {
                let m = type_member("boolean");
                assert(json_members_view(m@) =~= seq![("type"@, jstr("boolean"@))] + Seq::empty());
                let r = Json::Object(m);
                assert(json_view(r) == scalar_schema_spec(*self));
                r
            },
            ArgValueType::Str => {
                let mut m = type_member("string");
                if let Some(p) = &self.pattern {
                    members_view_push(&mut m, "pattern", Json::Str(p.clone()));
                }
                assert(json_members_view(m@) =~= seq![("type"@, jstr("string"@))] + opt_member(
                    "pattern"@,
                    match self.pattern {
                        Some(p) => Some(jstr(p@)),
                        None => None,
                    },
                ));
                let r = Json::Object(m);
                assert(json_view(r) == scalar_schema_spec(*self));
                r
            },
            ArgValueType::Int => {
                let mut m = type_member("integer");
                if let Some(x) = self.min {
                    members_view_push(&mut m, "minimum", Json::Int(x));
                }
                if let Some(x) = self.max {
                    members_view_push(&mut m, "maximum", Json::Int(x));
                }
                assert(json_members_view(m@) =~= seq![("type"@, jstr("integer"@))] + int_bounds(self.min, self.max));
                let r = Json::Object(m);
                assert(json_view(r) == scalar_schema_spec(*self));
                r
            },
            ArgValueType::Float => {
                let mut m = type_member("number");
                if let Some(x) = self.min_f {
                    members_view_push(&mut m, "minimum", Json::Float(x));
                }
                if let Some(x) = self.max_f {
                    members_view_push(&mut m, "maximum", Json::Float(x));
                }
                assert(json_members_view(m@) =~= seq![("type"@, jstr("number"@))] + float_bounds(self.min_f, self.max_f));
                let r = Json::Object(m);
                assert(json_view(r) == scalar_schema_spec(*self));
                r
            },
            ArgValueType::Enum(vs) => {
                let mut m = type_member("string");
                let items = strings_json(vs);
                members_view_push(&mut m, "enum", Json::Array(items));
                assert(json_members_view(m@) =~= seq![("type"@, jstr("string"@))] + seq![
                    ("enum"@, JsonView::Array(jstrs(strings(vs@)))),
                ]);
                let r = Json::Object(m);
                assert(json_view(r) == scalar_schema_spec(*self));
                r
            },
        }
    }

    /// The property name and its schema.
    pub fn to_json_schema_property(&self) -> (r: (String, Json))
        ensures
            r.0@ == prop_name(*self),
            json_view(r.1) == property_schema(*self),
    {
        let name = match &self.long {
            Some(l) => l.clone(),
            None => self.name.clone(),
        };
        let base = if self.cardinality == Cardinality::Repeated {
            if self.kind == ArgKind::Flag {
                let mut m = type_member("integer");
                if let Some(n) = self.positive_min_occurs() {
                    members_view_push(&mut m, "minimum", Json::UInt(n as u64));
                }
                assert(json_members_view(m@) =~= seq![("type"@, jstr("integer"@))] + opt_member(
                    "minimum"@,
                    positive_min(*self),
                ));
                Json::Object(m)
            } else {
                let mut m = type_member("array");
                let items = type_member("string");
                assert(json_members_view(items@) =~= seq![("type"@, jstr("string"@))] + Seq::empty());
                members_view_push(&mut m, "items", Json::Object(items));
                if let Some(n) = self.positive_min_occurs() {
                    members_view_push(&mut m, "minItems", Json::UInt(n as u64));
                }
                assert(json_members_view(m@) =~= seq![("type"@, jstr("array"@))] + (seq![
                    ("items"@, typed_object("string"@, Seq::empty())),
                ] + opt_member("minItems"@, positive_min(*self))));
                Json::Object(m)
            }
        } else {
            self.scalar_schema()
        };
        let schema = if self.help.unicode_len() > 0 {
            match base {
                Json::Object(mut m) => {
                    set_member(&mut m, "description", Json::Str(self.help.clone()));
                    Json::Object(m)
                },
                other => other,
            }
        } else {
            base
        };
        (name, schema)
    }
}

/// The arguments' property schemas, keyed by property name (a later arg
/// replacing an earlier one of the same name).
pub open spec fn properties_of(args: Seq<ArgSpec>) -> Seq<(Seq<char>, JsonView)>
    decreases args.len(),
{
    if args.len() == 0 {
        Seq::empty()
    } else {
        member_set(properties_of(args.drop_last()), prop_name(args.last()), property_schema(args.last()))
    }
}

/// The property names of the args the schema requires, in order.
pub open spec fn required_names(args: Seq<ArgSpec>) -> Seq<JsonView>
    decreases args.len(),
{
    if args.len() == 0 {
        Seq::empty()
    } else {
        required_names(args.drop_last()) + if schema_required(args.last()) {
            seq![jstr(prop_name(args.last()))]
        } else {
            Seq::empty()
        }
    }
}

/// The JSON Schema object of a command's args: `type`, `properties`, and
/// `required` when any arg is required.
pub open spec fn command_schema(args: Seq<ArgSpec>) -> JsonView {
    JsonView::Object(
        seq![("type"@, jstr("object"@)), ("properties"@, JsonView::Object(properties_of(args)))]
            + if required_names(args).len() > 0 {
            seq![("required"@, JsonView::Array(required_names(args)))]
        } else {
            Seq::empty()
        },
    )
}

impl CommandSpec {
    /// The full JSON Schema object for this spec's args.
    pub fn to_json_schema(&self) -> (r: Json)
        ensures
            json_view(r) == command_schema(self.args@),
    {
        let mut props: Vec<(String, Json)> = Vec::new();
        let mut required: Vec<Json> = Vec::new();
        let mut i: usize = 0;
        assert(json_members_view(props@) =~= Seq::empty());
        assert(json_list_view(required@) =~= Seq::empty());
        while i < self.args.len()
            invariant
                i <= self.args@.len(),
                json_members_view(props@) == properties_of(self.args@.take(i as int)),
                json_list_view(required@) == required_names(self.args@.take(i as int)),
            decreases self.args.len() - i,
        {
            proof {
                assert(self.args@.take(i + 1).drop_last() =~= self.args@.take(i as int));
                assert(self.args@.take(i + 1).last() == self.args@[i as int]);
            }
            let (name, schema) = self.args[i].to_json_schema_property();
            set_member(&mut props, name.as_str(), schema);
            if self.args[i].is_schema_required() {
                list_push(&mut required, Json::Str(name));
            }
            i = i + 1;
        }
        assert(self.args@.take(self.args@.len() as int) =~= self.args@);
        let mut m = type_member("object");
        let has_required = required.len() > 0;
        proof {
            assert(json_list_view(required@).len() == required@.len()) by {
                lemma_list_len(required@);
            }
        }
        let ghost head = seq![
            ("type"@, jstr("object"@)),
            ("properties"@, JsonView::Object(properties_of(self.args@))),
        ];
        members_view_push(&mut m, "properties", Json::Object(props));
        assert(json_members_view(m@) =~= head);
        if has_required {
            members_view_push(&mut m, "required", Json::Array(required));
            assert(json_members_view(m@) =~= head + seq![
                ("required"@, JsonView::Array(required_names(self.args@))),
            ]);
        } else {
            assert(json_members_view(m@) =~= head + Seq::empty());
        }
        Json::Object(m)
    }
}

proof fn lemma_list_len(s: Seq<Json>)
    ensures
        json_list_view(s).len() == s.len(),
    decreases s.len(),
{
    if s.len() > 0 {
        lemma_list_len(s.drop_last());
    }
}

} // verus!
