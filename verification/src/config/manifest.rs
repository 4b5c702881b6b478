//! The configuration manifest an application publishes: a tree of fields,
//! sections holding further fields, and the leaves a dotted path names.

use crate::text::{owned, push_str};
use vstd::prelude::*;

verus! {

/// Where a field's value is stored.
#[derive(Debug, Clone, Copy, PartialEq, Eq, Structural)]
pub enum Scope {
    Machine,
    User,
}

/// A field's default value, as far as the framework's own fields need one.
#[derive(Debug, Clone, PartialEq, Eq)]
pub enum FieldDefault {
    Str(String),
    Bool(bool),
}

/// The kind of a field; a section holds further fields.
#[derive(Debug)]
pub enum FieldKind {
    Bool,
    Int,
    Float,
    Duration,
    Str,
    Url,
    Enum { values: Vec<String> },
    Section { fields: Vec<FieldManifest> },
}

/// One field of the manifest and its policy flags.
#[derive(Debug)]
pub struct FieldManifest {
    pub key: String,
    pub kind: FieldKind,
    pub default: Option<FieldDefault>,
    pub label: Option<String>,
    pub description: Option<String>,
    pub group: Option<String>,
    pub scope: Scope,
    pub platforms: Vec<String>,
    pub secret: bool,
    /// State the framework writes on this machine, not a setting.
    pub local_only: bool,
    pub protected: bool,
    /// An organisation may recommend a value.
    pub manageable: bool,
    /// An organisation may enforce a value.
    pub enforceable: bool,
    pub restart_required: bool,
}

/// An application's manifest.
#[derive(Debug)]
pub struct ConfigManifest {
    pub app: String,
    pub fields: Vec<FieldManifest>,
}

impl ConfigManifest {
    pub fn new(app: &str, fields: Vec<FieldManifest>) -> (m: Self)
        ensures
            m.app@ == app@,
            m.fields == fields,
    {
        ConfigManifest { app: owned(app), fields }
    }
}

/// A leaf's dotted path under `prefix`.
pub open spec fn child_path(prefix: Seq<char>, key: Seq<char>) -> Seq<char> {
    if prefix.len() == 0 {
        key
    } else {
        prefix + "."@ + key
    }
}

/// The leaves of a list of fields, depth first in declaration order, each
/// with its dotted path; a section is never a leaf.
pub open spec fn leaves_of(fields: Seq<FieldManifest>, prefix: Seq<char>) -> Seq<(Seq<char>, FieldManifest)>
    decreases fields,
{
    if fields.len() == 0 {
        Seq::empty()
    } else {
        leaves_of(fields.drop_last(), prefix) + field_leaves(fields.last(), prefix)
    }
}

/// The leaves of one field.
pub open spec fn field_leaves(f: FieldManifest, prefix: Seq<char>) -> Seq<(Seq<char>, FieldManifest)>
    decreases f,
{
    match f.kind {
        FieldKind::Section { fields } => {
            proof {
                assert(decreases_to!(f => f.kind));
                assert(decreases_to!(f.kind => fields));
                assert(decreases_to!(fields => fields@));
            }
            leaves_of(fields@, child_path(prefix, f.key@))
        },
        _ => seq![(child_path(prefix, f.key@), f)],
    }
}

/// A leaf: a field that is not a section, with its dotted path.
#[derive(Debug)]
pub struct Leaf<'a> {
    pub path: String,
    pub field: &'a FieldManifest,
}

pub open spec fn leaf_views<'a>(v: Seq<Leaf<'a>>) -> Seq<(Seq<char>, FieldManifest)> {
    v.map_values(|l: Leaf<'a>| (l.path@, *l.field))
}

fn child_path_exec(prefix: &str, key: &str) -> (r: String)
    ensures
        r@ == child_path(prefix@, key@),
{
    if prefix.unicode_len() == 0 {
        owned(key)
    } else {
        let mut r = owned(prefix);
        push_str(&mut r, ".");
        push_str(&mut r, key);
        r
    }
}

fn collect_fields<'a>(fields: &'a Vec<FieldManifest>, prefix: &str, out: &mut Vec<Leaf<'a>>)
    ensures
        leaf_views(final(out)@) == leaf_views(old(out)@) + leaves_of(fields@, prefix@),
    decreases fields@, 0nat,
{
    let ghost start = leaf_views(out@);
    let mut i: usize = 0;
    while i < fields.len()
        invariant
            i <= fields@.len(),
            leaf_views(out@) == start + leaves_of(fields@.take(i as int), prefix@),
        decreases fields.len() - i,
    {
        proof {
            assert(fields@.take(i + 1).drop_last() =~= fields@.take(i as int));
            assert(fields@.take(i + 1).last() == fields@[i as int]);
            assert(decreases_to!(fields@ => fields@[i as int]));
        }
        collect_field(&fields[i], prefix, out);
        assert(leaf_views(out@) =~= start + leaves_of(fields@.take(i + 1), prefix@));
        i = i + 1;
    }
    assert(fields@.take(fields@.len() as int) =~= fields@);
}

fn collect_field<'a>(f: &'a FieldManifest, prefix: &str, out: &mut Vec<Leaf<'a>>)
    ensures
        leaf_views(final(out)@) == leaf_views(old(out)@) + field_leaves(*f, prefix@),
    decreases *f, 0nat,
{
    let path = child_path_exec(prefix, f.key.as_str());
    match &f.kind {
        FieldKind::Section { fields } => {
            proof {
                assert(decreases_to!(*f => f.kind));
                assert(decreases_to!(f.kind => *fields));
                assert(decreases_to!(*fields => fields@));
            }
            collect_fields(fields, path.as_str(), out);
        },
        _ => {
            let ghost before = leaf_views(out@);
            out.push(Leaf { path, field: f });
            assert(leaf_views(out@) =~= before + field_leaves(*f, prefix@));
        },
    }
}

impl ConfigManifest {
    /// Every leaf of the manifest with its dotted path, depth first in
    /// declaration order.
    pub fn iter_leaves(&self) -> (r: Vec<Leaf<'_>>)
        ensures
            leaf_views(r@) == leaves_of(self.fields@, Seq::empty()),
    {
        let mut out: Vec<Leaf<'_>> = Vec::new();
        assert(leaf_views(out@) =~= Seq::empty());
        proof {
            reveal_strlit("");
            assert(""@ =~= Seq::<char>::empty());
        }
        collect_fields(&self.fields, "", &mut out);
        assert(leaf_views(out@) =~= leaves_of(self.fields@, Seq::empty()));
        out
    }
}

} // verus!
