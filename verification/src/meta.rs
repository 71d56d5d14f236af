//! The metadata that every cluster object carries, as far as the operator
//! reads or writes it.

use crate::string_map::StringMap;
use vstd::prelude::*;
use vstd::string::*;

verus! {

/// A back-link from an object to the object that owns it.
#[derive(Clone, Debug)]
pub struct OwnerReference {
    pub api_version: String,
    pub kind: String,
    pub name: String,
    pub uid: String,
    pub controller: Option<bool>,
}

/// The mathematical view of an `OwnerReference`.
pub struct OwnerReferenceView {
    pub api_version: Seq<char>,
    pub kind: Seq<char>,
    pub name: Seq<char>,
    pub uid: Seq<char>,
    pub controller: Option<bool>,
}

impl View for OwnerReference {
    type V = OwnerReferenceView;

    open spec fn view(&self) -> OwnerReferenceView {
        OwnerReferenceView {
            api_version: self.api_version@,
            kind: self.kind@,
            name: self.name@,
            uid: self.uid@,
            controller: self.controller,
        }
    }
}

/// A reference to an object, as attached to the events recorded about it.
#[derive(Clone, Debug)]
pub struct ObjectReference {
    pub api_version: String,
    pub kind: String,
    pub name: Option<String>,
    pub namespace: Option<String>,
    pub uid: Option<String>,
}

/// The mathematical view of an `ObjectReference`.
pub struct ObjectReferenceView {
    pub api_version: Seq<char>,
    pub kind: Seq<char>,
    pub name: Option<Seq<char>>,
    pub namespace: Option<Seq<char>>,
    pub uid: Option<Seq<char>>,
}

impl View for ObjectReference {
    type V = ObjectReferenceView;

    open spec fn view(&self) -> ObjectReferenceView {
        ObjectReferenceView {
            api_version: self.api_version@,
            kind: self.kind@,
            name: self.name.deep_view(),
            namespace: self.namespace.deep_view(),
            uid: self.uid.deep_view(),
        }
    }
}

/// Object metadata. A list or map that the cluster leaves out counts as
/// empty, and `deletion_requested` says whether a deletion timestamp is set.
#[derive(Clone, Debug)]
pub struct ObjectMeta {
    pub name: Option<String>,
    pub generate_name: Option<String>,
    pub namespace: Option<String>,
    pub uid: Option<String>,
    pub generation: Option<i64>,
    pub labels: StringMap,
    pub annotations: StringMap,
    pub owner_references: Vec<OwnerReference>,
    pub finalizers: Vec<String>,
    pub deletion_requested: bool,
}

/// The mathematical view of an `ObjectMeta`.
pub struct ObjectMetaView {
    pub name: Option<Seq<char>>,
    pub generate_name: Option<Seq<char>>,
    pub namespace: Option<Seq<char>>,
    pub uid: Option<Seq<char>>,
    pub generation: Option<i64>,
    pub labels: Map<Seq<char>, Seq<char>>,
    pub annotations: Map<Seq<char>, Seq<char>>,
    pub owner_references: Seq<OwnerReferenceView>,
    pub finalizers: Seq<Seq<char>>,
    pub deletion_requested: bool,
}

impl View for ObjectMeta {
    type V = ObjectMetaView;

    open spec fn view(&self) -> ObjectMetaView {
        ObjectMetaView {
            name: self.name.deep_view(),
            generate_name: self.generate_name.deep_view(),
            namespace: self.namespace.deep_view(),
            uid: self.uid.deep_view(),
            generation: self.generation,
            labels: self.labels@,
            annotations: self.annotations@,
            owner_references: self.owner_references@.map_values(|r: OwnerReference| r@),
            finalizers: self.finalizers.deep_view(),
            deletion_requested: self.deletion_requested,
        }
    }
}

impl ObjectMetaView {
    /// Metadata that holds nothing.
    pub open spec fn empty() -> ObjectMetaView {
        ObjectMetaView {
            name: None,
            generate_name: None,
            namespace: None,
            uid: None,
            generation: None,
            labels: Map::empty(),
            annotations: Map::empty(),
            owner_references: Seq::empty(),
            finalizers: Seq::empty(),
            deletion_requested: false,
        }
    }

    /// The name of the object: its name, else the prefix from which a name
    /// is to be generated, else the empty text.
    pub open spec fn name_any(self) -> Seq<char> {
        match self.name {
            Some(name) => name,
            None => match self.generate_name {
                Some(prefix) => prefix,
                None => Seq::empty(),
            },
        }
    }
}

/// A copy of an optional text.
pub fn clone_text(text: &Option<String>) -> (copy: Option<String>)
    ensures
        copy.deep_view() == text.deep_view(),
{
    match text {
        Some(t) => Some(t.clone()),
        None => None,
    }
}

/// A copy of a list of texts.
pub fn clone_texts(texts: &Vec<String>) -> (copy: Vec<String>)
    ensures
        copy.deep_view() == texts.deep_view(),
{
    let mut copy: Vec<String> = Vec::new();
    let mut i: usize = 0;
    while i < texts.len()
        invariant
            i <= texts@.len(),
            copy@.len() == i,
            forall|j: int| 0 <= j < i ==> copy@[j]@ == texts@[j]@,
        decreases texts@.len() - i,
    {
        copy.push(texts[i].clone());
        i = i + 1;
    }
    assert(copy.deep_view() =~= texts.deep_view());
    copy
}

impl ObjectMeta {
    /// Metadata that holds nothing.
    pub fn new() -> (meta: ObjectMeta)
        ensures
            meta@ == ObjectMetaView::empty(),
    {
        let meta = ObjectMeta {
            name: None,
            generate_name: None,
            namespace: None,
            uid: None,
            generation: None,
            labels: StringMap::new(),
            annotations: StringMap::new(),
            owner_references: Vec::new(),
            finalizers: Vec::new(),
            deletion_requested: false,
        };
        assert(meta@.owner_references =~= Seq::empty());
        assert(meta@.finalizers =~= Seq::empty());
        meta
    }

    /// The name of the object: its name, else the prefix from which a name
    /// is to be generated, else the empty text.
    pub fn name_any(&self) -> (name: String)
        ensures
            name@ == self@.name_any(),
    {
        match &self.name {
            Some(name) => name.clone(),
            None => match &self.generate_name {
                Some(prefix) => prefix.clone(),
                None => String::new(),
            },
        }
    }
}

impl Default for ObjectMeta {
    fn default() -> (meta: ObjectMeta)
        ensures
            meta@ == ObjectMetaView::empty(),
    {
        ObjectMeta::new()
    }
}

} // verus!
