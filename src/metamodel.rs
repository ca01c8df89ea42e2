//! Descriptions of entity types: their fields, associations, cardinalities and
//! encryption, grouped by application.

use crate::text::{
    decimal, parse_u64, parse_u64_error_text, parse_u64_spec, str_equal, u64_to_decimal,
};
use crate::TypeRef;
use std::collections::HashMap;
use vstd::prelude::*;
use vstd::std_specs::hash::spec_hash_map_iter;
use vstd::std_specs::iter::IteratorSpec;

verus! {

broadcast use vstd::std_specs::hash::group_hash_axioms;

pub type TypeId = u64;

pub type AttributeId = u64;

/// A kind of element that can appear in the model.
#[derive(Clone, Copy, Debug, PartialEq, Eq, Structural)]
pub enum ElementType {
    /// Entity referenced by a single id
    Element,
    /// Entity referenced by an id tuple; belongs to a list
    ListElement,
    /// Non-persistent element, used for service input and output
    DataTransfer,
    /// Structure embedded in another type
    Aggregated,
    /// Element that is backed by the blob store
    BlobElement,
}

/// The kind of a scalar field.
#[derive(Clone, Copy, Debug, PartialEq, Eq, Structural)]
pub enum ValueType {
    String,
    Number,
    Bytes,
    Date,
    Boolean,
    GeneratedId,
    CustomId,
    CompressedString,
}

/// A point in time, in milliseconds since the Unix epoch.
#[derive(Clone, Copy, Debug, PartialEq, Eq, Structural)]
pub struct DateTime {
    pub millis: u64,
}

/// A scalar value of one of the kinds that have a zero value.
#[derive(Clone, Debug)]
pub enum ElementValue {
    String(String),
    Number(i64),
    Bytes(Vec<u8>),
    Date(DateTime),
    Bool(bool),
}

/// Whether a field kind has a zero value: the identifier kinds have none.
pub open spec fn has_default(t: ValueType) -> bool {
    !(t is GeneratedId || t is CustomId)
}

/// Whether `v` is the zero value of kind `t`.
pub open spec fn is_default_of(t: ValueType, v: ElementValue) -> bool {
    match t {
        ValueType::String | ValueType::CompressedString => v matches ElementValue::String(s)
            && s@.len() == 0,
        ValueType::Number => v == ElementValue::Number(0),
        ValueType::Bytes => v matches ElementValue::Bytes(b) && b@.len() == 0,
        ValueType::Date => v == ElementValue::Date(DateTime { millis: 0 }),
        ValueType::Boolean => v == ElementValue::Bool(false),
        _ => false,
    }
}

impl ValueType {
    /// The zero value of this kind; the identifier kinds have none.
    pub fn get_default(&self) -> (r: ElementValue)
        requires
            has_default(*self),
        ensures
            is_default_of(*self, r),
    {
        match self {
            ValueType::String | ValueType::CompressedString => ElementValue::String(String::new()),
            ValueType::Number => ElementValue::Number(0),
            ValueType::Bytes => ElementValue::Bytes(Vec::new()),
            ValueType::Date => ElementValue::Date(DateTime { millis: 0 }),
            ValueType::Boolean => ElementValue::Bool(false),
            ValueType::GeneratedId | ValueType::CustomId => vstd::pervasive::unreached(),
        }
    }
}

/// How many items an association or a field holds.
#[derive(Clone, Copy, Debug, PartialEq, Eq, Structural)]
pub enum Cardinality {
    /// Optional
    ZeroOrOne,
    /// A list of items
    Any,
    /// Exactly one item
    One,
}

/// The shape of a relationship between elements.
#[derive(Clone, Copy, Debug, PartialEq, Eq, Structural)]
pub enum AssociationType {
    /// References an element by id
    ElementAssociation,
    /// References a list of list elements by list id
    ListAssociation,
    /// References a list element with a generated id
    ListElementAssociationGenerated,
    /// References an aggregate
    Aggregation,
    /// References a blob element
    BlobElementAssociation,
    /// References a list element with a custom id
    ListElementAssociationCustom,
}

/// The wire tag of an element kind.
pub open spec fn element_type_tag(t: ElementType) -> Seq<char> {
    match t {
        ElementType::Element => "ELEMENT_TYPE"@,
        ElementType::ListElement => "LIST_ELEMENT_TYPE"@,
        ElementType::DataTransfer => "DATA_TRANSFER_TYPE"@,
        ElementType::Aggregated => "AGGREGATED_TYPE"@,
        ElementType::BlobElement => "BLOB_ELEMENT_TYPE"@,
    }
}

impl ElementType {
    /// The element kind whose wire tag is `tag`; `None` for any other text.
    pub fn from_tag(tag: &str) -> (r: Option<ElementType>)
        ensures
            match r {
                Some(t) => element_type_tag(t) == tag@,
                None => forall|t: ElementType| element_type_tag(t) != tag@,
            },
    {
        if str_equal(tag, "ELEMENT_TYPE") {
            Some(ElementType::Element)
        } else if str_equal(tag, "LIST_ELEMENT_TYPE") {
            Some(ElementType::ListElement)
        } else if str_equal(tag, "DATA_TRANSFER_TYPE") {
            Some(ElementType::DataTransfer)
        } else if str_equal(tag, "AGGREGATED_TYPE") {
            Some(ElementType::Aggregated)
        } else if str_equal(tag, "BLOB_ELEMENT_TYPE") {
            Some(ElementType::BlobElement)
        } else {
            None
        }
    }
}

/// The wire tag of a field kind.
pub open spec fn value_type_tag(t: ValueType) -> Seq<char> {
    match t {
        ValueType::String => "String"@,
        ValueType::Number => "Number"@,
        ValueType::Bytes => "Bytes"@,
        ValueType::Date => "Date"@,
        ValueType::Boolean => "Boolean"@,
        ValueType::GeneratedId => "GeneratedId"@,
        ValueType::CustomId => "CustomId"@,
        ValueType::CompressedString => "CompressedString"@,
    }
}

impl ValueType {
    /// The field kind whose wire tag is `tag`; `None` for any other text.
    pub fn from_tag(tag: &str) -> (r: Option<ValueType>)
        ensures
            match r {
                Some(t) => value_type_tag(t) == tag@,
                None => forall|t: ValueType| value_type_tag(t) != tag@,
            },
    {
        if str_equal(tag, "String") {
            Some(ValueType::String)
        } else if str_equal(tag, "Number") {
            Some(ValueType::Number)
        } else if str_equal(tag, "Bytes") {
            Some(ValueType::Bytes)
        } else if str_equal(tag, "Date") {
            Some(ValueType::Date)
        } else if str_equal(tag, "Boolean") {
            Some(ValueType::Boolean)
        } else if str_equal(tag, "GeneratedId") {
            Some(ValueType::GeneratedId)
        } else if str_equal(tag, "CustomId") {
            Some(ValueType::CustomId)
        } else if str_equal(tag, "CompressedString") {
            Some(ValueType::CompressedString)
        } else {
            None
        }
    }
}

/// The wire tag of a cardinality.
pub open spec fn cardinality_tag(t: Cardinality) -> Seq<char> {
    match t {
        Cardinality::ZeroOrOne => "ZeroOrOne"@,
        Cardinality::Any => "Any"@,
        Cardinality::One => "One"@,
    }
}

impl Cardinality {
    /// The cardinality whose wire tag is `tag`; `None` for any other text.
    pub fn from_tag(tag: &str) -> (r: Option<Cardinality>)
        ensures
            match r {
                Some(t) => cardinality_tag(t) == tag@,
                None => forall|t: Cardinality| cardinality_tag(t) != tag@,
            },
    {
        if str_equal(tag, "ZeroOrOne") {
            Some(Cardinality::ZeroOrOne)
        } else if str_equal(tag, "Any") {
            Some(Cardinality::Any)
        } else if str_equal(tag, "One") {
            Some(Cardinality::One)
        } else {
            None
        }
    }
}

/// The wire tag of an association kind.
pub open spec fn association_type_tag(t: AssociationType) -> Seq<char> {
    match t {
        AssociationType::ElementAssociation => "ELEMENT_ASSOCIATION"@,
        AssociationType::ListAssociation => "LIST_ASSOCIATION"@,
        AssociationType::ListElementAssociationGenerated => "LIST_ELEMENT_ASSOCIATION_GENERATED"@,
        AssociationType::Aggregation => "AGGREGATION"@,
        AssociationType::BlobElementAssociation => "BLOB_ELEMENT_ASSOCIATION"@,
        AssociationType::ListElementAssociationCustom => "LIST_ELEMENT_ASSOCIATION_CUSTOM"@,
    }
}

impl AssociationType {
    /// The association kind whose wire tag is `tag`; `None` for any other text.
    pub fn from_tag(tag: &str) -> (r: Option<AssociationType>)
        ensures
            match r {
                Some(t) => association_type_tag(t) == tag@,
                None => forall|t: AssociationType| association_type_tag(t) != tag@,
            },
    {
        if str_equal(tag, "ELEMENT_ASSOCIATION") {
            Some(AssociationType::ElementAssociation)
        } else if str_equal(tag, "LIST_ASSOCIATION") {
            Some(AssociationType::ListAssociation)
        } else if str_equal(tag, "LIST_ELEMENT_ASSOCIATION_GENERATED") {
            Some(AssociationType::ListElementAssociationGenerated)
        } else if str_equal(tag, "AGGREGATION") {
            Some(AssociationType::Aggregation)
        } else if str_equal(tag, "BLOB_ELEMENT_ASSOCIATION") {
            Some(AssociationType::BlobElementAssociation)
        } else if str_equal(tag, "LIST_ELEMENT_ASSOCIATION_CUSTOM") {
            Some(AssociationType::ListElementAssociationCustom)
        } else {
            None
        }
    }
}

/// Description of one scalar field of a type.
#[derive(Clone, Debug)]
pub struct ModelValue {
    pub id: AttributeId,
    pub name: String,
    pub value_type: ValueType,
    pub cardinality: Cardinality,
    /// whether it can be changed
    pub is_final: bool,
    pub encrypted: bool,
}

/// Description of one association of a type.
#[derive(Clone, Debug)]
pub struct ModelAssociation {
    pub id: AttributeId,
    pub name: String,
    pub association_type: AssociationType,
    pub cardinality: Cardinality,
    /// id of the type it references
    pub ref_type_id: TypeId,
    /// whether it can be changed
    pub is_final: bool,
    /// The application the referenced type is imported from, where it is not
    /// the declaring one (only aggregates are imported across applications).
    pub dependency: Option<AppName>,
}

impl ModelValue {
    /// The field described by plain values from a schema document, the kind
    /// and cardinality given by their wire tags; `None` if a tag is unknown.
    pub fn from_wire(
        id: AttributeId,
        name: String,
        value_type: &str,
        cardinality: &str,
        is_final: bool,
        encrypted: bool,
    ) -> (r: Option<ModelValue>)
        ensures
            r is Some <==> (exists|t: ValueType| value_type_tag(t) == value_type@) && (exists|
                c: Cardinality,
            | cardinality_tag(c) == cardinality@),
            r matches Some(v) ==> {
                &&& v.id == id
                &&& v.name == name
                &&& value_type_tag(v.value_type) == value_type@
                &&& cardinality_tag(v.cardinality) == cardinality@
                &&& v.is_final == is_final
                &&& v.encrypted == encrypted
            },
    {
        let value_type = match ValueType::from_tag(value_type) {
            Some(t) => t,
            None => return None,
        };
        let cardinality = match Cardinality::from_tag(cardinality) {
            Some(c) => c,
            None => return None,
        };
        Some(ModelValue { id, name, value_type, cardinality, is_final, encrypted })
    }
}

impl ModelAssociation {
    /// The association described by plain values from a schema document, its
    /// kind, cardinality and importing application given by their wire forms;
    /// `None` if one of them is unknown.
    pub fn from_wire(
        id: AttributeId,
        name: String,
        association_type: &str,
        cardinality: &str,
        ref_type_id: TypeId,
        is_final: bool,
        dependency: Option<&str>,
    ) -> (r: Option<ModelAssociation>)
        ensures
            r is Some <==> (exists|t: AssociationType| association_type_tag(t) == association_type@)
                && (exists|c: Cardinality| cardinality_tag(c) == cardinality@) && match dependency {
                Some(d) => app_name_of(d@) is Some,
                None => true,
            },
            r matches Some(a) ==> {
                &&& a.id == id
                &&& a.name == name
                &&& association_type_tag(a.association_type) == association_type@
                &&& cardinality_tag(a.cardinality) == cardinality@
                &&& a.ref_type_id == ref_type_id
                &&& a.is_final == is_final
                &&& match dependency {
                    Some(d) => a.dependency == app_name_of(d@),
                    None => a.dependency is None,
                }
            },
    {
        let association_type = match AssociationType::from_tag(association_type) {
            Some(t) => t,
            None => return None,
        };
        let cardinality = match Cardinality::from_tag(cardinality) {
            Some(c) => c,
            None => return None,
        };
        let dependency = match dependency {
            Some(d) => match AppName::parse(d) {
                Ok(app) => Some(app),
                Err(_) => return None,
            },
            None => None,
        };
        Some(
            ModelAssociation {
                id,
                name,
                association_type,
                cardinality,
                ref_type_id,
                is_final,
                dependency,
            },
        )
    }
}

/// Description of a single element type.
#[derive(Clone, Debug)]
pub struct TypeModel {
    pub id: TypeId,
    /// Since which model version it exists
    pub since: u64,
    /// Application it belongs to
    pub app: AppName,
    /// Model version
    pub version: u64,
    /// Name of the element
    pub name: String,
    /// Kind of the element
    pub element_type: ElementType,
    pub versioned: bool,
    pub encrypted: bool,
    pub values: HashMap<AttributeId, ModelValue>,
    pub associations: HashMap<AttributeId, ModelAssociation>,
}

/// The full set of types of one application.
#[derive(Clone, Debug)]
pub struct ApplicationModel {
    pub name: AppName,
    pub version: u32,
    pub types: HashMap<TypeId, TypeModel>,
}

/// The type sets of all applications.
#[derive(Clone, Debug)]
pub struct ApplicationModels {
    pub apps: Vec<ApplicationModel>,
}

/// The first model in `apps` that belongs to `app`, if any.
pub open spec fn find_app(apps: Seq<ApplicationModel>, app: AppName) -> Option<ApplicationModel>
    decreases apps.len(),
{
    if apps.len() == 0 {
        None
    } else if apps[0].name == app {
        Some(apps[0])
    } else {
        find_app(apps.drop_first(), app)
    }
}

proof fn lemma_find_app_none(apps: Seq<ApplicationModel>, app: AppName)
    requires
        find_app(apps, app) is None,
    ensures
        forall|i: int| 0 <= i < apps.len() ==> (#[trigger] apps[i]).name != app,
    decreases apps.len(),
{
    if apps.len() > 0 {
        lemma_find_app_none(apps.drop_first(), app);
        assert forall|i: int| 0 <= i < apps.len() implies (#[trigger] apps[i]).name != app by {
            if i > 0 {
                assert(apps[i] == apps.drop_first()[i - 1]);
            }
        }
    }
}

/// The type that `type_ref` addresses in `models`: looked up by application,
/// then by type id.
pub open spec fn resolve_in(models: ApplicationModels, type_ref: TypeRef) -> Option<TypeModel> {
    match find_app(models.apps@, type_ref.app) {
        Some(m) => if m.types@.contains_key(type_ref.type_id) {
            Some(m.types@[type_ref.type_id])
        } else {
            None
        },
        None => None,
    }
}

/// Whether two entries share a key.
pub open spec fn has_duplicate_key<V>(entries: Seq<(TypeId, V)>) -> bool {
    exists|i: int, j: int|
        0 <= i < j < entries.len() && (#[trigger] entries[i]).0 == (#[trigger] entries[j]).0
}

impl ApplicationModel {
    /// The model of `name` whose types are `entries`, each under its key;
    /// `None` where two entries share a key.
    pub fn from_entries(name: AppName, version: u32, entries: Vec<(TypeId, TypeModel)>) -> (r:
        Option<ApplicationModel>)
        ensures
            r is Some <==> !has_duplicate_key(entries@),
            r matches Some(m) ==> {
                &&& m.name == name
                &&& m.version == version
                &&& m.types@.dom() == Set::new(
                    |k: TypeId| exists|i: int| 0 <= i < entries@.len() && (#[trigger] entries@[i]).0 == k,
                )
                &&& forall|i: int|
                    0 <= i < entries@.len() ==> m.types@[(#[trigger] entries@[i]).0]
                        == entries@[i].1
            },
    {
        let ghost all = entries@;
        let mut types: HashMap<TypeId, TypeModel> = HashMap::new();
        for entry in it: entries.into_iter()
            invariant
                it.seq() == all,
                !has_duplicate_key(all.subrange(0, it.index() as int)),
                types@.dom() == Set::new(
                    |k: TypeId| exists|i: int| 0 <= i < it.index() && (#[trigger] all[i]).0 == k,
                ),
                forall|i: int| 0 <= i < it.index() ==> types@[(#[trigger] all[i]).0] == all[i].1,
        {
            let ghost n = it.index() as int;
            let (k, t) = entry;
            if types.contains_key(&k) {
                proof {
                    let j = choose|j: int| 0 <= j < n && (#[trigger] all[j]).0 == k;
                    assert(all.subrange(0, n + 1)[j].0 == all.subrange(0, n + 1)[n].0);
                }
                return None;
            }
            types.insert(k, t);
            proof {
                assert forall|a: int, b: int|
                    0 <= a < b < n + 1 implies (#[trigger] all.subrange(0, n + 1)[a]).0 != (
                    #[trigger] all.subrange(0, n + 1)[b]).0 by {
                    if b < n {
                        assert(all.subrange(0, n)[a] == all[a]);
                        assert(all.subrange(0, n)[b] == all[b]);
                    } else {
                        assert(!(exists|i: int| 0 <= i < n && (#[trigger] all[i]).0 == k));
                        assert(all[a].0 != k);
                    }
                }
                assert(types@.dom() =~= Set::new(
                    |k: TypeId| exists|i: int| 0 <= i < n + 1 && (#[trigger] all[i]).0 == k,
                ));
            }
        }
        proof {
            assert(all.subrange(0, all.len() as int) =~= all);
        }
        Some(ApplicationModel { name, version, types })
    }
}

impl ApplicationModels {
    /// No two models belong to the same application.
    pub open spec fn wf(&self) -> bool {
        forall|i: int, j: int|
            0 <= i < j < self.apps@.len() ==> (#[trigger] self.apps@[i]).name != (
            #[trigger] self.apps@[j]).name
    }

    /// A snapshot that holds no application.
    pub fn new() -> (r: ApplicationModels)
        ensures
            r.apps@.len() == 0,
            r.wf(),
    {
        ApplicationModels { apps: Vec::new() }
    }

    /// Adds `model` to the snapshot, unless it already holds a model of the
    /// same application; says whether it was added.
    pub fn add(&mut self, model: ApplicationModel) -> (r: bool)
        ensures
            r == (find_app(old(self).apps@, model.name) is None),
            r ==> final(self).apps@ == old(self).apps@.push(model),
            !r ==> final(self).apps@ == old(self).apps@,
            old(self).wf() ==> final(self).wf(),
    {
        let known = self.get_app(model.name).is_some();
        if known {
            false
        } else {
            proof {
                lemma_find_app_none(self.apps@, model.name);
            }
            self.apps.push(model);
            true
        }
    }

    /// The model of `app`, if this snapshot holds one.
    pub fn get_app(&self, app: AppName) -> (r: Option<&ApplicationModel>)
        ensures
            match find_app(self.apps@, app) {
                Some(m) => r matches Some(x) && *x == m,
                None => r is None,
            },
    {
        let mut i: usize = 0;
        assert(self.apps@.subrange(0, self.apps@.len() as int) =~= self.apps@);
        while i < self.apps.len()
            invariant
                i <= self.apps@.len(),
                find_app(self.apps@, app) == find_app(
                    self.apps@.subrange(i as int, self.apps@.len() as int),
                    app,
                ),
            decreases self.apps@.len() - i,
        {
            let ghost rest = self.apps@.subrange(i as int, self.apps@.len() as int);
            assert(rest.drop_first() =~= self.apps@.subrange(i + 1, self.apps@.len() as int));
            if self.apps[i].name == app {
                return Some(&self.apps[i]);
            }
            i = i + 1;
        }
        None
    }

    /// The type that `type_ref` addresses in this snapshot, if there is one.
    pub fn resolve(&self, type_ref: &TypeRef) -> (r: Option<&TypeModel>)
        ensures
            match resolve_in(*self, *type_ref) {
                Some(t) => r matches Some(x) && *x == t,
                None => r is None,
            },
    {
        match self.get_app(type_ref.app) {
            Some(m) => m.types.get(&type_ref.type_id),
            None => None,
        }
    }
}

/// A failed query on a type model, with a message that names what was asked for.
#[derive(Debug)]
pub struct TypeModelError(pub String);

/// Whether some field of the map is marked encrypted.
pub open spec fn any_value_encrypted(values: Map<AttributeId, ModelValue>) -> bool {
    exists|k: AttributeId| values.contains_key(k) && (#[trigger] values[k]).encrypted
}

/// Whether the map has an entry whose name is `name`.
pub open spec fn has_value_named(values: Map<AttributeId, ModelValue>, name: Seq<char>) -> bool {
    exists|k: AttributeId| values.contains_key(k) && (#[trigger] values[k]).name@ == name
}

/// Whether the map has an entry whose name is `name`.
pub open spec fn has_association_named(
    associations: Map<AttributeId, ModelAssociation>,
    name: Seq<char>,
) -> bool {
    exists|k: AttributeId| associations.contains_key(k) && (#[trigger] associations[k]).name@ == name
}

/// Whether no two fields share a name.
pub open spec fn value_names_unique(values: Map<AttributeId, ModelValue>) -> bool {
    forall|a: AttributeId, b: AttributeId|
        values.contains_key(a) && values.contains_key(b) && (#[trigger] values[a]).name@ == (
        #[trigger] values[b]).name@ ==> a == b
}

/// Whether no two associations share a name.
pub open spec fn association_names_unique(associations: Map<AttributeId, ModelAssociation>) -> bool {
    forall|a: AttributeId, b: AttributeId|
        associations.contains_key(a) && associations.contains_key(b) && (
        #[trigger] associations[a]).name@ == (#[trigger] associations[b]).name@ ==> a == b
}

/// The message of the error for an attribute id that is not a number: it
/// names the text and gives std's reason for refusing it.
pub open spec fn invalid_id_message(text: Seq<char>) -> Seq<char> {
    "invalid attribute_id format: '"@ + text + "' (expected a number), "@ + parse_u64_error_text(
        text,
    )
}

/// The message of the error for an association id, given as a number, that
/// the type lacks.
pub open spec fn missing_cardinality_message(id: AttributeId) -> Seq<char> {
    "did not find association with attributeId "@ + decimal(id as nat)
}

/// The message of the error for an association id that the type lacks.
pub open spec fn missing_association_message(text: Seq<char>) -> Seq<char> {
    "no association found with attribute_id '"@ + text + "'"@
}

/// The message of the error for a name that is neither a field nor an association.
pub open spec fn missing_attribute_message(name: Seq<char>) -> Seq<char> {
    "did not find attribute with name '"@ + name + "' in values or associations"@
}

/// Reads an attribute id from its decimal text.
fn parse_attribute_id(attribute_id: &str) -> (r: Result<AttributeId, TypeModelError>)
    ensures
        match parse_u64_spec(attribute_id@) {
            Some(id) => r matches Ok(i) && i == id,
            None => r matches Err(e) && e.0@ == invalid_id_message(attribute_id@),
        },
{
    match parse_u64(attribute_id) {
        Ok(id) => Ok(id),
        Err(reason) => {
            let mut m = String::from_str("invalid attribute_id format: '");
            m.append(attribute_id);
            m.append("' (expected a number), ");
            m.append(reason.as_str());
            Err(TypeModelError(m))
        },
    }
}

impl TypeModel {
    /// Whether values of this type may hold encrypted fields.
    pub open spec fn spec_is_encrypted(&self) -> bool {
        if self.element_type == ElementType::Aggregated {
            any_value_encrypted(self.values@)
        } else {
            self.encrypted
        }
    }

    /// The type's own encryption flag. Aggregates never set it, though they
    /// may hold encrypted fields.
    pub fn marked_encrypted(&self) -> (r: bool)
        ensures
            r == self.encrypted,
    {
        self.encrypted
    }

    /// Whether values of this type may hold encrypted fields: for an aggregate,
    /// whether one of its fields is encrypted; otherwise its own flag.
    pub fn is_encrypted(&self) -> (r: bool)
        ensures
            r == self.spec_is_encrypted(),
    {
        if self.element_type == ElementType::Aggregated {
            // aggregates do not track whether they are encrypted
            self.any_value_encrypted()
        } else {
            self.encrypted
        }
    }

    /// Whether the text names an association of this type; an error if the
    /// text is not a number.
    pub fn is_attribute_id_association(&self, attribute_id: String) -> (r: Result<
        bool,
        TypeModelError,
    >)
        ensures
            match parse_u64_spec(attribute_id@) {
                Some(id) => r matches Ok(b) && b == self.associations@.contains_key(id),
                None => r matches Err(e) && e.0@ == invalid_id_message(attribute_id@),
            },
    {
        match parse_attribute_id(attribute_id.as_str()) {
            Ok(id) => Ok(self.associations.contains_key(&id)),
            Err(e) => Err(e),
        }
    }

    /// The cardinality of the association whose id the text holds; an error if
    /// the text is not a number or no association has that id.
    pub fn get_attribute_id_cardinality(&self, attribute_id: String) -> (r: Result<
        &Cardinality,
        TypeModelError,
    >)
        ensures
            match parse_u64_spec(attribute_id@) {
                Some(id) => if self.associations@.contains_key(id) {
                    r matches Ok(c) && *c == self.associations@[id].cardinality
                } else {
                    r matches Err(e) && e.0@ == missing_cardinality_message(id)
                },
                None => r matches Err(e) && e.0@ == invalid_id_message(attribute_id@),
            },
    {
        let id = match parse_attribute_id(attribute_id.as_str()) {
            Ok(id) => id,
            Err(e) => return Err(e),
        };
        match self.associations.get(&id) {
            Some(a) => Ok(&a.cardinality),
            None => {
                let mut m = String::from_str("did not find association with attributeId ");
                let digits = u64_to_decimal(id);
                m.append(digits.as_str());
                Err(TypeModelError(m))
            },
        }
    }

    /// The association whose id the text holds; an error if the text is not a
    /// number or no association has that id.
    pub fn get_association_by_attribute_id(&self, attribute_id: &str) -> (r: Result<
        &ModelAssociation,
        TypeModelError,
    >)
        ensures
            match parse_u64_spec(attribute_id@) {
                Some(id) => if self.associations@.contains_key(id) {
                    r matches Ok(a) && *a == self.associations@[id]
                } else {
                    r matches Err(e) && e.0@ == missing_association_message(attribute_id@)
                },
                None => r matches Err(e) && e.0@ == invalid_id_message(attribute_id@),
            },
    {
        // non-numeric markers such as the ones of final IVs end up here
        let id = match parse_attribute_id(attribute_id) {
            Ok(id) => id,
            Err(e) => return Err(e),
        };
        match self.associations.get(&id) {
            Some(a) => Ok(a),
            None => {
                let mut m = String::from_str("no association found with attribute_id '");
                m.append(attribute_id);
                m.append("'");
                Err(TypeModelError(m))
            },
        }
    }

    /// The id, as a decimal numeral, of the field named `attribute_name`, or
    /// else of the association of that name; an error if neither exists.
    pub fn get_attribute_id_by_attribute_name(&self, attribute_name: &str) -> (r: Result<
        String,
        TypeModelError,
    >)
        ensures
            match r {
                Ok(s) => exists|id: AttributeId|
                    {
                        &&& #[trigger] decimal(id as nat) == s@
                        &&& if has_value_named(self.values@, attribute_name@) {
                            self.values@.contains_key(id) && self.values@[id].name@
                                == attribute_name@
                        } else {
                            self.associations@.contains_key(id) && self.associations@[id].name@
                                == attribute_name@
                        }
                    },
                Err(e) => !has_value_named(self.values@, attribute_name@)
                    && !has_association_named(self.associations@, attribute_name@) && e.0@
                    == missing_attribute_message(attribute_name@),
            },
            forall|k: AttributeId|
                value_names_unique(self.values@) && self.values@.contains_key(k) && (
                #[trigger] self.values@[k]).name@ == attribute_name@ ==> (r matches Ok(s) && s@
                    == decimal(k as nat)),
            forall|k: AttributeId|
                association_names_unique(self.associations@) && !has_value_named(
                    self.values@,
                    attribute_name@,
                ) && self.associations@.contains_key(k) && (#[trigger] self.associations@[k]).name@
                    == attribute_name@ ==> (r matches Ok(s) && s@ == decimal(k as nat)),
            r is Ok <==> (has_value_named(self.values@, attribute_name@) || has_association_named(
                self.associations@,
                attribute_name@,
            )),
    {
        for (k, v) in it: self.values.iter()
            invariant
                it.seq() == spec_hash_map_iter(&self.values).remaining(),
                forall|i: int|
                    0 <= i < it.index() ==> (#[trigger] it.seq()[i]).1.name@ != attribute_name@,
        {
            if str_equal(v.name.as_str(), attribute_name) {
                proof {
                    let pr = it.seq()[it.index() as int];
                    assert(self.values@.contains_key(*pr.0));
                }
                return Ok(u64_to_decimal(*k));
            }
        }
        proof {
            assert forall|k: AttributeId| self.values@.contains_key(k) implies (
            #[trigger] self.values@[k]).name@ != attribute_name@ by {
                assert(spec_hash_map_iter(&self.values).remaining().contains(
                    (&k, &self.values@[k]),
                ));
            }
        }
        for (k, a) in it: self.associations.iter()
            invariant
                it.seq() == spec_hash_map_iter(&self.associations).remaining(),
                !has_value_named(self.values@, attribute_name@),
                forall|i: int|
                    0 <= i < it.index() ==> (#[trigger] it.seq()[i]).1.name@ != attribute_name@,
        {
            if str_equal(a.name.as_str(), attribute_name) {
                proof {
                    let pr = it.seq()[it.index() as int];
                    assert(self.associations@.contains_key(*pr.0));
                }
                return Ok(u64_to_decimal(*k));
            }
        }
        proof {
            assert forall|k: AttributeId| self.associations@.contains_key(k) implies (
            #[trigger] self.associations@[k]).name@ != attribute_name@ by {
                assert(spec_hash_map_iter(&self.associations).remaining().contains(
                    (&k, &self.associations@[k]),
                ));
            }
        }
        let mut m = String::from_str("did not find attribute with name '");
        m.append(attribute_name);
        m.append("' in values or associations");
        Err(TypeModelError(m))
    }

    /// Whether this type is the one that `type_ref` addresses.
    pub fn is_same_type(&self, type_ref: &TypeRef) -> (r: bool)
        ensures
            r == (self.app == type_ref.app && self.id == type_ref.type_id),
    {
        self.app == type_ref.app && self.id == type_ref.type_id
    }

    /// Whether this type belongs to `app` and is called `name`.
    pub fn is_same_type_by_attr_name(&self, app: AppName, name: &str) -> (r: bool)
        ensures
            r == (self.app == app && self.name@ == name@),
    {
        self.app == app && str_equal(self.name.as_str(), name)
    }

    /// The identity of this type.
    pub fn type_ref(&self) -> (r: TypeRef)
        ensures
            r.app == self.app,
            r.type_id == self.id,
    {
        TypeRef::new(self.app, self.id)
    }

    fn any_value_encrypted(&self) -> (r: bool)
        ensures
            r == any_value_encrypted(self.values@),
    {
        for (k, v) in it: self.values.iter()
            invariant
                it.seq() == spec_hash_map_iter(&self.values).remaining(),
                forall|i: int| 0 <= i < it.index() ==> !(#[trigger] it.seq()[i]).1.encrypted,
        {
            if v.encrypted {
                proof {
                    let pr = it.seq()[it.index() as int];
                    assert(self.values@.contains_key(*pr.0));
                }
                return true;
            }
        }
        proof {
            assert forall|k: AttributeId| self.values@.contains_key(k) implies !(
            #[trigger] self.values@[k]).encrypted by {
                assert(spec_hash_map_iter(&self.values).remaining().contains(
                    (&k, &self.values@[k]),
                ));
            }
        }
        false
    }
}


/// An aggregate with no encrypted field is not encrypted; the same aggregate
/// with one encrypted field added is, whatever its own flag says.
pub proof fn lemma_aggregate_encryption(
    t: TypeModel,
    added: TypeModel,
    k: AttributeId,
    v: ModelValue,
)
    requires
        t.element_type == ElementType::Aggregated,
        added.element_type == ElementType::Aggregated,
        added.values@ == t.values@.insert(k, v),
        v.encrypted,
    ensures
        !any_value_encrypted(t.values@) ==> !t.spec_is_encrypted(),
        added.spec_is_encrypted(),
{
    assert(added.values@.contains_key(k) && added.values@[k].encrypted);
}

/// A type that is not an aggregate is encrypted exactly when its own flag says
/// so, whatever its fields' flags are.
pub proof fn lemma_non_aggregate_encryption(t: TypeModel)
    requires
        t.element_type != ElementType::Aggregated,
    ensures
        t.spec_is_encrypted() == t.encrypted,
{
}

/// The name of an application of the backend.
#[derive(Clone, Copy, Debug, PartialEq, Eq, Structural, Hash)]
pub enum AppName {
    Accounting,
    Base,
    Gossip,
    Monitor,
    Storage,
    Sys,
    Tutanota,
    Usage,
}

/// The wire form of an application name: the name in lower case.
pub open spec fn app_name_text(a: AppName) -> Seq<char> {
    match a {
        AppName::Accounting => "accounting"@,
        AppName::Base => "base"@,
        AppName::Gossip => "gossip"@,
        AppName::Monitor => "monitor"@,
        AppName::Storage => "storage"@,
        AppName::Sys => "sys"@,
        AppName::Tutanota => "tutanota"@,
        AppName::Usage => "usage"@,
    }
}

/// The application whose wire form is `s`, if there is one.
pub open spec fn app_name_of(s: Seq<char>) -> Option<AppName> {
    if s == "accounting"@ {
        Some(AppName::Accounting)
    } else if s == "base"@ {
        Some(AppName::Base)
    } else if s == "gossip"@ {
        Some(AppName::Gossip)
    } else if s == "monitor"@ {
        Some(AppName::Monitor)
    } else if s == "storage"@ {
        Some(AppName::Storage)
    } else if s == "sys"@ {
        Some(AppName::Sys)
    } else if s == "tutanota"@ {
        Some(AppName::Tutanota)
    } else if s == "usage"@ {
        Some(AppName::Usage)
    } else {
        None
    }
}

/// The message of the error for text that names no application.
pub open spec fn unknown_app_message(s: Seq<char>) -> Seq<char> {
    "Unknown AppName: "@ + s
}

impl AppName {
    /// The wire form of the name.
    pub fn as_str(&self) -> (r: &'static str)
        ensures
            r@ == app_name_text(*self),
    {
        match self {
            AppName::Accounting => "accounting",
            AppName::Base => "base",
            AppName::Gossip => "gossip",
            AppName::Monitor => "monitor",
            AppName::Storage => "storage",
            AppName::Sys => "sys",
            AppName::Tutanota => "tutanota",
            AppName::Usage => "usage",
        }
    }

    /// The wire form of the name, as an owned string.
    pub fn to_string(&self) -> (r: String)
        ensures
            r@ == app_name_text(*self),
    {
        String::from_str(self.as_str())
    }

    /// The application whose wire form is `value`; an error naming `value` for
    /// any other text.
    pub fn parse(value: &str) -> (r: Result<AppName, String>)
        ensures
            match app_name_of(value@) {
                Some(a) => r == Ok::<AppName, String>(a),
                None => r matches Err(e) && e@ == unknown_app_message(value@),
            },
    {
        if str_equal(value, "accounting") {
            Ok(AppName::Accounting)
        } else if str_equal(value, "base") {
            Ok(AppName::Base)
        } else if str_equal(value, "gossip") {
            Ok(AppName::Gossip)
        } else if str_equal(value, "monitor") {
            Ok(AppName::Monitor)
        } else if str_equal(value, "storage") {
            Ok(AppName::Storage)
        } else if str_equal(value, "sys") {
            Ok(AppName::Sys)
        } else if str_equal(value, "tutanota") {
            Ok(AppName::Tutanota)
        } else if str_equal(value, "usage") {
            Ok(AppName::Usage)
        } else {
            let mut e = String::from_str("Unknown AppName: ");
            e.append(value);
            Err(e)
        }
    }
}

impl TryFrom<&str> for AppName {
    type Error = String;

    fn try_from(value: &str) -> (r: Result<AppName, String>)
        ensures
            match app_name_of(value@) {
                Some(a) => r == Ok::<AppName, String>(a),
                None => r matches Err(e) && e@ == unknown_app_message(value@),
            },
    {
        AppName::parse(value)
    }
}

impl vstd::std_specs::convert::TryFromSpecImpl<&str> for AppName {
    open spec fn obeys_try_from_spec() -> bool {
        false
    }

    open spec fn try_from_spec(value: &str) -> Result<AppName, String> {
        arbitrary()
    }
}

/// Reading an application name back from its wire form gives the same name;
/// text that is the wire form of no application is refused.
pub proof fn lemma_app_name_round_trip(a: AppName)
    ensures
        app_name_of(app_name_text(a)) == Some(a),
        forall|s: Seq<char>| #[trigger] app_name_of(s) == Some(a) ==> s == app_name_text(a),
{
    reveal_strlit("accounting");
    reveal_strlit("base");
    reveal_strlit("gossip");
    reveal_strlit("monitor");
    reveal_strlit("storage");
    reveal_strlit("sys");
    reveal_strlit("tutanota");
    reveal_strlit("usage");
    assert("accounting"@.len() == 10);
    assert("base"@.len() == 4);
    assert("gossip"@.len() == 6);
    assert("monitor"@.len() == 7);
    assert("storage"@.len() == 7);
    assert("sys"@.len() == 3);
    assert("tutanota"@.len() == 8);
    assert("usage"@.len() == 5);
    assert("monitor"@[0] != "storage"@[0]);
}

} // verus!
