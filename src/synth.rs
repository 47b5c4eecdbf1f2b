use vstd::prelude::*;
use vstd::string::StringExecFns;

use crate::classify::{
    ClassifiedField, ClassifiedV, classified_view, classify_all, classify_fields, option_inner, option_of,
    unwrap_once,
};
use crate::record::{DeriveInput, FieldV, UnsupportedShape, extract_fields};
use crate::syntax::{Ty, TypeExpr};

verus! {

/// A field of the generated builder type: `name: ty`.
pub struct StorageField {
    pub name: String,
    pub ty: TypeExpr,
}

/// A generated setter: `pub fn name(&mut self, value: param_type) -> &mut Self`,
/// which stores `Some(value)` in the slot of the same name.
pub struct Setter {
    pub name: String,
    pub param_type: TypeExpr,
}

/// How the completion operation fills one field of the record: a required
/// field takes the slot's value and fails the whole build when it is absent
/// (`self.name.clone()?`); an optional one takes the slot as it is
/// (`self.name.clone()`).
pub struct Extraction {
    pub name: String,
    pub required: bool,
}

/// Structural description of everything the generator emits for one record:
/// the entry point `Record::builder()` that sets each slot in `initialized`
/// to `None`, the builder type with its `storage` fields, its `setters`, and
/// `build(&self) -> Option<Record>` driven by `extractions`.
pub struct GeneratedBuilder {
    pub record_name: String,
    pub builder_name: String,
    pub storage: Vec<StorageField>,
    pub initialized: Vec<String>,
    pub setters: Vec<Setter>,
    pub extractions: Vec<Extraction>,
}

/// Mathematical model of the generated definitions.
pub struct GeneratedV {
    pub record_name: Seq<char>,
    pub builder_name: Seq<char>,
    pub storage: Seq<(Seq<char>, Ty)>,
    pub initialized: Seq<Seq<char>>,
    pub setters: Seq<(Seq<char>, Ty)>,
    pub extractions: Seq<(Seq<char>, bool)>,
}

impl GeneratedBuilder {
    pub open spec fn view(&self) -> GeneratedV {
        GeneratedV {
            record_name: self.record_name@,
            builder_name: self.builder_name@,
            storage: self.storage@.map_values(|f: StorageField| (f.name@, f.ty@)),
            initialized: self.initialized@.map_values(|n: String| n@),
            setters: self.setters@.map_values(|s: Setter| (s.name@, s.param_type@)),
            extractions: self.extractions@.map_values(|e: Extraction| (e.name@, e.required)),
        }
    }
}

/// The suffix that names the builder type after the record.
pub open spec fn builder_suffix() -> Seq<char> {
    "Builder"@
}

/// What the synthesizer emits for a record named `name` with classified fields `cs`.
pub open spec fn synthesis(name: Seq<char>, cs: Seq<ClassifiedV>) -> GeneratedV {
    GeneratedV {
        record_name: name,
        builder_name: name + builder_suffix(),
        storage: cs.map_values(|c: ClassifiedV| (c.name, c.storage_type)),
        initialized: cs.map_values(|c: ClassifiedV| c.name),
        setters: cs.map_values(|c: ClassifiedV| (c.name, c.inner_type)),
        extractions: cs.map_values(|c: ClassifiedV| (c.name, !c.optional_in_source)),
    }
}

/// What the generator emits for a supported record named `name` with fields `fs`.
pub open spec fn generated_for(name: Seq<char>, fs: Seq<FieldV>) -> GeneratedV {
    synthesis(name, classify_all(fs))
}

/// Emits the builder type, its initializer, setters and completion operation
/// for a record named `name` whose fields are classified as `cs`.
pub fn synthesize(name: &String, cs: &Vec<ClassifiedField>) -> (r: GeneratedBuilder)
    ensures
        r@ == synthesis(name@, classified_view(cs@)),
{
    proof {
        reveal_strlit("Builder");
    }
    let builder_name = name.clone().concat("Builder");
    let mut storage: Vec<StorageField> = Vec::new();
    let mut initialized: Vec<String> = Vec::new();
    let mut setters: Vec<Setter> = Vec::new();
    let mut extractions: Vec<Extraction> = Vec::new();
    let ghost goal = synthesis(name@, classified_view(cs@));
    let mut i: usize = 0;
    while i < cs.len()
        invariant
            i <= cs.len(),
            goal == synthesis(name@, classified_view(cs@)),
            storage@.len() == i,
            initialized@.len() == i,
            setters@.len() == i,
            extractions@.len() == i,
            forall|j: int|
                0 <= j < i ==> (#[trigger] storage@[j]).name@ == goal.storage[j].0
                    && storage@[j].ty@ == goal.storage[j].1,
            forall|j: int| 0 <= j < i ==> (#[trigger] initialized@[j])@ == goal.initialized[j],
            forall|j: int|
                0 <= j < i ==> (#[trigger] setters@[j]).name@ == goal.setters[j].0
                    && setters@[j].param_type@ == goal.setters[j].1,
            forall|j: int|
                0 <= j < i ==> (#[trigger] extractions@[j]).name@ == goal.extractions[j].0
                    && extractions@[j].required == goal.extractions[j].1,
        decreases cs.len() - i,
    {
        let c = &cs[i];
        storage.push(StorageField { name: c.name.clone(), ty: c.storage_type.duplicate() });
        initialized.push(c.name.clone());
        setters.push(Setter { name: c.name.clone(), param_type: c.inner_type.duplicate() });
        extractions.push(Extraction { name: c.name.clone(), required: !c.optional_in_source });
        i += 1;
    }
    let r = GeneratedBuilder {
        record_name: name.clone(),
        builder_name,
        storage,
        initialized,
        setters,
        extractions,
    };
    assert(r@.storage =~= goal.storage);
    assert(r@.initialized =~= goal.initialized);
    assert(r@.setters =~= goal.setters);
    assert(r@.extractions =~= goal.extractions);
    r
}

/// Generates the builder for `input`, or names the reason why the input is
/// not a plain non-generic record with named fields.
pub fn derive(input: &DeriveInput) -> (r: Result<GeneratedBuilder, UnsupportedShape>)
    ensures
        match input.shape_error() {
            Some(e) => r is Err && r->Err_0 == e,
            None => r is Ok && r->Ok_0@ == generated_for(input.ident@, input.named_fields()),
        },
{
    match extract_fields(input) {
        Err(e) => Err(e),
        Ok(fields) => {
            let cs = classify_fields(fields);
            Ok(synthesize(&input.ident, &cs))
        },
    }
}

impl GeneratedBuilder {
    /// The position of the setter named `name`, if there is one.
    pub fn setter_index(&self, name: &str) -> (r: Option<usize>)
        ensures
            r matches Some(i) ==> i < self@.setters.len() && self@.setters[i as int].0 == name@,
            r is None ==> forall|i: int| 0 <= i < self@.setters.len() ==> self@.setters[i].0 != name@,
    {
        let target = name.to_owned();
        let mut i: usize = 0;
        while i < self.setters.len()
            invariant
                i <= self.setters.len(),
                target@ == name@,
                forall|j: int| 0 <= j < i ==> self@.setters[j].0 != name@,
            decreases self.setters.len() - i,
        {
            if self.setters[i].name == target {
                return Some(i);
            }
            i += 1;
        }
        None
    }
}

/// The builder mirrors the record: one storage field, one initialized slot,
/// one setter and one extraction per source field, named as the field and in
/// the same order.
pub proof fn lemma_one_slot_per_field(name: Seq<char>, fs: Seq<FieldV>)
    ensures
        ({
            let g = generated_for(name, fs);
            &&& g.storage.len() == fs.len()
            &&& g.initialized.len() == fs.len()
            &&& g.setters.len() == fs.len()
            &&& g.extractions.len() == fs.len()
            &&& forall|i: int|
                0 <= i < fs.len() ==> {
                    &&& (#[trigger] g.storage[i]).0 == fs[i].name
                    &&& g.initialized[i] == fs[i].name
                    &&& g.setters[i].0 == fs[i].name
                    &&& g.extractions[i].0 == fs[i].name
                }
        }),
{
}

/// Every storage field is `Option` of the setter's type, which is the declared
/// type with at most one `Option` removed; a slot is never `Option` of an
/// already removed `Option`, whether or not the field was optional in source.
pub proof fn lemma_storage_always_optional(name: Seq<char>, fs: Seq<FieldV>)
    ensures
        ({
            let g = generated_for(name, fs);
            forall|i: int|
                0 <= i < fs.len() ==> {
                    &&& (#[trigger] g.storage[i]).1 == option_of(g.setters[i].1)
                    &&& g.setters[i].1 == unwrap_once(fs[i].ty)
                    &&& option_inner(g.storage[i].1) == Some(g.setters[i].1)
                }
        }),
{
    reveal_strlit("Option");
}

} // verus!
