use vstd::prelude::*;

verus! {

/// One raw parameter spec as it stands in the manifest: a data-type tag,
/// prompt text, and an optional default and pattern. This layer is
/// deserialization-only: no cross-field validation happens here.
#[derive(Clone)]
pub struct RawParameter {
    pub data_type: String,
    pub prompt: String,
    pub default_value: Option<String>,
    pub pattern: Option<String>,
}

pub struct RawParameterView {
    pub data_type: Seq<char>,
    pub prompt: Seq<char>,
    pub default_value: Option<Seq<char>>,
    pub pattern: Option<Seq<char>>,
}

impl DeepView for RawParameter {
    type V = RawParameterView;

    open spec fn deep_view(&self) -> RawParameterView {
        RawParameterView {
            data_type: self.data_type@,
            prompt: self.prompt@,
            default_value: self.default_value.deep_view(),
            pattern: self.pattern.deep_view(),
        }
    }
}

/// One raw custom-filter declaration: the name the filter answers to at
/// render time, and the relative path of the wasm module implementing it.
#[derive(Clone)]
pub struct RawCustomFilter {
    pub name: String,
    pub wasm: String,
}

pub struct RawCustomFilterView {
    pub name: Seq<char>,
    pub wasm: Seq<char>,
}

impl DeepView for RawCustomFilter {
    type V = RawCustomFilterView;

    open spec fn deep_view(&self) -> RawCustomFilterView {
        RawCustomFilterView { name: self.name@, wasm: self.wasm@ }
    }
}

#[verifier::external_type_specification]
#[verifier::external_body]
#[verifier::reject_recursive_types(K)]
#[verifier::reject_recursive_types(V)]
#[verifier::reject_recursive_types(S)]
pub struct ExIndexMap<K, V, S>(indexmap::IndexMap<K, V, S>);

/// What a raw parameters mapping holds: its (parameter id, raw parameter)
/// entries, in insertion order.
pub uninterp spec fn index_map_entries(
    m: indexmap::IndexMap<String, RawParameter, std::collections::hash_map::RandomState>,
) -> Seq<(String, RawParameter)>;

/// Relies on indexmap::IndexMap::iter: entries come out in insertion order,
/// and the map's keys are unique.
#[verifier::external_body]
pub(crate) fn index_map_entry_list(
    m: &indexmap::IndexMap<String, RawParameter>,
) -> (r: Vec<(String, RawParameter)>)
    ensures
        r@ == index_map_entries(*m),
        forall|i: int, j: int| 0 <= i < j < r@.len() ==> r@[i].0@ != r@[j].0@,
{
    let mut out = Vec::new();
    for (k, v) in m.iter() {
        out.push((k.clone(), v.clone()));
    }
    out
}

/// The id-keyed entries of a raw parameters mapping, as views.
pub open spec fn entry_views(entries: Seq<(String, RawParameter)>) -> Seq<
    (Seq<char>, RawParameterView),
> {
    entries.map_values(|e: (String, RawParameter)| (e.0@, e.1.deep_view()))
}

/// The fields of a version-1 manifest.
pub struct RawTemplateManifestV1 {
    pub id: String,
    pub description: Option<String>,
    pub parameters: Option<indexmap::IndexMap<String, RawParameter>>,
    pub custom_filters: Option<Vec<RawCustomFilter>>,
}

pub struct RawTemplateManifestV1View {
    pub id: Seq<char>,
    pub description: Option<Seq<char>>,
    pub parameters: Option<Seq<(Seq<char>, RawParameterView)>>,
    pub custom_filters: Option<Seq<RawCustomFilterView>>,
}

impl DeepView for RawTemplateManifestV1 {
    type V = RawTemplateManifestV1View;

    open spec fn deep_view(&self) -> RawTemplateManifestV1View {
        RawTemplateManifestV1View {
            id: self.id@,
            description: self.description.deep_view(),
            parameters: match self.parameters {
                Some(m) => Some(entry_views(index_map_entries(m))),
                None => None,
            },
            custom_filters: self.custom_filters.deep_view(),
        }
    }
}

/// The raw manifest, tagged by its schema version. New manifest versions
/// are added as new variants; each converts into the same domain model.
pub enum RawTemplateManifest {
    V1(RawTemplateManifestV1),
}

pub enum RawTemplateManifestView {
    V1(RawTemplateManifestV1View),
}

impl DeepView for RawTemplateManifest {
    type V = RawTemplateManifestView;

    open spec fn deep_view(&self) -> RawTemplateManifestView {
        match self {
            RawTemplateManifest::V1(v) => RawTemplateManifestView::V1(v.deep_view()),
        }
    }
}

} // verus!
