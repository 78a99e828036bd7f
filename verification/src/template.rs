use vstd::prelude::*;

use crate::constraints::{
    constraint_accepts, parse_string_constraints, spec_parse_string_constraints, StringConstraints,
    StringConstraintsView,
};
use crate::custom_filters::{spec_load_custom_filter, CustomFilterParser, CustomFilterParserView};
use crate::error::{
    spec_parameter_error, ConstraintError, ConstraintErrorView, DataTypeError, DataTypeErrorView,
    TemplateError, TemplateErrorView,
};
use crate::reader::{
    entry_views, index_map_entries, index_map_entry_list, RawCustomFilter, RawCustomFilterView,
    RawParameter, RawParameterView, RawTemplateManifest, RawTemplateManifestView,
};
use crate::run::{Run, RunOptions};

verus! {

/// The resolved data type of a parameter: a closed tagged union, one
/// variant per parameter kind. Today the only kind is a constrained string.
pub enum TemplateParameterDataType {
    String(StringConstraints),
}

pub enum TemplateParameterDataTypeView {
    String(StringConstraintsView),
}

impl DeepView for TemplateParameterDataType {
    type V = TemplateParameterDataTypeView;

    open spec fn deep_view(&self) -> TemplateParameterDataTypeView {
        match self {
            TemplateParameterDataType::String(c) => {
                TemplateParameterDataTypeView::String(c.deep_view())
            },
        }
    }
}

/// How a raw parameter's data type resolves: the tag `string` yields the
/// `String` variant carrying its compiled constraints; any other tag is an
/// unrecognized-data-type fault naming the received tag.
pub open spec fn spec_parse_data_type(raw: RawParameterView) -> Result<
    TemplateParameterDataTypeView,
    DataTypeErrorView,
> {
    if raw.data_type == "string"@ {
        match spec_parse_string_constraints(raw.pattern) {
            Ok(c) => Ok(TemplateParameterDataTypeView::String(c)),
            Err(e) => Err(e),
        }
    } else {
        Err(DataTypeErrorView::UnrecognizedDataType { data_type: raw.data_type })
    }
}

/// What validating a candidate value against a resolved data type returns:
/// the value itself, unchanged, when it satisfies the variant's constraints,
/// and a fault carrying the expected pattern and the value otherwise.
pub open spec fn spec_validate_value(
    dt: TemplateParameterDataTypeView,
    value: Seq<char>,
) -> Result<Seq<char>, ConstraintErrorView> {
    match dt {
        TemplateParameterDataTypeView::String(c) => if constraint_accepts(c.pattern, value) {
            Ok(value)
        } else {
            Err(ConstraintErrorView { pattern: c.pattern->0, value })
        },
    }
}

impl TemplateParameterDataType {
    /// Resolve the `data_type` tag of a raw parameter, compiling the
    /// parameter's constraints as it goes.
    pub fn parse(raw: &RawParameter) -> (r: Result<TemplateParameterDataType, DataTypeError>)
        ensures
            r is Ok <==> spec_parse_data_type(raw.deep_view()) is Ok,
            r is Ok ==> r->Ok_0.deep_view() == spec_parse_data_type(raw.deep_view())->Ok_0,
            r is Err ==> r->Err_0.deep_view() == spec_parse_data_type(raw.deep_view())->Err_0,
    {
        let tag: String = "string".to_owned();
        if raw.data_type == tag {
            match parse_string_constraints(raw) {
                Ok(c) => Ok(TemplateParameterDataType::String(c)),
                Err(e) => Err(e),
            }
        } else {
            Err(DataTypeError::UnrecognizedDataType { data_type: raw.data_type.clone() })
        }
    }

    /// Validate a candidate value against the active variant's constraints.
    pub fn validate_value(&self, value: String) -> (r: Result<String, ConstraintError>)
        ensures
            r is Ok <==> spec_validate_value(self.deep_view(), value@) is Ok,
            r is Ok ==> r->Ok_0@ == spec_validate_value(self.deep_view(), value@)->Ok_0,
            r is Err ==> r->Err_0.deep_view() == spec_validate_value(
                self.deep_view(),
                value@,
            )->Err_0,
    {
        match self {
            TemplateParameterDataType::String(constraints) => constraints.validate(value),
        }
    }
}

/// A validated parameter: identity, resolved data type, interactive prompt
/// text, and an optional default. The default is not validated at load
/// time; it is validated only if and when it is actually used as a value.
pub struct TemplateParameter {
    id: String,
    data_type: TemplateParameterDataType,
    prompt: String,
    default_value: Option<String>,
}

pub struct TemplateParameterView {
    pub id: Seq<char>,
    pub data_type: TemplateParameterDataTypeView,
    pub prompt: Seq<char>,
    pub default_value: Option<Seq<char>>,
}

impl DeepView for TemplateParameter {
    type V = TemplateParameterView;

    closed spec fn deep_view(&self) -> TemplateParameterView {
        TemplateParameterView {
            id: self.id@,
            data_type: self.data_type.deep_view(),
            prompt: self.prompt@,
            default_value: self.default_value.deep_view(),
        }
    }
}

/// How one raw parameter becomes a validated parameter: its data type must
/// resolve; the prompt and the optional default are carried over verbatim,
/// unvalidated. A data-type fault is contextualized with the parameter id.
pub open spec fn spec_from_raw(id: Seq<char>, raw: RawParameterView) -> Result<
    TemplateParameterView,
    TemplateErrorView,
> {
    match spec_parse_data_type(raw) {
        Ok(dt) => Ok(
            TemplateParameterView {
                id,
                data_type: dt,
                prompt: raw.prompt,
                default_value: raw.default_value,
            },
        ),
        Err(e) => Err(spec_parameter_error(id, e)),
    }
}

impl TemplateParameter {
    /// Build a validated parameter from its manifest key and raw spec.
    pub fn from_raw(id: &str, raw: &RawParameter) -> (r: Result<TemplateParameter, TemplateError>)
        ensures
            r is Ok <==> spec_from_raw(id@, raw.deep_view()) is Ok,
            r is Ok ==> r->Ok_0.deep_view() == spec_from_raw(id@, raw.deep_view())->Ok_0,
            r is Err ==> r->Err_0.deep_view() == spec_from_raw(id@, raw.deep_view())->Err_0,
    {
        match TemplateParameterDataType::parse(raw) {
            Ok(data_type) => Ok(
                TemplateParameter {
                    id: id.to_owned(),
                    data_type,
                    prompt: raw.prompt.clone(),
                    default_value: raw.default_value.clone(),
                },
            ),
            Err(e) => Err(TemplateError::for_parameter(id.to_owned(), e)),
        }
    }

    /// The parameter's id, unique within its template.
    pub fn id(&self) -> (r: &str)
        ensures
            r@ == self.deep_view().id,
    {
        self.id.as_str()
    }

    /// The parameter's resolved data type.
    pub fn data_type(&self) -> (r: &TemplateParameterDataType)
        ensures
            r.deep_view() == self.deep_view().data_type,
    {
        &self.data_type
    }

    /// The prompt shown to the user in interactive mode.
    pub fn prompt(&self) -> (r: &str)
        ensures
            r@ == self.deep_view().prompt,
    {
        self.prompt.as_str()
    }

    /// The declared default, if any; carried verbatim and never validated
    /// at load time.
    pub fn default_value(&self) -> (r: &Option<String>)
        ensures
            r.deep_view() == self.deep_view().default_value,
    {
        &self.default_value
    }

    /// Validate a candidate value against this parameter's constraints.
    /// A mismatch is reported under this parameter's id.
    pub fn validate_value(&self, value: &str) -> (r: Result<String, TemplateError>)
        ensures
            r is Ok <==> spec_validate_value(self.deep_view().data_type, value@) is Ok,
            r is Ok ==> r->Ok_0@ == value@,
            r is Err ==> ({
                let ce = spec_validate_value(self.deep_view().data_type, value@)->Err_0;
                r->Err_0.deep_view() == (TemplateErrorView::ValueMismatch {
                    parameter: self.deep_view().id,
                    pattern: ce.pattern,
                    value: ce.value,
                })
            }),
    {
        match self.data_type.validate_value(value.to_owned()) {
            Ok(v) => Ok(v),
            Err(e) => Err(
                TemplateError::ValueMismatch {
                    parameter: self.id.clone(),
                    pattern: e.pattern,
                    value: e.value,
                },
            ),
        }
    }
}

/// How a whole raw parameters mapping becomes the parameter sequence:
/// entry by entry, in insertion order; the first fault aborts the lot.
pub open spec fn spec_parse_parameters(entries: Seq<(Seq<char>, RawParameterView)>) -> Result<
    Seq<TemplateParameterView>,
    TemplateErrorView,
>
    decreases entries.len(),
{
    if entries.len() == 0 {
        Ok(Seq::empty())
    } else {
        match spec_from_raw(entries[0].0, entries[0].1) {
            Err(e) => Err(e),
            Ok(p) => match spec_parse_parameters(entries.drop_first()) {
                Err(e) => Err(e),
                Ok(rest) => Ok(seq![p] + rest),
            },
        }
    }
}

/// The position of the first entry whose parameter fails to parse.
pub open spec fn first_bad_param(entries: Seq<(Seq<char>, RawParameterView)>) -> int
    decreases entries.len(),
{
    if entries.len() == 0 {
        0
    } else if spec_from_raw(entries[0].0, entries[0].1) is Err {
        0
    } else {
        1 + first_bad_param(entries.drop_first())
    }
}

/// The whole mapping parses exactly when every entry does; a successful
/// parse keeps one parameter per entry, positionally; a failed parse
/// reports the first failing entry's fault.
pub proof fn lemma_parse_parameters_facts(entries: Seq<(Seq<char>, RawParameterView)>)
    ensures
        spec_parse_parameters(entries) is Ok <==> (forall|i: int|
            0 <= i < entries.len() ==> spec_from_raw(entries[i].0, entries[i].1) is Ok),
        spec_parse_parameters(entries) is Ok ==> spec_parse_parameters(entries)->Ok_0 =~= Seq::new(
            entries.len(),
            |i: int| spec_from_raw(entries[i].0, entries[i].1)->Ok_0,
        ),
        spec_parse_parameters(entries) is Err ==> ({
            let k = first_bad_param(entries);
            &&& 0 <= k < entries.len()
            &&& spec_from_raw(entries[k].0, entries[k].1) is Err
            &&& (forall|j: int| 0 <= j < k ==> spec_from_raw(entries[j].0, entries[j].1) is Ok)
            &&& spec_parse_parameters(entries)->Err_0 == spec_from_raw(
                entries[k].0,
                entries[k].1,
            )->Err_0
        }),
    decreases entries.len(),
{
    if entries.len() == 0 {
        assert(spec_parse_parameters(entries)->Ok_0 =~= Seq::new(
            entries.len(),
            |i: int| spec_from_raw(entries[i].0, entries[i].1)->Ok_0,
        ));
    } else {
        let rest = entries.drop_first();
        lemma_parse_parameters_facts(rest);
        assert forall|i: int| 0 <= i < rest.len() implies rest[i] == entries[i + 1] by {}
        if spec_from_raw(entries[0].0, entries[0].1) is Err {
            assert(spec_parse_parameters(entries) is Err);
            assert(first_bad_param(entries) == 0);
        } else {
            let p0 = spec_from_raw(entries[0].0, entries[0].1)->Ok_0;
            if spec_parse_parameters(rest) is Ok {
                assert(spec_parse_parameters(entries) is Ok);
                assert forall|i: int|
                    0 <= i < entries.len() implies spec_from_raw(
                    entries[i].0,
                    entries[i].1,
                ) is Ok by {
                    if i > 0 {
                        assert(entries[i] == rest[i - 1]);
                        assert(spec_from_raw(rest[i - 1].0, rest[i - 1].1) is Ok);
                    }
                }
                let full = spec_parse_parameters(entries)->Ok_0;
                let expect = Seq::new(
                    entries.len(),
                    |i: int| spec_from_raw(entries[i].0, entries[i].1)->Ok_0,
                );
                let rest_payload = spec_parse_parameters(rest)->Ok_0;
                assert(full == seq![p0] + rest_payload);
                assert forall|i: int| 0 <= i < full.len() implies full[i] == expect[i] by {
                    if i == 0 {
                        assert(full[0] == p0);
                    } else {
                        assert(full[i] == rest_payload[i - 1]);
                        assert(rest[i - 1] == entries[i]);
                    }
                }
                assert(full =~= expect);
            } else {
                assert(spec_parse_parameters(entries) is Err);
                assert(spec_parse_parameters(entries)->Err_0 == spec_parse_parameters(
                    rest,
                )->Err_0);
                let kr = first_bad_param(rest);
                let k = first_bad_param(entries);
                assert(k == 1 + kr);
                assert(entries[k] == rest[kr]);
                assert(spec_from_raw(entries[k].0, entries[k].1) is Err);
                assert forall|j: int|
                    0 <= j < k implies spec_from_raw(entries[j].0, entries[j].1) is Ok by {
                    if j > 0 {
                        assert(entries[j] == rest[j - 1]);
                        assert(spec_from_raw(rest[j - 1].0, rest[j - 1].1) is Ok);
                    }
                }
            }
        }
    }
}

/// The declared parameter entries of an optional raw mapping, in insertion
/// order; an absent mapping declares none.
pub open spec fn spec_raw_param_entries(
    raw: Option<indexmap::IndexMap<String, RawParameter, std::collections::hash_map::RandomState>>,
) -> Seq<(Seq<char>, RawParameterView)> {
    match raw {
        None => Seq::empty(),
        Some(m) => entry_views(index_map_entries(m)),
    }
}

/// The declared custom filters of an optional raw list; absent means none.
pub open spec fn spec_filter_decls(decls: Option<Seq<RawCustomFilterView>>) -> Seq<
    RawCustomFilterView,
> {
    match decls {
        None => Seq::empty(),
        Some(s) => s,
    }
}

/// How the declared filters load, given for each one the resolved path and
/// the module bytes found there (`None` where nothing exists at the path):
/// declaration by declaration, first fault aborts the lot.
pub open spec fn spec_load_custom_filters(
    decls: Seq<RawCustomFilterView>,
    modules: Seq<(Seq<char>, Option<Seq<u8>>)>,
) -> Result<Seq<CustomFilterParserView>, TemplateErrorView>
    decreases decls.len(),
{
    if decls.len() == 0 {
        Ok(Seq::empty())
    } else {
        match spec_load_custom_filter(decls[0].name, modules[0].0, modules[0].1) {
            Err(e) => Err(e),
            Ok(f) => match spec_load_custom_filters(decls.drop_first(), modules.drop_first()) {
                Err(e) => Err(e),
                Ok(rest) => Ok(seq![f] + rest),
            },
        }
    }
}

/// The position of the first declared filter that fails to load.
pub open spec fn first_bad_filter(
    decls: Seq<RawCustomFilterView>,
    modules: Seq<(Seq<char>, Option<Seq<u8>>)>,
) -> int
    decreases decls.len(),
{
    if decls.len() == 0 {
        0
    } else if spec_load_custom_filter(decls[0].name, modules[0].0, modules[0].1) is Err {
        0
    } else {
        1 + first_bad_filter(decls.drop_first(), modules.drop_first())
    }
}

/// All declared filters load exactly when each does; success keeps one
/// loaded filter per declaration, positionally; failure reports the first
/// failing declaration's fault.
pub proof fn lemma_load_custom_filters_facts(
    decls: Seq<RawCustomFilterView>,
    modules: Seq<(Seq<char>, Option<Seq<u8>>)>,
)
    requires
        decls.len() <= modules.len(),
    ensures
        spec_load_custom_filters(decls, modules) is Ok <==> (forall|i: int|
            0 <= i < decls.len() ==> spec_load_custom_filter(
                decls[i].name,
                modules[i].0,
                modules[i].1,
            ) is Ok),
        spec_load_custom_filters(decls, modules) is Ok ==> spec_load_custom_filters(
            decls,
            modules,
        )->Ok_0 =~= Seq::new(
            decls.len(),
            |i: int| spec_load_custom_filter(decls[i].name, modules[i].0, modules[i].1)->Ok_0,
        ),
        spec_load_custom_filters(decls, modules) is Err ==> ({
            let k = first_bad_filter(decls, modules);
            &&& 0 <= k < decls.len()
            &&& spec_load_custom_filter(decls[k].name, modules[k].0, modules[k].1) is Err
            &&& (forall|j: int|
                0 <= j < k ==> spec_load_custom_filter(
                    decls[j].name,
                    modules[j].0,
                    modules[j].1,
                ) is Ok)
            &&& spec_load_custom_filters(decls, modules)->Err_0 == spec_load_custom_filter(
                decls[k].name,
                modules[k].0,
                modules[k].1,
            )->Err_0
        }),
    decreases decls.len(),
{
    if decls.len() == 0 {
        assert(spec_load_custom_filters(decls, modules)->Ok_0 =~= Seq::new(
            decls.len(),
            |i: int| spec_load_custom_filter(decls[i].name, modules[i].0, modules[i].1)->Ok_0,
        ));
    } else {
        let rd = decls.drop_first();
        let rm = modules.drop_first();
        lemma_load_custom_filters_facts(rd, rm);
        assert forall|i: int| 0 <= i < rd.len() implies rd[i] == decls[i + 1] by {}
        assert forall|i: int| 0 <= i < rm.len() implies rm[i] == modules[i + 1] by {}
        if spec_load_custom_filter(decls[0].name, modules[0].0, modules[0].1) is Err {
            assert(spec_load_custom_filters(decls, modules) is Err);
            assert(first_bad_filter(decls, modules) == 0);
        } else {
            let f0 = spec_load_custom_filter(decls[0].name, modules[0].0, modules[0].1)->Ok_0;
            if spec_load_custom_filters(rd, rm) is Ok {
                assert(spec_load_custom_filters(decls, modules) is Ok);
                assert forall|i: int|
                    0 <= i < decls.len() implies spec_load_custom_filter(
                    decls[i].name,
                    modules[i].0,
                    modules[i].1,
                ) is Ok by {
                    if i > 0 {
                        assert(decls[i] == rd[i - 1]);
                        assert(modules[i] == rm[i - 1]);
                        assert(spec_load_custom_filter(rd[i - 1].name, rm[i - 1].0, rm[i - 1].1)
                            is Ok);
                    }
                }
                let full = spec_load_custom_filters(decls, modules)->Ok_0;
                let expect = Seq::new(
                    decls.len(),
                    |i: int|
                        spec_load_custom_filter(decls[i].name, modules[i].0, modules[i].1)->Ok_0,
                );
                let rest_payload = spec_load_custom_filters(rd, rm)->Ok_0;
                assert(full == seq![f0] + rest_payload);
                assert forall|i: int| 0 <= i < full.len() implies full[i] == expect[i] by {
                    if i == 0 {
                        assert(full[0] == f0);
                    } else {
                        assert(full[i] == rest_payload[i - 1]);
                        assert(rd[i - 1] == decls[i]);
                        assert(rm[i - 1] == modules[i]);
                    }
                }
                assert(full =~= expect);
            } else {
                assert(spec_load_custom_filters(decls, modules) is Err);
                assert(spec_load_custom_filters(decls, modules)->Err_0 == spec_load_custom_filters(
                    rd,
                    rm,
                )->Err_0);
                let kr = first_bad_filter(rd, rm);
                let k = first_bad_filter(decls, modules);
                assert(k == 1 + kr);
                assert(decls[k] == rd[kr]);
                assert(modules[k] == rm[kr]);
                assert(spec_load_custom_filter(decls[k].name, modules[k].0, modules[k].1) is Err);
                assert forall|j: int|
                    0 <= j < k implies spec_load_custom_filter(
                    decls[j].name,
                    modules[j].0,
                    modules[j].1,
                ) is Ok by {
                    if j > 0 {
                        assert(decls[j] == rd[j - 1]);
                        assert(modules[j] == rm[j - 1]);
                        assert(spec_load_custom_filter(rd[j - 1].name, rm[j - 1].0, rm[j - 1].1)
                            is Ok);
                    }
                }
            }
        }
    }
}

/// The fully validated template: identity, ordered parameters, loaded
/// filters, and the content directory if one existed at load time.
/// Immutable after construction; no partially valid value is observable.
pub struct Template {
    id: String,
    description: Option<String>,
    parameters: Vec<TemplateParameter>,
    custom_filters: Vec<CustomFilterParser>,
    content_dir: Option<String>,
}

pub struct TemplateView {
    pub id: Seq<char>,
    pub description: Option<Seq<char>>,
    pub parameters: Seq<TemplateParameterView>,
    pub custom_filters: Seq<CustomFilterParserView>,
    pub content_dir: Option<Seq<char>>,
}

impl DeepView for Template {
    type V = TemplateView;

    closed spec fn deep_view(&self) -> TemplateView {
        TemplateView {
            id: self.id@,
            description: self.description.deep_view(),
            parameters: self.parameters.deep_view(),
            custom_filters: self.custom_filters.deep_view(),
            content_dir: self.content_dir.deep_view(),
        }
    }
}

/// How a raw manifest, the optional existing content directory, and the
/// module bytes found for each declared filter become a template: the id
/// and description are carried over; every declared parameter is validated
/// in insertion order; every declared filter is loaded; the first fault in
/// either pass aborts the whole load.
pub open spec fn spec_load_from_parts(
    raw: RawTemplateManifestView,
    content_dir: Option<Seq<char>>,
    modules: Seq<(Seq<char>, Option<Seq<u8>>)>,
) -> Result<TemplateView, TemplateErrorView> {
    match raw {
        RawTemplateManifestView::V1(v) => match spec_parse_parameters(
            spec_opt_entry_views(v.parameters),
        ) {
            Err(e) => Err(e),
            Ok(parameters) => match spec_load_custom_filters(
                spec_filter_decls(v.custom_filters),
                modules,
            ) {
                Err(e) => Err(e),
                Ok(custom_filters) => Ok(
                    TemplateView {
                        id: v.id,
                        description: v.description,
                        parameters,
                        custom_filters,
                        content_dir,
                    },
                ),
            },
        },
    }
}

/// The parameter entries an optional raw mapping view declares.
pub open spec fn spec_opt_entry_views(
    entries: Option<Seq<(Seq<char>, RawParameterView)>>,
) -> Seq<(Seq<char>, RawParameterView)> {
    match entries {
        None => Seq::empty(),
        Some(s) => s,
    }
}

/// The filter declarations a raw manifest carries.
pub open spec fn spec_manifest_filter_decls(raw: RawTemplateManifestView) -> Seq<
    RawCustomFilterView,
> {
    match raw {
        RawTemplateManifestView::V1(v) => spec_filter_decls(v.custom_filters),
    }
}

impl Template {
    /// Parameter ids are unique within a template, as the raw mapping's
    /// key semantics guarantee.
    #[verifier::type_invariant]
    spec fn wf(self) -> bool {
        forall|i: int, j: int|
            0 <= i < j < self.parameters.deep_view().len()
                ==> self.parameters.deep_view()[i].id != self.parameters.deep_view()[j].id
    }

    /// Validate every declared parameter, in insertion order. The first
    /// fault aborts the pass.
    fn parse_parameters(
        raw: &Option<indexmap::IndexMap<String, RawParameter>>,
    ) -> (r: Result<Vec<TemplateParameter>, TemplateError>)
        ensures
            r is Ok <==> spec_parse_parameters(spec_raw_param_entries(*raw)) is Ok,
            r is Ok ==> r->Ok_0.deep_view() == spec_parse_parameters(
                spec_raw_param_entries(*raw),
            )->Ok_0,
            r is Err ==> r->Err_0.deep_view() == spec_parse_parameters(
                spec_raw_param_entries(*raw),
            )->Err_0,
            r is Ok ==> (forall|i: int, j: int|
                0 <= i < j < r->Ok_0.deep_view().len() ==> r->Ok_0.deep_view()[i].id
                    != r->Ok_0.deep_view()[j].id),
    {
        proof {
            lemma_parse_parameters_facts(spec_raw_param_entries(*raw));
        }
        match raw {
            None => {
                let out: Vec<TemplateParameter> = Vec::new();
                proof {
                    assert(out.deep_view() =~= Seq::<TemplateParameterView>::empty());
                }
                Ok(out)
            },
            Some(m) => {
                let entries = index_map_entry_list(m);
                let ghost ev = entry_views(entries@);
                proof {
                    assert(ev == spec_raw_param_entries(*raw));
                }
                let mut out: Vec<TemplateParameter> = Vec::new();
                let mut idx: usize = 0;
                while idx < entries.len()
                    invariant
                        idx <= entries.len(),
                        ev == entry_views(entries@),
                        ev == spec_raw_param_entries(*raw),
                        ev.len() == entries@.len(),
                        forall|i: int, j: int|
                            0 <= i < j < entries@.len() ==> entries@[i].0@ != entries@[j].0@,
                        forall|j: int| 0 <= j < idx ==> spec_from_raw(ev[j].0, ev[j].1) is Ok,
                        out@.len() == idx,
                        forall|j: int|
                            0 <= j < idx ==> out@[j].deep_view() == spec_from_raw(
                                ev[j].0,
                                ev[j].1,
                            )->Ok_0,
                    decreases entries@.len() - idx,
                {
                    let e = &entries[idx];
                    proof {
                        assert(ev[idx as int] == (entries@[idx as int].0@, entries@[
                            idx as int
                        ].1.deep_view()));
                    }
                    match TemplateParameter::from_raw(e.0.as_str(), &e.1) {
                        Ok(p) => {
                            out.push(p);
                        },
                        Err(err) => {
                            proof {
                                lemma_parse_parameters_facts(ev);
                                let k = first_bad_param(ev);
                                assert(spec_parse_parameters(ev) is Err);
                                if k < idx as int {
                                    assert(spec_from_raw(ev[k].0, ev[k].1) is Ok);
                                }
                                if k > idx as int {
                                    assert(spec_from_raw(ev[idx as int].0, ev[idx as int].1) is Ok);
                                }
                                assert(k == idx as int);
                            }
                            return Err(err);
                        },
                    }
                    idx += 1;
                }
                proof {
                    lemma_parse_parameters_facts(ev);
                    assert(spec_parse_parameters(ev) is Ok);
                    assert(out.deep_view() =~= spec_parse_parameters(ev)->Ok_0);
                    assert forall|i: int, j: int|
                        0 <= i < j < out.deep_view().len() implies out.deep_view()[i].id
                        != out.deep_view()[j].id by {
                        assert(out@[i].deep_view().id == ev[i].0);
                        assert(out@[j].deep_view().id == ev[j].0);
                    }
                }
                Ok(out)
            },
        }
    }

    /// Load every declared filter, pairing each declaration with the
    /// resolved path and module bytes supplied for it. The first fault
    /// aborts the pass.
    #[verifier::loop_isolation(false)]
    fn load_custom_filters(
        raw: &Option<Vec<RawCustomFilter>>,
        modules: Vec<(String, Option<Vec<u8>>)>,
    ) -> (r: Result<Vec<CustomFilterParser>, TemplateError>)
        requires
            spec_filter_decls(raw.deep_view()).len() <= modules.deep_view().len(),
        ensures
            r is Ok <==> spec_load_custom_filters(
                spec_filter_decls(raw.deep_view()),
                modules.deep_view(),
            ) is Ok,
            r is Ok ==> r->Ok_0.deep_view() == spec_load_custom_filters(
                spec_filter_decls(raw.deep_view()),
                modules.deep_view(),
            )->Ok_0,
            r is Err ==> r->Err_0.deep_view() == spec_load_custom_filters(
                spec_filter_decls(raw.deep_view()),
                modules.deep_view(),
            )->Err_0,
    {
        let ghost decls = spec_filter_decls(raw.deep_view());
        let ghost mods = modules.deep_view();
        proof {
            lemma_load_custom_filters_facts(decls, mods);
        }
        match raw {
            None => {
                let out: Vec<CustomFilterParser> = Vec::new();
                proof {
                    assert(out.deep_view() =~= Seq::<CustomFilterParserView>::empty());
                }
                Ok(out)
            },
            Some(filters) => {
                let mut out: Vec<CustomFilterParser> = Vec::new();
                let mut idx: usize = 0;
                let mut rest = modules;
                proof {
                    assert(decls =~= filters.deep_view());
                }
                while idx < filters.len()
                    invariant
                        idx <= filters.len(),
                        decls == filters.deep_view(),
                        decls.len() == filters@.len(),
                        decls.len() <= mods.len(),
                        idx <= mods.len(),
                        rest@.len() == mods.len() - idx,
                        forall|j: int|
                            0 <= j < rest@.len() ==> #[trigger] rest@[j].deep_view() == mods[idx
                                + j],
                        forall|j: int|
                            0 <= j < idx ==> spec_load_custom_filter(
                                decls[j].name,
                                mods[j].0,
                                mods[j].1,
                            ) is Ok,
                        out@.len() == idx,
                        forall|j: int|
                            0 <= j < idx ==> out@[j].deep_view() == spec_load_custom_filter(
                                decls[j].name,
                                mods[j].0,
                                mods[j].1,
                            )->Ok_0,
                    decreases filters@.len() - idx,
                {
                    let decl = &filters[idx];
                    let pm = rest.remove(0);
                    proof {
                        assert(pm.deep_view() == mods[idx as int]);
                        assert(decl.deep_view() == decls[idx as int]);
                    }
                    match Template::load_custom_filter(decl, pm.0, pm.1) {
                        Ok(f) => {
                            out.push(f);
                        },
                        Err(err) => {
                            proof {
                                lemma_load_custom_filters_facts(decls, mods);
                                assert(spec_load_custom_filter(
                                    decls[idx as int].name,
                                    mods[idx as int].0,
                                    mods[idx as int].1,
                                ) is Err);
                                assert(spec_load_custom_filters(decls, mods) is Err);
                                let k = first_bad_filter(decls, mods);
                                if k < idx as int {
                                    assert(spec_load_custom_filter(
                                        decls[k].name,
                                        mods[k].0,
                                        mods[k].1,
                                    ) is Ok);
                                }
                                if k > idx as int {
                                    assert(spec_load_custom_filter(
                                        decls[idx as int].name,
                                        mods[idx as int].0,
                                        mods[idx as int].1,
                                    ) is Ok);
                                }
                                assert(k == idx as int);
                            }
                            return Err(err);
                        },
                    }
                    idx += 1;
                }
                proof {
                    lemma_load_custom_filters_facts(decls, mods);
                    assert(spec_load_custom_filters(decls, mods) is Ok);
                    assert(out.deep_view() =~= spec_load_custom_filters(decls, mods)->Ok_0);
                }
                Ok(out)
            },
        }
    }

    /// Assemble a validated template from the parsed raw manifest, the
    /// content directory (present only where it existed on disk at load
    /// time), and, for each declared filter in order, its resolved path and
    /// the module bytes found there (`None` where nothing exists at the
    /// path). The first fault in the parameter pass or the filter pass
    /// aborts the whole load: no partially valid template is observable.
    pub fn load_from_parts(
        raw: RawTemplateManifest,
        content_dir: Option<String>,
        filter_modules: Vec<(String, Option<Vec<u8>>)>,
    ) -> (r: Result<Template, TemplateError>)
        requires
            spec_manifest_filter_decls(raw.deep_view()).len() <= filter_modules.deep_view().len(),
        ensures
            r is Ok <==> spec_load_from_parts(
                raw.deep_view(),
                content_dir.deep_view(),
                filter_modules.deep_view(),
            ) is Ok,
            r is Ok ==> r->Ok_0.deep_view() == spec_load_from_parts(
                raw.deep_view(),
                content_dir.deep_view(),
                filter_modules.deep_view(),
            )->Ok_0,
            r is Err ==> r->Err_0.deep_view() == spec_load_from_parts(
                raw.deep_view(),
                content_dir.deep_view(),
                filter_modules.deep_view(),
            )->Err_0,
            r is Ok ==> (forall|i: int, j: int|
                0 <= i < j < r->Ok_0.deep_view().parameters.len()
                    ==> r->Ok_0.deep_view().parameters[i].id
                    != r->Ok_0.deep_view().parameters[j].id),
    {
        match raw {
            RawTemplateManifest::V1(v) => {
                let parameters = match Template::parse_parameters(&v.parameters) {
                    Ok(p) => p,
                    Err(e) => {
                        return Err(e);
                    },
                };
                let custom_filters = match Template::load_custom_filters(
                    &v.custom_filters,
                    filter_modules,
                ) {
                    Ok(f) => f,
                    Err(e) => {
                        return Err(e);
                    },
                };
                Ok(
                    Template {
                        id: v.id,
                        description: v.description,
                        parameters,
                        custom_filters,
                        content_dir,
                    },
                )
            },
        }
    }

    /// The ID of the template, identifying it on the command surface.
    pub fn id(&self) -> (r: &str)
        ensures
            r@ == self.deep_view().id,
    {
        self.id.as_str()
    }

    /// The template author's human-readable description, if one was given.
    pub fn description(&self) -> (r: &Option<String>)
        ensures
            r.deep_view() == self.deep_view().description,
    {
        &self.description
    }

    /// The template author's description, or the empty string where none
    /// was given.
    pub fn description_or_empty(&self) -> (r: &str)
        ensures
            self.deep_view().description is Some ==> r@ == self.deep_view().description->0,
            self.deep_view().description is None ==> r@ == Seq::<char>::empty(),
    {
        match &self.description {
            Some(s) => s.as_str(),
            None => {
                let empty = "";
                proof {
                    reveal_strlit("");
                    assert(empty@ =~= Seq::<char>::empty());
                }
                empty
            },
        }
    }

    /// The validated parameters, in the manifest's insertion order; their
    /// ids are pairwise distinct.
    pub fn parameters(&self) -> (r: &Vec<TemplateParameter>)
        ensures
            r.deep_view() == self.deep_view().parameters,
            forall|i: int, j: int|
                0 <= i < j < r.deep_view().len() ==> r.deep_view()[i].id != r.deep_view()[j].id,
    {
        proof {
            use_type_invariant(self);
        }
        &self.parameters
    }

    /// Look one parameter up by its id.
    #[verifier::loop_isolation(false)]
    pub fn parameter(&self, name: &str) -> (r: Option<&TemplateParameter>)
        ensures
            r is Some ==> r->0.deep_view().id == name@ && (exists|i: int|
                0 <= i < self.deep_view().parameters.len() && self.deep_view().parameters[i]
                    == r->0.deep_view()),
            r is None ==> forall|i: int|
                0 <= i < self.deep_view().parameters.len() ==> self.deep_view().parameters[i].id
                    != name@,
    {
        let key: String = name.to_owned();
        let mut idx: usize = 0;
        while idx < self.parameters.len()
            invariant
                idx <= self.parameters@.len(),
                forall|j: int| 0 <= j < idx ==> self.deep_view().parameters[j].id != name@,
            decreases self.parameters@.len() - idx,
        {
            if self.parameters[idx].id == key {
                proof {
                    let i = idx as int;
                    assert(0 <= i < self.deep_view().parameters.len()
                        && self.deep_view().parameters[i] == self.parameters@[i].deep_view()
                        && self.parameters@[i].deep_view().id == name@);
                }
                return Some(&self.parameters[idx]);
            }
            idx += 1;
        }
        None
    }

    /// The loaded custom filters, cloned: the caller's list is independent
    /// of the template's own copy.
    #[verifier::loop_isolation(false)]
    pub fn custom_filters(&self) -> (r: Vec<CustomFilterParser>)
        ensures
            r.deep_view() == self.deep_view().custom_filters,
    {
        let mut out: Vec<CustomFilterParser> = Vec::new();
        let mut idx: usize = 0;
        while idx < self.custom_filters.len()
            invariant
                idx <= self.custom_filters@.len(),
                out@.len() == idx,
                forall|j: int|
                    0 <= j < idx ==> out@[j].deep_view() == self.custom_filters@[j].deep_view(),
            decreases self.custom_filters@.len() - idx,
        {
            out.push(self.custom_filters[idx].duplicate());
            idx += 1;
        }
        proof {
            assert(out.deep_view() =~= self.deep_view().custom_filters);
        }
        out
    }

    /// The template's content directory, present only where the directory
    /// existed on disk at load time; absence is not an error.
    pub fn content_dir(&self) -> (r: &Option<String>)
        ensures
            r.deep_view() == self.deep_view().content_dir,
    {
        &self.content_dir
    }

    /// Hand the fully validated template, with the given options, to a
    /// renderer. This is the sole sanctioned way to consume a template.
    pub fn run(self, options: RunOptions) -> (r: Run)
        ensures
            r.spec_template() == self,
    {
        Run::new(self, options)
    }

    /// Load one declared filter from the module bytes at its resolved path.
    fn load_custom_filter(raw: &RawCustomFilter, path: String, module: Option<Vec<u8>>) -> (r:
        Result<CustomFilterParser, TemplateError>)
        ensures
            r is Ok <==> spec_load_custom_filter(
                raw.deep_view().name,
                path@,
                module.deep_view(),
            ) is Ok,
            r is Ok ==> r->Ok_0.deep_view() == spec_load_custom_filter(
                raw.deep_view().name,
                path@,
                module.deep_view(),
            )->Ok_0,
            r is Err ==> r->Err_0.deep_view() == spec_load_custom_filter(
                raw.deep_view().name,
                path@,
                module.deep_view(),
            )->Err_0,
    {
        CustomFilterParser::load(raw.name.as_str(), path, module)
    }
}

/// A `string` parameter with no pattern accepts any value, unchanged.
pub proof fn lemma_no_pattern_accepts_all(dt: TemplateParameterDataTypeView, value: Seq<char>)
    requires
        dt matches TemplateParameterDataTypeView::String(c) && c.pattern is None,
    ensures
        spec_validate_value(dt, value) == Ok::<Seq<char>, ConstraintErrorView>(value),
{
}

/// Every valid manifest's parameters survive the load exactly: one
/// validated parameter per declared entry, positionally in insertion
/// order, each with the declared id, prompt and default carried verbatim
/// and the data type the entry resolves to.
pub proof fn lemma_parameters_preserved(entries: Seq<(Seq<char>, RawParameterView)>)
    requires
        spec_parse_parameters(entries) is Ok,
    ensures
        spec_parse_parameters(entries)->Ok_0.len() == entries.len(),
        forall|i: int|
            0 <= i < entries.len() ==> #[trigger] spec_parse_parameters(entries)->Ok_0[i]
                == spec_from_raw(entries[i].0, entries[i].1)->Ok_0,
        forall|i: int|
            0 <= i < entries.len() ==> (#[trigger] spec_parse_parameters(entries)->Ok_0[i]).id
                == entries[i].0,
        forall|i: int|
            0 <= i < entries.len() ==> (#[trigger] spec_parse_parameters(entries)->Ok_0[i]).prompt
                == entries[i].1.prompt,
        forall|i: int|
            0 <= i < entries.len() ==> (#[trigger] spec_parse_parameters(
                entries,
            )->Ok_0[i]).default_value == entries[i].1.default_value,
{
    lemma_parse_parameters_facts(entries);
    assert forall|i: int|
        0 <= i < entries.len() implies #[trigger] spec_parse_parameters(entries)->Ok_0[i]
        == spec_from_raw(entries[i].0, entries[i].1)->Ok_0 by {
        assert(spec_from_raw(entries[i].0, entries[i].1) is Ok);
    }
}

/// One unrecognized data type anywhere among the declared parameters
/// fails the whole load, not just that parameter.
pub proof fn lemma_unrecognized_data_type_fails_load(
    raw: RawTemplateManifestView,
    content_dir: Option<Seq<char>>,
    modules: Seq<(Seq<char>, Option<Seq<u8>>)>,
    i: int,
)
    requires
        raw matches RawTemplateManifestView::V1(v) && {
            let entries = spec_opt_entry_views(v.parameters);
            &&& 0 <= i < entries.len()
            &&& entries[i].1.data_type != "string"@
        },
    ensures
        spec_load_from_parts(raw, content_dir, modules) is Err,
{
    match raw {
        RawTemplateManifestView::V1(v) => {
            let entries = spec_opt_entry_views(v.parameters);
            lemma_parse_parameters_facts(entries);
            assert(spec_parse_data_type(entries[i].1) is Err);
            assert(spec_from_raw(entries[i].0, entries[i].1) is Err);
            assert(!(spec_parse_parameters(entries) is Ok));
        },
    }
}

/// A parameter's default value is not validated at load time: whether a
/// raw parameter resolves, and with which fault, never depends on its
/// default, so a manifest loads the same whatever default stands in it.
pub proof fn lemma_default_value_not_validated(
    id: Seq<char>,
    raw: RawParameterView,
    other: Option<Seq<char>>,
)
    ensures
        ({
            let changed = RawParameterView {
                data_type: raw.data_type,
                prompt: raw.prompt,
                default_value: other,
                pattern: raw.pattern,
            };
            &&& (spec_from_raw(id, changed) is Ok <==> spec_from_raw(id, raw) is Ok)
            &&& (spec_from_raw(id, raw) is Err ==> spec_from_raw(id, changed)->Err_0
                == spec_from_raw(id, raw)->Err_0)
        }),
{
}

/// A manifest with no content directory on disk loads exactly like one
/// with: the directory's presence never decides a load's success or its
/// fault, and a successful load carries the given directory through
/// unchanged.
pub proof fn lemma_content_dir_optional(
    raw: RawTemplateManifestView,
    cd1: Option<Seq<char>>,
    cd2: Option<Seq<char>>,
    modules: Seq<(Seq<char>, Option<Seq<u8>>)>,
)
    ensures
        spec_load_from_parts(raw, cd1, modules) is Ok <==> spec_load_from_parts(
            raw,
            cd2,
            modules,
        ) is Ok,
        spec_load_from_parts(raw, cd1, modules) is Ok ==> spec_load_from_parts(
            raw,
            cd1,
            modules,
        )->Ok_0.content_dir == cd1,
        spec_load_from_parts(raw, cd1, modules) is Err ==> spec_load_from_parts(
            raw,
            cd1,
            modules,
        )->Err_0 == spec_load_from_parts(raw, cd2, modules)->Err_0,
{
    match raw {
        RawTemplateManifestView::V1(v) => {
        },
    }
}

/// Round trip: two loads of the same manifest, with no changes in
/// between, yield templates with identical id, description, parameter
/// sequence and filter names.
pub proof fn lemma_load_round_trip(
    raw: RawTemplateManifestView,
    content_dir: Option<Seq<char>>,
    modules: Seq<(Seq<char>, Option<Seq<u8>>)>,
    t1: TemplateView,
    t2: TemplateView,
)
    requires
        spec_load_from_parts(raw, content_dir, modules) == Ok::<
            TemplateView,
            TemplateErrorView,
        >(t1),
        spec_load_from_parts(raw, content_dir, modules) == Ok::<
            TemplateView,
            TemplateErrorView,
        >(t2),
    ensures
        t1.id == t2.id,
        t1.description == t2.description,
        t1.parameters == t2.parameters,
        t1.custom_filters.map_values(|f: CustomFilterParserView| f.name)
            == t2.custom_filters.map_values(|f: CustomFilterParserView| f.name),
{
}

} // verus!
