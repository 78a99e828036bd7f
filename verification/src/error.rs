use vstd::prelude::*;

verus! {

/// A candidate value failed the pattern constraint of a `string` parameter.
/// Carries the expected pattern and the offending value; the caller that
/// knows the parameter attaches its id (see `TemplateError::ValueMismatch`).
#[derive(Debug)]
pub struct ConstraintError {
    pub pattern: String,
    pub value: String,
}

pub struct ConstraintErrorView {
    pub pattern: Seq<char>,
    pub value: Seq<char>,
}

impl DeepView for ConstraintError {
    type V = ConstraintErrorView;

    open spec fn deep_view(&self) -> ConstraintErrorView {
        ConstraintErrorView { pattern: self.pattern@, value: self.value@ }
    }
}

/// Why a raw parameter's declared data type failed to resolve.
#[derive(Debug)]
pub enum DataTypeError {
    /// The `data_type` tag names no known parameter kind.
    UnrecognizedDataType { data_type: String },
    /// The declared `pattern` is not valid regular-expression syntax.
    InvalidPattern { pattern: String },
}

pub enum DataTypeErrorView {
    UnrecognizedDataType { data_type: Seq<char> },
    InvalidPattern { pattern: Seq<char> },
}

impl DeepView for DataTypeError {
    type V = DataTypeErrorView;

    open spec fn deep_view(&self) -> DataTypeErrorView {
        match self {
            DataTypeError::UnrecognizedDataType { data_type } => {
                DataTypeErrorView::UnrecognizedDataType { data_type: data_type@ }
            },
            DataTypeError::InvalidPattern { pattern } => {
                DataTypeErrorView::InvalidPattern { pattern: pattern@ }
            },
        }
    }
}

/// A failed template load or value validation, contextualized with the
/// identifying detail closest to the fault: the parameter id for data-type,
/// pattern and value errors, the filter name and resolved path for filter
/// loading errors.
#[derive(Debug)]
pub enum TemplateError {
    /// A parameter declared a `data_type` tag that names no known kind.
    UnrecognizedDataType { parameter: String, data_type: String },
    /// A parameter declared a pattern that is not valid regular-expression syntax.
    InvalidPattern { parameter: String, pattern: String },
    /// A value offered for a parameter does not match the parameter's pattern.
    ValueMismatch { parameter: String, pattern: String, value: String },
    /// A custom filter declaration resolved to a path with no module behind it.
    FilterNotFound { name: String, path: String },
    /// A custom filter's module bytes are not a recognizable module: they
    /// lack the wasm header. Structural faults past the header, and a
    /// missing export, surface only at instantiation, in the renderer.
    InvalidFilterModule { name: String, path: String },
}

pub enum TemplateErrorView {
    UnrecognizedDataType { parameter: Seq<char>, data_type: Seq<char> },
    InvalidPattern { parameter: Seq<char>, pattern: Seq<char> },
    ValueMismatch { parameter: Seq<char>, pattern: Seq<char>, value: Seq<char> },
    FilterNotFound { name: Seq<char>, path: Seq<char> },
    InvalidFilterModule { name: Seq<char>, path: Seq<char> },
}

impl DeepView for TemplateError {
    type V = TemplateErrorView;

    open spec fn deep_view(&self) -> TemplateErrorView {
        match self {
            TemplateError::UnrecognizedDataType { parameter, data_type } => {
                TemplateErrorView::UnrecognizedDataType {
                    parameter: parameter@,
                    data_type: data_type@,
                }
            },
            TemplateError::InvalidPattern { parameter, pattern } => {
                TemplateErrorView::InvalidPattern { parameter: parameter@, pattern: pattern@ }
            },
            TemplateError::ValueMismatch { parameter, pattern, value } => {
                TemplateErrorView::ValueMismatch {
                    parameter: parameter@,
                    pattern: pattern@,
                    value: value@,
                }
            },
            TemplateError::FilterNotFound { name, path } => {
                TemplateErrorView::FilterNotFound { name: name@, path: path@ }
            },
            TemplateError::InvalidFilterModule { name, path } => {
                TemplateErrorView::InvalidFilterModule { name: name@, path: path@ }
            },
        }
    }
}

/// The load-level error for a data-type fault of the parameter named `id`.
pub open spec fn spec_parameter_error(id: Seq<char>, e: DataTypeErrorView) -> TemplateErrorView {
    match e {
        DataTypeErrorView::UnrecognizedDataType { data_type } => {
            TemplateErrorView::UnrecognizedDataType { parameter: id, data_type }
        },
        DataTypeErrorView::InvalidPattern { pattern } => {
            TemplateErrorView::InvalidPattern { parameter: id, pattern }
        },
    }
}

impl TemplateError {
    /// Attach the id of the offending parameter to a data-type fault.
    pub fn for_parameter(id: String, e: DataTypeError) -> (r: TemplateError)
        ensures
            r.deep_view() == spec_parameter_error(id@, e.deep_view()),
    {
        match e {
            DataTypeError::UnrecognizedDataType { data_type } => {
                TemplateError::UnrecognizedDataType { parameter: id, data_type }
            },
            DataTypeError::InvalidPattern { pattern } => {
                TemplateError::InvalidPattern { parameter: id, pattern }
            },
        }
    }
}

} // verus!
