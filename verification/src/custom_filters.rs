use vstd::prelude::*;

use crate::error::{TemplateError, TemplateErrorView};

verus! {

/// Whether a byte string is accepted as a filter module for the host's
/// execution format: a wasm binary, recognized by its eight-byte header
/// (the magic `\0asm` followed by binary-format version 1). Loadability is
/// deliberately modeled by this header alone: whether the module body is
/// well formed beyond it, and whether it exports the calling interface the
/// renderer expects, is established only when the renderer instantiates
/// the module, outside this model.
pub open spec fn is_wasm_module(bytes: Seq<u8>) -> bool {
    &&& bytes.len() >= 8
    &&& bytes[0] == 0x00u8
    &&& bytes[1] == 0x61u8
    &&& bytes[2] == 0x73u8
    &&& bytes[3] == 0x6du8
    &&& bytes[4] == 0x01u8
    &&& bytes[5] == 0x00u8
    &&& bytes[6] == 0x00u8
    &&& bytes[7] == 0x00u8
}

fn has_wasm_header(bytes: &Vec<u8>) -> (r: bool)
    ensures
        r == is_wasm_module(bytes@),
{
    if bytes.len() < 8 {
        return false;
    }
    bytes[0] == 0x00u8 && bytes[1] == 0x61u8 && bytes[2] == 0x73u8 && bytes[3] == 0x6du8
        && bytes[4] == 0x01u8 && bytes[5] == 0x00u8 && bytes[6] == 0x00u8 && bytes[7] == 0x00u8
}

/// A loaded custom filter: a named transform bound to the name used at
/// render time to look it up and invoke it. It keeps the module bytes it
/// was loaded from, so an invocation never re-reads the module; loading
/// recognizes the module's format but never instantiates or executes it.
pub struct CustomFilterParser {
    name: String,
    path: String,
    module: Vec<u8>,
}

pub struct CustomFilterParserView {
    pub name: Seq<char>,
    pub path: Seq<char>,
    pub module: Seq<u8>,
}

impl DeepView for CustomFilterParser {
    type V = CustomFilterParserView;

    closed spec fn deep_view(&self) -> CustomFilterParserView {
        CustomFilterParserView { name: self.name@, path: self.path@, module: self.module@ }
    }
}

/// How loading one declared filter turns out: no bytes behind the resolved
/// path is a missing-module fault; bytes that `is_wasm_module` rejects are
/// an invalid-module fault; otherwise the filter is loaded under its name.
/// Both faults carry the filter's name and its resolved path. Module
/// validity is the header check of `is_wasm_module`, no more: a module
/// that is malformed past its header, or that lacks the export the
/// renderer will call, is accepted here and fails at instantiation.
pub open spec fn spec_load_custom_filter(
    name: Seq<char>,
    path: Seq<char>,
    module: Option<Seq<u8>>,
) -> Result<CustomFilterParserView, TemplateErrorView> {
    match module {
        None => Err(TemplateErrorView::FilterNotFound { name, path }),
        Some(bytes) => if is_wasm_module(bytes) {
            Ok(CustomFilterParserView { name, path, module: bytes })
        } else {
            Err(TemplateErrorView::InvalidFilterModule { name, path })
        },
    }
}

impl CustomFilterParser {
    /// A loaded filter always holds a loadable module.
    #[verifier::type_invariant]
    spec fn wf(self) -> bool {
        is_wasm_module(self.module@)
    }

    /// Load the filter declared under `name` from the module bytes found at
    /// its resolved `path`, or say exactly why it cannot be loaded. `module`
    /// is `None` when nothing exists at the resolved path.
    pub fn load(name: &str, path: String, module: Option<Vec<u8>>) -> (r: Result<
        CustomFilterParser,
        TemplateError,
    >)
        ensures
            r is Ok <==> spec_load_custom_filter(name@, path@, module.deep_view()) is Ok,
            r is Ok ==> r->Ok_0.deep_view() == spec_load_custom_filter(
                name@,
                path@,
                module.deep_view(),
            )->Ok_0,
            r is Err ==> r->Err_0.deep_view() == spec_load_custom_filter(
                name@,
                path@,
                module.deep_view(),
            )->Err_0,
    {
        match module {
            None => Err(TemplateError::FilterNotFound { name: name.to_owned(), path }),
            Some(bytes) => {
                proof {
                    assert(bytes.deep_view() =~= bytes@);
                }
                if has_wasm_header(&bytes) {
                Ok(CustomFilterParser { name: name.to_owned(), path, module: bytes })
                } else {
                    Err(TemplateError::InvalidFilterModule { name: name.to_owned(), path })
                }
            },
        }
    }

    /// The name the filter is invoked by at render time.
    pub fn name(&self) -> (r: &str)
        ensures
            r@ == self.deep_view().name,
    {
        self.name.as_str()
    }

    /// The resolved path the filter's module was loaded from.
    pub fn path(&self) -> (r: &str)
        ensures
            r@ == self.deep_view().path,
    {
        self.path.as_str()
    }

    /// The loaded module bytes, ready to instantiate without re-reading.
    pub fn module(&self) -> (r: &Vec<u8>)
        ensures
            r@ == self.deep_view().module,
    {
        &self.module
    }

    /// An independent copy of the filter, equal in name, path and module.
    pub fn duplicate(&self) -> (r: CustomFilterParser)
        ensures
            r.deep_view() == self.deep_view(),
    {
        proof {
            use_type_invariant(self);
        }
        let module = self.module.clone();
        proof {
            assert(module@ =~= self.module@);
        }
        CustomFilterParser { name: self.name.clone(), path: self.path.clone(), module }
    }
}

} // verus!
