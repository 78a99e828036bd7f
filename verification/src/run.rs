use vstd::prelude::*;

use crate::template::Template;

verus! {

/// The caller-supplied configuration a renderer pairs with a template.
/// Which options a renderer recognizes is the renderer's concern, not the
/// template model's; the bundle is carried through opaquely.
pub struct RunOptions {}

impl RunOptions {
    pub fn new() -> RunOptions {
        RunOptions {}
    }
}

/// A fully validated template paired with run configuration, ready for a
/// renderer. Constructing a `Run` is the sole sanctioned way to consume a
/// template; the renderer itself is outside this model.
pub struct Run {
    template: Template,
    options: RunOptions,
}

impl Run {
    /// The template the run was created from, unchanged.
    pub closed spec fn spec_template(&self) -> Template {
        self.template
    }

    /// Pair a validated template with the options that will govern it.
    pub fn new(template: Template, options: RunOptions) -> (r: Run)
        ensures
            r.spec_template() == template,
    {
        Run { template, options }
    }

    /// Read access to the owned template.
    pub fn template(&self) -> (r: &Template)
        ensures
            *r == self.spec_template(),
    {
        &self.template
    }
}

} // verus!
