use vstd::prelude::*;

verus! {

/// How serious a reported issue is.
#[derive(Clone, Copy, Debug, PartialEq, Eq, Structural)]
pub enum IssueSeverity {
    Bug,
    Fatal,
    Error,
    Warning,
    Hint,
    Note,
    Suggestion,
    Info,
}

/// The warning raised for a file when transform plugins are configured but
/// the sandbox runtime is not available on this platform.
#[derive(Clone, Debug)]
pub struct UnsupportedSwcEcmaTransformPluginsIssue {
    context: String,
}

pub open spec fn transform_category() -> Seq<char> {
    "transform"@
}

pub open spec fn unsupported_title() -> Seq<char> {
    "Unsupported SWC EcmaScript transform plugins on this platform."@
}

pub open spec fn unsupported_description() -> Seq<char> {
    "Turbopack does not yet support running SWC EcmaScript transform plugins on this platform."@
}

impl UnsupportedSwcEcmaTransformPluginsIssue {
    /// The issue for the file at `context`.
    pub fn new(context: &str) -> (r: Self)
        ensures
            r.context_spec() == context@,
    {
        UnsupportedSwcEcmaTransformPluginsIssue { context: context.to_owned() }
    }

    pub closed spec fn context_spec(&self) -> Seq<char> {
        self.context@
    }

    pub fn severity(&self) -> (r: IssueSeverity)
        ensures
            r == IssueSeverity::Warning,
    {
        IssueSeverity::Warning
    }

    pub fn category(&self) -> (r: String)
        ensures
            r@ == transform_category(),
    {
        "transform".to_owned()
    }

    pub fn title(&self) -> (r: String)
        ensures
            r@ == unsupported_title(),
    {
        "Unsupported SWC EcmaScript transform plugins on this platform.".to_owned()
    }

    pub fn description(&self) -> (r: String)
        ensures
            r@ == unsupported_description(),
    {
        "Turbopack does not yet support running SWC EcmaScript transform plugins on this platform.".to_owned()
    }

    /// The path of the file the issue is about.
    pub fn context(&self) -> (r: String)
        ensures
            r@ == self.context_spec(),
    {
        self.context.clone()
    }
}

} // verus!
