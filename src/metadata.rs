use vstd::prelude::*;

verus! {

/// The build mode every plugin of a chain is told about.
pub open spec fn development_mode() -> Seq<char> {
    "development"@
}

/// What every plugin of one chain is told about the file and the build:
/// built once per transform call and shared, unchanged, by all of them.
#[derive(Debug)]
pub struct TransformPluginMetadataContext {
    pub filename: Option<String>,
    pub env: String,
    pub experimental: Option<Vec<(String, String)>>,
}

impl TransformPluginMetadataContext {
    pub fn new(
        filename: Option<String>,
        env: String,
        experimental: Option<Vec<(String, String)>>,
    ) -> (r: Self)
        ensures
            r.filename == filename,
            r.env == env,
            r.experimental == experimental,
    {
        TransformPluginMetadataContext { filename, env, experimental }
    }

    /// The context for a chain run over the file named `file_name`, in
    /// development mode and with no auxiliary data.
    pub fn for_file(file_name: &str) -> (r: Self)
        ensures
            r.filename matches Some(f) && f@ == file_name@,
            r.env@ == development_mode(),
            r.experimental is None,
    {
        Self::new(Some(file_name.to_owned()), "development".to_owned(), None)
    }
}

} // verus!
