use vstd::prelude::*;
use crate::chain::PluginChainRun;
use crate::comments::{bridge_comments, comments_enabled, CommentsMap, SingleThreadedComments};
use crate::issue::UnsupportedSwcEcmaTransformPluginsIssue;
use crate::metadata::{development_mode, TransformPluginMetadataContext};
use crate::plugin_module::SwcPluginModule;

verus! {

/// A plugin's configuration: a JSON document handed to it unread.
#[verifier::external_type_specification]
#[verifier::external_body]
pub struct ExValue(serde_json::Value);

/// What a transform call over one file is to do.
#[derive(Debug)]
pub enum TransformPlan {
    /// No sandbox runtime: leave the program as it is and report the issue.
    Unsupported(UnsupportedSwcEcmaTransformPluginsIssue),
    /// Serialize the program and run the chain, with these comments and this
    /// metadata.
    Run {
        comments: Option<SingleThreadedComments>,
        comments_enabled: bool,
        metadata: TransformPluginMetadataContext,
    },
}

/// A transformer that runs a configured chain of sandboxed transform plugins
/// over a program, or reports that it cannot where no runtime is available.
#[derive(Debug)]
pub struct SwcEcmaTransformPluginsTransformer {
    plugins: Vec<(SwcPluginModule, serde_json::Value)>,
    runtime_supported: bool,
}

impl SwcEcmaTransformPluginsTransformer {
    pub closed spec fn plugin_names(&self) -> Seq<Seq<char>> {
        self.plugins@.map_values(|p: (SwcPluginModule, serde_json::Value)| p.0.name())
    }

    /// Each plugin's module as its name and bytes, in order.
    pub closed spec fn modules(&self) -> Seq<(Seq<char>, Seq<u8>)> {
        self.plugins@.map_values(|p: (SwcPluginModule, serde_json::Value)| (p.0.name(), p.0.bytes()))
    }

    pub closed spec fn configs(&self) -> Seq<serde_json::Value> {
        self.plugins@.map_values(|p: (SwcPluginModule, serde_json::Value)| p.1)
    }

    pub closed spec fn runtime_supported(&self) -> bool {
        self.runtime_supported
    }

    /// A transformer running `plugins`, in order, each with its configuration.
    pub fn new(plugins: Vec<(SwcPluginModule, serde_json::Value)>) -> (r: Self)
        ensures
            r.runtime_supported(),
            r.plugin_names() == plugins@.map_values(
                |p: (SwcPluginModule, serde_json::Value)| p.0.name(),
            ),
            r.modules() == plugins@.map_values(
                |p: (SwcPluginModule, serde_json::Value)| (p.0.name(), p.0.bytes()),
            ),
            r.configs() == plugins@.map_values(|p: (SwcPluginModule, serde_json::Value)| p.1),
    {
        SwcEcmaTransformPluginsTransformer { plugins, runtime_supported: true }
    }

    /// A transformer for a build without the sandbox runtime.
    pub fn new_without_runtime() -> (r: Self)
        ensures
            !r.runtime_supported(),
            r.plugin_names().len() == 0,
            r.modules().len() == 0,
            r.configs().len() == 0,
    {
        SwcEcmaTransformPluginsTransformer { plugins: Vec::new(), runtime_supported: false }
    }

    pub fn plugin_count(&self) -> (r: usize)
        ensures
            r == self.plugin_names().len(),
    {
        self.plugins.len()
    }

    pub fn plugin_module(&self, index: usize) -> (r: &SwcPluginModule)
        requires
            index < self.plugin_names().len(),
        ensures
            r.name() == self.plugin_names()[index as int],
            (r.name(), r.bytes()) == self.modules()[index as int],
    {
        &self.plugins[index].0
    }

    pub fn plugin_config(&self, index: usize) -> (r: &serde_json::Value)
        requires
            index < self.plugin_names().len(),
        ensures
            *r == self.configs()[index as int],
    {
        &self.plugins[index].1
    }

    /// Decides what a transform of the file at `file_path`, named
    /// `file_name`, with the given comments, is to do.
    pub fn plan(
        &self,
        file_path: &str,
        file_name: &str,
        leading: &CommentsMap,
        trailing: &CommentsMap,
    ) -> (r: TransformPlan)
        requires
            leading.wf(),
            trailing.wf(),
        ensures
            !self.runtime_supported() ==> (r matches TransformPlan::Unsupported(issue)
                && issue.context_spec() == file_path@),
            self.runtime_supported() ==> (r matches TransformPlan::Run {
                comments,
                comments_enabled: enabled,
                metadata,
            } && enabled == comments_enabled(leading@, trailing@)
                && (comments is Some <==> enabled)
                && (comments matches Some(c) ==> c.leading@ == leading@ && c.trailing@ == trailing@)
                && (metadata.filename matches Some(f) && f@ == file_name@)
                && metadata.env@ == development_mode()
                && metadata.experimental is None),
    {
        if !self.runtime_supported {
            return TransformPlan::Unsupported(UnsupportedSwcEcmaTransformPluginsIssue::new(file_path));
        }
        let comments = bridge_comments(leading, trailing);
        let enabled = comments.is_some();
        TransformPlan::Run {
            comments,
            comments_enabled: enabled,
            metadata: TransformPluginMetadataContext::for_file(file_name),
        }
    }

    /// Starts a run of this transformer's plugins over the serialized
    /// program `program`.
    pub fn start_chain(&self, program: Vec<u8>, comments_enabled: bool) -> (r: PluginChainRun)
        ensures
            r.wf(),
            r.names() == self.plugin_names(),
            r.position() == 0,
            !r.failed(),
            r.program() == program@,
            r.trace() == seq![program@],
            r.comments_enabled_spec() == comments_enabled,
    {
        let mut names: Vec<String> = Vec::new();
        let mut i: usize = 0;
        while i < self.plugins.len()
            invariant
                i <= self.plugins.len(),
                names@.len() == i,
                forall|j: int| 0 <= j < i ==> #[trigger] names@[j]@ == self.plugin_names()[j],
            decreases self.plugins.len() - i,
        {
            names.push(self.plugins[i].0.get_module_name().to_owned());
            i = i + 1;
        }
        assert(names@.map_values(|s: String| s@) =~= self.plugin_names());
        PluginChainRun::start(names, program, comments_enabled)
    }

    /// The transform where no sandbox runtime is available: the program is
    /// left exactly as it is and one warning about the file is reported.
    pub fn transform_without_runtime<P>(
        program: &mut P,
        file_path: &str,
        issues: &mut Vec<UnsupportedSwcEcmaTransformPluginsIssue>,
    )
        ensures
            *final(program) == *old(program),
            final(issues)@.len() == old(issues)@.len() + 1,
            final(issues)@.take(old(issues)@.len() as int) == old(issues)@,
            final(issues)@.last().context_spec() == file_path@,
    {
        issues.push(UnsupportedSwcEcmaTransformPluginsIssue::new(file_path));
        assert(issues@.take(old(issues)@.len() as int) =~= old(issues)@);
    }
}

} // verus!
