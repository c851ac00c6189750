use vstd::prelude::*;

verus! {

/// Why a plugin chain failed.
#[derive(Clone, Debug)]
pub enum TransformError {
    /// The program could not be turned into its serialized form.
    Serialize,
    /// The plugin at `index`, named `plugin_name`, failed or trapped.
    PluginExecution { index: usize, plugin_name: String },
    /// The chain's final bytes could not be turned back into a program.
    Deserialize,
}

/// What the host has to do next for a running chain.
#[derive(Clone, Copy, Debug, PartialEq, Eq, Structural)]
pub enum ChainAction {
    /// Run the plugin at `index` on the current bytes, with comment access
    /// as given, and report its result.
    Invoke { index: usize, comments_enabled: bool },
    /// Every plugin has run: deserialize the current bytes.
    Deserialize,
    /// A plugin failed: stop and report the error.
    Abort,
}

/// The state of one run of a plugin chain over a serialized program.
///
/// Plugins run strictly in order; the output bytes of each become the input
/// bytes of the next. The first failure ends the run.
pub struct PluginChainRun {
    plugin_names: Vec<String>,
    position: usize,
    program: Vec<u8>,
    failed: bool,
    comments_enabled: bool,
    /// `trace[0]` is the serialized program the run started from and
    /// `trace[i + 1]` the output of plugin `i`.
    trace: Ghost<Seq<Seq<u8>>>,
}

impl PluginChainRun {
    pub closed spec fn names(&self) -> Seq<Seq<char>> {
        self.plugin_names@.map_values(|s: String| s@)
    }

    /// How many plugins have completed successfully.
    pub closed spec fn position(&self) -> nat {
        self.position as nat
    }

    /// The current serialized program.
    pub closed spec fn program(&self) -> Seq<u8> {
        self.program@
    }

    pub closed spec fn failed(&self) -> bool {
        self.failed
    }

    pub closed spec fn comments_enabled_spec(&self) -> bool {
        self.comments_enabled
    }

    pub closed spec fn trace(&self) -> Seq<Seq<u8>> {
        self.trace@
    }

    pub open spec fn plugin_count(&self) -> nat {
        self.names().len()
    }

    pub closed spec fn wf(&self) -> bool {
        &&& self.position <= self.plugin_names.len()
        &&& self.failed ==> self.position < self.plugin_names.len()
        &&& self.trace@.len() == self.position + 1
        &&& self.trace@.last() == self.program@
    }

    /// What the host is asked to do in this state.
    pub open spec fn action_spec(&self) -> ChainAction {
        if self.failed() {
            ChainAction::Abort
        } else if self.position() < self.plugin_count() {
            ChainAction::Invoke {
                index: self.position() as usize,
                comments_enabled: self.comments_enabled_spec(),
            }
        } else {
            ChainAction::Deserialize
        }
    }

    /// A run over plugins named `plugin_names`, in that order, starting from
    /// the serialized program `program`.
    pub fn start(plugin_names: Vec<String>, program: Vec<u8>, comments_enabled: bool) -> (r: Self)
        ensures
            r.wf(),
            r.names() == plugin_names@.map_values(|s: String| s@),
            r.position() == 0,
            !r.failed(),
            r.program() == program@,
            r.trace() == seq![program@],
            r.comments_enabled_spec() == comments_enabled,
    {
        let ghost tr = seq![program@];
        PluginChainRun {
            plugin_names,
            position: 0,
            program,
            failed: false,
            comments_enabled,
            trace: Ghost(tr),
        }
    }

    pub fn next_action(&self) -> (r: ChainAction)
        requires
            self.wf(),
        ensures
            r == self.action_spec(),
    {
        if self.failed {
            ChainAction::Abort
        } else if self.position < self.plugin_names.len() {
            ChainAction::Invoke { index: self.position, comments_enabled: self.comments_enabled }
        } else {
            ChainAction::Deserialize
        }
    }

    /// The bytes to hand to the next plugin.
    pub fn input(&self) -> (r: &Vec<u8>)
        requires
            self.wf(),
        ensures
            r@ == self.program(),
            r@ == self.trace()[self.position() as int],
    {
        &self.program
    }

    /// The plugin that is due has returned `output`.
    pub fn plugin_succeeded(&mut self, output: Vec<u8>)
        requires
            old(self).wf(),
            old(self).action_spec() is Invoke,
        ensures
            final(self).wf(),
            final(self).names() == old(self).names(),
            final(self).comments_enabled_spec() == old(self).comments_enabled_spec(),
            !final(self).failed(),
            final(self).position() == old(self).position() + 1,
            final(self).program() == output@,
            final(self).trace() == old(self).trace().push(output@),
    {
        let ghost tr = self.trace@.push(output@);
        self.program = output;
        self.position = self.position + 1;
        self.trace = Ghost(tr);
    }

    /// The plugin that is due has failed: no later plugin runs.
    pub fn plugin_failed(&mut self)
        requires
            old(self).wf(),
            old(self).action_spec() is Invoke,
        ensures
            final(self).wf(),
            final(self).names() == old(self).names(),
            final(self).comments_enabled_spec() == old(self).comments_enabled_spec(),
            final(self).failed(),
            final(self).position() == old(self).position(),
            final(self).program() == old(self).program(),
            final(self).trace() == old(self).trace(),
    {
        self.failed = true;
    }

    /// Ends the run: the final serialized program, or the failing plugin.
    pub fn finish(self) -> (r: Result<Vec<u8>, TransformError>)
        requires
            self.wf(),
            !(self.action_spec() is Invoke),
        ensures
            !self.failed() ==> r is Ok && r->Ok_0@ == self.program(),
            self.failed() ==> r is Err && (match r->Err_0 {
                TransformError::PluginExecution { index, plugin_name } => index == self.position()
                    && plugin_name@ == self.names()[self.position() as int],
                _ => false,
            }),
    {
        if self.failed {
            let plugin_name = self.plugin_names[self.position].clone();
            Err(TransformError::PluginExecution { index: self.position, plugin_name })
        } else {
            Ok(self.program)
        }
    }
}

/// The bytes a chain starts from, given what serializing the program
/// produced: `Serialize` exactly where it produced nothing.
pub fn serialization_outcome(serialized: Option<Vec<u8>>) -> (r: Result<Vec<u8>, TransformError>)
    ensures
        serialized is None <==> r is Err,
        serialized matches Some(b) ==> (r matches Ok(o) && o@ == b@),
        r matches Err(e) ==> e is Serialize,
{
    match serialized {
        Some(bytes) => Ok(bytes),
        None => Err(TransformError::Serialize),
    }
}

/// The program a chain ends with, given what deserializing its final bytes
/// produced: `Deserialize` exactly where it produced nothing.
pub fn deserialization_outcome<P>(program: Option<P>) -> (r: Result<P, TransformError>)
    ensures
        program is None <==> r is Err,
        program matches Some(p) ==> (r matches Ok(q) && q == p),
        r matches Err(e) ==> e is Deserialize,
{
    match program {
        Some(p) => Ok(p),
        None => Err(TransformError::Deserialize),
    }
}

/// The program that results from applying the transforms `fs`, in order, to
/// `initial`.
pub open spec fn apply_plugins(fs: Seq<spec_fn(Seq<u8>) -> Seq<u8>>, initial: Seq<u8>) -> Seq<u8>
    decreases fs.len(),
{
    if fs.len() == 0 {
        initial
    } else {
        (fs.last())(apply_plugins(fs.drop_last(), initial))
    }
}

proof fn lemma_trace_prefix(
    trace: Seq<Seq<u8>>,
    fs: Seq<spec_fn(Seq<u8>) -> Seq<u8>>,
    k: nat,
)
    requires
        trace.len() == fs.len() + 1,
        k <= fs.len(),
        forall|i: int| 0 <= i < fs.len() ==> #[trigger] trace[i + 1] == (fs[i])(trace[i]),
    ensures
        trace[k as int] == apply_plugins(fs.take(k as int), trace[0]),
    decreases k,
{
    if k > 0 {
        lemma_trace_prefix(trace, fs, (k - 1) as nat);
        let t = fs.take(k as int);
        assert(t.drop_last() =~= fs.take(k - 1));
        assert(trace[(k - 1) + 1] == (fs[k - 1])(trace[k - 1]));
    } else {
        assert(fs.take(0).len() == 0);
    }
}

/// Chaining: when each plugin of a run turned its input into `fs[i]` of it,
/// the run's current program is the initial program put through every `fs[i]`
/// in order, since each plugin received the previous plugin's output.
pub proof fn lemma_chain_composes(run: PluginChainRun, fs: Seq<spec_fn(Seq<u8>) -> Seq<u8>>)
    requires
        run.wf(),
        fs.len() == run.position(),
        forall|i: int|
            0 <= i < fs.len() ==> #[trigger] run.trace()[i + 1] == (fs[i])(run.trace()[i]),
    ensures
        run.program() == apply_plugins(fs, run.trace()[0]),
{
    lemma_trace_prefix(run.trace(), fs, fs.len());
    assert(fs.take(fs.len() as int) =~= fs);
}

/// An empty chain runs no plugin: it goes straight to deserializing the very
/// bytes it started from.
pub proof fn lemma_empty_chain_identity(run: PluginChainRun)
    requires
        run.wf(),
        run.plugin_count() == 0,
        !run.failed(),
    ensures
        run.action_spec() == ChainAction::Deserialize,
        run.program() == run.trace()[0],
{
}

/// Fail-fast: once a plugin has failed, the run asks for no further plugin
/// and only aborts.
pub proof fn lemma_failure_stops_chain(run: PluginChainRun)
    requires
        run.wf(),
        run.failed(),
    ensures
        run.action_spec() == ChainAction::Abort,
        run.position() < run.plugin_count(),
{
    assert(run.plugin_names@.map_values(|s: String| s@).len() == run.plugin_names@.len());
}

} // verus!
