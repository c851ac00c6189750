use vstd::prelude::*;

verus! {

/// A transform plugin's module: its name and the bytes of its binary module.
#[derive(Debug)]
pub struct SwcPluginModule {
    name: String,
    bytes: Vec<u8>,
}

impl SwcPluginModule {
    pub closed spec fn name(&self) -> Seq<char> {
        self.name@
    }

    pub closed spec fn bytes(&self) -> Seq<u8> {
        self.bytes@
    }

    pub fn new(plugin_name: &str, plugin_bytes: Vec<u8>) -> (r: Self)
        ensures
            r.name() == plugin_name@,
            r.bytes() == plugin_bytes@,
    {
        SwcPluginModule { name: plugin_name.to_owned(), bytes: plugin_bytes }
    }

    pub fn get_module_name(&self) -> (r: &str)
        ensures
            r@ == self.name(),
    {
        self.name.as_str()
    }

    /// A copy of this module, name and bytes.
    pub fn share(&self) -> (r: Self)
        ensures
            r.name() == self.name(),
            r.bytes() == self.bytes(),
    {
        let bytes = self.bytes.clone();
        assert(bytes@ =~= self.bytes@);
        SwcPluginModule { name: self.name.clone(), bytes }
    }

    pub fn module_bytes(&self) -> (r: &Vec<u8>)
        ensures
            r@ == self.bytes(),
    {
        &self.bytes
    }
}

fn bytes_equal(a: &Vec<u8>, b: &Vec<u8>) -> (r: bool)
    ensures
        r == (a@ == b@),
{
    if a.len() != b.len() {
        return false;
    }
    let mut i: usize = 0;
    while i < a.len()
        invariant
            i <= a.len(),
            a.len() == b.len(),
            forall|j: int| 0 <= j < i ==> a@[j] == b@[j],
        decreases a.len() - i,
    {
        if a[i] != b[i] {
            return false;
        }
        i = i + 1;
    }
    assert(a@ =~= b@);
    true
}

/// What a module is cached under: the plugin's name and its bytes.
pub type ModuleKey = (Seq<char>, Seq<u8>);

/// The cache after looking `key` up in `keys`: unchanged where the key is
/// already there, else with the key compiled and added last.
pub open spec fn lookup_keys(keys: Seq<ModuleKey>, key: ModuleKey) -> Seq<ModuleKey> {
    if keys.contains(key) {
        keys
    } else {
        keys.push(key)
    }
}

/// The cache after `n` lookups of the same key.
pub open spec fn lookup_repeated(keys: Seq<ModuleKey>, key: ModuleKey, n: nat) -> Seq<ModuleKey>
    decreases n,
{
    if n == 0 {
        keys
    } else {
        lookup_keys(lookup_repeated(keys, key, (n - 1) as nat), key)
    }
}

/// Compiled plugin modules of one build session, one for each distinct
/// pair of plugin name and bytes. Entries are never evicted.
#[derive(Debug)]
pub struct PluginModuleCache {
    modules: Vec<SwcPluginModule>,
}

impl View for PluginModuleCache {
    type V = Seq<ModuleKey>;

    closed spec fn view(&self) -> Seq<ModuleKey> {
        self.modules@.map_values(|m: SwcPluginModule| (m.name(), m.bytes()))
    }
}

impl PluginModuleCache {
    pub closed spec fn wf(&self) -> bool {
        forall|i: int, j: int| 0 <= i < j < self@.len() ==> self@[i] != self@[j]
    }

    pub fn new() -> (r: Self)
        ensures
            r.wf(),
            r@.len() == 0,
    {
        PluginModuleCache { modules: Vec::new() }
    }

    /// How many modules have been compiled: one per distinct key looked up.
    pub fn compile_count(&self) -> (r: usize)
        ensures
            r == self@.len(),
    {
        self.modules.len()
    }

    pub fn get(&self, index: usize) -> (r: &SwcPluginModule)
        requires
            index < self@.len(),
        ensures
            (r.name(), r.bytes()) == self@[index as int],
    {
        &self.modules[index]
    }

    /// The index of the module for `plugin_name` and `plugin_bytes`,
    /// compiling it only where no module for that key is cached yet.
    pub fn compile_or_get(&mut self, plugin_name: &str, plugin_bytes: Vec<u8>) -> (r: usize)
        requires
            old(self).wf(),
        ensures
            final(self).wf(),
            final(self)@ == lookup_keys(old(self)@, (plugin_name@, plugin_bytes@)),
            r < final(self)@.len(),
            final(self)@[r as int] == (plugin_name@, plugin_bytes@),
    {
        let ghost key = (plugin_name@, plugin_bytes@);
        let name = plugin_name.to_owned();
        let mut i: usize = 0;
        while i < self.modules.len()
            invariant
                i <= self.modules.len(),
                self.wf(),
                self@ == old(self)@,
                key == (name@, plugin_bytes@),
                name@ == plugin_name@,
                forall|j: int| 0 <= j < i ==> self@[j] != key,
            decreases self.modules.len() - i,
        {
            let m = &self.modules[i];
            if m.name == name && bytes_equal(&m.bytes, &plugin_bytes) {
                assert(self@[i as int] == key);
                assert(self@.contains(key));
                return i;
            }
            i = i + 1;
        }
        let ghost before = self@;
        assert(!before.contains(key));
        self.modules.push(SwcPluginModule { name, bytes: plugin_bytes });
        assert(self@ =~= before.push(key));
        i
    }
}

/// Compile-once: however many times one key is looked up, from any cache,
/// the cache ends as after the first lookup; from an empty cache exactly one
/// module has been compiled.
pub proof fn lemma_repeated_lookup_compiles_once(keys: Seq<ModuleKey>, key: ModuleKey, n: nat)
    requires
        n >= 1,
    ensures
        lookup_repeated(keys, key, n) == lookup_keys(keys, key),
        keys.len() == 0 ==> lookup_repeated(keys, key, n).len() == 1,
    decreases n,
{
    let once = lookup_keys(keys, key);
    if n > 1 {
        lemma_repeated_lookup_compiles_once(keys, key, (n - 1) as nat);
        assert(once.contains(key)) by {
            if !keys.contains(key) {
                assert(once[keys.len() as int] == key);
            }
        }
        assert(lookup_repeated(keys, key, n) == lookup_keys(once, key));
    } else {
        assert(lookup_repeated(keys, key, 0) == keys);
    }
    if keys.len() == 0 {
        assert(!keys.contains(key));
    }
}

} // verus!
