use vstd::prelude::*;
use std::collections::HashMap;

verus! {

/// A plugin as its `plugin.toml` describes it.
#[derive(Debug, PartialEq, Clone)]
pub struct Plugin {
    pub name: String,
    pub desc: String,
    pub version: String,
    pub categories: Vec<String>,
    pub git_repo: String,
    pub js_files: Vec<String>,
    pub css_files: Vec<String>,
}

/// Which plugins are switched off.
#[derive(Debug, PartialEq, Clone)]
pub struct PluginConfig {
    pub disabled_plugins: Vec<String>,
    pub allow_js: bool,
}

impl PluginConfig {
    pub fn default() -> (c: PluginConfig)
        ensures
            c.disabled_plugins@.len() == 0,
            !c.allow_js,
    {
        PluginConfig { disabled_plugins: Vec::new(), allow_js: false }
    }

    /// Switches the plugin `name` off: its name is added to the list.
    pub fn disable_plugin(&mut self, name: &str)
        ensures
            final(self).disabled_plugins@.len() == old(self).disabled_plugins@.len() + 1,
            final(self).disabled_plugins@.drop_last() == old(self).disabled_plugins@,
            final(self).disabled_plugins@.last()@ == name@,
            final(self).allow_js == old(self).allow_js,
    {
        self.disabled_plugins.push(name.to_owned());
        assert(self.disabled_plugins@.drop_last() =~= old(self).disabled_plugins@);
    }

    /// Switches the plugin `name` back on: every entry with that name goes,
    /// the others keep their order.
    pub fn enable_plugin(&mut self, name: &str)
        ensures
            final(self).disabled_plugins@ == old(self).disabled_plugins@.filter(|e: String| e@ != name@),
            final(self).allow_js == old(self).allow_js,
    {
        let n = name.to_owned();
        let mut kept: Vec<String> = Vec::new();
        let ghost all = self.disabled_plugins@;
        let mut i: usize = 0;
        while i < self.disabled_plugins.len()
            invariant
                i <= all.len(),
                self.disabled_plugins@ == all,
                n@ == name@,
                kept@ == all.take(i as int).filter(|e: String| e@ != name@),
            decreases all.len() - i,
        {
            assert(all.take(i + 1).drop_last() =~= all.take(i as int));
            if !(self.disabled_plugins[i] == n) {
                kept.push(self.disabled_plugins[i].clone());
            }
            assert(kept@ =~= all.take(i + 1).filter(|e: String| e@ != name@)) by {
                reveal_with_fuel(Seq::filter, 1);
            }
            i = i + 1;
        }
        assert(all.take(i as int) =~= all);
        self.disabled_plugins = kept;
    }
}

/// The plugins that can be installed (none are listed yet).
pub fn available_plugins() -> (m: HashMap<String, Plugin>)
    ensures
        m@ == Map::<String, Plugin>::empty(),
{
    HashMap::new()
}

} // verus!
