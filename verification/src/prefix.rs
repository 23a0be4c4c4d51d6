use vstd::prelude::*;

use crate::text::{chars_of, contains, has_infix, join_path, join_path_exec, string_from};

verus! {

/// A Wine prefix that the launcher manages.
#[derive(Debug, Clone)]
pub struct WinePrefix {
    pub name: String,
    pub path: String,
    /// `win32` or `win64`.
    pub architecture: String,
    /// `Ready`, `Booting...`, `Not Initialized`, or an error text.
    pub status: String,
}

/// The prefixes listed in the launcher's older prefix file.
#[derive(Debug, Clone)]
pub struct PrefixConfig {
    pub prefixes: Vec<WinePrefix>,
}

/// The status of a prefix, from whether its `user.reg` registry file exists.
pub open spec fn prefix_status_text(initialized: bool) -> Seq<char> {
    if initialized {
        "Ready"@
    } else {
        "Not Initialized"@
    }
}

/// The status of a prefix, from whether its `user.reg` registry file exists.
pub fn prefix_status(initialized: bool) -> (r: String)
    ensures
        r@ == prefix_status_text(initialized),
{
    if initialized {
        string_from("Ready")
    } else {
        string_from("Not Initialized")
    }
}

impl PrefixConfig {
    /// Where the older prefix file lies, under the home directory `home`.
    pub fn get_config_path(home: &str) -> (r: String)
        ensures
            r@ == join_path(home@, ".config/lgui/prefixes.toml"@),
    {
        join_path_exec(home, ".config/lgui/prefixes.toml")
    }

    /// Sets the status of each prefix from whether its registry file exists
    /// (`initialized[i]` for the `i`-th prefix).
    pub fn apply_registry_presence(&mut self, initialized: &Vec<bool>)
        requires
            initialized@.len() == old(self).prefixes@.len(),
        ensures
            final(self).prefixes@.len() == old(self).prefixes@.len(),
            forall|i: int|
                0 <= i < old(self).prefixes@.len() ==> {
                    let p = #[trigger] final(self).prefixes@[i];
                    let q = old(self).prefixes@[i];
                    &&& p.name == q.name
                    &&& p.path == q.path
                    &&& p.architecture == q.architecture
                    &&& p.status@ == prefix_status_text(initialized@[i])
                },
    {
        let n = self.prefixes.len();
        let mut i: usize = 0;
        while i < n
            invariant
                n == old(self).prefixes@.len(),
                n == initialized@.len(),
                i <= n,
                self.prefixes@.len() == n,
                forall|k: int|
                    0 <= k < n ==> {
                        let p = #[trigger] self.prefixes@[k];
                        let q = old(self).prefixes@[k];
                        &&& p.name == q.name
                        &&& p.path == q.path
                        &&& p.architecture == q.architecture
                        &&& k < i ==> p.status@ == prefix_status_text(initialized@[k])
                        &&& k >= i ==> p.status == q.status
                    },
            decreases n - i,
        {
            let mut p = self.prefixes.remove(i);
            p.status = prefix_status(initialized[i]);
            self.prefixes.insert(i, p);
            i = i + 1;
        }
    }
}

/// The arguments that make a runner create or update a prefix
/// (`wine boot -u`; through `run wine` for a Proton runner, whose path
/// contains `proton`).
pub open spec fn boot_args_spec(runner_path: Seq<char>) -> Seq<Seq<char>> {
    if has_infix(runner_path, "proton"@) {
        seq!["run"@, "wine"@, "boot"@, "-u"@]
    } else {
        seq!["boot"@, "-u"@]
    }
}

/// The arguments that make a runner create or update a prefix.
pub fn boot_args(runner_path: &str) -> (r: Vec<String>)
    ensures
        crate::game::strs_view(r@) == boot_args_spec(runner_path@),
{
    let cs = chars_of(runner_path);
    let mut r: Vec<String> = Vec::new();
    if contains(&cs, "proton") {
        r.push(string_from("run"));
        r.push(string_from("wine"));
    }
    r.push(string_from("boot"));
    r.push(string_from("-u"));
    assert(crate::game::strs_view(r@) =~= boot_args_spec(runner_path@));
    r
}

/// Where a new prefix of the given name is created, under the home
/// directory `home`.
pub fn prefix_path_for(home: &str, name: &str) -> (r: String)
    ensures
        r@ == join_path(join_path(home@, ".local/share/lgtui/prefixes"@), name@),
{
    let d = join_path_exec(home, ".local/share/lgtui/prefixes");
    join_path_exec(d.as_str(), name)
}

} // verus!
