use vstd::prelude::*;

verus! {

/// The limit on query results that a fresh record holds.
pub const DEFAULT_LIMIT: u16 = 20;

/// The site that a fresh record names.
pub open spec fn default_site() -> Seq<char> {
    seq!['s', 't', 'a', 'c', 'k', 'o', 'v', 'e', 'r', 'f', 'l', 'o', 'w']
}

/// The configuration record kept on disk.
#[derive(Clone, Debug)]
pub struct Config {
    /// The credential for the question-and-answer service, once one is set.
    pub api_key: Option<String>,
    /// How many results a query asks for.
    pub limit: u16,
    /// Which site queries go to.
    pub site: String,
}

/// A copy of `key`.
fn copy_key(key: &Option<String>) -> (r: Option<String>)
    ensures
        r == *key,
{
    match key {
        Some(k) => Some(k.clone()),
        None => None,
    }
}

impl Config {
    /// Whether this record holds the values that a fresh record starts with.
    pub open spec fn is_default(&self) -> bool {
        &&& self.api_key is None
        &&& self.limit == DEFAULT_LIMIT
        &&& self.site@ == default_site()
    }

    /// A copy of this record, field for field.
    pub fn duplicate(&self) -> (r: Config)
        ensures
            r == *self,
    {
        Config { api_key: copy_key(&self.api_key), limit: self.limit, site: self.site.clone() }
    }
}

impl Default for Config {
    fn default() -> (r: Config)
        ensures
            r.is_default(),
    {
        let site = "stackoverflow".to_owned();
        proof {
            reveal_strlit("stackoverflow");
            assert(site@ =~= default_site());
        }
        Config { api_key: None, limit: DEFAULT_LIMIT, site }
    }
}

/// `cfg` with its key set to `key`.
pub open spec fn with_key(cfg: Config, key: String) -> Config {
    Config { api_key: Some(key), ..cfg }
}

/// The record that results from setting the key of `cfg` to `key`: the
/// previous key, if any, is replaced, and the other fields are kept.
pub fn set_api_key(cfg: Config, key: String) -> (r: Config)
    ensures
        r == with_key(cfg, key),
        r.api_key == Some(key),
        r.limit == cfg.limit,
        r.site == cfg.site,
{
    let mut cfg = cfg;
    cfg.api_key = Some(key);
    cfg
}

} // verus!
