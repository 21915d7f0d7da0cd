//! Where the application keeps its files, and its key-value store as it is
//! held in memory.

use vstd::prelude::*;
use crate::filesystem::{ends_with_text, join_path};
use crate::im::keyed::KeyedList;

verus! {

/// Credentials of the account service.
#[derive(Debug, Clone)]
pub struct TuptupConfig {
    pub api_key: Option<String>,
    pub api_secret: Option<String>,
    pub user_id: Option<String>,
}

impl Default for TuptupConfig {
    fn default() -> (c: TuptupConfig)
        ensures
            c.api_key is None,
            c.api_secret is None,
            c.user_id is None,
    {
        TuptupConfig { api_key: None, api_secret: None, user_id: None }
    }
}

/// What the store holds: one text under each key.
pub struct KvStoreData {
    data: KeyedList<String>,
}

impl View for KvStoreData {
    type V = Map<Seq<char>, Seq<char>>;

    closed spec fn view(&self) -> Map<Seq<char>, Seq<char>> {
        Map::new(|k: Seq<char>| self.data@.contains_key(k), |k: Seq<char>| self.data@[k]@)
    }
}

impl KvStoreData {
    /// Nothing stored.
    pub fn new() -> (d: KvStoreData)
        ensures
            d@ == Map::<Seq<char>, Seq<char>>::empty(),
    {
        let d = KvStoreData { data: KeyedList::new() };
        assert(d@ =~= Map::<Seq<char>, Seq<char>>::empty());
        d
    }
}

/// The key-value store. Writing it to disk is left to the caller: `set` and
/// `remove` change what is held in memory.
pub struct KvStore {
    data: KvStoreData,
}

impl View for KvStore {
    type V = Map<Seq<char>, Seq<char>>;

    closed spec fn view(&self) -> Map<Seq<char>, Seq<char>> {
        self.data@
    }
}

impl KvStore {
    /// A store that holds `data`.
    pub fn new(data: KvStoreData) -> (s: KvStore)
        ensures
            s@ == data@,
    {
        KvStore { data }
    }

    /// The text under `key`.
    pub fn get(&self, key: &str) -> (r: Option<String>)
        ensures
            match r {
                Some(v) => self@.contains_key(key@) && v@ == self@[key@],
                None => !self@.contains_key(key@),
            },
    {
        match self.data.data.get(key) {
            Some(v) => Some(v.clone()),
            None => None,
        }
    }

    /// Stores `value` under `key`.
    pub fn set(&mut self, key: &str, value: &str)
        ensures
            final(self)@ == old(self)@.insert(key@, value@),
    {
        self.data.data.insert(key, value.to_string());
        assert(self@ =~= old(self)@.insert(key@, value@));
    }

    /// Takes `key` and its text out of the store.
    pub fn remove(&mut self, key: &str)
        ensures
            final(self)@ == old(self)@.remove(key@),
    {
        self.data.data.remove(key);
        assert(self@ =~= old(self)@.remove(key@));
    }
}

/// The two directories of the application: one for its data, one for its
/// configuration. Finding and creating them is left to the caller.
#[derive(Debug, Clone)]
pub struct Storage {
    data_dir: String,
    config_dir: String,
}

impl Storage {
    /// The directory of the data.
    pub closed spec fn data_dir(&self) -> Seq<char> {
        self.data_dir@
    }

    /// The directory of the configuration.
    pub closed spec fn config_dir(&self) -> Seq<char> {
        self.config_dir@
    }

    /// A storage over the two directories.
    pub fn new(data_dir: String, config_dir: String) -> (s: Storage)
        ensures
            s.data_dir() == data_dir@,
            s.config_dir() == config_dir@,
    {
        Storage { data_dir, config_dir }
    }

    /// The file of the application's settings, under the configuration
    /// directory.
    pub fn get_app_config_path(&self) -> (path: String)
        ensures
            ends_with_text(path@, "config.json"@),
    {
        proof {
            reveal_strlit("config.json");
        }
        join_path(self.config_dir.as_str(), "config.json")
    }

    /// The file of the account service's credentials, under the
    /// configuration directory.
    pub fn get_tuptup_config_path(&self) -> (path: String)
        ensures
            ends_with_text(path@, "tuptup.json"@),
    {
        proof {
            reveal_strlit("tuptup.json");
        }
        join_path(self.config_dir.as_str(), "tuptup.json")
    }

    /// The directory of the skills, under the data directory.
    pub fn get_skills_dir(&self) -> (path: String)
        ensures
            ends_with_text(path@, "SKILLs"@),
    {
        proof {
            reveal_strlit("SKILLs");
        }
        join_path(self.data_dir.as_str(), "SKILLs")
    }

    /// The file that lists the skills, under the configuration directory.
    pub fn get_skills_config_path(&self) -> (path: String)
        ensures
            ends_with_text(path@, "skills.json"@),
    {
        proof {
            reveal_strlit("skills.json");
        }
        join_path(self.config_dir.as_str(), "skills.json")
    }

    /// The file of the key-value store, under the data directory.
    pub fn get_kv_store_path(&self) -> (path: String)
        ensures
            ends_with_text(path@, "kv_store.json"@),
    {
        proof {
            reveal_strlit("kv_store.json");
        }
        join_path(self.data_dir.as_str(), "kv_store.json")
    }

    /// The directory of the logs, under the data directory.
    pub fn get_logs_dir(&self) -> (path: String)
        ensures
            ends_with_text(path@, "logs"@),
    {
        proof {
            reveal_strlit("logs");
        }
        join_path(self.data_dir.as_str(), "logs")
    }
}

} // verus!
