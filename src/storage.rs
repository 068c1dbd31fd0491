use crate::text::same_text;
use vstd::prelude::*;

verus! {

/// Where an upload task is in its lifecycle.
#[derive(Clone, Debug)]
pub enum TaskState {
    /// `running`
    Running,
    /// `paused`
    Paused,
    /// `success`
    Success,
    /// `canceled`
    Canceled,
    /// `error`
    Error,
    /// A state name that none of the other variants stands for, as it was given.
    Other(String),
}

/// The state that a known state name stands for.
pub open spec fn task_state_of(name: Seq<char>) -> Option<TaskState> {
    if name == "running"@ {
        Some(TaskState::Running)
    } else if name == "paused"@ {
        Some(TaskState::Paused)
    } else if name == "success"@ {
        Some(TaskState::Success)
    } else if name == "canceled"@ {
        Some(TaskState::Canceled)
    } else if name == "error"@ {
        Some(TaskState::Error)
    } else {
        None
    }
}

impl TaskState {
    /// Whether this state stands for the state name `name`: the named state
    /// for a known name, else `Other` holding the name.
    pub open spec fn classifies(self, name: Seq<char>) -> bool {
        match task_state_of(name) {
            Some(k) => self == k,
            None => self matches TaskState::Other(s) && s@ == name,
        }
    }

    /// Reads a state name as the storage backend writes it.
    pub fn from_name(name: &str) -> (r: Self)
        ensures
            r.classifies(name@),
    {
        if same_text(name, "running") {
            TaskState::Running
        } else if same_text(name, "paused") {
            TaskState::Paused
        } else if same_text(name, "success") {
            TaskState::Success
        } else if same_text(name, "canceled") {
            TaskState::Canceled
        } else if same_text(name, "error") {
            TaskState::Error
        } else {
            TaskState::Other(name.to_owned())
        }
    }
}

/// One observation of an upload's progress.
#[derive(Clone, Debug)]
pub struct UploadSnapshot<H> {
    pub bytes_transferred: u64,
    pub total_bytes: u64,
    pub state: TaskState,
    /// The upload task that was observed; it is only looked at, never
    /// controlled, through this snapshot.
    pub task: H,
}

/// The map that a list of key-value pairs stands for; a later pair for a
/// key replaces an earlier one.
pub open spec fn entry_map(entries: Seq<(String, String)>) -> Map<Seq<char>, Seq<char>>
    decreases entries.len(),
{
    if entries.len() == 0 {
        Map::empty()
    } else {
        entry_map(entries.drop_last()).insert(entries.last().0@, entries.last().1@)
    }
}

/// No two pairs have the same key.
pub open spec fn keys_unique(entries: Seq<(String, String)>) -> bool {
    forall|i: int, j: int| 0 <= i < j < entries.len() ==> entries[i].0@ != entries[j].0@
}

proof fn lemma_entry_map_update(entries: Seq<(String, String)>, i: int, kv: (String, String))
    requires
        keys_unique(entries),
        0 <= i < entries.len(),
        entries[i].0@ == kv.0@,
    ensures
        entry_map(entries.update(i, kv)) == entry_map(entries).insert(kv.0@, kv.1@),
    decreases entries.len(),
{
    let upd = entries.update(i, kv);
    let n = entries.len() - 1;
    if i == n {
        assert(upd.drop_last() =~= entries.drop_last());
        assert(entry_map(upd) =~= entry_map(entries).insert(kv.0@, kv.1@));
    } else {
        assert(upd.drop_last() =~= entries.drop_last().update(i, kv));
        assert(upd.last() == entries.last());
        assert(entries.last().0@ != kv.0@);
        lemma_entry_map_update(entries.drop_last(), i, kv);
        assert(entry_map(upd) =~= entry_map(entries).insert(kv.0@, kv.1@));
    }
}

/// Custom key-value metadata of a file; a key holds one value.
///
/// The pairs are kept in a `Vec` with unique keys rather than a `HashMap`:
/// vstd states what `HashMap::insert` does only for key types it knows to
/// hash consistently, and `String` is not among them.
pub struct CustomMetadata {
    entries: Vec<(String, String)>,
}

impl CustomMetadata {
    #[verifier::type_invariant]
    spec fn keys_stay_unique(&self) -> bool {
        keys_unique(self.entries@)
    }
}

impl View for CustomMetadata {
    type V = Map<Seq<char>, Seq<char>>;

    closed spec fn view(&self) -> Map<Seq<char>, Seq<char>> {
        entry_map(self.entries@)
    }
}

impl CustomMetadata {
    /// No metadata.
    pub fn new() -> (r: Self)
        ensures
            r@ == Map::<Seq<char>, Seq<char>>::empty(),
    {
        CustomMetadata { entries: Vec::new() }
    }

    /// The pairs, each key once.
    pub fn entries(&self) -> (r: &Vec<(String, String)>)
        ensures
            keys_unique(r@),
            entry_map(r@) == self@,
    {
        proof {
            use_type_invariant(self);
        }
        &self.entries
    }

    /// Sets `key` to `value`, replacing the value it had.
    pub fn insert(self, key: String, value: String) -> (r: Self)
        ensures
            r@ == self@.insert(key@, value@),
    {
        proof {
            use_type_invariant(&self);
        }
        let mut entries = self.entries;
        let n = entries.len();
        let mut i: usize = 0;
        while i < n
            invariant
                n == entries@.len(),
                i <= n,
                forall|j: int| 0 <= j < i ==> entries@[j].0@ != key@,
                entries@ == self.entries@,
                keys_unique(entries@),
            decreases n - i,
        {
            if entries[i].0 == key {
                let ghost before = entries@;
                entries[i] = (key, value);
                proof {
                    lemma_entry_map_update(before, i as int, (key, value));
                    assert(keys_unique(entries@)) by {
                        assert forall|a: int, b: int| 0 <= a < b < entries@.len() implies entries@[a].0@
                            != entries@[b].0@ by {
                            assert(before[a].0@ != before[b].0@);
                        }
                    }
                }
                return CustomMetadata { entries };
            }
            i = i + 1;
        }
        let ghost before = entries@;
        entries.push((key, value));
        proof {
            assert(entries@.drop_last() =~= before);
        }
        CustomMetadata { entries }
    }
}

/// Metadata to attach to a file when it is uploaded.
pub struct UploadMetadataOptions {
    pub cache_control: Option<String>,
    pub content_disposition: Option<String>,
    pub content_encoding: Option<String>,
    pub content_language: Option<String>,
    pub content_type: Option<String>,
    pub custom_metadata: CustomMetadata,
    pub md5_hash: Option<String>,
}

impl UploadMetadataOptions {
    /// Options that set nothing.
    pub fn new() -> (r: Self)
        ensures
            r.cache_control is None,
            r.content_disposition is None,
            r.content_encoding is None,
            r.content_language is None,
            r.content_type is None,
            r.md5_hash is None,
            r.custom_metadata@ == Map::<Seq<char>, Seq<char>>::empty(),
    {
        UploadMetadataOptions {
            cache_control: None,
            content_disposition: None,
            content_encoding: None,
            content_language: None,
            content_type: None,
            custom_metadata: CustomMetadata::new(),
            md5_hash: None,
        }
    }

    /// Sets the custom metadata `key` to `value`, replacing the value it had.
    pub fn add_custom_metadata(self, key: String, value: String) -> (r: Self)
        ensures
            r.custom_metadata@ == self.custom_metadata@.insert(key@, value@),
            r.cache_control == self.cache_control,
            r.content_disposition == self.content_disposition,
            r.content_encoding == self.content_encoding,
            r.content_language == self.content_language,
            r.content_type == self.content_type,
            r.md5_hash == self.md5_hash,
    {
        UploadMetadataOptions {
            cache_control: self.cache_control,
            content_disposition: self.content_disposition,
            content_encoding: self.content_encoding,
            content_language: self.content_language,
            content_type: self.content_type,
            custom_metadata: self.custom_metadata.insert(key, value),
            md5_hash: self.md5_hash,
        }
    }
}

} // verus!
