//! Configuration profiles: which names are allowed, where a profile lives,
//! and a short-lived cache of which profiles exist; plus the settings held
//! for the session (the master password and the chosen page size).
use vstd::prelude::*;
use crate::config::AppConfig;
use vstd::string::StrSliceExecFns;
use crate::text::{
    contains, is_alphanumeric, owned, sort_texts, spec_is_alphanumeric,
    str_contains, str_eq, text_order,
};

verus! {

// ---------------------------------------------------------------------------
// Profile names
// ---------------------------------------------------------------------------

/// A character allowed in a profile name.
pub open spec fn profile_name_char(c: char) -> bool {
    spec_is_alphanumeric(c) || c == '-' || c == '_'
}

/// What [`validate_profile_name`] decides, with the reason for a refusal.
/// Path traversal is tested before the character set.
pub open spec fn profile_name_outcome(name: Seq<char>) -> Result<(), Seq<char>> {
    if name.len() == 0 {
        Err("Profile name cannot be empty"@)
    } else if name.len() > 64 {
        Err("Profile name cannot be longer than 64 characters"@)
    } else if contains(name, ".."@) || contains(name, "/"@) || contains(name, "\\"@) {
        Err("Profile name cannot contain path separators or traversal sequences"@)
    } else if name == "."@ || name == ".."@ {
        Err("Profile name cannot be '.' or '..'"@)
    } else if !(forall|i: int| 0 <= i < name.len() ==> profile_name_char(#[trigger] name[i])) {
        Err("Profile name can only contain letters, numbers, dashes, and underscores"@)
    } else {
        Ok(())
    }
}

/// The view of a result with a text error.
pub open spec fn text_result(r: Result<(), String>) -> Result<(), Seq<char>> {
    match r {
        Ok(()) => Ok(()),
        Err(e) => Err(e@),
    }
}

/// Checks a profile name: not empty, at most 64 characters, no path separator or
/// `..`, not `.` or `..`, and only letters, digits, dashes and underscores.
pub fn validate_profile_name(name: &str) -> (r: Result<(), String>)
    ensures
        text_result(r) == profile_name_outcome(name@),
{
    if name.is_empty() {
        return Err(owned("Profile name cannot be empty"));
    }
    if name.unicode_len() > 64 {
        return Err(owned("Profile name cannot be longer than 64 characters"));
    }
    if str_contains(name, "..") || str_contains(name, "/") || str_contains(name, "\\") {
        return Err(owned("Profile name cannot contain path separators or traversal sequences"));
    }
    if str_eq(name, ".") || str_eq(name, "..") {
        return Err(owned("Profile name cannot be '.' or '..'"));
    }
    let ghost mut k: int = 0;
    for c in iter: name.chars()
        invariant
            iter.seq() == name@,
            k == iter.index(),
            name@.len() > 0,
            name@.len() <= 64,
            !(contains(name@, ".."@) || contains(name@, "/"@) || contains(name@, "\\"@)),
            !(name@ == "."@ || name@ == ".."@),
            forall|i: int| 0 <= i < k ==> profile_name_char(#[trigger] name@[i]),
    {
        proof {
            assert(c == name@[k]);
        }
        if !(is_alphanumeric(c) || c == '-' || c == '_') {
            return Err(
                owned("Profile name can only contain letters, numbers, dashes, and underscores"),
            );
        }
        proof {
            k = k + 1;
        }
    }
    Ok(())
}

/// A name the validation accepts is safe as a directory name: not empty, at
/// most 64 characters, without a path separator or `..`, and made of letters,
/// digits, dashes and underscores only.
pub proof fn lemma_accepted_name_is_safe(name: Seq<char>)
    requires
        profile_name_outcome(name) is Ok,
    ensures
        name.len() > 0,
        name.len() <= 64,
        !contains(name, "/"@),
        !contains(name, "\\"@),
        !contains(name, ".."@),
        forall|i: int| 0 <= i < name.len() ==> profile_name_char(#[trigger] name[i]),
        forall|i: int|
            0 <= i < name.len() ==> spec_is_alphanumeric(#[trigger] name[i]) || name[i] == '-'
                || name[i] == '_',
{
}

/// A name is refused for the first rule it breaks, tested in this order: an
/// empty name, a name longer than 64 characters, a name with a path
/// separator or `..`, and a character other than a letter, digit, dash or
/// underscore; a name that breaks none is accepted.
pub proof fn lemma_refused_names(name: Seq<char>)
    ensures
        name.len() == 0 ==> profile_name_outcome(name) == Err::<(), Seq<char>>(
            "Profile name cannot be empty"@,
        ),
        name.len() > 64 ==> profile_name_outcome(name) == Err::<(), Seq<char>>(
            "Profile name cannot be longer than 64 characters"@,
        ),
        (1 <= name.len() <= 64 && (contains(name, "/"@) || contains(name, "\\"@) || contains(
            name,
            ".."@,
        ))) ==> profile_name_outcome(name) == Err::<(), Seq<char>>(
            "Profile name cannot contain path separators or traversal sequences"@,
        ),
        (1 <= name.len() <= 64 && !contains(name, "/"@) && !contains(name, "\\"@) && !contains(
            name,
            ".."@,
        ) && name != "."@ && name != ".."@ && (forall|i: int|
            0 <= i < name.len() ==> spec_is_alphanumeric(#[trigger] name[i]) || name[i] == '-'
                || name[i] == '_')) ==> profile_name_outcome(name) is Ok,
        (1 <= name.len() <= 64 && !contains(name, "/"@) && !contains(name, "\\"@) && !contains(
            name,
            ".."@,
        ) && name != "."@ && name != ".."@ && exists|i: int|
            0 <= i < name.len() && !(spec_is_alphanumeric(#[trigger] name[i]) || name[i] == '-'
                || name[i] == '_')) ==> profile_name_outcome(name) == Err::<(), Seq<char>>(
            "Profile name can only contain letters, numbers, dashes, and underscores"@,
        ),
{
}

/// The path a file-system join of `base` and `component` gives.
pub uninterp spec fn path_join(base: Seq<char>, component: Seq<char>) -> Seq<char>;

/// `Path::join` of std on text paths: `component` appended to `base` with a
/// separator, as the platform joins paths. The joining rules are std's and
/// are given a name here, not restated.
#[verifier::external_body]
pub(crate) fn join_path(base: &str, component: &str) -> (r: String)
    ensures
        r@ == path_join(base@, component@),
{
    std::path::Path::new(base).join(component).to_string_lossy().into_owned()
}

/// The directory of a valid profile: `profiles/<name>` under the
/// configuration directory. A refused name is reported first; a missing
/// configuration directory after.
pub fn safe_profile_path(config_dir: Result<String, String>, profile_name: &str) -> (r: Result<String, String>)
    ensures
        profile_name_outcome(profile_name@) matches Err(e) ==> r matches Err(m) && m@ == e,
        profile_name_outcome(profile_name@) is Ok ==> match config_dir {
            Err(e) => r matches Err(m) && m@ == "Failed to determine config directory: "@ + e@,
            Ok(dir) => r matches Ok(p) && p@ == path_join(path_join(dir@, "profiles"@), profile_name@),
        },
{
    match validate_profile_name(profile_name) {
        Err(e) => Err(e),
        Ok(()) => match config_dir {
            Err(e) => {
                let mut m = owned("Failed to determine config directory: ");
                m.append(e.as_str());
                Err(m)
            },
            Ok(dir) => {
                let profiles = join_path(dir.as_str(), "profiles");
                Ok(join_path(profiles.as_str(), profile_name))
            },
        },
    }
}

// ---------------------------------------------------------------------------
// Profile cache
// ---------------------------------------------------------------------------

/// Whether a profile exists, as last seen, and when.
#[derive(Debug, Clone)]
pub struct ProfileInfo {
    pub name: String,
    pub exists: bool,
    /// When it was seen, in milliseconds since the Unix epoch.
    pub last_checked_ms: u64,
}

/// Remembers for a while which profiles exist and the list of profiles.
pub struct ProfileCache {
    pub profiles: Vec<ProfileInfo>,
    pub cached_list: Option<(Vec<String>, u64)>,
    /// How long an entry holds, in milliseconds.
    pub cache_ttl_ms: u64,
}

/// An entry seen at `last_checked` still holds at `now`.
pub open spec fn still_valid(last_checked: u64, now: u64, ttl: u64) -> bool {
    now >= last_checked && now - last_checked < ttl
}

/// The answer for `name` from the entries `m` at time `now`.
pub open spec fn cached_exists(m: Map<Seq<char>, (bool, u64)>, name: Seq<char>, now: u64, ttl: u64) -> Option<bool> {
    if m.contains_key(name) && still_valid(m[name].1, now, ttl) {
        Some(m[name].0)
    } else {
        None
    }
}

/// The cached list `l` as it answers at time `now`.
pub open spec fn list_at(l: Option<(Seq<Seq<char>>, u64)>, now: u64, ttl: u64) -> Option<Seq<Seq<char>>> {
    match l {
        Some((names, t)) => if still_valid(t, now, ttl) {
            Some(names)
        } else {
            None
        },
        None => None,
    }
}

/// The texts of an optional list of strings.
pub open spec fn opt_string_views(r: Option<Vec<String>>) -> Option<Seq<Seq<char>>> {
    match r {
        Some(v) => Some(crate::messages::string_views(v@)),
        None => None,
    }
}

/// The current time in milliseconds since the Unix epoch (`SystemTime::now`);
/// zero for a clock set before the epoch. Nothing is promised of the value:
/// it is the machine's clock.
#[verifier::external_body]
fn now_millis() -> (r: u64) {
    match std::time::SystemTime::now().duration_since(std::time::UNIX_EPOCH) {
        Ok(d) => d.as_millis() as u64,
        Err(_) => 0,
    }
}

impl ProfileCache {
    /// The entries by profile name: existence and when it was seen.
    pub closed spec fn entries(self) -> Map<Seq<char>, (bool, u64)> {
        Map::new(
            |name: Seq<char>| exists|i: int| 0 <= i < self.profiles@.len() && #[trigger] self.profiles@[i].name@ == name,
            |name: Seq<char>| {
                let i = choose|i: int| 0 <= i < self.profiles@.len() && #[trigger] self.profiles@[i].name@ == name;
                (self.profiles@[i].exists, self.profiles@[i].last_checked_ms)
            },
        )
    }

    /// No profile has two entries.
    pub closed spec fn wf(self) -> bool {
        forall|i: int, j: int|
            0 <= i < j < self.profiles@.len() ==> #[trigger] self.profiles@[i].name@ != #[trigger] self.profiles@[j].name@
    }

    /// The list and when it was taken, if any.
    pub open spec fn list(self) -> Option<(Seq<Seq<char>>, u64)> {
        match self.cached_list {
            Some((l, t)) => Some((crate::messages::string_views(l@), t)),
            None => None,
        }
    }

    /// An empty cache whose entries hold 30 seconds.
    pub fn new() -> (r: Self)
        ensures
            r.wf(),
            r.entries() == Map::<Seq<char>, (bool, u64)>::empty(),
            r.list() is None,
            r.cache_ttl_ms == 30000,
    {
        let r = ProfileCache { profiles: Vec::new(), cached_list: None, cache_ttl_ms: 30000 };
        proof {
            assert(r.entries() =~= Map::<Seq<char>, (bool, u64)>::empty());
        }
        r
    }

    /// Whether an entry seen at `last_checked` still holds at `now`.
    pub fn is_cached_valid_at(&self, last_checked: u64, now: u64) -> (r: bool)
        ensures
            r == still_valid(last_checked, now, self.cache_ttl_ms),
    {
        now >= last_checked && now - last_checked < self.cache_ttl_ms
    }

    /// The index of the entry for `name`, if any.
    fn find(&self, name: &str) -> (r: Option<usize>)
        requires
            self.wf(),
        ensures
            r matches Some(i) ==> i < self.profiles.len() && self.profiles@[i as int].name@ == name@,
            r is None ==> !self.entries().contains_key(name@),
            r matches Some(i) ==> self.entries().contains_key(name@) && self.entries()[name@] == (
                self.profiles@[i as int].exists,
                self.profiles@[i as int].last_checked_ms,
            ),
    {
        let mut i: usize = 0;
        while i < self.profiles.len()
            invariant
                i <= self.profiles.len(),
                self.wf(),
                forall|j: int| 0 <= j < i ==> #[trigger] self.profiles@[j].name@ != name@,
            decreases self.profiles.len() - i,
        {
            if str_eq(self.profiles[i].name.as_str(), name) {
                proof {
                    assert(0 <= i < self.profiles@.len() && self.profiles@[i as int].name@ == name@);
                    let k = choose|k: int| 0 <= k < self.profiles@.len() && #[trigger] self.profiles@[k].name@ == name@;
                    if k != i {
                        if k < i {
                            assert(self.profiles@[k].name@ != self.profiles@[i as int].name@);
                        } else {
                            assert(self.profiles@[i as int].name@ != self.profiles@[k].name@);
                        }
                    }
                }
                return Some(i);
            }
            i = i + 1;
        }
        None
    }

    /// Whether `name` exists, where the cache saw it less than the TTL
    /// before `now`.
    pub fn get_profile_exists_at(&self, profile_name: &str, now: u64) -> (r: Option<bool>)
        requires
            self.wf(),
        ensures
            r == cached_exists(self.entries(), profile_name@, now, self.cache_ttl_ms),
    {
        match self.find(profile_name) {
            Some(i) => {
                if self.is_cached_valid_at(self.profiles[i].last_checked_ms, now) {
                    Some(self.profiles[i].exists)
                } else {
                    None
                }
            },
            None => None,
        }
    }

    /// Records at `now` whether `name` exists, replacing any earlier entry.
    pub fn cache_profile_exists_at(&mut self, profile_name: &str, exists: bool, now: u64)
        requires
            old(self).wf(),
        ensures
            final(self).wf(),
            final(self).entries() == old(self).entries().insert(profile_name@, (exists, now)),
            final(self).cached_list == old(self).cached_list,
            final(self).cache_ttl_ms == old(self).cache_ttl_ms,
    {
        let info = ProfileInfo { name: owned(profile_name), exists, last_checked_ms: now };
        match self.find(profile_name) {
            Some(i) => {
                self.profiles.set(i, info);
                proof {
                    assert forall|n: Seq<char>| #[trigger] self.entries().contains_key(n) == old(self).entries().insert(profile_name@, (exists, now)).contains_key(n) by {
                        if n != profile_name@ {
                            if old(self).entries().contains_key(n) {
                                let k = choose|k: int| 0 <= k < old(self).profiles@.len() && #[trigger] old(self).profiles@[k].name@ == n;
                                assert(self.profiles@[k].name@ == n);
                            }
                            if self.entries().contains_key(n) {
                                let k = choose|k: int| 0 <= k < self.profiles@.len() && #[trigger] self.profiles@[k].name@ == n;
                                assert(old(self).profiles@[k].name@ == n);
                            }
                        } else {
                            assert(self.profiles@[i as int].name@ == n);
                        }
                    }
                    assert forall|n: Seq<char>| #[trigger] self.entries().contains_key(n) implies self.entries()[n] == old(self).entries().insert(profile_name@, (exists, now))[n] by {
                        let k = choose|k: int| 0 <= k < self.profiles@.len() && #[trigger] self.profiles@[k].name@ == n;
                        if n == profile_name@ {
                            if k != i {
                                if k < i {
                                    assert(old(self).profiles@[k].name@ != old(self).profiles@[i as int].name@);
                                } else {
                                    assert(old(self).profiles@[i as int].name@ != old(self).profiles@[k].name@);
                                }
                            }
                        } else {
                            assert(old(self).profiles@[k].name@ == n);
                            let k2 = choose|k2: int| 0 <= k2 < old(self).profiles@.len() && #[trigger] old(self).profiles@[k2].name@ == n;
                            if k2 != k {
                                if k2 < k {
                                    assert(old(self).profiles@[k2].name@ != old(self).profiles@[k].name@);
                                } else {
                                    assert(old(self).profiles@[k].name@ != old(self).profiles@[k2].name@);
                                }
                            }
                        }
                    }
                    assert(self.entries() =~= old(self).entries().insert(profile_name@, (exists, now)));
                }
            },
            None => {
                self.profiles.push(info);
                proof {
                    let len = old(self).profiles@.len() as int;
                    assert(self.profiles@[len].name@ == profile_name@);
                    assert forall|n: Seq<char>| #[trigger] self.entries().contains_key(n) == old(self).entries().insert(profile_name@, (exists, now)).contains_key(n) by {
                        if old(self).entries().contains_key(n) {
                            let k = choose|k: int| 0 <= k < old(self).profiles@.len() && #[trigger] old(self).profiles@[k].name@ == n;
                            assert(self.profiles@[k].name@ == n);
                        }
                        if self.entries().contains_key(n) && n != profile_name@ {
                            let k = choose|k: int| 0 <= k < self.profiles@.len() && #[trigger] self.profiles@[k].name@ == n;
                            assert(k < len);
                            assert(old(self).profiles@[k].name@ == n);
                        }
                    }
                    assert forall|n: Seq<char>| #[trigger] self.entries().contains_key(n) implies self.entries()[n] == old(self).entries().insert(profile_name@, (exists, now))[n] by {
                        let k = choose|k: int| 0 <= k < self.profiles@.len() && #[trigger] self.profiles@[k].name@ == n;
                        if n == profile_name@ {
                            if k < len {
                                assert(old(self).profiles@[k].name@ == n);
                            }
                        } else {
                            assert(k < len);
                            assert(old(self).profiles@[k].name@ == n);
                            let k2 = choose|k2: int| 0 <= k2 < old(self).profiles@.len() && #[trigger] old(self).profiles@[k2].name@ == n;
                            if k2 != k {
                                if k2 < k {
                                    assert(old(self).profiles@[k2].name@ != old(self).profiles@[k].name@);
                                } else {
                                    assert(old(self).profiles@[k].name@ != old(self).profiles@[k2].name@);
                                }
                            }
                        }
                    }
                    assert(self.entries() =~= old(self).entries().insert(profile_name@, (exists, now)));
                }
            },
        }
    }

    /// The list of profiles, where it was taken less than the TTL before
    /// `now`.
    pub fn get_cached_profile_list_at(&self, now: u64) -> (r: Option<Vec<String>>)
        ensures
            match self.list() {
                Some((l, t)) => if still_valid(t, now, self.cache_ttl_ms) {
                    r matches Some(v) && crate::messages::string_views(v@) == l
                } else {
                    r is None
                },
                None => r is None,
            },
    {
        match &self.cached_list {
            Some((list, last_checked)) => {
                if self.is_cached_valid_at(*last_checked, now) {
                    let mut copy: Vec<String> = Vec::new();
                    let mut i: usize = 0;
                    while i < list.len()
                        invariant
                            i <= list.len(),
                            copy@ == list@.take(i as int),
                        decreases list.len() - i,
                    {
                        copy.push(list[i].clone());
                        proof {
                            assert(copy@ =~= list@.take(i + 1));
                        }
                        i = i + 1;
                    }
                    proof {
                        assert(list@.take(list.len() as int) =~= list@);
                    }
                    Some(copy)
                } else {
                    None
                }
            },
            None => None,
        }
    }

    /// Records the list of profiles at `now`.
    pub fn cache_profile_list_at(&mut self, profiles: Vec<String>, now: u64)
        requires
            old(self).wf(),
        ensures
            final(self).wf(),
            final(self).list() == Some((crate::messages::string_views(profiles@), now)),
            final(self).entries() == old(self).entries(),
            final(self).cache_ttl_ms == old(self).cache_ttl_ms,
    {
        self.cached_list = Some((profiles, now));
    }

    /// Forgets every entry and the list.
    pub fn invalidate(&mut self)
        ensures
            final(self).wf(),
            final(self).entries() == Map::<Seq<char>, (bool, u64)>::empty(),
            final(self).list() is None,
            final(self).cache_ttl_ms == old(self).cache_ttl_ms,
    {
        self.profiles = Vec::new();
        self.cached_list = None;
        proof {
            assert(self.entries() =~= Map::<Seq<char>, (bool, u64)>::empty());
        }
    }

    /// Whether `name` exists, as seen less than the TTL ago by the machine's
    /// clock: the cache's answer at the instant the clock reads. Nothing is
    /// known of that reading, so an entry may have expired by then.
    pub fn get_profile_exists(&self, profile_name: &str) -> (r: Option<bool>)
        requires
            self.wf(),
        ensures
            r is Some ==> self.entries().contains_key(profile_name@) && r == Some(
                self.entries()[profile_name@].0,
            ),
            exists|t: u64| r == #[trigger] cached_exists(self.entries(), profile_name@, t, self.cache_ttl_ms),
    {
        let now = now_millis();
        self.get_profile_exists_at(profile_name, now)
    }

    /// Records, by the machine's clock, whether `name` exists.
    pub fn cache_profile_exists(&mut self, profile_name: &str, exists: bool)
        requires
            old(self).wf(),
        ensures
            final(self).wf(),
            final(self).entries().contains_key(profile_name@),
            final(self).entries()[profile_name@].0 == exists,
            forall|n: Seq<char>| n != profile_name@ ==> #[trigger] final(self).entries().contains_key(n) == old(self).entries().contains_key(n) && (old(self).entries().contains_key(n) ==> final(self).entries()[n] == old(self).entries()[n]),
            final(self).cached_list == old(self).cached_list,
            final(self).cache_ttl_ms == old(self).cache_ttl_ms,
    {
        let now = now_millis();
        self.cache_profile_exists_at(profile_name, exists, now);
    }

    /// The list of profiles, where it was taken less than the TTL ago by the
    /// machine's clock: the cache's answer at the instant the clock reads.
    pub fn get_cached_profile_list(&self) -> (r: Option<Vec<String>>)
        ensures
            r matches Some(v) ==> self.list() matches Some((l, t)) && crate::messages::string_views(v@) == l,
            exists|t: u64| opt_string_views(r) == #[trigger] list_at(self.list(), t, self.cache_ttl_ms),
    {
        let now = now_millis();
        let r = self.get_cached_profile_list_at(now);
        assert(opt_string_views(r) == list_at(self.list(), now, self.cache_ttl_ms));
        r
    }

    /// Records the list of profiles by the machine's clock.
    pub fn cache_profile_list(&mut self, profiles: Vec<String>)
        requires
            old(self).wf(),
        ensures
            final(self).wf(),
            final(self).list() matches Some((l, t)) && l == crate::messages::string_views(profiles@),
            final(self).entries() == old(self).entries(),
            final(self).cache_ttl_ms == old(self).cache_ttl_ms,
    {
        let now = now_millis();
        self.cache_profile_list_at(profiles, now);
    }
}

/// Whether a profile exists: the cached answer while it holds at `now`,
/// otherwise what the file system shows (`on_disk`: a valid name whose
/// directory holds a `.env` file), which is then cached.
pub fn profile_exists(cache: &mut ProfileCache, profile_name: &str, now: u64, on_disk: bool) -> (r: bool)
    requires
        old(cache).wf(),
    ensures
        final(cache).wf(),
        match cached_exists(old(cache).entries(), profile_name@, now, old(cache).cache_ttl_ms) {
            Some(b) => r == b && *final(cache) == *old(cache),
            None => r == on_disk && final(cache).entries() == old(cache).entries().insert(
                profile_name@,
                (on_disk, now),
            ),
        },
{
    match cache.get_profile_exists_at(profile_name, now) {
        Some(cached_result) => cached_result,
        None => {
            cache.cache_profile_exists_at(profile_name, on_disk, now);
            on_disk
        },
    }
}

/// What a scan of the profiles directory found: an entry's name (entries
/// whose name is not text are left out), whether it is a directory and
/// whether it holds a `.env` file.
#[derive(Debug, Clone)]
pub struct ProfileDirEntry {
    pub name: String,
    pub is_dir: bool,
    pub has_env: bool,
}

/// The entry is a profile: a directory with a valid name and a `.env` file.
pub open spec fn is_profile_entry(e: ProfileDirEntry) -> bool {
    e.is_dir && profile_name_outcome(e.name@) is Ok && e.has_env
}

/// The names of the profiles among `entries`, in the order found.
pub open spec fn profile_names(entries: Seq<ProfileDirEntry>) -> Seq<Seq<char>>
    decreases entries.len(),
{
    if entries.len() == 0 {
        Seq::empty()
    } else {
        let rest = profile_names(entries.drop_last());
        if is_profile_entry(entries.last()) {
            rest.push(entries.last().name@)
        } else {
            rest
        }
    }
}

/// The profiles among the scanned entries, sorted by name.
pub fn profiles_from_entries(entries: &Vec<ProfileDirEntry>) -> (r: Vec<String>)
    ensures
        crate::messages::string_views(r@) == profile_names(entries@).sort_by(text_order()),
{
    let mut names: Vec<String> = Vec::new();
    let mut i: usize = 0;
    while i < entries.len()
        invariant
            i <= entries.len(),
            crate::messages::string_views(names@) == profile_names(entries@.take(i as int)),
        decreases entries.len() - i,
    {
        let e = &entries[i];
        proof {
            assert(entries@.take(i + 1).drop_last() =~= entries@.take(i as int));
            assert(entries@.take(i + 1).last() == entries@[i as int]);
        }
        if e.is_dir && e.has_env && validate_profile_name(e.name.as_str()).is_ok() {
            let ghost before = names@;
            names.push(e.name.clone());
            proof {
                assert(crate::messages::string_views(names@) =~= crate::messages::string_views(
                    before,
                ).push(e.name@));
            }
        }
        i = i + 1;
    }
    proof {
        assert(entries@.take(entries.len() as int) =~= entries@);
    }
    sort_texts(names)
}

/// The profiles available: the cached list while it holds at `now`,
/// otherwise the profiles among the scanned `entries`, sorted by name, which
/// are then cached.
pub fn list_available_profiles(cache: &mut ProfileCache, now: u64, entries: &Vec<ProfileDirEntry>) -> (r:
    Vec<String>)
    requires
        old(cache).wf(),
    ensures
        final(cache).wf(),
        final(cache).entries() == old(cache).entries(),
        final(cache).cache_ttl_ms == old(cache).cache_ttl_ms,
        match old(cache).list() {
            Some((l, t)) if still_valid(t, now, old(cache).cache_ttl_ms) => crate::messages::string_views(r@) == l
                && final(cache).list() == old(cache).list(),
            _ => crate::messages::string_views(r@) == profile_names(entries@).sort_by(text_order())
                && final(cache).list() == Some((crate::messages::string_views(r@), now)),
        },
{
    match cache.get_cached_profile_list_at(now) {
        Some(cached) => cached,
        None => {
            let profiles = profiles_from_entries(entries);
            let mut copy: Vec<String> = Vec::new();
            let mut i: usize = 0;
            while i < profiles.len()
                invariant
                    i <= profiles.len(),
                    copy@ == profiles@.take(i as int),
                decreases profiles.len() - i,
            {
                copy.push(profiles[i].clone());
                proof {
                    assert(copy@ =~= profiles@.take(i + 1));
                }
                i = i + 1;
            }
            proof {
                assert(profiles@.take(profiles.len() as int) =~= profiles@);
            }
            cache.cache_profile_list_at(copy, now);
            profiles
        },
    }
}

/// Where the configuration of a profile comes from, or why it cannot be
/// loaded.
#[derive(Debug, Clone, PartialEq)]
pub enum ProfileConfigSource {
    /// The profile's name, or its directory, was refused.
    LoadError(String),
    /// Load the profile: the `.env` file of its directory, and its
    /// `config.toml` where it has one (the embedded defaults otherwise).
    Load { env_file: String, config_file: Option<String> },
}

/// The list of profiles named in the error for a missing profile.
pub open spec fn available_profiles_text(available: Seq<Seq<char>>) -> Seq<char> {
    if available.len() == 0 {
        "No profiles found. Run 'quetty --setup' to create your first profile."@
    } else {
        "Available profiles: "@ + crate::text::join_with(available, ", "@)
    }
}

/// The error for a profile that does not exist.
pub open spec fn missing_profile_text(name: Seq<char>, available: Seq<Seq<char>>) -> Seq<char> {
    "Profile '"@ + name + "' does not exist.\n\n"@ + available_profiles_text(available)
        + "\n\nTo create a new profile, run: quetty -p "@ + name + " --setup"@
}

/// The source of a profile's configuration, given the configuration
/// directory, whether the profile exists (see [`profile_exists`]), the
/// profiles available (see [`list_available_profiles`]) and whether the
/// profile's directory holds a `config.toml`.
pub fn profile_config_source(
    profile_name: &str,
    config_dir: Result<String, String>,
    exists: bool,
    available: &Vec<String>,
    config_file_exists: bool,
) -> (r: ProfileConfigSource)
    ensures
        match profile_name_outcome(profile_name@) {
            Err(e) => r matches ProfileConfigSource::LoadError(m) && m@ == "Invalid profile name '"@
                + profile_name@ + "': "@ + e,
            Ok(()) => match config_dir {
                Err(e) => r matches ProfileConfigSource::LoadError(m) && m@ == "Invalid profile name '"@
                    + profile_name@ + "': "@ + "Failed to determine config directory: "@ + e@,
                Ok(dir) => {
                    let profile_dir = path_join(path_join(dir@, "profiles"@), profile_name@);
                    if !exists {
                        r matches ProfileConfigSource::LoadError(m) && m@ == missing_profile_text(
                            profile_name@,
                            crate::messages::string_views(available@),
                        )
                    } else {
                        r matches ProfileConfigSource::Load { env_file, config_file } && env_file@
                            == path_join(profile_dir, ".env"@) && match config_file {
                            Some(c) => config_file_exists && c@ == path_join(
                                profile_dir,
                                "config.toml"@,
                            ),
                            None => !config_file_exists,
                        }
                    }
                },
            },
        },
{
    let profile_dir = match safe_profile_path(config_dir, profile_name) {
        Ok(dir) => dir,
        Err(e) => {
            let mut m = owned("Invalid profile name '");
            m.append(profile_name);
            m.append("': ");
            m.append(e.as_str());
            return ProfileConfigSource::LoadError(m);
        },
    };
    if !exists {
        let mut m = owned("Profile '");
        m.append(profile_name);
        m.append("' does not exist.\n\n");
        if available.len() == 0 {
            m.append("No profiles found. Run 'quetty --setup' to create your first profile.");
        } else {
            m.append("Available profiles: ");
            let list = crate::text::join_strings(available, ", ");
            m.append(list.as_str());
        }
        m.append("\n\nTo create a new profile, run: quetty -p ");
        m.append(profile_name);
        m.append(" --setup");
        proof {
            assert(m@ =~= missing_profile_text(
                profile_name@,
                crate::messages::string_views(available@),
            ));
        }
        return ProfileConfigSource::LoadError(m);
    }
    let env_file = join_path(profile_dir.as_str(), ".env");
    let config_file = if config_file_exists {
        Some(join_path(profile_dir.as_str(), "config.toml"))
    } else {
        None
    };
    ProfileConfigSource::Load { env_file, config_file }
}

/// Forgets everything the profile cache holds.
pub fn invalidate_profile_cache(cache: &mut ProfileCache)
    ensures
        final(cache).wf(),
        final(cache).entries() == Map::<Seq<char>, (bool, u64)>::empty(),
        final(cache).list() is None,
        final(cache).cache_ttl_ms == old(cache).cache_ttl_ms,
{
    cache.invalidate();
}

/// A profile recorded as existing or not reads back the same until the
/// TTL has passed, whatever other profiles are recorded in between.
pub proof fn lemma_cache_reads_back(
    m: Map<Seq<char>, (bool, u64)>,
    name: Seq<char>,
    exists: bool,
    recorded_at: u64,
    now: u64,
    ttl: u64,
    other: Seq<char>,
    other_entry: (bool, u64),
)
    requires
        recorded_at <= now,
        now - recorded_at < ttl,
        other != name,
    ensures
        cached_exists(m.insert(name, (exists, recorded_at)), name, now, ttl) == Some(exists),
        cached_exists(m.insert(name, (exists, recorded_at)).insert(other, other_entry), name, now, ttl)
            == Some(exists),
{
}

/// Once the TTL has passed since it was recorded, an entry no longer
/// answers.
pub proof fn lemma_cache_expires(
    m: Map<Seq<char>, (bool, u64)>,
    name: Seq<char>,
    exists: bool,
    recorded_at: u64,
    now: u64,
    ttl: u64,
)
    requires
        now >= recorded_at,
        now - recorded_at >= ttl,
    ensures
        cached_exists(m.insert(name, (exists, recorded_at)), name, now, ttl) is None,
{
}

// ---------------------------------------------------------------------------
// Session settings
// ---------------------------------------------------------------------------

/// The master password of the session, once given.
pub struct MasterPasswordStore {
    pub password: Option<String>,
}

impl MasterPasswordStore {
    /// No password yet.
    pub fn new() -> (r: Self)
        ensures
            r.password is None,
    {
        MasterPasswordStore { password: None }
    }

    /// Keeps `password` for the session.
    pub fn set_master_password(&mut self, password: String)
        ensures
            final(self).password == Some(password),
    {
        self.password = Some(password);
    }

    /// The password given, if any.
    pub fn get_master_password(&self) -> (r: Option<String>)
        ensures
            crate::validation_patterns::opt_view(r) == crate::validation_patterns::opt_view(self.password),
    {
        match &self.password {
            Some(p) => Some(p.clone()),
            None => None,
        }
    }

    /// Whether a password was given.
    pub fn is_master_password_set(&self) -> (r: bool)
        ensures
            r == self.password is Some,
    {
        self.password.is_some()
    }

    /// Forgets the password.
    pub fn clear_master_password(&mut self)
        ensures
            final(self).password is None,
    {
        self.password = None;
    }
}

/// The page size chosen during the session, if any.
pub struct PageSizeSetting {
    pub chosen: Option<u32>,
}

impl PageSizeSetting {
    /// Nothing chosen yet.
    pub fn new() -> (r: Self)
        ensures
            r.chosen is None,
    {
        PageSizeSetting { chosen: None }
    }

    /// The page size in effect: the one chosen, else the configured messages
    /// per page.
    pub fn get_current_page_size(&self, config: &AppConfig) -> (r: u32)
        ensures
            r == match self.chosen {
                Some(n) => n,
                None => config.max_messages(),
            },
    {
        crate::config::effective_page_size(self.chosen, config)
    }

    /// Chooses the page size for the rest of the session.
    pub fn set_current_page_size(&mut self, page_size: u32)
        ensures
            final(self).chosen == Some(page_size),
    {
        self.chosen = Some(page_size);
    }
}

} // verus!
